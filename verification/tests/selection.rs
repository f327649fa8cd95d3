use mpdtui::selection::Selection;

#[test]
fn cyclic_next_returns_to_start() {
    // A full lap of next() over a queue of 5 lands on the start index.
    let mut sel = Selection::new(5);
    sel.select(2);
    for _ in 0..5 {
        sel.next();
    }
    assert_eq!(sel.selected(), Some(2));
}

#[test]
fn cyclic_next_from_every_start() {
    for start in 0..7usize {
        let mut sel = Selection::new(7);
        sel.select(start);
        for _ in 0..7 {
            sel.next();
        }
        assert_eq!(sel.selected(), Some(start));
    }
}

#[test]
fn previous_undoes_next() {
    let mut sel = Selection::new(4);
    sel.select(3);
    sel.next();
    sel.previous();
    assert_eq!(sel.selected(), Some(3));

    let mut sel = Selection::new(4);
    sel.select(0);
    sel.next();
    assert_eq!(sel.selected(), Some(1));
    sel.previous();
    assert_eq!(sel.selected(), Some(0));
}

#[test]
fn next_wraps_at_end() {
    let mut sel = Selection::new(3);
    sel.select(2);
    sel.next();
    assert_eq!(sel.selected(), Some(0));
}

#[test]
fn previous_wraps_at_start() {
    let mut sel = Selection::new(3);
    sel.select(0);
    sel.previous();
    assert_eq!(sel.selected(), Some(2));
}

#[test]
fn unset_cursor_starts_at_zero() {
    let mut sel = Selection::new(3);
    assert_eq!(sel.selected(), None);
    sel.next();
    assert_eq!(sel.selected(), Some(0));

    let mut sel = Selection::new(3);
    sel.previous();
    assert_eq!(sel.selected(), Some(0));
}

#[test]
fn empty_queue_is_safe_and_stays_unset() {
    // next()/previous() on a zero-length queue must not panic and must
    // leave the selection unset.
    let mut sel = Selection::new(0);
    sel.next();
    assert_eq!(sel.selected(), None);
    sel.previous();
    assert_eq!(sel.selected(), None);
    assert_eq!(sel.bound(), 0);
}

#[test]
fn rebind_clamps_to_last_valid_index() {
    // Selection index 7 on a 10-element queue becomes 2 after rebind(3).
    let mut sel = Selection::new(10);
    sel.select(7);
    sel.rebind(3);
    assert_eq!(sel.selected(), Some(2));
    assert_eq!(sel.bound(), 3);
}

#[test]
fn rebind_to_zero_unsets() {
    let mut sel = Selection::new(10);
    sel.select(7);
    sel.rebind(0);
    assert_eq!(sel.selected(), None);
    assert_eq!(sel.bound(), 0);
}

#[test]
fn rebind_keeps_valid_index() {
    let mut sel = Selection::new(10);
    sel.select(2);
    sel.rebind(5);
    assert_eq!(sel.selected(), Some(2));

    let mut sel = Selection::new(3);
    sel.rebind(5);
    assert_eq!(sel.selected(), None);
}
