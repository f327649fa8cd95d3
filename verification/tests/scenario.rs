use mpdtui::config::{Config, KeyCode};
use mpdtui::selection::Selection;
use mpdtui::input::{apply, dispatch, refresh, Action};
use mpdtui::mpd::{DaemonRequest, Mpd, Song, Status};
use mpdtui::ui::App;

fn track(file: &str) -> Song {
    Song { file: file.to_string(), title: None, duration: None, tags: Vec::new() }
}

fn mirror(queue: Vec<Song>, song: Option<u32>) -> Mpd {
    let len = queue.len() as u32;
    Mpd::new(
        Status { volume: 50, time: None, song, queue_len: len },
        None,
        Some(queue),
        None,
    )
}

#[test]
fn select_cycle_and_commit() {
    // Queue [A, B, C], selection unset; SelectNext lands on 0, two more
    // reach 2, one more wraps to 0, and CommitSelection asks the daemon
    // to switch to entry 0.
    let config = Config::new();
    let keys = config.keys();
    let mpd = mirror(vec![track("A"), track("B"), track("C")], None);
    let mut app = App::new(&mpd, &config);
    // Unset the cursor: the scenario starts before any selection.
    app.rebind(0);
    app.rebind(3);
    assert_eq!(app.selection().selected(), None);

    let next = dispatch(KeyCode::Char('j'), keys).unwrap();
    assert_eq!(next, Action::SelectNext);

    apply(&mut app, &mpd, next);
    assert_eq!(app.selection().selected(), Some(0));
    apply(&mut app, &mpd, next);
    apply(&mut app, &mpd, next);
    assert_eq!(app.selection().selected(), Some(2));
    apply(&mut app, &mpd, next);
    assert_eq!(app.selection().selected(), Some(0));

    let commit = dispatch(KeyCode::Enter, keys).unwrap();
    let (request, quit) = apply(&mut app, &mpd, commit);
    assert_eq!(request, Some(DaemonRequest::SwitchTo(0)));
    assert!(!quit);
}

#[test]
fn cursor_commit_switches_to_the_selected_entry() {
    let mpd = mirror(vec![track("A"), track("B")], None);
    let mut sel = Selection::new(2);
    assert_eq!(sel.commit(&mpd), None);
    sel.select(1);
    assert_eq!(sel.commit(&mpd), Some(DaemonRequest::SwitchTo(1)));
}

#[test]
fn commit_with_unset_cursor_is_a_noop() {
    let config = Config::new();
    let mpd = mirror(Vec::new(), None);
    let mut app = App::new(&mpd, &config);
    assert_eq!(app.selection().selected(), None);
    let (request, quit) = apply(&mut app, &mpd, Action::CommitSelection);
    assert_eq!(request, None);
    assert!(!quit);
}

#[test]
fn quit_ends_the_session_without_commands() {
    let config = Config::new();
    let mpd = mirror(Vec::new(), None);
    let mut app = App::new(&mpd, &config);
    let (request, quit) = apply(&mut app, &mpd, Action::Quit);
    assert_eq!(request, None);
    assert!(quit);
}

#[test]
fn volume_actions_read_the_mirror() {
    let config = Config::new();
    let mpd = mirror(Vec::new(), None);
    let mut app = App::new(&mpd, &config);
    let (request, _) = apply(&mut app, &mpd, Action::VolumeDown);
    assert_eq!(request, Some(DaemonRequest::SetVolume(45)));
    let (request, _) = apply(&mut app, &mpd, Action::VolumeUp);
    assert_eq!(request, Some(DaemonRequest::SetVolume(55)));
    let (request, _) = apply(&mut app, &mpd, Action::TogglePause);
    assert_eq!(request, Some(DaemonRequest::TogglePause));
}

#[test]
fn tabs_cycle_and_popup_toggles() {
    let config = Config::new();
    let mpd = mirror(Vec::new(), None);
    let mut app = App::new(&mpd, &config);
    assert_eq!(app.tab_index(), 0);
    assert_eq!(app.tab_titles(), &vec!["Queue".to_string(), "Browse".to_string()]);
    apply(&mut app, &mpd, Action::SwitchTab);
    assert_eq!(app.tab_index(), 1);
    apply(&mut app, &mpd, Action::SwitchTab);
    assert_eq!(app.tab_index(), 0);

    assert!(!app.show_popup);
    apply(&mut app, &mpd, Action::ToggleHelpOverlay);
    assert!(app.show_popup);
    apply(&mut app, &mpd, Action::ToggleHelpOverlay);
    assert!(!app.show_popup);
}

#[test]
fn new_app_starts_on_the_playing_entry() {
    let config = Config::new();
    let mpd = mirror(vec![track("A"), track("B"), track("C")], Some(1));
    let app = App::new(&mpd, &config);
    assert_eq!(app.selection().selected(), Some(1));
    assert_eq!(app.selection().bound(), 3);
    assert_eq!(app.tick_rate(), 250);
}

#[test]
fn new_app_clamps_a_stale_playing_position() {
    let config = Config::new();
    // The daemon reports position 9 but the snapshot has 2 entries.
    let mpd = Mpd::new(
        Status { volume: 0, time: None, song: Some(9), queue_len: 2 },
        None,
        Some(vec![track("A"), track("B")]),
        None,
    );
    let app = App::new(&mpd, &config);
    assert_eq!(app.selection().selected(), Some(1));
}

#[test]
fn refresh_rebinds_selection_to_the_new_snapshot() {
    // A queue shrink during refresh re-clamps the cursor in the same
    // step, so the bound and the snapshot cannot disagree.
    let config = Config::new();
    let mut mpd = mirror(
        vec![track("A"), track("B"), track("C"), track("D"), track("E")],
        None,
    );
    let mut app = App::new(&mpd, &config);
    for _ in 0..4 {
        app.next();
    }
    assert_eq!(app.selection().selected(), Some(4));

    refresh(
        &mut mpd,
        &mut app,
        Status { volume: 50, time: None, song: Some(0), queue_len: 2 },
        None,
        Some(vec![track("A"), track("B")]),
        None,
    );
    assert_eq!(mpd.queue_len(), 2);
    assert_eq!(app.selection().bound(), 2);
    assert_eq!(app.selection().selected(), Some(1));

    // A refresh that loses the queue unsets the cursor.
    refresh(
        &mut mpd,
        &mut app,
        Status { volume: 50, time: None, song: None, queue_len: 0 },
        None,
        None,
        None,
    );
    assert_eq!(app.selection().selected(), None);
}
