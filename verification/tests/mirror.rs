use mpdtui::mpd::{DaemonRequest, Mpd, Playlist, Song, Status};

fn status(volume: i8, time: Option<(u64, u64)>, song: Option<u32>, queue_len: u32) -> Status {
    Status { volume, time, song, queue_len }
}

fn song(file: &str, title: Option<&str>, duration: Option<u64>) -> Song {
    Song {
        file: file.to_string(),
        title: title.map(|t| t.to_string()),
        duration,
        tags: Vec::new(),
    }
}

#[test]
fn new_takes_snapshots_and_startup_duration() {
    let m = Mpd::new(
        status(50, Some((10, 180)), Some(2), 3),
        Some(vec![Playlist { name: "mix".to_string() }]),
        Some(vec![song("a", None, None), song("b", None, None), song("c", None, None)]),
        Some(song("c", Some("C"), Some(180))),
    );
    assert_eq!(m.curr_playing_pos(), 2);
    assert_eq!(m.curr_song_duration(), 180);
    assert_eq!(m.queue_len(), 3);
    assert_eq!(m.status().volume, 50);
    assert_eq!(m.playlists().unwrap().len(), 1);
    assert_eq!(m.queue().unwrap().len(), 3);
    assert_eq!(m.curr_song().unwrap().file, "c");
}

#[test]
fn startup_duration_fallback_is_one() {
    // Before any refresh the duration falls back to 1, never 0, so a
    // progress display cannot divide by zero.
    let m = Mpd::new(status(50, None, None, 0), None, None, None);
    assert_eq!(m.curr_song_duration(), 1);
    assert_eq!(m.curr_playing_pos(), 0);
    assert_eq!(m.queue_len(), 0);
}

#[test]
fn unchanged_track_keeps_cached_duration() {
    // Two consecutive refreshes with the same current track by value:
    // the cached duration stays identical, even though the status now
    // reports a different total.
    let mut m = Mpd::new(
        status(50, Some((0, 180)), Some(0), 1),
        None,
        None,
        Some(song("a", Some("A"), Some(180))),
    );
    assert_eq!(m.curr_song_duration(), 180);
    m.update(
        status(50, Some((5, 999)), Some(0), 1),
        Some(song("a", Some("A"), Some(180))),
        None,
        None,
    );
    assert_eq!(m.curr_song_duration(), 180);
    m.update(
        status(50, Some((6, 999)), Some(0), 1),
        Some(song("a", Some("A"), Some(180))),
        None,
        None,
    );
    assert_eq!(m.curr_song_duration(), 180);
}

#[test]
fn changed_track_recomputes_duration() {
    // A refresh that changes the track from A (180 s) to B (210 s)
    // makes the cached duration 210 immediately.
    let mut m = Mpd::new(
        status(50, Some((0, 180)), Some(0), 2),
        None,
        None,
        Some(song("a", Some("A"), Some(180))),
    );
    m.update(
        status(50, Some((0, 210)), Some(1), 2),
        Some(song("b", Some("B"), Some(210))),
        None,
        None,
    );
    assert_eq!(m.curr_song_duration(), 210);
}

#[test]
fn same_position_different_track_recomputes() {
    // The daemon may report the same position with a different track;
    // change detection goes by value, not by position.
    let mut m = Mpd::new(
        status(50, Some((0, 180)), Some(0), 1),
        None,
        None,
        Some(song("a", Some("A"), Some(180))),
    );
    m.update(
        status(50, Some((0, 210)), Some(0), 1),
        Some(song("b", Some("B"), Some(210))),
        None,
        None,
    );
    assert_eq!(m.curr_song_duration(), 210);
}

#[test]
fn changed_track_without_time_falls_back_to_zero() {
    let mut m = Mpd::new(
        status(50, Some((0, 180)), Some(0), 1),
        None,
        None,
        Some(song("a", Some("A"), Some(180))),
    );
    m.update(status(50, None, None, 0), None, None, None);
    assert_eq!(m.curr_song_duration(), 0);
}

#[test]
fn update_replaces_snapshots_wholesale() {
    let mut m = Mpd::new(
        status(50, None, None, 0),
        Some(vec![Playlist { name: "mix".to_string() }]),
        Some(vec![song("a", None, None)]),
        None,
    );
    m.update(status(60, None, Some(1), 2), None, Some(vec![song("b", None, None), song("c", None, None)]), None);
    assert_eq!(m.status().volume, 60);
    assert_eq!(m.curr_playing_pos(), 1);
    assert_eq!(m.queue_len(), 2);
    assert_eq!(m.queue().unwrap()[0].file, "b");
    // A failed playlist fetch degrades that field for this cycle.
    assert!(m.playlists().is_none());
}

#[test]
fn volume_clamps_low() {
    // delta -5 at volume 3 asks for volume 0, not -2.
    let m = Mpd::new(status(3, None, None, 0), None, None, None);
    assert_eq!(m.issue_volume(-5), Some(DaemonRequest::SetVolume(0)));
}

#[test]
fn volume_clamps_high() {
    // volume 98, delta +5: the sent value is clamp(103, 0, 100) = 100.
    let m = Mpd::new(status(98, None, None, 0), None, None, None);
    assert_eq!(m.issue_volume(5), Some(DaemonRequest::SetVolume(100)));
}

#[test]
fn volume_boundary_issues_nothing() {
    // delta -5 at volume 0 issues no daemon call.
    let m = Mpd::new(status(0, None, None, 0), None, None, None);
    assert_eq!(m.issue_volume(-5), None);

    let m = Mpd::new(status(100, None, None, 0), None, None, None);
    assert_eq!(m.issue_volume(5), None);
}

#[test]
fn volume_plain_step() {
    let m = Mpd::new(status(50, None, None, 0), None, None, None);
    assert_eq!(m.issue_volume(-5), Some(DaemonRequest::SetVolume(45)));
    assert_eq!(m.issue_volume(5), Some(DaemonRequest::SetVolume(55)));
}

#[test]
fn pass_through_commands() {
    let m = Mpd::new(status(50, None, None, 0), None, None, None);
    assert_eq!(m.issue_toggle_pause(), DaemonRequest::TogglePause);
    assert_eq!(m.issue_switch(4), DaemonRequest::SwitchTo(4));
}
