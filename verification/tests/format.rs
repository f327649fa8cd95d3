use mpdtui::config::{Config, PlaylistLayout};
use mpdtui::mpd::{Mpd, Song, Status};
use mpdtui::ui::{
    column_widths, gen_rows, header_titles, human_formated_time, now_playing_label, progress_info,
    tag_or_empty,
};

#[test]
fn human_formated_time_pads_seconds() {
    assert_eq!(human_formated_time(65), "1:05");
    assert_eq!(human_formated_time(5), "0:05");
    assert_eq!(human_formated_time(600), "10:00");
}

#[test]
fn human_formated_time_edges() {
    assert_eq!(human_formated_time(0), "0:00");
    assert_eq!(human_formated_time(59), "0:59");
    assert_eq!(human_formated_time(60), "1:00");
    assert_eq!(human_formated_time(u16::MAX), "1092:15");
}

fn track(file: &str, title: Option<&str>, duration: Option<u64>, tags: &[(&str, &str)]) -> Song {
    Song {
        file: file.to_string(),
        title: title.map(|t| t.to_string()),
        duration,
        tags: tags.iter().map(|(k, v)| (k.to_string(), v.to_string())).collect(),
    }
}

fn mirror_with_queue(queue: Vec<Song>) -> Mpd {
    let len = queue.len() as u32;
    Mpd::new(
        Status { volume: 50, time: None, song: None, queue_len: len },
        None,
        Some(queue),
        None,
    )
}

#[test]
fn tag_lookup_finds_first_match_or_empty() {
    let s = track("f", None, None, &[("Artist", "Ana"), ("Album", "Blue"), ("Artist", "Bo")]);
    assert_eq!(tag_or_empty(&s.tags, "Artist"), "Ana");
    assert_eq!(tag_or_empty(&s.tags, "Album"), "Blue");
    assert_eq!(tag_or_empty(&s.tags, "Track"), "");
}

#[test]
fn rows_follow_layout_and_queue() {
    let config = Config::new();
    // Default layout: Artist, Track, Title, Album, Duration.
    let q = vec![
        track(
            "one.flac",
            Some("One"),
            Some(65),
            &[("Artist", "Ana"), ("Album", "Blue"), ("Track", "7")],
        ),
        track("two.flac", None, None, &[]),
    ];
    let mpd = mirror_with_queue(q);
    let rows = gen_rows(&mpd, &config);
    assert_eq!(rows.len(), 2);
    assert_eq!(rows[0], vec!["Ana", "7", "One", "Blue", "1:05"]);
    assert_eq!(rows[1], vec!["", "", "", "", ""]);
}

#[test]
fn rows_empty_when_queue_unknown() {
    let config = Config::new();
    let mpd = Mpd::new(Status { volume: 0, time: None, song: None, queue_len: 0 }, None, None, None);
    assert!(gen_rows(&mpd, &config).is_empty());
}

#[test]
fn header_and_widths_follow_layout() {
    let config = Config::new();
    assert_eq!(header_titles(&config), vec!["Artist", "Track", "Title", "Album", "Duration"]);
    assert_eq!(column_widths(&config), vec![20, 5, 30, 30, 5]);
    let layout = config.playlist_layout();
    assert_eq!(layout[0].0, PlaylistLayout::Artist);
    assert_eq!(layout[4].0, PlaylistLayout::Duration);
}

#[test]
fn progress_label_and_percent() {
    let st = Status { volume: 50, time: Some((65, 130)), song: None, queue_len: 0 };
    let (label, percent) = progress_info(&st);
    assert_eq!(label, "1:05/2:10");
    assert_eq!(percent, 50);
}

#[test]
fn progress_without_time_is_empty() {
    let st = Status { volume: 50, time: None, song: None, queue_len: 0 };
    let (label, percent) = progress_info(&st);
    assert_eq!(label, "");
    assert_eq!(percent, 0);
}

#[test]
fn progress_zero_total_and_overrun() {
    let st = Status { volume: 50, time: Some((10, 0)), song: None, queue_len: 0 };
    assert_eq!(progress_info(&st).1, 0);
    // Elapsed transiently past the total never exceeds a full bar.
    let st = Status { volume: 50, time: Some((120, 100)), song: None, queue_len: 0 };
    assert_eq!(progress_info(&st).1, 100);
}

#[test]
fn now_playing_shows_artist_and_title() {
    let mpd = Mpd::new(
        Status { volume: 0, time: None, song: None, queue_len: 0 },
        None,
        None,
        Some(track("f", Some("One"), None, &[("Artist", "Ana")])),
    );
    assert_eq!(now_playing_label(&mpd), "Ana - One");
}

#[test]
fn now_playing_without_track() {
    let mpd = Mpd::new(Status { volume: 0, time: None, song: None, queue_len: 0 }, None, None, None);
    assert_eq!(now_playing_label(&mpd), " - ");
}
