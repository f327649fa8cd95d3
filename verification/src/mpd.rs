//! Mirror of daemon-reported playback state.
//!
//! The daemon connection itself lives with the caller; this module holds
//! the last fetched snapshots as plain values, detects track changes,
//! and computes which command a user action asks the daemon for.

use vstd::prelude::*;

verus! {

/// Snapshot of daemon-reported status: volume in percent, elapsed and
/// total seconds of the current track, position of the playing queue
/// entry, and the queue length the daemon reports.
#[derive(Debug)]
pub struct Status {
    pub volume: i8,
    pub time: Option<(u64, u64)>,
    pub song: Option<u32>,
    pub queue_len: u32,
}

/// One track of the queue: its file path, optional title, optional
/// duration in seconds, and its tag pairs (name, value).
#[derive(Debug)]
pub struct Song {
    pub file: String,
    pub title: Option<String>,
    pub duration: Option<u64>,
    pub tags: Vec<(String, String)>,
}

/// A stored playlist, known here only by name.
#[derive(Debug)]
pub struct Playlist {
    pub name: String,
}

/// A command for the daemon, decided here and carried out by the caller
/// that owns the connection.
#[derive(Clone, Copy, PartialEq, Eq, Structural, Debug)]
pub enum DaemonRequest {
    TogglePause,
    SetVolume(i8),
    SwitchTo(usize),
}

/// Whether two optional strings hold the same characters.
pub open spec fn opt_str_matches(a: Option<String>, b: Option<String>) -> bool {
    match (a, b) {
        (None, None) => true,
        (Some(x), Some(y)) => x@ == y@,
        _ => false,
    }
}

/// Whether two tag lists hold the same pairs in the same order.
pub open spec fn tags_match(a: Seq<(String, String)>, b: Seq<(String, String)>) -> bool {
    a.len() == b.len() && forall|i: int|
        0 <= i < a.len() ==> a[i].0@ == b[i].0@ && a[i].1@ == b[i].1@
}

/// Value equality of two tracks: same file, title, duration and tags.
/// Track identity goes by value, not by queue position: the daemon may
/// report the same position with a different track.
pub open spec fn song_matches(a: Song, b: Song) -> bool {
    &&& a.file@ == b.file@
    &&& opt_str_matches(a.title, b.title)
    &&& a.duration == b.duration
    &&& tags_match(a.tags@, b.tags@)
}

/// Value equality of two optional tracks.
pub open spec fn opt_song_matches(a: Option<Song>, b: Option<Song>) -> bool {
    match (a, b) {
        (None, None) => true,
        (Some(x), Some(y)) => song_matches(x, y),
        _ => false,
    }
}

/// Whether two optional strings hold the same characters.
pub fn opt_str_eq(a: &Option<String>, b: &Option<String>) -> (r: bool)
    ensures
        r == opt_str_matches(*a, *b),
{
    match (a, b) {
        (None, None) => true,
        (Some(x), Some(y)) => *x == *y,
        _ => false,
    }
}

/// Value equality of two tracks.
pub fn songs_equal(a: &Song, b: &Song) -> (r: bool)
    ensures
        r == song_matches(*a, *b),
{
    if !(a.file == b.file) {
        return false;
    }
    if !opt_str_eq(&a.title, &b.title) {
        return false;
    }
    let dur_eq: bool = match (&a.duration, &b.duration) {
        (None, None) => true,
        (Some(x), Some(y)) => *x == *y,
        _ => false,
    };
    if !dur_eq {
        return false;
    }
    if a.tags.len() != b.tags.len() {
        return false;
    }
    let n: usize = a.tags.len();
    let mut i: usize = 0;
    while i < n
        invariant
            i <= n,
            n == a.tags@.len(),
            n == b.tags@.len(),
            forall|j: int| 0 <= j < i ==> a.tags@[j].0@ == b.tags@[j].0@ && a.tags@[j].1@
                == b.tags@[j].1@,
        decreases n - i,
    {
        if !(a.tags[i].0 == b.tags[i].0) {
            return false;
        }
        if !(a.tags[i].1 == b.tags[i].1) {
            return false;
        }
        i = i + 1;
    }
    true
}

/// Value equality of two optional tracks.
pub fn opt_songs_equal(a: &Option<Song>, b: &Option<Song>) -> (r: bool)
    ensures
        r == opt_song_matches(*a, *b),
{
    match (a, b) {
        (None, None) => true,
        (Some(x), Some(y)) => songs_equal(x, y),
        _ => false,
    }
}

/// The position the status reports as currently playing, zero when
/// nothing plays.
pub open spec fn pos_of_status(status: Status) -> u32 {
    match status.song {
        Some(p) => p,
        None => 0,
    }
}

/// The total duration the status reports for the current track, in
/// seconds; `fallback` where the status has none or it does not fit.
pub open spec fn duration_of_status(status: Status, fallback: u16) -> u16 {
    match status.time {
        Some(t) => if t.1 <= u16::MAX { t.1 as u16 } else { fallback },
        None => fallback,
    }
}

/// Exec mirror of [`duration_of_status`].
fn duration_secs(status: &Status, fallback: u16) -> (r: u16)
    ensures
        r == duration_of_status(*status, fallback),
{
    match &status.time {
        Some(t) => if t.1 <= u16::MAX as u64 {
            t.1 as u16
        } else {
            fallback
        },
        None => fallback,
    }
}

/// Clamping of a volume change to the daemon's accepted range.
pub open spec fn clamp_volume(v: int) -> int {
    if v < 0 {
        0
    } else if v > 100 {
        100
    } else {
        v
    }
}

/// The volume command a change by `delta` asks for: the target clamped
/// to 0..=100, and no command at all when the target equals the current
/// volume.
pub open spec fn volume_request(current: i8, delta: i8) -> Option<DaemonRequest> {
    let target = clamp_volume(current + delta);
    if target == current {
        None
    } else {
        Some(DaemonRequest::SetVolume(target as i8))
    }
}

/// Holds the daemon's mirrored data: the latest snapshots, the playing
/// position, and the cached duration of the current track.
#[derive(Debug)]
pub struct Mpd {
    status: Status,
    playlists: Option<Vec<Playlist>>,
    queue: Option<Vec<Song>>,
    curr_song: Option<Song>,
    curr_playing_pos: u32,
    curr_song_duration: u16,
}

impl Mpd {
    pub closed spec fn spec_status(self) -> Status {
        self.status
    }

    pub closed spec fn spec_playlists(self) -> Option<Vec<Playlist>> {
        self.playlists
    }

    pub closed spec fn spec_queue(self) -> Option<Vec<Song>> {
        self.queue
    }

    pub closed spec fn spec_curr_song(self) -> Option<Song> {
        self.curr_song
    }

    pub closed spec fn spec_curr_playing_pos(self) -> u32 {
        self.curr_playing_pos
    }

    pub closed spec fn spec_curr_song_duration(self) -> u16 {
        self.curr_song_duration
    }

    /// The number of tracks in the local queue snapshot; zero while the
    /// queue is unknown.
    pub open spec fn spec_queue_len(self) -> usize {
        match self.spec_queue() {
            Some(q) => q@.len() as usize,
            None => 0,
        }
    }

    /// The tracks of the local queue snapshot; empty while the queue is
    /// unknown.
    pub open spec fn spec_queue_songs(self) -> Seq<Song> {
        match self.spec_queue() {
            Some(q) => q@,
            None => Seq::empty(),
        }
    }

    /// Build the mirror from the first fetch.  The caller constructs
    /// this only once the status fetch has succeeded; queue, playlists
    /// and current track may each have failed and degrade to unknown.
    /// The duration fallback at startup is 1, never 0, so that a
    /// progress display cannot divide by zero before the first refresh.
    pub fn new(
        status: Status,
        playlists: Option<Vec<Playlist>>,
        queue: Option<Vec<Song>>,
        curr_song: Option<Song>,
    ) -> (m: Mpd)
        ensures
            m.spec_status() == status,
            m.spec_playlists() == playlists,
            m.spec_queue() == queue,
            m.spec_curr_song() == curr_song,
            m.spec_curr_playing_pos() == pos_of_status(status),
            m.spec_curr_song_duration() == duration_of_status(status, 1),
    {
        let curr_playing_pos: u32 = match &status.song {
            Some(p) => *p,
            None => 0,
        };
        let curr_song_duration: u16 = duration_secs(&status, 1);
        Mpd { status, playlists, queue, curr_song, curr_playing_pos, curr_song_duration }
    }

    /// Replace the mirrored snapshots with a fresh fetch.  The cached
    /// duration is recomputed only when the current track changed by
    /// value; while the track stays the same the cached value stays
    /// byte-identical.  A failed queue, playlist or current-track fetch
    /// arrives as `None` and degrades that field for this cycle.
    pub fn update(
        &mut self,
        status: Status,
        curr_song: Option<Song>,
        queue: Option<Vec<Song>>,
        playlists: Option<Vec<Playlist>>,
    )
        ensures
            final(self).spec_status() == status,
            final(self).spec_curr_song() == curr_song,
            final(self).spec_queue() == queue,
            final(self).spec_playlists() == playlists,
            final(self).spec_curr_playing_pos() == pos_of_status(status),
            opt_song_matches(old(self).spec_curr_song(), curr_song)
                ==> final(self).spec_curr_song_duration() == old(self).spec_curr_song_duration(),
            !opt_song_matches(old(self).spec_curr_song(), curr_song)
                ==> final(self).spec_curr_song_duration() == duration_of_status(status, 0),
    {
        let changed: bool = !opt_songs_equal(&self.curr_song, &curr_song);
        if changed {
            self.curr_song_duration = duration_secs(&status, 0);
        }
        self.curr_playing_pos = match &status.song {
            Some(p) => *p,
            None => 0,
        };
        self.status = status;
        self.curr_song = curr_song;
        self.queue = queue;
        self.playlists = playlists;
    }

    pub fn status(&self) -> (r: &Status)
        ensures
            *r == self.spec_status(),
    {
        &self.status
    }

    pub fn playlists(&self) -> (r: Option<&Vec<Playlist>>)
        ensures
            match r {
                Some(p) => self.spec_playlists() == Some(*p),
                None => self.spec_playlists() is None,
            },
    {
        self.playlists.as_ref()
    }

    pub fn queue(&self) -> (r: Option<&Vec<Song>>)
        ensures
            match r {
                Some(q) => self.spec_queue() == Some(*q),
                None => self.spec_queue() is None,
            },
    {
        self.queue.as_ref()
    }

    pub fn curr_song(&self) -> (r: Option<&Song>)
        ensures
            match r {
                Some(s) => self.spec_curr_song() == Some(*s),
                None => self.spec_curr_song() is None,
            },
    {
        self.curr_song.as_ref()
    }

    pub fn curr_playing_pos(&self) -> (r: u32)
        ensures
            r == self.spec_curr_playing_pos(),
    {
        self.curr_playing_pos
    }

    /// The cached duration of the current track, in seconds.
    pub fn curr_song_duration(&self) -> (r: u16)
        ensures
            r == self.spec_curr_song_duration(),
    {
        self.curr_song_duration
    }

    /// The number of tracks in the local queue snapshot.
    pub fn queue_len(&self) -> (r: usize)
        ensures
            r == self.spec_queue_len(),
    {
        match &self.queue {
            Some(q) => q.len(),
            None => 0,
        }
    }

    /// The command to ask the daemon for after a volume change by
    /// `delta`: the target is clamped to 0..=100, and a change that
    /// lands on the current volume issues no command at all.
    pub fn issue_volume(&self, delta: i8) -> (r: Option<DaemonRequest>)
        ensures
            r == volume_request(self.spec_status().volume, delta),
    {
        let current: i16 = self.status.volume as i16;
        let mut target: i16 = current + delta as i16;
        if target < 0 {
            target = 0;
        }
        if target > 100 {
            target = 100;
        }
        if target == current {
            None
        } else {
            Some(DaemonRequest::SetVolume(target as i8))
        }
    }

    /// The pause-toggle command; a plain pass-through.
    pub fn issue_toggle_pause(&self) -> (r: DaemonRequest)
        ensures
            r == DaemonRequest::TogglePause,
    {
        DaemonRequest::TogglePause
    }

    /// The command that switches playback to the queue entry at `index`;
    /// a plain pass-through.
    pub fn issue_switch(&self, index: usize) -> (r: DaemonRequest)
        ensures
            r == DaemonRequest::SwitchTo(index),
    {
        DaemonRequest::SwitchTo(index)
    }
}

} // verus!
