//! Data behind the rendered screens: the application state (tabs, help
//! overlay, selection cursor) and the strings a renderer shows for the
//! queue table, the now-playing line and the progress bar.

use crate::config::{Config, PlaylistLayout};
use crate::mpd::{pos_of_status, DaemonRequest, Mpd, Song, Status};
use crate::selection::{next_sel, prev_sel, rebind_sel, Selection};
use crate::text::{dec_digits, push_decimal, str_eq, u16_to_string};
use vstd::prelude::*;
use vstd::string::StringExecFns;

verus! {

/// The characters of the human-readable `minutes:seconds` form of a
/// time in seconds, with the seconds zero-padded to two digits.
pub open spec fn spec_human_time(time: u16) -> Seq<char> {
    dec_digits((time / 60) as nat) + seq![':'] + (if time % 60 < 10 {
        seq!['0']
    } else {
        Seq::<char>::empty()
    }) + dec_digits((time % 60) as nat)
}

/// Formats time (in seconds) to human readable `min:sec`.
pub fn human_formated_time(time: u16) -> (r: String)
    ensures
        r@ == spec_human_time(time),
{
    let min: u16 = time / 60;
    let sec: u16 = time % 60;
    let mut s = u16_to_string(min);
    s.append(":");
    if sec < 10 {
        s.append("0");
    }
    push_decimal(&mut s, sec);
    proof {
        reveal_strlit(":");
        reveal_strlit("0");
        assert(s@ =~= spec_human_time(time));
    }
    s
}

/// The value of the first tag with the given name, if any.
pub open spec fn tag_value(tags: Seq<(String, String)>, name: Seq<char>) -> Option<Seq<char>>
    decreases tags.len(),
{
    if tags.len() == 0 {
        None
    } else if tags[0].0@ == name {
        Some(tags[0].1@)
    } else {
        tag_value(tags.drop_first(), name)
    }
}

/// The value of the first tag with the given name, or the empty string.
pub open spec fn tag_text(tags: Seq<(String, String)>, name: Seq<char>) -> Seq<char> {
    match tag_value(tags, name) {
        Some(v) => v,
        None => Seq::empty(),
    }
}

proof fn lemma_tag_value_first_match(tags: Seq<(String, String)>, name: Seq<char>, i: int)
    requires
        0 <= i <= tags.len(),
        forall|j: int| 0 <= j < i ==> tags[j].0@ != name,
    ensures
        i < tags.len() && tags[i].0@ == name ==> tag_value(tags, name) == Some(tags[i].1@),
        i == tags.len() ==> tag_value(tags, name) is None,
    decreases i,
{
    if i == 0 {
        if tags.len() == 0 {
        } else if tags[0].0@ == name {
        }
    } else {
        assert(tags[0].0@ != name);
        lemma_tag_value_first_match(tags.drop_first(), name, i - 1);
    }
}

/// Look a tag up by name, handing back its value or the empty string.
pub fn tag_or_empty(tags: &Vec<(String, String)>, name: &str) -> (r: String)
    ensures
        r@ == tag_text(tags@, name@),
{
    let n: usize = tags.len();
    let mut i: usize = 0;
    while i < n
        invariant
            i <= n,
            n == tags@.len(),
            forall|j: int| 0 <= j < i ==> tags@[j].0@ != name@,
        decreases n - i,
    {
        if str_eq(tags[i].0.as_str(), name) {
            proof {
                lemma_tag_value_first_match(tags@, name@, i as int);
            }
            return tags[i].1.clone();
        }
        i = i + 1;
    }
    proof {
        lemma_tag_value_first_match(tags@, name@, n as int);
    }
    String::new()
}

/// The title of an optional track title, or the empty string.
pub open spec fn title_text(title: Option<String>) -> Seq<char> {
    match title {
        Some(t) => t@,
        None => Seq::empty(),
    }
}

/// The duration column of a track: its `min:sec` form where a duration
/// is known and fits the display range, otherwise empty.
pub open spec fn duration_text(duration: Option<u64>) -> Seq<char> {
    match duration {
        Some(d) => if d <= u16::MAX {
            spec_human_time(d as u16)
        } else {
            Seq::empty()
        },
        None => Seq::empty(),
    }
}

/// What one cell of the queue table shows for a track.
pub open spec fn cell_text(song: Song, col: PlaylistLayout) -> Seq<char> {
    match col {
        PlaylistLayout::File => song.file@,
        PlaylistLayout::Title => title_text(song.title),
        PlaylistLayout::Duration => duration_text(song.duration),
        PlaylistLayout::Album => tag_text(song.tags@, "Album"@),
        PlaylistLayout::Artist => tag_text(song.tags@, "Artist"@),
        PlaylistLayout::Track => tag_text(song.tags@, "Track"@),
    }
}

/// One cell of the queue table.
fn cell(song: &Song, col: PlaylistLayout) -> (r: String)
    ensures
        r@ == cell_text(*song, col),
{
    match col {
        PlaylistLayout::File => song.file.clone(),
        PlaylistLayout::Title => match &song.title {
            Some(t) => t.clone(),
            None => String::new(),
        },
        PlaylistLayout::Duration => match &song.duration {
            Some(d) => if *d <= u16::MAX as u64 {
                human_formated_time(*d as u16)
            } else {
                String::new()
            },
            None => String::new(),
        },
        PlaylistLayout::Album => tag_or_empty(&song.tags, "Album"),
        PlaylistLayout::Artist => tag_or_empty(&song.tags, "Artist"),
        PlaylistLayout::Track => tag_or_empty(&song.tags, "Track"),
    }
}

/// The rows of the queue table: one row per track of the local queue
/// snapshot, one cell per configured column.
pub fn gen_rows(mpd: &Mpd, config: &Config) -> (r: Vec<Vec<String>>)
    ensures
        r@.len() == mpd.spec_queue_songs().len(),
        forall|i: int| 0 <= i < r@.len() ==> r@[i]@.len() == config.spec_playlist_layout().len(),
        forall|i: int, j: int|
            0 <= i < r@.len() && 0 <= j < config.spec_playlist_layout().len() ==> r@[i]@[j]@
                == cell_text(mpd.spec_queue_songs()[i], config.spec_playlist_layout()[j].0),
{
    let mut rows: Vec<Vec<String>> = Vec::new();
    let songs = match mpd.queue() {
        Some(songs) => songs,
        None => {
            return rows;
        },
    };
    let layout = config.playlist_layout();
    let n: usize = songs.len();
    let m: usize = layout.len();
    let mut i: usize = 0;
    while i < n
        invariant
            i <= n,
            n == mpd.spec_queue_songs().len(),
            songs@ == mpd.spec_queue_songs(),
            layout@ == config.spec_playlist_layout(),
            m == layout@.len(),
            rows@.len() == i,
            forall|a: int| 0 <= a < i ==> rows@[a]@.len() == m,
            forall|a: int, b: int|
                0 <= a < i && 0 <= b < m ==> rows@[a]@[b]@ == cell_text(songs@[a], layout@[b].0),
        decreases n - i,
    {
        let mut row: Vec<String> = Vec::new();
        let mut j: usize = 0;
        while j < m
            invariant
                j <= m,
                i < n,
                n == songs@.len(),
                m == layout@.len(),
                row@.len() == j,
                forall|b: int| 0 <= b < j ==> row@[b]@ == cell_text(songs@[i as int], layout@[b].0),
            decreases m - j,
        {
            row.push(cell(&songs[i], layout[j].0));
            j = j + 1;
        }
        rows.push(row);
        i = i + 1;
    }
    rows
}

/// What the header of a queue column is called.
pub open spec fn column_title(col: PlaylistLayout) -> Seq<char> {
    match col {
        PlaylistLayout::File => "File"@,
        PlaylistLayout::Title => "Title"@,
        PlaylistLayout::Duration => "Duration"@,
        PlaylistLayout::Album => "Album"@,
        PlaylistLayout::Artist => "Artist"@,
        PlaylistLayout::Track => "Track"@,
    }
}

/// The header row of the queue table, one title per configured column.
pub fn header_titles(config: &Config) -> (r: Vec<String>)
    ensures
        r@.len() == config.spec_playlist_layout().len(),
        forall|j: int|
            0 <= j < r@.len() ==> r@[j]@ == column_title(config.spec_playlist_layout()[j].0),
{
    let layout = config.playlist_layout();
    let m: usize = layout.len();
    let mut titles: Vec<String> = Vec::new();
    let mut j: usize = 0;
    while j < m
        invariant
            j <= m,
            m == layout@.len(),
            layout@ == config.spec_playlist_layout(),
            titles@.len() == j,
            forall|b: int| 0 <= b < j ==> titles@[b]@ == column_title(layout@[b].0),
        decreases m - j,
    {
        let name: &'static str = match layout[j].0 {
            PlaylistLayout::File => "File",
            PlaylistLayout::Title => "Title",
            PlaylistLayout::Duration => "Duration",
            PlaylistLayout::Album => "Album",
            PlaylistLayout::Artist => "Artist",
            PlaylistLayout::Track => "Track",
        };
        titles.push(name.to_owned());
        j = j + 1;
    }
    titles
}

/// The configured column widths, in percent.
pub fn column_widths(config: &Config) -> (r: Vec<u16>)
    ensures
        r@.len() == config.spec_playlist_layout().len(),
        forall|j: int| 0 <= j < r@.len() ==> r@[j] == config.spec_playlist_layout()[j].1,
{
    let layout = config.playlist_layout();
    let m: usize = layout.len();
    let mut widths: Vec<u16> = Vec::new();
    let mut j: usize = 0;
    while j < m
        invariant
            j <= m,
            m == layout@.len(),
            layout@ == config.spec_playlist_layout(),
            widths@.len() == j,
            forall|b: int| 0 <= b < j ==> widths@[b] == layout@[b].1,
        decreases m - j,
    {
        widths.push(layout[j].1);
        j = j + 1;
    }
    widths
}

/// A reported number of seconds, saturated into the display range.
pub open spec fn clamp_secs(x: u64) -> u16 {
    if x > u16::MAX {
        u16::MAX
    } else {
        x as u16
    }
}

/// The progress-bar label: `elapsed/total` in `min:sec` form, empty
/// while the status reports no time.
pub open spec fn progress_label_of(time: Option<(u64, u64)>) -> Seq<char> {
    match time {
        Some(t) => spec_human_time(clamp_secs(t.0)) + seq!['/'] + spec_human_time(clamp_secs(t.1)),
        None => Seq::empty(),
    }
}

/// The progress-bar fill: elapsed over total in percent, capped at 100,
/// and 0 while the status reports no time or a zero total.
pub open spec fn progress_percent_of(time: Option<(u64, u64)>) -> u16 {
    match time {
        Some(t) => {
            let e = clamp_secs(t.0) as int;
            let d = clamp_secs(t.1) as int;
            if d == 0 {
                0
            } else if e * 100 / d > 100 {
                100
            } else {
                (e * 100 / d) as u16
            }
        },
        None => 0,
    }
}

/// The label and fill of the progress bar for a status snapshot.
pub fn progress_info(status: &Status) -> (r: (String, u16))
    ensures
        r.0@ == progress_label_of(status.time),
        r.1 == progress_percent_of(status.time),
        r.1 <= 100,
{
    let (elapsed, total): (u64, u64) = match &status.time {
        Some(t) => (t.0, t.1),
        None => {
            return (String::new(), 0);
        },
    };
    let e: u16 = if elapsed > u16::MAX as u64 {
        u16::MAX
    } else {
        elapsed as u16
    };
    let d: u16 = if total > u16::MAX as u64 {
        u16::MAX
    } else {
        total as u16
    };
    let mut label = human_formated_time(e);
    label.append("/");
    let rest = human_formated_time(d);
    label.append(rest.as_str());
    let percent: u16 = if d == 0 {
        0
    } else {
        let p: u32 = (e as u32) * 100 / (d as u32);
        if p > 100 {
            100
        } else {
            p as u16
        }
    };
    proof {
        reveal_strlit("/");
        assert(label@ =~= progress_label_of(status.time));
    }
    (label, percent)
}

/// The now-playing line: the artist tag and the title of the current
/// track around a dash, each empty when unknown.
pub open spec fn now_playing_of(song: Option<Song>) -> Seq<char> {
    match song {
        Some(s) => tag_text(s.tags@, "Artist"@) + " - "@ + title_text(s.title),
        None => " - "@,
    }
}

/// The now-playing line for the mirrored current track.
pub fn now_playing_label(mpd: &Mpd) -> (r: String)
    ensures
        r@ == now_playing_of(mpd.spec_curr_song()),
{
    match mpd.curr_song() {
        Some(song) => {
            let mut s = tag_or_empty(&song.tags, "Artist");
            s.append(" - ");
            match &song.title {
                Some(t) => s.append(t.as_str()),
                None => (),
            }
            proof {
                assert(s@ =~= now_playing_of(mpd.spec_curr_song()));
            }
            s
        },
        None => {
            let mut s = String::new();
            s.append(" - ");
            proof {
                assert(s@ =~= now_playing_of(mpd.spec_curr_song()));
            }
            s
        },
    }
}

/// Data of the application's screens: whether the help overlay shows,
/// the refresh tick in milliseconds, the tab titles, the selected tab,
/// and the selection cursor over the queue.
pub struct App {
    pub show_popup: bool,
    tick_rate_ms: u64,
    tab_titles: Vec<String>,
    tab_index: usize,
    selection: Selection,
}

/// Where the cursor starts: on the currently playing entry, clamped
/// into the queue, or unset over an empty queue.
pub open spec fn initial_selection(pos: int, bound: int) -> Option<usize> {
    if bound == 0 {
        None
    } else if pos < bound {
        Some(pos as usize)
    } else {
        Some((bound - 1) as usize)
    }
}

impl App {
    pub closed spec fn spec_show_popup(self) -> bool {
        self.show_popup
    }

    pub closed spec fn spec_tick_rate_ms(self) -> u64 {
        self.tick_rate_ms
    }

    pub closed spec fn spec_tab_titles(self) -> Seq<Seq<char>> {
        self.tab_titles.deep_view()
    }

    pub closed spec fn spec_tab_index(self) -> usize {
        self.tab_index
    }

    pub closed spec fn spec_selection(self) -> Selection {
        self.selection
    }

    /// The tab index stays inside the tab titles and the cursor inside
    /// the queue.
    pub open spec fn wf(self) -> bool {
        &&& self.spec_tab_index() < self.spec_tab_titles().len()
        &&& self.spec_selection().wf()
    }

    /// Fresh state over a mirror: help hidden, a 250 ms tick, the two
    /// fixed tabs, and the cursor starting from the playing position.
    pub fn new(mpd: &Mpd, config: &Config) -> (app: App)
        ensures
            app.wf(),
            !app.spec_show_popup(),
            app.spec_tick_rate_ms() == 250,
            app.spec_tab_titles() == seq!["Queue"@, "Browse"@],
            app.spec_tab_index() == 0,
            app.spec_selection().spec_bound() == mpd.spec_queue_len(),
            app.spec_selection().spec_selected() == initial_selection(
                pos_of_status(mpd.spec_status()) as int,
                mpd.spec_queue_len() as int,
            ),
    {
        let pos: usize = match &mpd.status().song {
            Some(p) => *p as usize,
            None => 0,
        };
        let bound: usize = mpd.queue_len();
        let mut selection = Selection::new(bound);
        if bound > 0 {
            let start: usize = if pos < bound {
                pos
            } else {
                bound - 1
            };
            selection.select(start);
        }
        let mut tab_titles: Vec<String> = Vec::new();
        tab_titles.push("Queue".to_owned());
        tab_titles.push("Browse".to_owned());
        proof {
            assert(tab_titles.deep_view() =~~= seq!["Queue"@, "Browse"@]);
        }
        App { show_popup: false, tick_rate_ms: 250, tab_titles, tab_index: 0, selection }
    }

    /// How often the screen refreshes, in milliseconds.
    pub fn tick_rate(&self) -> (r: u64)
        ensures
            r == self.spec_tick_rate_ms(),
    {
        self.tick_rate_ms
    }

    pub fn tab_titles(&self) -> (r: &Vec<String>)
        ensures
            r.deep_view() == self.spec_tab_titles(),
    {
        &self.tab_titles
    }

    pub fn tab_index(&self) -> (r: usize)
        ensures
            r == self.spec_tab_index(),
    {
        self.tab_index
    }

    /// Advance to the next tab, cyclically.
    pub fn tab_next(&mut self)
        requires
            old(self).wf(),
        ensures
            final(self).wf(),
            final(self).spec_tab_index()
                == (old(self).spec_tab_index() + 1) % (old(self).spec_tab_titles().len() as int),
            final(self).spec_tab_titles() == old(self).spec_tab_titles(),
            final(self).spec_show_popup() == old(self).spec_show_popup(),
            final(self).spec_tick_rate_ms() == old(self).spec_tick_rate_ms(),
            final(self).spec_selection() == old(self).spec_selection(),
    {
        let n: usize = self.tab_titles.len();
        proof {
            assert(self.tab_titles.deep_view().len() == self.tab_titles@.len());
        }
        self.tab_index = (self.tab_index + 1) % n;
    }

    /// The selection cursor.
    pub fn selection(&self) -> (r: &Selection)
        ensures
            *r == self.spec_selection(),
    {
        &self.selection
    }

    /// Select next item in queue.
    pub fn next(&mut self)
        requires
            old(self).wf(),
        ensures
            final(self).wf(),
            final(self).spec_selection().spec_selected() == next_sel(
                old(self).spec_selection().spec_selected(),
                old(self).spec_selection().spec_bound(),
            ),
            final(self).spec_selection().spec_bound() == old(self).spec_selection().spec_bound(),
            final(self).spec_tab_index() == old(self).spec_tab_index(),
            final(self).spec_tab_titles() == old(self).spec_tab_titles(),
            final(self).spec_show_popup() == old(self).spec_show_popup(),
            final(self).spec_tick_rate_ms() == old(self).spec_tick_rate_ms(),
    {
        self.selection.next();
    }

    /// Select previous item in queue.
    pub fn previous(&mut self)
        requires
            old(self).wf(),
        ensures
            final(self).wf(),
            final(self).spec_selection().spec_selected() == prev_sel(
                old(self).spec_selection().spec_selected(),
                old(self).spec_selection().spec_bound(),
            ),
            final(self).spec_selection().spec_bound() == old(self).spec_selection().spec_bound(),
            final(self).spec_tab_index() == old(self).spec_tab_index(),
            final(self).spec_tab_titles() == old(self).spec_tab_titles(),
            final(self).spec_show_popup() == old(self).spec_show_popup(),
            final(self).spec_tick_rate_ms() == old(self).spec_tick_rate_ms(),
    {
        self.selection.previous();
    }

    /// Re-clamp the cursor after the queue snapshot changed size.
    pub fn rebind(&mut self, new_bound: usize)
        requires
            old(self).wf(),
        ensures
            final(self).wf(),
            final(self).spec_selection().spec_bound() == new_bound,
            final(self).spec_selection().spec_selected() == rebind_sel(
                old(self).spec_selection().spec_selected(),
                new_bound,
            ),
            final(self).spec_tab_index() == old(self).spec_tab_index(),
            final(self).spec_tab_titles() == old(self).spec_tab_titles(),
            final(self).spec_show_popup() == old(self).spec_show_popup(),
            final(self).spec_tick_rate_ms() == old(self).spec_tick_rate_ms(),
    {
        self.selection.rebind(new_bound);
    }

    /// Show the help overlay if it is hidden, hide it if it shows.
    pub fn toggle_popup(&mut self)
        requires
            old(self).wf(),
        ensures
            final(self).wf(),
            final(self).spec_show_popup() == !old(self).spec_show_popup(),
            final(self).spec_tab_index() == old(self).spec_tab_index(),
            final(self).spec_tab_titles() == old(self).spec_tab_titles(),
            final(self).spec_tick_rate_ms() == old(self).spec_tick_rate_ms(),
            final(self).spec_selection() == old(self).spec_selection(),
    {
        self.show_popup = !self.show_popup;
    }

    /// The command that switches playback to the selected track; none
    /// while the cursor is unset (the caller reports and moves on).
    pub fn switch(&self, mpd: &Mpd) -> (r: Option<DaemonRequest>)
        ensures
            r == switch_request(self.spec_selection().spec_selected()),
    {
        self.selection.commit(mpd)
    }
}

/// The command a commit of the cursor asks for: switch to the selected
/// entry, or nothing while the cursor is unset.
pub open spec fn switch_request(sel: Option<usize>) -> Option<DaemonRequest> {
    match sel {
        Some(i) => Some(DaemonRequest::SwitchTo(i)),
        None => None,
    }
}

} // verus!
