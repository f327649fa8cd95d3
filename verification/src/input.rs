//! Decisions of the interactive loop: which action a key press asks
//! for, what applying an action does to the state, when to refresh, and
//! how long to wait for input.  The loop itself — terminal polling,
//! drawing, daemon round-trips — lives with the caller, which feeds
//! events in and carries the returned commands out.

use crate::config::{KeyCode, Keys};
use crate::mpd::{
    duration_of_status, opt_song_matches, pos_of_status, volume_request, DaemonRequest, Mpd,
    Playlist, Song, Status,
};
use crate::selection::{next_sel, prev_sel, rebind_sel};
use crate::ui::{switch_request, App};
use vstd::prelude::*;

verus! {

/// What a key press asks the client to do.
#[derive(Clone, Copy, PartialEq, Eq, Structural, Debug)]
pub enum Action {
    Quit,
    SwitchTab,
    TogglePause,
    VolumeDown,
    VolumeUp,
    SelectNext,
    SelectPrevious,
    CommitSelection,
    ToggleHelpOverlay,
}

/// The action a key maps to under a binding table; the first matching
/// binding wins, in this fixed order.
pub open spec fn dispatch_spec(key: KeyCode, keys: Keys) -> Option<Action> {
    if key == keys.spec_queue_next() {
        Some(Action::SelectNext)
    } else if key == keys.spec_queue_prev() {
        Some(Action::SelectPrevious)
    } else if key == keys.spec_vol_down() {
        Some(Action::VolumeDown)
    } else if key == keys.spec_vol_up() {
        Some(Action::VolumeUp)
    } else if key == keys.spec_switch_tab() {
        Some(Action::SwitchTab)
    } else if key == keys.spec_toggle_pause() {
        Some(Action::TogglePause)
    } else if key == keys.spec_switch_song() {
        Some(Action::CommitSelection)
    } else if key == keys.spec_quit() {
        Some(Action::Quit)
    } else {
        None
    }
}

/// Map a key press to an action under the binding table.
pub fn dispatch(key: KeyCode, keys: &Keys) -> (r: Option<Action>)
    ensures
        r == dispatch_spec(key, *keys),
{
    if key == keys.queue_next() {
        Some(Action::SelectNext)
    } else if key == keys.queue_prev() {
        Some(Action::SelectPrevious)
    } else if key == keys.vol_down() {
        Some(Action::VolumeDown)
    } else if key == keys.vol_up() {
        Some(Action::VolumeUp)
    } else if key == keys.switch_tab() {
        Some(Action::SwitchTab)
    } else if key == keys.toggle_pause() {
        Some(Action::TogglePause)
    } else if key == keys.switch_song() {
        Some(Action::CommitSelection)
    } else if key == keys.quit() {
        Some(Action::Quit)
    } else {
        None
    }
}

/// Whether a key is the fixed help-overlay toggle.  This check is
/// independent of the configurable bindings: `?` always toggles the
/// overlay.
pub fn is_help_toggle(key: KeyCode) -> (r: bool)
    ensures
        r == (key == KeyCode::Char('?')),
{
    key == KeyCode::Char('?')
}

/// How one action changes the state and what it hands back: `pre` and
/// `post` are the application state around the step, `volume` is the
/// mirrored volume the step read, and `r` is the daemon command to
/// carry out (if any) together with whether the session ends.
pub open spec fn apply_transition(
    pre: App,
    post: App,
    volume: i8,
    action: Action,
    r: (Option<DaemonRequest>, bool),
) -> bool {
    match action {
        Action::Quit => post == pre && r == (None::<DaemonRequest>, true),
        Action::SwitchTab => {
            &&& post.spec_tab_index() == (pre.spec_tab_index() + 1) % (
            pre.spec_tab_titles().len() as int)
            &&& post.spec_tab_titles() == pre.spec_tab_titles()
            &&& post.spec_show_popup() == pre.spec_show_popup()
            &&& post.spec_tick_rate_ms() == pre.spec_tick_rate_ms()
            &&& post.spec_selection() == pre.spec_selection()
            &&& r == (None::<DaemonRequest>, false)
        },
        Action::TogglePause => post == pre && r == (
            Some(DaemonRequest::TogglePause),
            false,
        ),
        Action::VolumeDown => post == pre && r == (volume_request(volume, -5i8), false),
        Action::VolumeUp => post == pre && r == (volume_request(volume, 5i8), false),
        Action::SelectNext => {
            &&& post.spec_selection().spec_selected() == next_sel(
                pre.spec_selection().spec_selected(),
                pre.spec_selection().spec_bound(),
            )
            &&& post.spec_selection().spec_bound() == pre.spec_selection().spec_bound()
            &&& post.spec_tab_index() == pre.spec_tab_index()
            &&& post.spec_tab_titles() == pre.spec_tab_titles()
            &&& post.spec_show_popup() == pre.spec_show_popup()
            &&& post.spec_tick_rate_ms() == pre.spec_tick_rate_ms()
            &&& r == (None::<DaemonRequest>, false)
        },
        Action::SelectPrevious => {
            &&& post.spec_selection().spec_selected() == prev_sel(
                pre.spec_selection().spec_selected(),
                pre.spec_selection().spec_bound(),
            )
            &&& post.spec_selection().spec_bound() == pre.spec_selection().spec_bound()
            &&& post.spec_tab_index() == pre.spec_tab_index()
            &&& post.spec_tab_titles() == pre.spec_tab_titles()
            &&& post.spec_show_popup() == pre.spec_show_popup()
            &&& post.spec_tick_rate_ms() == pre.spec_tick_rate_ms()
            &&& r == (None::<DaemonRequest>, false)
        },
        Action::CommitSelection => post == pre && r == (
            switch_request(pre.spec_selection().spec_selected()),
            false,
        ),
        Action::ToggleHelpOverlay => {
            &&& post.spec_show_popup() == !pre.spec_show_popup()
            &&& post.spec_tab_index() == pre.spec_tab_index()
            &&& post.spec_tab_titles() == pre.spec_tab_titles()
            &&& post.spec_tick_rate_ms() == pre.spec_tick_rate_ms()
            &&& post.spec_selection() == pre.spec_selection()
            &&& r == (None::<DaemonRequest>, false)
        },
    }
}

/// Apply one action to the state.  The returned command is for the
/// caller to send to the daemon (a failure there is reported and
/// swallowed, never fatal); the returned flag says whether the session
/// ends.  Each case re-reads current state, so a retried action never
/// acts on stale values.
pub fn apply(app: &mut App, mpd: &Mpd, action: Action) -> (r: (Option<DaemonRequest>, bool))
    requires
        old(app).wf(),
    ensures
        final(app).wf(),
        apply_transition(*old(app), *final(app), mpd.spec_status().volume, action, r),
{
    match action {
        Action::Quit => (None, true),
        Action::SwitchTab => {
            app.tab_next();
            (None, false)
        },
        Action::TogglePause => (Some(mpd.issue_toggle_pause()), false),
        Action::VolumeDown => (mpd.issue_volume(-5), false),
        Action::VolumeUp => (mpd.issue_volume(5), false),
        Action::SelectNext => {
            app.next();
            (None, false)
        },
        Action::SelectPrevious => {
            app.previous();
            (None, false)
        },
        Action::CommitSelection => (app.switch(mpd), false),
        Action::ToggleHelpOverlay => {
            app.toggle_popup();
            (None, false)
        },
    }
}

/// One refresh of the mirror, reconciled with the selection cursor: the
/// snapshots are replaced and the cursor is re-clamped to the length of
/// the new queue snapshot in the same step, so the bound and the
/// snapshot can never disagree.  The caller hands in what it fetched;
/// a failed fetch of queue, playlists or current track arrives as
/// `None`, while a failed status fetch skips the refresh entirely.
pub fn refresh(
    mpd: &mut Mpd,
    app: &mut App,
    status: Status,
    curr_song: Option<Song>,
    queue: Option<Vec<Song>>,
    playlists: Option<Vec<Playlist>>,
)
    requires
        old(app).wf(),
    ensures
        final(app).wf(),
        final(mpd).spec_status() == status,
        final(mpd).spec_curr_song() == curr_song,
        final(mpd).spec_queue() == queue,
        final(mpd).spec_playlists() == playlists,
        final(mpd).spec_curr_playing_pos() == pos_of_status(status),
        opt_song_matches(old(mpd).spec_curr_song(), curr_song)
            ==> final(mpd).spec_curr_song_duration() == old(mpd).spec_curr_song_duration(),
        !opt_song_matches(old(mpd).spec_curr_song(), curr_song)
            ==> final(mpd).spec_curr_song_duration() == duration_of_status(status, 0),
        final(app).spec_selection().spec_bound() == final(mpd).spec_queue_len(),
        final(app).spec_selection().spec_selected() == rebind_sel(
            old(app).spec_selection().spec_selected(),
            final(mpd).spec_queue_len(),
        ),
        final(app).spec_tab_index() == old(app).spec_tab_index(),
        final(app).spec_tab_titles() == old(app).spec_tab_titles(),
        final(app).spec_show_popup() == old(app).spec_show_popup(),
        final(app).spec_tick_rate_ms() == old(app).spec_tick_rate_ms(),
{
    mpd.update(status, curr_song, queue, playlists);
    app.rebind(mpd.queue_len());
}

/// How long to wait for input before the next tick: the remainder of
/// the tick, or nothing once the tick has elapsed.
pub fn poll_timeout_ms(tick_rate_ms: u64, elapsed_ms: u64) -> (r: u64)
    ensures
        elapsed_ms >= tick_rate_ms ==> r == 0,
        elapsed_ms < tick_rate_ms ==> r == tick_rate_ms - elapsed_ms,
{
    if elapsed_ms >= tick_rate_ms {
        0
    } else {
        tick_rate_ms - elapsed_ms
    }
}

/// Whether a full tick has elapsed, so the mirror is due for a refresh.
pub fn should_refresh(tick_rate_ms: u64, elapsed_ms: u64) -> (r: bool)
    ensures
        r == (elapsed_ms >= tick_rate_ms),
{
    elapsed_ms >= tick_rate_ms
}

} // verus!
