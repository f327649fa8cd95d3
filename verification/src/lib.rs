//! Core logic of a terminal client for a music-playback daemon.
//!
//! The library mirrors daemon-reported playback state (status, queue,
//! playlists, current track), keeps a selection cursor over the queue,
//! maps key presses to actions, and computes everything the interactive
//! loop decides: which daemon command to issue, when to refresh, and the
//! strings shown for tracks and progress.  Everything here is plain data
//! in and plain data out; the network connection, terminal input and
//! rendering live with the callers.

pub mod config;
pub mod input;
pub mod mpd;
pub mod selection;
pub mod text;
pub mod ui;
