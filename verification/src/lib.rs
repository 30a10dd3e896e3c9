//! A player for FLAC files: the playlist, the playback engine that
//! follows one stream at a time, and the window's reactions to its toolbar.
//!
//! The library decides; a shell around it opens files, renders audio and
//! draws the window. Every operation takes plain values and hands back the
//! commands and events that the shell has to carry out.
//!
//! - [`engine`]: the state of the one stream that may be playing.
//! - [`playlist`]: the queue, the current track, and the engine in its
//!   charge; [`model`] says in plain mathematics what each of its steps
//!   does and what holds of every run of them.
//! - [`win`]: the window's model and what each message to it sets in
//!   motion.
//! - [`files`], [`m3u`], [`probe`], [`clock`]: which files are taken, the
//!   playlist file, the cause of a failure to open, and times as text.

pub mod clock;
pub mod engine;
pub mod error;
pub mod files;
pub mod m3u;
pub mod model;
pub mod playlist;
pub mod probe;
pub mod text;
pub mod track;
pub mod win;
