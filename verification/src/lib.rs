//! A playlist manager and playback controller for locally stored audio
//! tracks.
//!
//! The crate holds the decision logic of the player: the playback session
//! state machine that pause/resume/skip/seek commands drive, the in-memory
//! queue of a playlist with its first-match rename and remove policy, and
//! the naming helpers shared by the download and search operations.  The
//! surrounding runtime performs the audio output, storage and process
//! invocation, and consults this crate for every decision.

pub mod control;
pub mod error;
pub mod media;
pub mod queue;
pub mod session;
