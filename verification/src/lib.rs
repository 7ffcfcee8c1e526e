//! Per-guild audio-session orchestration for a voice bot.
//!
//! The crate keeps one playback session per guild: a queue of pending
//! tracks, the track currently loaded on the external audio node, and the
//! voice channel the session is bound to. Command handlers (play, skip,
//! stop, queue, clear, leave) validate a command against the session state,
//! mutate it, and report which requests the surrounding program must send
//! to the node or the voice transport. The event dispatcher applies
//! node-originated notifications (track started, track ended, track
//! exception, node disconnected) to the matching session, advancing the
//! queue when a track ends.

pub mod action;
pub mod events;
pub mod laws;
pub mod music;
pub mod registry;
pub mod session;
pub mod track;
