//! Requests that handlers and the event dispatcher address to the outside
//! collaborators. The session core never performs them itself: the
//! surrounding program sends each one to the voice transport or the audio
//! node after the state change has been committed.

use vstd::prelude::*;

use crate::track::Track;

verus! {

/// One request to a collaborator.
#[derive(Debug, PartialEq)]
pub enum Action {
    /// Ask the voice transport to join a channel for this guild.
    JoinVoice { guild_id: u64, channel_id: u64 },
    /// Ask the voice transport to disconnect this guild.
    LeaveVoice { guild_id: u64 },
    /// Ask the audio node to start this track for the guild.
    NodePlay { guild_id: u64, track: Track },
    /// Ask the audio node to stop whatever the guild is playing.
    NodeStop { guild_id: u64 },
}

} // verus!
