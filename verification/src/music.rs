//! Music command handling: the closed error taxonomy and one module per
//! user-facing command.

use vstd::prelude::*;

pub mod clear;
pub mod leave;
pub mod play;
pub mod queue;
pub mod skip;
pub mod stop;

verus! {

/// Every way a music command can be refused. Handlers report these as
/// ordinary outcomes; none of them aborts the process.
#[derive(Clone, Copy, Debug, PartialEq, Eq, Structural)]
pub enum MusicCommandError {
    /// The command was invoked outside a guild context.
    GuildOnly,
    /// The invoking user is not in a resolvable voice channel.
    NotInVoiceChannel,
    /// The command needs a currently loaded track and there is none.
    NoTrackIsPlaying,
    /// The guild has no session.
    NoActiveSession,
    /// The search query produced no playable track.
    TrackResolutionFailed,
    /// There is nothing to disconnect from.
    NotConnected,
    /// A collaborator failed mid-request; the session kept its last
    /// known-good state.
    NodeUnavailable,
}

impl MusicCommandError {
    /// The short, guild-visible reply for this condition.
    pub fn message(&self) -> (r: &'static str)
        ensures
            r@ =~= match *self {
                MusicCommandError::GuildOnly => "This command only works in a guild."@,
                MusicCommandError::NotInVoiceChannel => "Join a voice channel first."@,
                MusicCommandError::NoTrackIsPlaying => "Nothing is playing right now."@,
                MusicCommandError::NoActiveSession => "There is no active session for this guild."@,
                MusicCommandError::TrackResolutionFailed => "No playable track was found for that query."@,
                MusicCommandError::NotConnected => "The bot is not connected to a voice channel."@,
                MusicCommandError::NodeUnavailable => "The audio node did not answer; nothing was changed."@,
            },
    {
        match self {
            MusicCommandError::GuildOnly => "This command only works in a guild.",
            MusicCommandError::NotInVoiceChannel => "Join a voice channel first.",
            MusicCommandError::NoTrackIsPlaying => "Nothing is playing right now.",
            MusicCommandError::NoActiveSession => "There is no active session for this guild.",
            MusicCommandError::TrackResolutionFailed => "No playable track was found for that query.",
            MusicCommandError::NotConnected => "The bot is not connected to a voice channel.",
            MusicCommandError::NodeUnavailable => "The audio node did not answer; nothing was changed.",
        }
    }
}

/// Every music command is guild-only: the gateway hands over the guild id
/// when there is one, and an invocation without it is refused before any
/// session is touched.
pub fn require_guild(guild: Option<u64>) -> (r: Result<u64, MusicCommandError>)
    ensures
        match guild {
            Some(g) => r == Ok::<u64, MusicCommandError>(g),
            None => r == Err::<u64, MusicCommandError>(MusicCommandError::GuildOnly),
        },
{
    match guild {
        Some(g) => Ok(g),
        None => Err(MusicCommandError::GuildOnly),
    }
}

} // verus!
