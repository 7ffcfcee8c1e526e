//! Skip the current track: ask the node to stop it and let the event
//! dispatcher's normal track-end handling pull the next queue entry, so
//! the advance logic exists only once.

use vstd::prelude::*;

use crate::action::Action;
use crate::music::MusicCommandError;
use crate::registry::Registry;
use crate::session::Session;

verus! {

/// What `skip` promises. The errors mirror `stop`; on success the session
/// itself is left untouched — the queue advances only when the node
/// reports the track ended — and the one action is a stop request.
pub open spec fn skip_rel(
    m0: Map<u64, Session>,
    m1: Map<u64, Session>,
    guild_id: u64,
    r: Result<Action, MusicCommandError>,
) -> bool {
    if !m0.contains_key(guild_id) {
        &&& r == Err::<Action, MusicCommandError>(MusicCommandError::NoActiveSession)
        &&& m1 == m0
    } else if m0[guild_id].now_playing is None {
        &&& r == Err::<Action, MusicCommandError>(MusicCommandError::NoTrackIsPlaying)
        &&& m1 == m0
    } else {
        &&& r == Ok::<Action, MusicCommandError>(Action::NodeStop { guild_id })
        &&& m1 == m0
    }
}

/// Skip the current track for this guild.
pub fn skip(reg: &mut Registry, guild_id: u64) -> (r: Result<Action, MusicCommandError>)
    requires
        old(reg).wf(),
    ensures
        final(reg).wf(),
        skip_rel(old(reg)@, final(reg)@, guild_id, r),
{
    match reg.get(guild_id) {
        None => Err(MusicCommandError::NoActiveSession),
        Some(s) => {
            if s.now_playing.is_none() {
                Err(MusicCommandError::NoTrackIsPlaying)
            } else {
                Ok(Action::NodeStop { guild_id })
            }
        },
    }
}

} // verus!
