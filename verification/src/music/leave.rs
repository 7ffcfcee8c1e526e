//! Leave the voice channel: tear the guild's session down and ask the
//! voice transport to disconnect.

use vstd::prelude::*;

use crate::action::Action;
use crate::music::MusicCommandError;
use crate::registry::Registry;
use crate::session::Session;

verus! {

/// What `leave` promises. A guild without a session is refused with
/// `NotConnected` and nothing changes, so a second `leave` in a row
/// reports that error rather than failing harder. Otherwise the session
/// is removed from the registry and the one action is a disconnect
/// request to the voice transport.
pub open spec fn leave_rel(
    m0: Map<u64, Session>,
    m1: Map<u64, Session>,
    guild_id: u64,
    r: Result<Action, MusicCommandError>,
) -> bool {
    if !m0.contains_key(guild_id) {
        &&& r == Err::<Action, MusicCommandError>(MusicCommandError::NotConnected)
        &&& m1 == m0
    } else {
        &&& r == Ok::<Action, MusicCommandError>(Action::LeaveVoice { guild_id })
        &&& m1 == m0.remove(guild_id)
    }
}

/// Disconnect this guild and drop its session.
pub fn leave(reg: &mut Registry, guild_id: u64) -> (r: Result<Action, MusicCommandError>)
    requires
        old(reg).wf(),
    ensures
        final(reg).wf(),
        leave_rel(old(reg)@, final(reg)@, guild_id, r),
{
    if !reg.contains(guild_id) {
        Err(MusicCommandError::NotConnected)
    } else {
        reg.remove(guild_id);
        Ok(Action::LeaveVoice { guild_id })
    }
}

} // verus!
