//! Empty the queue. The currently loaded track keeps playing; only the
//! pending entries are dropped, atomically.

use vstd::prelude::*;

use crate::music::MusicCommandError;
use crate::registry::Registry;
use crate::session::Session;

verus! {

/// What `clear` promises. Without a session the guild is refused with
/// `NoActiveSession` and nothing changes. Otherwise the queue becomes
/// empty while the loaded track, phase, voice binding and every other
/// guild stay as they were.
pub open spec fn clear_rel(
    m0: Map<u64, Session>,
    m1: Map<u64, Session>,
    guild_id: u64,
    r: Result<(), MusicCommandError>,
) -> bool {
    if !m0.contains_key(guild_id) {
        &&& r == Err::<(), MusicCommandError>(MusicCommandError::NoActiveSession)
        &&& m1 == m0
    } else {
        &&& r == Ok::<(), MusicCommandError>(())
        &&& m1 == m0.insert(guild_id, m1[guild_id])
        &&& m1.contains_key(guild_id)
        &&& m1[guild_id].guild_id == m0[guild_id].guild_id
        &&& m1[guild_id].voice_channel_id == m0[guild_id].voice_channel_id
        &&& m1[guild_id].queue@ == Seq::<crate::track::Track>::empty()
        &&& m1[guild_id].now_playing == m0[guild_id].now_playing
        &&& m1[guild_id].phase == m0[guild_id].phase
    }
}

/// Empty this guild's queue.
pub fn clear(reg: &mut Registry, guild_id: u64) -> (r: Result<(), MusicCommandError>)
    requires
        old(reg).wf(),
    ensures
        final(reg).wf(),
        clear_rel(old(reg)@, final(reg)@, guild_id, r),
{
    match reg.take(guild_id) {
        None => {
            proof {
                assert(reg@ =~= old(reg)@);
            }
            Err(MusicCommandError::NoActiveSession)
        },
        Some(mut s) => {
            s.queue.clear();
            reg.put(s);
            proof {
                assert(reg@ =~= old(reg)@.insert(guild_id, reg@[guild_id]));
            }
            Ok(())
        },
    }
}

} // verus!
