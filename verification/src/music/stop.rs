//! Stop the playback: halt the current track but keep the queue, so a
//! later `play` can resume from its head.

use vstd::prelude::*;

use crate::action::Action;
use crate::music::MusicCommandError;
use crate::registry::Registry;
use crate::session::{PlayerPhase, Session};

verus! {

/// What `stop` promises. A guild without a session is refused with
/// `NoActiveSession`, a session without a loaded track with
/// `NoTrackIsPlaying`; both leave the registry as it was. Otherwise the
/// loaded track and the playback phase are cleared together, the queue and
/// the voice binding survive, every other guild is untouched, and the one
/// action is a stop request to the node.
pub open spec fn stop_rel(
    m0: Map<u64, Session>,
    m1: Map<u64, Session>,
    guild_id: u64,
    r: Result<Action, MusicCommandError>,
) -> bool {
    if !m0.contains_key(guild_id) {
        &&& r == Err::<Action, MusicCommandError>(MusicCommandError::NoActiveSession)
        &&& m1 == m0
    } else if m0[guild_id].now_playing is None {
        &&& r == Err::<Action, MusicCommandError>(MusicCommandError::NoTrackIsPlaying)
        &&& m1 == m0
    } else {
        &&& r == Ok::<Action, MusicCommandError>(Action::NodeStop { guild_id })
        &&& m1 == m0.insert(guild_id, m1[guild_id])
        &&& m1.contains_key(guild_id)
        &&& m1[guild_id].guild_id == m0[guild_id].guild_id
        &&& m1[guild_id].voice_channel_id == m0[guild_id].voice_channel_id
        &&& m1[guild_id].queue@ == m0[guild_id].queue@
        &&& m1[guild_id].now_playing is None
        &&& m1[guild_id].phase is Idle
    }
}

/// Stop the playback for this guild.
pub fn stop(reg: &mut Registry, guild_id: u64) -> (r: Result<Action, MusicCommandError>)
    requires
        old(reg).wf(),
    ensures
        final(reg).wf(),
        stop_rel(old(reg)@, final(reg)@, guild_id, r),
{
    match reg.take(guild_id) {
        None => {
            proof {
                assert(reg@ =~= old(reg)@);
            }
            Err(MusicCommandError::NoActiveSession)
        },
        Some(mut s) => {
            if s.now_playing.is_none() {
                reg.put(s);
                proof {
                    assert(reg@ =~= old(reg)@);
                }
                Err(MusicCommandError::NoTrackIsPlaying)
            } else {
                s.now_playing = None;
                s.phase = PlayerPhase::Idle;
                reg.put(s);
                proof {
                    assert(reg@ =~= old(reg)@.insert(guild_id, reg@[guild_id]));
                }
                Ok(Action::NodeStop { guild_id })
            }
        },
    }
}

} // verus!
