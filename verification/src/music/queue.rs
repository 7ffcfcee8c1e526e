//! Show the queue: an ordered snapshot of the pending tracks together
//! with the currently loaded one. An empty queue is a valid answer, not
//! an error.

use vstd::prelude::*;

use crate::music::MusicCommandError;
use crate::registry::Registry;
use crate::session::Session;
use crate::track::Track;

verus! {

/// A copy of what one guild is playing and has queued, in order.
#[derive(Debug)]
pub struct QueueSnapshot {
    pub now_playing: Option<Track>,
    pub upcoming: Vec<Track>,
}

/// What `queue` promises: a guild without a session is refused with
/// `NoActiveSession`; otherwise the snapshot repeats the session's loaded
/// track and its pending tracks exactly and in order.
pub open spec fn queue_rel(
    m: Map<u64, Session>,
    guild_id: u64,
    r: Result<QueueSnapshot, MusicCommandError>,
) -> bool {
    if !m.contains_key(guild_id) {
        r == Err::<QueueSnapshot, MusicCommandError>(MusicCommandError::NoActiveSession)
    } else {
        r matches Ok(snap) && snap.now_playing == m[guild_id].now_playing && snap.upcoming@
            == m[guild_id].queue@
    }
}

/// Snapshot this guild's queue and loaded track; the registry is only
/// read.
pub fn queue(reg: &Registry, guild_id: u64) -> (r: Result<QueueSnapshot, MusicCommandError>)
    ensures
        queue_rel(reg@, guild_id, r),
{
    match reg.get(guild_id) {
        None => Err(MusicCommandError::NoActiveSession),
        Some(s) => {
            let now_playing = match &s.now_playing {
                Some(t) => Some(t.clone()),
                None => None,
            };
            let mut upcoming: Vec<Track> = Vec::new();
            let mut i: usize = 0;
            while i < s.queue.len()
                invariant
                    i <= s.queue.len(),
                    upcoming@ == s.queue@.take(i as int),
                decreases s.queue.len() - i,
            {
                upcoming.push(s.queue[i].clone());
                proof {
                    assert(upcoming@ =~= s.queue@.take(i as int + 1));
                }
                i += 1;
            }
            proof {
                assert(upcoming@ =~= s.queue@);
            }
            Ok(QueueSnapshot { now_playing, upcoming })
        },
    }
}

} // verus!
