//! The event dispatcher: the single entry point through which
//! node-originated notifications reach a guild's session.

use vstd::prelude::*;

use crate::action::Action;
use crate::registry::Registry;
use crate::session::{advanced, PlayerPhase, Session};
use crate::track::{track_eq, Track};

verus! {

/// A notification from the audio node or the gateway, correlated to a
/// guild.
#[derive(Debug)]
pub enum NodeEvent {
    /// The node confirmed that this track is now playing.
    TrackStarted { guild_id: u64, track: Track },
    /// The node reports that this track finished; `reason` is the node's
    /// wording for why, kept for observability and ignored by the
    /// transition.
    TrackEnded { guild_id: u64, track: Track, reason: String },
    /// The node failed on this track. The error text is surfaced for
    /// observability only; the queue keeps advancing all the same.
    TrackException { guild_id: u64, track: Track, error: String },
    /// The node connection for this guild is gone.
    NodeDisconnected { guild_id: u64 },
}

/// How a track-end (or track-exception) notification changes the guild's
/// state. It applies only when the ended track still equals the loaded
/// one; a stale notification — one racing a skip that already advanced
/// the session — changes nothing and asks for nothing. When it applies,
/// the session advances to the queue head and the action, if any, is the
/// start request for that head.
pub open spec fn ended_rel(
    m0: Map<u64, Session>,
    m1: Map<u64, Session>,
    guild_id: u64,
    track: Track,
    r: Option<Action>,
) -> bool {
    if m0.contains_key(guild_id) && (m0[guild_id].now_playing matches Some(cur) && track_eq(
        cur,
        track,
    )) {
        &&& m1 == m0.insert(guild_id, m1[guild_id])
        &&& m1.contains_key(guild_id)
        &&& advanced(m0[guild_id], m1[guild_id])
        &&& r == (if m0[guild_id].queue@.len() > 0 {
            Some(Action::NodePlay { guild_id, track: m0[guild_id].queue@[0] })
        } else {
            None::<Action>
        })
    } else {
        &&& m1 == m0
        &&& r is None
    }
}

/// What one dispatched event does to the registry.
///
/// A started notification for a guild with a session records that track
/// as loaded and playing; for an unknown guild it is dropped. Ended and
/// exception notifications advance the queue as [`ended_rel`] says. A
/// disconnect tears the guild's session down, so any later handler finds
/// no session.
pub open spec fn event_rel(
    m0: Map<u64, Session>,
    m1: Map<u64, Session>,
    event: NodeEvent,
    r: Option<Action>,
) -> bool {
    match event {
        NodeEvent::TrackStarted { guild_id, track } => {
            if m0.contains_key(guild_id) {
                &&& m1 == m0.insert(guild_id, m1[guild_id])
                &&& m1.contains_key(guild_id)
                &&& m1[guild_id].guild_id == m0[guild_id].guild_id
                &&& m1[guild_id].voice_channel_id == m0[guild_id].voice_channel_id
                &&& m1[guild_id].queue@ == m0[guild_id].queue@
                &&& m1[guild_id].now_playing == Some(track)
                &&& m1[guild_id].phase is Playing
                &&& r is None
            } else {
                m1 == m0 && r is None
            }
        },
        NodeEvent::TrackEnded { guild_id, track, reason: _ } => ended_rel(
            m0,
            m1,
            guild_id,
            track,
            r,
        ),
        NodeEvent::TrackException { guild_id, track, error: _ } => ended_rel(
            m0,
            m1,
            guild_id,
            track,
            r,
        ),
        NodeEvent::NodeDisconnected { guild_id } => m1 == m0.remove(guild_id) && r is None,
    }
}

/// Apply an ended or exception notification: advance the queue unless the
/// notification is stale.
fn handle_ended(reg: &mut Registry, guild_id: u64, track: &Track) -> (r: Option<Action>)
    requires
        old(reg).wf(),
    ensures
        final(reg).wf(),
        ended_rel(old(reg)@, final(reg)@, guild_id, *track, r),
{
    let applies = match reg.get(guild_id) {
        None => false,
        Some(s) => match &s.now_playing {
            None => false,
            Some(cur) => cur.same_as(track),
        },
    };
    if !applies {
        return None;
    }
    match reg.take(guild_id) {
        None => None,
        Some(mut s) => {
            let started = s.advance();
            reg.put(s);
            proof {
                assert(reg@ =~= old(reg)@.insert(guild_id, reg@[guild_id]));
            }
            match started {
                Some(t) => Some(Action::NodePlay { guild_id, track: t }),
                None => None,
            }
        },
    }
}

/// Dispatch one node event to the matching session.
pub fn on_node_event(reg: &mut Registry, event: &NodeEvent) -> (r: Option<Action>)
    requires
        old(reg).wf(),
    ensures
        final(reg).wf(),
        event_rel(old(reg)@, final(reg)@, *event, r),
{
    match event {
        NodeEvent::TrackStarted { guild_id, track } => {
            match reg.take(*guild_id) {
                None => {
                    proof {
                        assert(reg@ =~= old(reg)@);
                    }
                    None
                },
                Some(mut s) => {
                    s.now_playing = Some(track.clone());
                    s.phase = PlayerPhase::Playing;
                    reg.put(s);
                    proof {
                        assert(reg@ =~= old(reg)@.insert(*guild_id, reg@[*guild_id]));
                    }
                    None
                },
            }
        },
        NodeEvent::TrackEnded { guild_id, track, reason: _ } => handle_ended(reg, *guild_id, track),
        NodeEvent::TrackException { guild_id, track, error: _ } => handle_ended(
            reg,
            *guild_id,
            track,
        ),
        NodeEvent::NodeDisconnected { guild_id } => {
            reg.remove(*guild_id);
            None
        },
    }
}

} // verus!
