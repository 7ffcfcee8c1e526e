//! The promises that hold across whole command and event sequences,
//! proved from the handlers' contracts alone.

use vstd::prelude::*;

use crate::action::Action;
use crate::events::ended_rel;
use crate::music::clear::clear_rel;
use crate::music::leave::leave_rel;
use crate::music::play::play_ok_rel;
use crate::music::queue::queue_rel;
use crate::music::skip::skip_rel;
use crate::music::stop::stop_rel;
use crate::music::MusicCommandError;
use crate::registry::get_or_create_rel;
use crate::session::Session;
use crate::track::{track_eq, Track};

verus! {

/// At most one session exists per guild at any time: the registry's view
/// is a map from guild id to session, so no guild can hold two, and a
/// well-formed registry files every session under its own guild id.
pub proof fn lemma_one_session_per_guild(r: &crate::registry::Registry, guild_id: u64)
    requires
        r.wf(),
        r@.contains_key(guild_id),
    ensures
        r@[guild_id].guild_id == guild_id,
        r@[guild_id].wf(),
{
}

/// A guild never gets a second session from lookup either: `get_or_create`
/// never makes one when a session already exists — run
/// again for the same guild it hands back the very session it just
/// created or found, and the registry does not change again.
pub proof fn lemma_get_or_create_at_most_one(
    m0: Map<u64, Session>,
    m1: Map<u64, Session>,
    m2: Map<u64, Session>,
    guild_id: u64,
    s1: Session,
    s2: Session,
)
    requires
        get_or_create_rel(m0, m1, guild_id, s1),
        get_or_create_rel(m1, m2, guild_id, s2),
    ensures
        m2 == m1,
        s2 == s1,
        !m0.contains_key(guild_id) ==> m1 == m0.insert(guild_id, s1),
        m0.contains_key(guild_id) ==> m1 == m0,
{
}

/// `stop` keeps the queue intact, and a later `play` with an empty
/// argument resumes from its head: the head becomes the loaded track, the
/// rest stays queued, and the one action asks the node to start that
/// head. Stated for a session that was playing in a bound voice channel.
pub proof fn lemma_stop_preserves_queue_and_play_resumes(
    m0: Map<u64, Session>,
    m1: Map<u64, Session>,
    m2: Map<u64, Session>,
    guild_id: u64,
    channel_id: u64,
    r1: Result<Action, MusicCommandError>,
    acts: Seq<Action>,
)
    requires
        m0.contains_key(guild_id),
        m0[guild_id].now_playing is Some,
        m0[guild_id].voice_channel_id is Some,
        m0[guild_id].queue@.len() > 0,
        stop_rel(m0, m1, guild_id, r1),
        play_ok_rel(m1, m2, guild_id, channel_id, Seq::<Track>::empty(), acts),
    ensures
        m1[guild_id].queue@ == m0[guild_id].queue@,
        m2[guild_id].now_playing == Some(m0[guild_id].queue@[0]),
        m2[guild_id].queue@ == m0[guild_id].queue@.skip(1),
        acts == seq![
            Action::NodePlay { guild_id, track: m0[guild_id].queue@[0] },
        ],
{
    assert(m1[guild_id].queue@ + Seq::<Track>::empty() =~= m1[guild_id].queue@);
    assert(Seq::<Action>::empty() + seq![
        Action::NodePlay { guild_id, track: m0[guild_id].queue@[0] },
    ] =~= seq![Action::NodePlay { guild_id, track: m0[guild_id].queue@[0] }]);
}

/// `clear` followed by the queue view returns an empty sequence, while
/// the loaded track is untouched.
pub proof fn lemma_clear_then_queue_view_empty(
    m0: Map<u64, Session>,
    m1: Map<u64, Session>,
    guild_id: u64,
    r1: Result<(), MusicCommandError>,
    r2: Result<crate::music::queue::QueueSnapshot, MusicCommandError>,
)
    requires
        m0.contains_key(guild_id),
        clear_rel(m0, m1, guild_id, r1),
        queue_rel(m1, guild_id, r2),
    ensures
        r2 matches Ok(snap) && snap.upcoming@ == Seq::<Track>::empty() && snap.now_playing
            == m0[guild_id].now_playing,
{
}

/// `leave` is idempotent in its reporting: the first call removes the
/// guild's session from the registry, and a second call in a row answers
/// `NotConnected` without changing anything further.
pub proof fn lemma_leave_twice(
    m0: Map<u64, Session>,
    m1: Map<u64, Session>,
    m2: Map<u64, Session>,
    guild_id: u64,
    r1: Result<Action, MusicCommandError>,
    r2: Result<Action, MusicCommandError>,
)
    requires
        m0.contains_key(guild_id),
        leave_rel(m0, m1, guild_id, r1),
        leave_rel(m1, m2, guild_id, r2),
    ensures
        r1 == Ok::<Action, MusicCommandError>(Action::LeaveVoice { guild_id }),
        !m1.contains_key(guild_id),
        r2 == Err::<Action, MusicCommandError>(MusicCommandError::NotConnected),
        m2 == m1,
{
}

/// Round trip: while one track is loaded, playing another only queues it;
/// when the node then reports the loaded track ended, the queued track
/// becomes the loaded one, the queue empties, and the node is asked to
/// start it.
pub proof fn lemma_play_then_ended_round_trip(
    m0: Map<u64, Session>,
    m1: Map<u64, Session>,
    m2: Map<u64, Session>,
    guild_id: u64,
    channel_id: u64,
    track_a: Track,
    track_b: Track,
    acts: Seq<Action>,
    r: Option<Action>,
)
    requires
        m0.contains_key(guild_id),
        m0[guild_id].now_playing == Some(track_a),
        m0[guild_id].voice_channel_id is Some,
        m0[guild_id].queue@.len() == 0,
        play_ok_rel(m0, m1, guild_id, channel_id, seq![track_b], acts),
        ended_rel(m1, m2, guild_id, track_a, r),
    ensures
        m1[guild_id].now_playing == Some(track_a),
        m1[guild_id].queue@ == seq![track_b],
        acts == Seq::<Action>::empty(),
        m2[guild_id].now_playing == Some(track_b),
        m2[guild_id].queue@.len() == 0,
        r == Some(Action::NodePlay { guild_id, track: track_b }),
{
    assert(m0[guild_id].queue@ + seq![track_b] =~= seq![track_b]);
    assert(Seq::<Action>::empty() + Seq::<Action>::empty() =~= Seq::<Action>::empty());
}

/// A stale track-end is rejected: when the node reports the end of a
/// track that no longer equals the loaded one — a skip already advanced
/// the session — the registry after the event equals the registry before
/// it, and no request is issued.
pub proof fn lemma_stale_ended_ignored(
    m0: Map<u64, Session>,
    m1: Map<u64, Session>,
    guild_id: u64,
    current: Track,
    reported: Track,
    r: Option<Action>,
)
    requires
        m0.contains_key(guild_id),
        m0[guild_id].now_playing == Some(current),
        !track_eq(current, reported),
        ended_rel(m0, m1, guild_id, reported, r),
    ensures
        m1 == m0,
        r is None,
{
}

/// `skip` with no loaded track answers `NoTrackIsPlaying` and leaves the
/// registry — the queue included — exactly as it was.
pub proof fn lemma_skip_without_track(
    m0: Map<u64, Session>,
    m1: Map<u64, Session>,
    guild_id: u64,
    r: Result<Action, MusicCommandError>,
)
    requires
        m0.contains_key(guild_id),
        m0[guild_id].now_playing is None,
        skip_rel(m0, m1, guild_id, r),
    ensures
        r == Err::<Action, MusicCommandError>(MusicCommandError::NoTrackIsPlaying),
        m1 == m0,
        m1[guild_id].queue@ == m0[guild_id].queue@,
{
}

} // verus!
