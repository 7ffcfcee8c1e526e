//! Play: enqueue what the search resolved (or resume after a stop),
//! creating the guild's session and joining the user's voice channel on
//! first use, and starting the queue head when nothing is loaded.

use vstd::prelude::*;

use crate::action::Action;
use crate::music::MusicCommandError;
use crate::registry::Registry;
use crate::session::{PlayerPhase, Session};
use crate::track::Track;

verus! {

/// What the `play` handler is given. Resolving a query against the audio
/// node happens outside the session core; the handler only sees the
/// outcome: the resolved tracks, the fact that resolution failed, or an
/// empty argument, which asks to resume from the head of the queue.
#[derive(Debug)]
pub enum PlayInput {
    /// `play` was invoked with no argument: start the queue head if
    /// nothing is loaded.
    Resume,
    /// The node search resolved the query to these tracks, in order.
    Resolved(Vec<Track>),
    /// The node search failed or answered nothing.
    ResolutionFailed,
}

/// The successful `play` transition, shared by the enqueue and the resume
/// form. `new_tracks` go to the back of the queue (none on resume); when
/// no track was loaded the combined queue's head is dequeued and a start
/// request for it is issued; the session is created and the user's voice
/// channel joined when the guild had neither. Every other guild is
/// untouched.
pub open spec fn play_ok_rel(
    m0: Map<u64, Session>,
    m1: Map<u64, Session>,
    guild_id: u64,
    channel_id: u64,
    new_tracks: Seq<Track>,
    acts: Seq<Action>,
) -> bool {
    let q0 = if m0.contains_key(guild_id) {
        m0[guild_id].queue@
    } else {
        Seq::<Track>::empty()
    };
    let np0 = if m0.contains_key(guild_id) {
        m0[guild_id].now_playing
    } else {
        None::<Track>
    };
    let ch0 = if m0.contains_key(guild_id) {
        m0[guild_id].voice_channel_id
    } else {
        None::<u64>
    };
    let q1 = q0 + new_tracks;
    let joins = ch0 is None;
    let starts = np0 is None && q1.len() > 0;
    &&& m1.contains_key(guild_id)
    &&& m1 == m0.insert(guild_id, m1[guild_id])
    &&& m1[guild_id].guild_id == guild_id
    &&& m1[guild_id].voice_channel_id == (if joins {
        Some(channel_id)
    } else {
        ch0
    })
    &&& if starts {
        &&& m1[guild_id].now_playing == Some(q1[0])
        &&& m1[guild_id].phase is Loading
        &&& m1[guild_id].queue@ == q1.skip(1)
    } else {
        &&& m1[guild_id].now_playing == np0
        &&& m1[guild_id].phase == (if m0.contains_key(guild_id) {
            m0[guild_id].phase
        } else {
            PlayerPhase::Idle
        })
        &&& m1[guild_id].queue@ == q1
    }
    &&& acts == (if joins {
        seq![Action::JoinVoice { guild_id, channel_id }]
    } else {
        Seq::<Action>::empty()
    }) + (if starts {
        seq![Action::NodePlay { guild_id, track: q1[0] }]
    } else {
        Seq::<Action>::empty()
    })
}

/// What `play` promises. A user outside a voice channel is refused with
/// `NotInVoiceChannel`, a failed or empty resolution with
/// `TrackResolutionFailed`; both leave every session as it was. Otherwise
/// the transition is [`play_ok_rel`] and the returned actions are to be
/// sent in order.
pub open spec fn play_rel(
    m0: Map<u64, Session>,
    m1: Map<u64, Session>,
    guild_id: u64,
    user_channel: Option<u64>,
    input: PlayInput,
    r: Result<Vec<Action>, MusicCommandError>,
) -> bool {
    match user_channel {
        None => {
            &&& r == Err::<Vec<Action>, MusicCommandError>(MusicCommandError::NotInVoiceChannel)
            &&& m1 == m0
        },
        Some(ch) => match input {
            PlayInput::ResolutionFailed => {
                &&& r == Err::<Vec<Action>, MusicCommandError>(
                    MusicCommandError::TrackResolutionFailed,
                )
                &&& m1 == m0
            },
            PlayInput::Resolved(ts) => if ts@.len() == 0 {
                &&& r == Err::<Vec<Action>, MusicCommandError>(
                    MusicCommandError::TrackResolutionFailed,
                )
                &&& m1 == m0
            } else {
                r matches Ok(acts) && play_ok_rel(m0, m1, guild_id, ch, ts@, acts@)
            },
            PlayInput::Resume => r matches Ok(acts) && play_ok_rel(
                m0,
                m1,
                guild_id,
                ch,
                Seq::<Track>::empty(),
                acts@,
            ),
        },
    }
}

/// Handle a `play` invocation for this guild. `user_channel` is the voice
/// channel the invoking user sits in, if the gateway could resolve one.
pub fn play(
    reg: &mut Registry,
    guild_id: u64,
    user_channel: Option<u64>,
    input: PlayInput,
) -> (r: Result<Vec<Action>, MusicCommandError>)
    requires
        old(reg).wf(),
    ensures
        final(reg).wf(),
        play_rel(old(reg)@, final(reg)@, guild_id, user_channel, input, r),
{
    let channel_id = match user_channel {
        None => {
            return Err(MusicCommandError::NotInVoiceChannel);
        },
        Some(c) => c,
    };
    let mut new_tracks: Vec<Track> = match input {
        PlayInput::ResolutionFailed => {
            return Err(MusicCommandError::TrackResolutionFailed);
        },
        PlayInput::Resolved(ts) => {
            if ts.len() == 0 {
                return Err(MusicCommandError::TrackResolutionFailed);
            }
            ts
        },
        PlayInput::Resume => Vec::new(),
    };
    let ghost new_tracks0 = new_tracks@;
    let mut actions: Vec<Action> = Vec::new();
    let mut s = match reg.take(guild_id) {
        Some(s) => s,
        None => Session::new(guild_id),
    };
    let ghost q1 = s.queue@ + new_tracks0;
    if s.voice_channel_id.is_none() {
        s.voice_channel_id = Some(channel_id);
        actions.push(Action::JoinVoice { guild_id, channel_id });
    }
    s.queue.append(&mut new_tracks);
    if s.now_playing.is_none() && s.queue.len() > 0 {
        let started = s.advance();
        match started {
            Some(t) => {
                actions.push(Action::NodePlay { guild_id, track: t });
            },
            None => (),
        }
    }
    reg.put(s);
    proof {
        assert(reg@ =~= old(reg)@.insert(guild_id, reg@[guild_id]));
        let acts_spec = (if !(old(reg)@.contains_key(guild_id)
            && old(reg)@[guild_id].voice_channel_id is Some) {
            seq![Action::JoinVoice { guild_id, channel_id }]
        } else {
            Seq::<Action>::empty()
        }) + (if !(old(reg)@.contains_key(guild_id) && old(reg)@[guild_id].now_playing is Some)
            && q1.len() > 0 {
            seq![Action::NodePlay { guild_id, track: q1[0] }]
        } else {
            Seq::<Action>::empty()
        });
        assert(actions@ =~= acts_spec);
    }
    Ok(actions)
}

} // verus!
