//! The per-guild session: current track, pending queue, playback phase and
//! bound voice channel.

use vstd::prelude::*;

use crate::track::Track;

verus! {

/// Where playback stands for one guild.
///
/// `Idle` is the only phase without a loaded track; `Loading` means the
/// session has asked the node to start a track and awaits the started
/// notification; `Playing` and `Paused` describe a confirmed track.
#[derive(Clone, Copy, Debug, PartialEq, Eq, Structural)]
pub enum PlayerPhase {
    Idle,
    Loading,
    Playing,
    Paused,
}

/// One guild's playback state. The session does not talk to the node
/// itself: handlers and the event dispatcher mutate it and name the node
/// requests the surrounding program must make.
#[derive(Debug)]
pub struct Session {
    /// Immutable key: the guild this session belongs to.
    pub guild_id: u64,
    /// The voice channel the session is bound to, set when playback first
    /// joins and cleared only by tearing the session down.
    pub voice_channel_id: Option<u64>,
    /// Pending tracks, first in first out.
    pub queue: Vec<Track>,
    /// The track currently loaded on the node, if any.
    pub now_playing: Option<Track>,
    /// Playback phase; consistent with `now_playing`, see [`Session::wf`].
    pub phase: PlayerPhase,
}

impl Session {
    /// A track is loaded exactly when the phase says one is: a phase of
    /// `Loading`, `Playing` or `Paused` with no track (or `Idle` with one)
    /// is the forbidden partial state.
    pub open spec fn wf(self) -> bool {
        self.now_playing is Some <==> !(self.phase is Idle)
    }

    /// An empty session for a guild: nothing queued, nothing loaded, no
    /// voice channel bound yet.
    pub fn new(guild_id: u64) -> (s: Session)
        ensures
            s.wf(),
            s.guild_id == guild_id,
            s.voice_channel_id is None,
            s.queue@ == Seq::<Track>::empty(),
            s.now_playing is None,
            s.phase is Idle,
    {
        Session {
            guild_id,
            voice_channel_id: None,
            queue: Vec::new(),
            now_playing: None,
            phase: PlayerPhase::Idle,
        }
    }
}

/// How a session changes when playback moves on: the queue head (if any)
/// becomes the loaded track and the session waits for the node to confirm;
/// with an empty queue the session falls back to `Idle`. Everything else
/// about the session is untouched.
pub open spec fn advanced(s0: Session, s1: Session) -> bool {
    &&& s1.guild_id == s0.guild_id
    &&& s1.voice_channel_id == s0.voice_channel_id
    &&& if s0.queue@.len() == 0 {
        &&& s1.now_playing is None
        &&& s1.phase is Idle
        &&& s1.queue@ == Seq::<Track>::empty()
    } else {
        &&& s1.now_playing == Some(s0.queue@[0])
        &&& s1.phase is Loading
        &&& s1.queue@ == s0.queue@.skip(1)
    }
}

impl Session {
    /// Dequeue the head into `now_playing`, returning a copy of the track
    /// the node must now be asked to start, or `None` when the queue was
    /// empty and the session went idle.
    pub fn advance(&mut self) -> (r: Option<Track>)
        ensures
            advanced(*old(self), *final(self)),
            final(self).wf(),
            r == (if old(self).queue@.len() > 0 {
                Some(old(self).queue@[0])
            } else {
                None::<Track>
            }),
    {
        let ghost q0 = self.queue@;
        if self.queue.len() > 0 {
            let head = self.queue.remove(0);
            let started = head.clone();
            self.now_playing = Some(head);
            self.phase = PlayerPhase::Loading;
            proof {
                assert(self.queue@ =~= q0.skip(1));
            }
            Some(started)
        } else {
            self.now_playing = None;
            self.phase = PlayerPhase::Idle;
            proof {
                assert(self.queue@ =~= Seq::<Track>::empty());
            }
            None
        }
    }
}

} // verus!
