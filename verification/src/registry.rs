//! The guild session registry: at most one session per guild, created
//! lazily and removed on leave or node disconnect.

use std::collections::HashMap;

use vstd::prelude::*;

use crate::session::Session;

verus! {

broadcast use vstd::std_specs::hash::group_hash_axioms;

/// The registry is viewed as a map from guild id to that guild's single
/// session, so one session per guild holds by construction.
pub struct Registry {
    sessions: HashMap<u64, Session>,
}

impl View for Registry {
    type V = Map<u64, Session>;

    closed spec fn view(&self) -> Map<u64, Session> {
        self.sessions@
    }
}

/// What `get_or_create` promises: an existing session is returned as it
/// stands and nothing changes; otherwise exactly one fresh, empty session
/// for the guild is inserted and returned.
pub open spec fn get_or_create_rel(
    m0: Map<u64, Session>,
    m1: Map<u64, Session>,
    guild_id: u64,
    s: Session,
) -> bool {
    &&& m1.contains_key(guild_id)
    &&& s == m1[guild_id]
    &&& if m0.contains_key(guild_id) {
        m1 == m0 && s == m0[guild_id]
    } else {
        &&& m1 == m0.insert(guild_id, s)
        &&& s.guild_id == guild_id
        &&& s.voice_channel_id is None
        &&& s.queue@ == Seq::<crate::track::Track>::empty()
        &&& s.now_playing is None
        &&& s.phase is Idle
    }
}

impl Registry {
    /// Every stored session is well formed and filed under its own guild id.
    pub open spec fn wf(self) -> bool {
        forall|g: u64|
            #[trigger] self@.contains_key(g) ==> self@[g].wf() && self@[g].guild_id == g
    }

    /// An empty registry: no guild has a session yet.
    pub fn new() -> (r: Registry)
        ensures
            r@ == Map::<u64, Session>::empty(),
            r.wf(),
    {
        Registry { sessions: HashMap::new() }
    }

    /// Read-only lookup; no side effect.
    pub fn get(&self, guild_id: u64) -> (r: Option<&Session>)
        ensures
            match r {
                Some(s) => self@.contains_key(guild_id) && *s == self@[guild_id],
                None => !self@.contains_key(guild_id),
            },
    {
        self.sessions.get(&guild_id)
    }

    /// Whether the guild currently has a session.
    pub fn contains(&self, guild_id: u64) -> (r: bool)
        ensures
            r == self@.contains_key(guild_id),
    {
        self.sessions.contains_key(&guild_id)
    }

    /// Return the guild's session, inserting an empty one first when the
    /// guild had none: the lazy creation step of the `play` handler.
    pub fn get_or_create(&mut self, guild_id: u64) -> (r: &Session)
        requires
            old(self).wf(),
        ensures
            final(self).wf(),
            get_or_create_rel(old(self)@, final(self)@, guild_id, *r),
    {
        if !self.sessions.contains_key(&guild_id) {
            self.sessions.insert(guild_id, Session::new(guild_id));
        }
        match self.sessions.get(&guild_id) {
            Some(s) => s,
            None => vstd::pervasive::unreached(),
        }
    }

    /// Delete the guild's session; removing an absent guild is a no-op.
    pub fn remove(&mut self, guild_id: u64)
        requires
            old(self).wf(),
        ensures
            final(self).wf(),
            final(self)@ == old(self)@.remove(guild_id),
    {
        self.sessions.remove(&guild_id);
    }

    /// Take the guild's session out of the registry, to be put back (often
    /// changed) by [`Registry::put`]. Handlers work on sessions this way so
    /// a guild's state changes in one step.
    pub(crate) fn take(&mut self, guild_id: u64) -> (r: Option<Session>)
        requires
            old(self).wf(),
        ensures
            final(self).wf(),
            final(self)@ == old(self)@.remove(guild_id),
            match r {
                Some(s) => {
                    &&& old(self)@.contains_key(guild_id)
                    &&& s == old(self)@[guild_id]
                    &&& s.wf()
                    &&& s.guild_id == guild_id
                },
                None => !old(self)@.contains_key(guild_id),
            },
    {
        self.sessions.remove(&guild_id)
    }

    /// File a session under its guild id.
    pub(crate) fn put(&mut self, s: Session)
        requires
            old(self).wf(),
            s.wf(),
        ensures
            final(self).wf(),
            final(self)@ == old(self)@.insert(s.guild_id, s),
    {
        self.sessions.insert(s.guild_id, s);
    }
}

} // verus!
