//! Tracks: the immutable items that queues and sessions hold.

use vstd::prelude::*;

verus! {

/// One playable track, immutable once enqueued: its source URI, a display
/// title, its length, and the user who requested it.
#[derive(Debug, PartialEq)]
pub struct Track {
    pub uri: String,
    pub title: String,
    pub duration_ms: u64,
    pub requester: u64,
}

/// Two tracks are the same when every field agrees. The event dispatcher
/// uses this to recognise a node notification that still refers to the
/// track the session believes is loaded.
pub open spec fn track_eq(a: Track, b: Track) -> bool {
    &&& a.uri@ == b.uri@
    &&& a.title@ == b.title@
    &&& a.duration_ms == b.duration_ms
    &&& a.requester == b.requester
}

impl Clone for Track {
    fn clone(&self) -> (r: Track)
        ensures
            r == *self,
    {
        Track {
            uri: self.uri.clone(),
            title: self.title.clone(),
            duration_ms: self.duration_ms,
            requester: self.requester,
        }
    }
}

impl Track {
    /// Field-by-field comparison; decides [`track_eq`] at run time.
    pub fn same_as(&self, other: &Track) -> (r: bool)
        ensures
            r == track_eq(*self, *other),
    {
        self.uri == other.uri && self.title == other.title
            && self.duration_ms == other.duration_ms && self.requester == other.requester
    }
}

} // verus!
