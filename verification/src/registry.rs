//! The connection registry: the process-wide map from user id to the
//! outbound delivery handle of that user's live connection. It is the
//! single fan-out primitive; the gateway registers and removes entries,
//! the capture relay and broadcast look them up.

use vstd::prelude::*;
use crate::kv::KvVec;

verus! {

/// Maps each connected user id to an opaque delivery handle; the
/// surrounding process keys its actual outbound queues by these handles.
pub struct Registry {
    conns: KvVec<u64>,
}

impl View for Registry {
    type V = Map<Seq<char>, u64>;

    closed spec fn view(&self) -> Map<Seq<char>, u64> {
        self.conns@
    }
}

impl Registry {
    pub closed spec fn wf(&self) -> bool {
        self.conns.wf()
    }

    pub fn new() -> (r: Self)
        ensures
            r.wf(),
            r@ == Map::<Seq<char>, u64>::empty(),
    {
        Registry { conns: KvVec::new() }
    }

    /// Registers a connection, silently superseding any previous entry
    /// for the same user id; the superseded connection is not notified.
    pub fn register(&mut self, user_id: String, handle: u64)
        requires
            old(self).wf(),
        ensures
            final(self).wf(),
            final(self)@ == old(self)@.insert(user_id@, handle),
    {
        self.conns.insert(user_id, handle);
    }

    /// Drops the entry for the user id, if any, when a connection closes.
    pub fn unregister(&mut self, user_id: &str)
        requires
            old(self).wf(),
        ensures
            final(self).wf(),
            final(self)@ == old(self)@.remove(user_id@),
    {
        self.conns.remove(user_id);
    }

    /// The delivery handle for a user id: present exactly when that user
    /// has a live connection.
    pub fn lookup(&self, user_id: &str) -> (r: Option<u64>)
        requires
            self.wf(),
        ensures
            match r {
                Some(h) => self@.contains_key(user_id@) && h == self@[user_id@],
                None => !self@.contains_key(user_id@),
            },
    {
        match self.conns.get(user_id) {
            Some(h) => Some(*h),
            None => None,
        }
    }
}

} // verus!
