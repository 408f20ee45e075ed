//! The numeric handle registry.
//!
//! Some foreign callers can only carry a primitive integer across their
//! boundary, not an owned object. For them, a process-wide table maps small
//! ids to logger handles. Ids come from a monotonic counter starting at 1 —
//! 0 is reserved for "invalid" — and are never reused, so a freed id can
//! never be confused with a new one. The table stores an owning handle, so
//! removing an entry is sufficient for teardown. The boundary code keeps one
//! registry behind one process-wide exclusive lock.
use vstd::prelude::*;
use std::collections::HashMap;
use crate::handle::Xlog;

verus! {

broadcast use vstd::std_specs::hash::group_hash_axioms;

/// Table of live logger handles keyed by the ids handed to foreign callers.
pub struct LoggerRegistry {
    loggers: HashMap<i64, Xlog>,
    next: i64,
}

impl LoggerRegistry {
    /// The registered ids and the handles they map to.
    pub closed spec fn view(&self) -> Map<i64, Xlog> {
        self.loggers@
    }

    /// The id the next insertion will take.
    pub closed spec fn counter(&self) -> i64 {
        self.next
    }

    /// The registry invariant: the counter stays positive, every registered
    /// id was allocated below it, and every registered handle is valid.
    pub open spec fn wf(&self) -> bool {
        &&& 1 <= self.counter()
        &&& forall|id: i64| #[trigger]
            self@.contains_key(id) ==> 1 <= id < self.counter()
        &&& forall|id: i64| #[trigger] self@.contains_key(id) ==> self@[id].wf()
    }

    /// An empty registry whose first id will be 1.
    pub fn new() -> (r: LoggerRegistry)
        ensures
            r.wf(),
            r@ == Map::<i64, Xlog>::empty(),
            r.counter() == 1,
    {
        LoggerRegistry { loggers: HashMap::new(), next: 1 }
    }

    /// Allocate the next handle id: strictly monotonic, never zero, never
    /// reused.
    pub fn next_id(&mut self) -> (id: i64)
        requires
            old(self).wf(),
            old(self).counter() < i64::MAX,
        ensures
            final(self).wf(),
            id == old(self).counter(),
            id >= 1,
            final(self).counter() == old(self).counter() + 1,
            final(self)@ == old(self)@,
    {
        let id = self.next;
        self.next = self.next + 1;
        proof {
            assert forall|k: i64| #[trigger] self@.contains_key(k) implies 1 <= k < self.counter()
                && self@[k].wf() by {
                assert(old(self)@.contains_key(k));
            }
        }
        id
    }

    /// Insert a logger and return its freshly allocated id. The id was never
    /// in the table before, and every other entry is untouched.
    pub fn insert_logger(&mut self, logger: Xlog) -> (id: i64)
        requires
            old(self).wf(),
            old(self).counter() < i64::MAX,
            logger.wf(),
        ensures
            final(self).wf(),
            id == old(self).counter(),
            id >= 1,
            !old(self)@.contains_key(id),
            final(self)@ == old(self)@.insert(id, logger),
            final(self).counter() == old(self).counter() + 1,
    {
        let id = self.next_id();
        self.loggers.insert(id, logger);
        id
    }

    /// Look up a logger by id, returning a fresh owning reference so the
    /// caller's use cannot race with a concurrent removal of the same id.
    /// A missing id is absence, not an error.
    pub fn get_logger(&self, id: i64) -> (r: Option<Xlog>)
        ensures
            r is Some <==> self@.contains_key(id),
            r matches Some(h) ==> h == self@[id],
    {
        match self.loggers.get(&id) {
            Some(h) => Some(h.clone()),
            None => None,
        }
    }

    /// Remove a logger by id; answers whether an entry existed. Removal is
    /// idempotent: a second removal of the same id returns false, not an
    /// error. The freed id is never allocated again.
    pub fn remove_logger(&mut self, id: i64) -> (removed: bool)
        requires
            old(self).wf(),
        ensures
            final(self).wf(),
            removed == old(self)@.contains_key(id),
            final(self)@ == old(self)@.remove(id),
            final(self).counter() == old(self).counter(),
    {
        let removed = self.loggers.remove(&id).is_some();
        proof {
            assert forall|k: i64| #[trigger] self@.contains_key(k) implies 1 <= k < self.counter()
                && self@[k].wf() by {
                assert(old(self)@.contains_key(k));
            }
        }
        removed
    }

    /// Whether the counter has headroom for one more allocation.
    pub fn can_insert(&self) -> (b: bool)
        ensures
            b == (self.counter() < i64::MAX),
    {
        self.next < i64::MAX
    }

    /// Number of live entries.
    pub fn len(&self) -> (n: usize)
        ensures
            n == self@.len(),
    {
        self.loggers.len()
    }
}

/// Registering a handle and then removing its id leaves the table without
/// that id: a later lookup misses, and a second removal finds nothing —
/// never a stale handle.
pub proof fn lemma_register_remove_lookup(table: Map<i64, Xlog>, logger: Xlog, id: i64)
    ensures
        !table.insert(id, logger).remove(id).contains_key(id),
{
}

} // verus!
