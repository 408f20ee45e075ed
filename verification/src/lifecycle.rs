//! Shared-ownership accounting for one native instance.
//!
//! Any number of logical owners — direct handle clones, registry entries,
//! adapter states — may refer to the same native instance, and the native
//! release call must happen exactly once, when the last of them goes away.
//! This module is the counting discipline the unverified boundary code
//! follows: it acquires on every clone, releases on every drop, and performs
//! the native release exactly when `release` answers that the last owner is
//! gone.
use vstd::prelude::*;

verus! {

/// Count of the logical owners of one native instance.
#[derive(Debug)]
pub struct OwnerCount {
    /// Number of live owners.
    pub owners: u64,
}

impl OwnerCount {
    /// A freshly created instance has exactly one owner.
    pub fn new() -> (c: OwnerCount)
        ensures
            c.owners == 1,
    {
        OwnerCount { owners: 1 }
    }

    /// One more logical owner: a handle clone or a registry insertion.
    pub fn acquire(&mut self)
        requires
            old(self).owners >= 1,
            old(self).owners < u64::MAX,
        ensures
            final(self).owners == old(self).owners + 1,
    {
        self.owners = self.owners + 1;
    }

    /// One owner gone. Answers whether it was the last one — exactly then
    /// must the native instance be released.
    pub fn release(&mut self) -> (last: bool)
        requires
            old(self).owners >= 1,
        ensures
            final(self).owners == old(self).owners - 1,
            last <==> old(self).owners == 1,
    {
        self.owners = self.owners - 1;
        self.owners == 0
    }

    /// Releasing before the last owner is gone never triggers the native
    /// release, whatever the count.
    pub fn is_last(&self) -> (b: bool)
        ensures
            b <==> self.owners == 1,
    {
        self.owners == 1
    }
}

/// How many native release actions happen when `owners` owners drop one
/// after another: each drop steps the count down and triggers a release
/// exactly when it was the last.
pub open spec fn releases_from(owners: nat) -> nat
    decreases owners,
{
    if owners == 0 {
        0
    } else {
        (if owners == 1 {
            1nat
        } else {
            0nat
        }) + releases_from((owners - 1) as nat)
    }
}

/// Dropping every owner of a live instance releases it exactly once: no
/// double release, no leak, however many clones existed.
pub proof fn lemma_release_exactly_once(owners: nat)
    requires
        owners >= 1,
    ensures
        releases_from(owners) == 1,
    decreases owners,
{
    if owners == 1 {
        assert(releases_from(0) == 0);
    } else {
        lemma_release_exactly_once((owners - 1) as nat);
    }
}

} // verus!
