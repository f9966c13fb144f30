//! A counting semaphore that bounds how many worker threads run at once.
//!
//! The blocking part (waiting on a condition variable while no permit is
//! free) belongs to the caller; this type decides whether a permit can be
//! taken and keeps the count.

use vstd::prelude::*;

verus! {

/// Counting semaphore: the number of permits currently free.
pub struct ThreadSemaphore {
    available: usize,
}

impl View for ThreadSemaphore {
    type V = nat;

    closed spec fn view(&self) -> nat {
        self.available as nat
    }
}

/// Outcome of one acquire attempt on `permits` free permits:
/// whether a permit was taken, and the permits left afterwards.
pub open spec fn acquire_step(permits: nat) -> (bool, nat) {
    if permits > 0 {
        (true, (permits - 1) as nat)
    } else {
        (false, permits)
    }
}

/// Permits free after one permit is given back.
pub open spec fn release_step(permits: nat) -> nat {
    permits + 1
}

impl ThreadSemaphore {
    /// A semaphore with `count` free permits.
    pub fn new(count: usize) -> (s: Self)
        ensures
            s@ == count as nat,
    {
        ThreadSemaphore { available: count }
    }

    /// The number of free permits.
    pub fn available(&self) -> (n: usize)
        ensures
            n as nat == self@,
    {
        self.available
    }

    /// Takes a permit if one is free. Returns `false`, and leaves the
    /// semaphore unchanged, when none is: the caller then waits and retries.
    pub fn acquire(&mut self) -> (acquired: bool)
        ensures
            (acquired, final(self)@) == acquire_step(old(self)@),
            acquired <==> old(self)@ > 0,
            final(self)@ <= usize::MAX,
            acquired ==> final(self)@ < usize::MAX,
    {
        if self.available == 0 {
            false
        } else {
            self.available = self.available - 1;
            true
        }
    }

    /// Gives a permit back.
    pub fn release(&mut self)
        requires
            old(self)@ < usize::MAX,
        ensures
            final(self)@ == release_step(old(self)@),
            final(self)@ <= usize::MAX,
    {
        self.available = self.available + 1;
    }
}

/// A semaphore never holds more free permits than a `usize` counts.
pub proof fn lemma_permits_fit(s: &ThreadSemaphore)
    ensures
        s@ <= usize::MAX,
{
}

/// Releasing the permit that a successful acquire took restores the
/// semaphore to the count it had before the acquire.
pub proof fn lemma_acquire_then_release(permits: nat)
    requires
        acquire_step(permits).0,
    ensures
        release_step(acquire_step(permits).1) == permits,
{
}

/// Acquiring right after a release always succeeds and leaves the count
/// where it was before the release.
pub proof fn lemma_release_then_acquire(permits: nat)
    ensures
        acquire_step(release_step(permits)).0,
        acquire_step(release_step(permits)).1 == permits,
{
}

/// An acquire fails exactly when no permit is free, and a failed acquire
/// changes nothing, so the count of free permits never goes below zero.
pub proof fn lemma_failed_acquire_is_noop(permits: nat)
    ensures
        !acquire_step(permits).0 <==> permits == 0,
        !acquire_step(permits).0 ==> acquire_step(permits).1 == permits,
{
}

/// One step a worker pool takes on the semaphore.
#[derive(Clone, Copy, Debug, PartialEq, Eq)]
pub enum PermitOp {
    /// An attempt to take a permit.
    Acquire,
    /// A worker that holds a permit gives it back.
    Release,
}

/// Free and held permits after `ops`, starting from `limit` free permits
/// and none held; `None` when some release comes from no holder.
pub open spec fn permits_after(limit: nat, ops: Seq<PermitOp>) -> Option<(nat, nat)>
    decreases ops.len(),
{
    if ops.len() == 0 {
        Some((limit, 0nat))
    } else {
        match permits_after(limit, ops.drop_last()) {
            None => None,
            Some((free, held)) => match ops.last() {
                PermitOp::Acquire => if acquire_step(free).0 {
                    Some((acquire_step(free).1, held + 1))
                } else {
                    Some((free, held))
                },
                PermitOp::Release => if held > 0 {
                    Some((release_step(free), (held - 1) as nat))
                } else {
                    None
                },
            },
        }
    }
}

/// However acquires and releases interleave, as long as only holders
/// release, free and held permits add up to the starting count: no more
/// than `limit` workers ever hold a permit at once.
pub proof fn lemma_permits_bound_workers(limit: nat, ops: Seq<PermitOp>)
    requires
        permits_after(limit, ops) is Some,
    ensures
        permits_after(limit, ops).unwrap().0 + permits_after(limit, ops).unwrap().1 == limit,
        permits_after(limit, ops).unwrap().1 <= limit,
    decreases ops.len(),
{
    if ops.len() > 0 {
        lemma_permits_bound_workers(limit, ops.drop_last());
    }
}

/// Free permits after `ops` from `count` free permits, however the calls
/// come (a release adds a permit whoever calls it), with the number of
/// acquires that took a permit and the number of releases.
pub open spec fn permit_counts(count: nat, ops: Seq<PermitOp>) -> (nat, nat, nat)
    decreases ops.len(),
{
    if ops.len() == 0 {
        (count, 0nat, 0nat)
    } else {
        let (free, taken, released) = permit_counts(count, ops.drop_last());
        match ops.last() {
            PermitOp::Acquire => if acquire_step(free).0 {
                (acquire_step(free).1, taken + 1, released)
            } else {
                (free, taken, released)
            },
            PermitOp::Release => (release_step(free), taken, released + 1),
        }
    }
}

/// After any sequence of acquires and releases on a semaphore made with
/// `count` permits, the free permits are `count` plus the releases minus
/// the acquires that took a permit.
pub proof fn lemma_permits_count(count: nat, ops: Seq<PermitOp>)
    ensures
        permit_counts(count, ops).0 + permit_counts(count, ops).1 == count + permit_counts(count, ops).2,
    decreases ops.len(),
{
    if ops.len() > 0 {
        lemma_permits_count(count, ops.drop_last());
    }
}

} // verus!
