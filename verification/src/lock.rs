//! Advisory distributed lock that rate-limits fetch cycles.
//!
//! The lock is a record persisted in shared state under a fixed name; it
//! carries two independent deadlines, one in logical time (block height) and
//! one in wall-clock time. A holder's claim is honored only while *both*
//! deadlines lie in the future: the lock is free again once either bound
//! elapses. Acquisition is opportunistic: a node that finds an unexpired
//! claim simply skips its cycle, it neither queues nor waits. There is no
//! explicit release; the claim self-expires, so dropping a guard is a no-op.
//!
//! The lock is advisory by design: independent nodes share no clock or
//! channel, so a node with a skewed view of height or wall time can still
//! race. The admission rule and the single-writer execution model of the
//! host keep shared state consistent regardless.

use vstd::prelude::*;

verus! {

/// The persisted claim of the current lock holder.
#[derive(Clone, Copy, PartialEq, Eq, Structural, Debug)]
pub struct LockState {
    /// First block height at which the claim no longer holds.
    pub block_deadline: u64,
    /// First wall-clock instant (milliseconds) at which the claim no longer
    /// holds.
    pub time_deadline: u64,
}

/// Acquisition failure: the lock is currently held by an unexpired claim.
#[derive(Clone, Copy, PartialEq, Eq, Structural, Debug)]
pub struct AcquisitionFailed;

/// A stored claim has expired once either of its deadlines is reached.
pub open spec fn spec_lock_expired(l: LockState, now_block: u64, now_time: u64) -> bool {
    now_block >= l.block_deadline || now_time >= l.time_deadline
}

/// Acquisition succeeds exactly when no claim is stored or the stored claim
/// has expired.
pub open spec fn spec_can_acquire(stored: Option<LockState>, now_block: u64, now_time: u64) -> bool {
    match stored {
        Option::None => true,
        Option::Some(l) => spec_lock_expired(l, now_block, now_time),
    }
}

/// The claim written by a successful acquisition: both deadlines are set a
/// full time-to-live past the current logical and wall clock.
pub open spec fn spec_acquired_claim(
    now_block: u64,
    now_time: u64,
    block_ttl: u32,
    time_ttl: u64,
) -> LockState {
    LockState {
        block_deadline: (now_block + block_ttl) as u64,
        time_deadline: (now_time + time_ttl) as u64,
    }
}

/// One acquisition attempt against the stored claim, at the given logical
/// and wall clock. On success the returned claim is what the host must
/// persist under the lock name; on failure the stored claim is untouched and
/// the caller skips its cycle.
pub fn try_acquire(
    stored: &Option<LockState>,
    now_block: u64,
    now_time: u64,
    block_ttl: u32,
    time_ttl: u64,
) -> (r: Result<LockState, AcquisitionFailed>)
    requires
        now_block + block_ttl <= u64::MAX,
        now_time + time_ttl <= u64::MAX,
    ensures
        r is Ok <==> spec_can_acquire(*stored, now_block, now_time),
        r is Ok ==> r->Ok_0 == spec_acquired_claim(now_block, now_time, block_ttl, time_ttl),
{
    let free = match stored {
        Option::None => true,
        Option::Some(l) => now_block >= l.block_deadline || now_time >= l.time_deadline,
    };
    if free {
        Result::Ok(LockState {
            block_deadline: now_block + block_ttl as u64,
            time_deadline: now_time + time_ttl,
        })
    } else {
        Result::Err(AcquisitionFailed)
    }
}

/// Mutual-exclusion window law: after a successful acquisition at some
/// logical and wall clock, any acquisition attempt made while both deadlines
/// of the written claim still lie in the future fails, and any attempt made
/// once either deadline has been reached succeeds.
pub proof fn lemma_lock_exclusion_window(
    now_block: u64,
    now_time: u64,
    block_ttl: u32,
    time_ttl: u64,
    later_block: u64,
    later_time: u64,
)
    requires
        now_block + block_ttl <= u64::MAX,
        now_time + time_ttl <= u64::MAX,
    ensures
        ({
            let claim = spec_acquired_claim(now_block, now_time, block_ttl, time_ttl);
            &&& (later_block < now_block + block_ttl && later_time < now_time + time_ttl)
                ==> !spec_can_acquire(Option::Some(claim), later_block, later_time)
            &&& (later_block >= now_block + block_ttl || later_time >= now_time + time_ttl)
                ==> spec_can_acquire(Option::Some(claim), later_block, later_time)
        }),
{
}

} // verus!
