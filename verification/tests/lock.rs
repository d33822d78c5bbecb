use ocw_demo::lock::{try_acquire, AcquisitionFailed, LockState};
use ocw_demo::{FETCH_TIMEOUT_PERIOD, LOCK_BLOCK_EXPIRATION, LOCK_TIMEOUT_EXPIRATION};

#[test]
fn lock_expirations_cover_the_fetch_budget() {
    assert_eq!(LOCK_TIMEOUT_EXPIRATION, FETCH_TIMEOUT_PERIOD + 1000);
    assert_eq!(LOCK_BLOCK_EXPIRATION, 3);
}

#[test]
fn first_acquisition_succeeds_and_sets_both_deadlines() {
    let claim = try_acquire(&None, 5, 1000, 3, 4000).unwrap();
    assert_eq!(
        claim,
        LockState { block_deadline: 8, time_deadline: 5000 }
    );
}

#[test]
fn second_attempt_within_window_fails() {
    // Within both the block and the wall-clock window of the prior claim.
    let claim = try_acquire(&None, 5, 1000, 3, 4000).unwrap();
    let second = try_acquire(&Some(claim), 7, 4500, 3, 4000);
    assert_eq!(second, Err(AcquisitionFailed));
}

#[test]
fn attempt_after_block_deadline_succeeds() {
    let claim = try_acquire(&None, 5, 1000, 3, 4000).unwrap();
    let second = try_acquire(&Some(claim), 8, 4500, 3, 4000).unwrap();
    assert_eq!(
        second,
        LockState { block_deadline: 11, time_deadline: 8500 }
    );
}

#[test]
fn attempt_after_time_deadline_succeeds() {
    let claim = try_acquire(&None, 5, 1000, 3, 4000).unwrap();
    let second = try_acquire(&Some(claim), 7, 5000, 3, 4000).unwrap();
    assert_eq!(
        second,
        LockState { block_deadline: 10, time_deadline: 9000 }
    );
}

#[test]
fn attempt_after_both_deadlines_succeeds() {
    let claim = try_acquire(&None, 5, 1000, 3, 4000).unwrap();
    let second = try_acquire(&Some(claim), 100, 99000, 3, 4000);
    assert!(second.is_ok());
}
