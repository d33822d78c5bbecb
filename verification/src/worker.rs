//! The state machine of one fetch-and-submit worker cycle.
//!
//! Each scheduling tick runs one cycle: acquire the cycle lock, fetch the
//! external price, convert it to the scaled fixed-point price, and hand the
//! submission to the transaction pool. The host performs the outside work
//! (storage, HTTP, keystore, pool) between steps and feeds the outcome of
//! each action back as an event; the decisions live here. Every stage
//! failure is terminal for the current cycle only: the cycle ends, nothing
//! retries until the next scheduling tick, which is again rate-limited by
//! the lock. A failed cycle never touches the price history, whose only
//! mutator is the execution path of an admitted submission.

use vstd::prelude::*;
use crate::convert::ConversionError;
use crate::convert::parse_scaled_price;
use crate::convert::spec_convert;
use crate::fetch::AssertToken;
use crate::fetch::FetchError;
use crate::history::PriceHistory;
use crate::history::spec_appended;
use crate::payload::Payload;

verus! {

/// Terminal failure of one worker cycle, named by the stage that failed.
#[derive(Clone, Copy, PartialEq, Eq, Structural, Debug)]
pub enum CycleError {
    /// The cycle lock is held by an unexpired claim; the tick is skipped.
    AcquireStorageLockError,
    /// The fetch failed: transport, timeout, bad status or a bad body.
    HttpFetchingError,
    /// The price field was not valid UTF-8 text.
    ConvertToStringError,
    /// The price text was not an unsigned decimal number.
    ParsingToF64Error,
    /// No local signing credential is configured.
    NoLocalAcctForSigning,
    /// The pool rejected the built submission.
    OffchainUnsignedTxSignedPayloadError,
}

/// The states of one worker cycle.
#[derive(Clone, PartialEq, Eq, Debug)]
pub enum CycleState {
    /// Waiting for the next scheduling tick.
    Idle,
    /// Attempting to acquire the cycle lock.
    Locking,
    /// Fetching the external price.
    Fetching,
    /// Converting the fetched record's price text.
    Converting(AssertToken),
    /// Handing the scaled price to the pool.
    Submitting(u64),
    /// The submission was handed to the pool.
    Done,
    /// The cycle ended at a failed stage; next tick starts afresh.
    Failed(CycleError),
}

/// What the host reports back to the cycle.
#[derive(PartialEq, Eq, Debug)]
pub enum CycleEvent {
    /// The scheduler started a new cycle.
    Tick,
    /// Whether the cycle lock was acquired.
    LockResult(bool),
    /// What the fetch produced: a parsed price record, or its failure.
    FetchResult(Result<AssertToken, FetchError>),
    /// Proceed with the internal conversion step.
    Advance,
    /// What submission produced: `None` when no local signing credential is
    /// configured, otherwise whether the pool accepted the submission.
    SubmitResult(Option<bool>),
}

/// What the host must do next.
#[derive(Clone, Copy, PartialEq, Eq, Structural, Debug)]
pub enum CycleAction {
    /// Attempt to acquire the cycle lock and report `LockResult`.
    AcquireLock,
    /// Perform the deadline-bounded fetch and report `FetchResult`.
    FetchPrice,
    /// Report `Advance` once ready for the conversion step.
    ConvertPrice,
    /// Sign and hand the scaled price to the pool; report `SubmitResult`.
    SubmitPrice(u64),
    /// The cycle is over; wait for the next scheduling tick.
    Finish,
}

/// Which events a state can consume.
pub open spec fn event_fits(state: CycleState, event: CycleEvent) -> bool {
    match (state, event) {
        (CycleState::Idle, CycleEvent::Tick) => true,
        (CycleState::Locking, CycleEvent::LockResult(_)) => true,
        (CycleState::Fetching, CycleEvent::FetchResult(_)) => true,
        (CycleState::Converting(_), CycleEvent::Advance) => true,
        (CycleState::Submitting(_), CycleEvent::SubmitResult(_)) => true,
        _ => false,
    }
}

/// The transition relation of the cycle, exactly as the worker steps it.
pub open spec fn spec_step(state: CycleState, event: CycleEvent, precision: u8) -> (
    CycleState,
    CycleAction,
) {
    match (state, event) {
        (CycleState::Idle, CycleEvent::Tick) => (CycleState::Locking, CycleAction::AcquireLock),
        (CycleState::Locking, CycleEvent::LockResult(acquired)) => {
            if acquired {
                (CycleState::Fetching, CycleAction::FetchPrice)
            } else {
                (
                    CycleState::Failed(CycleError::AcquireStorageLockError),
                    CycleAction::Finish,
                )
            }
        },
        (CycleState::Fetching, CycleEvent::FetchResult(fetched)) => {
            match fetched {
                Result::Ok(token) => (CycleState::Converting(token), CycleAction::ConvertPrice),
                Result::Err(_) => (
                    CycleState::Failed(CycleError::HttpFetchingError),
                    CycleAction::Finish,
                ),
            }
        },
        (CycleState::Converting(token), CycleEvent::Advance) => {
            match spec_convert(token.data.price_usd@, precision as nat) {
                Result::Ok(price) => (
                    CycleState::Submitting(price),
                    CycleAction::SubmitPrice(price),
                ),
                Result::Err(ConversionError::ConvertToStringError) => (
                    CycleState::Failed(CycleError::ConvertToStringError),
                    CycleAction::Finish,
                ),
                Result::Err(ConversionError::ParsingToF64Error) => (
                    CycleState::Failed(CycleError::ParsingToF64Error),
                    CycleAction::Finish,
                ),
            }
        },
        (CycleState::Submitting(_), CycleEvent::SubmitResult(outcome)) => {
            match outcome {
                Option::None => (
                    CycleState::Failed(CycleError::NoLocalAcctForSigning),
                    CycleAction::Finish,
                ),
                Option::Some(false) => (
                    CycleState::Failed(CycleError::OffchainUnsignedTxSignedPayloadError),
                    CycleAction::Finish,
                ),
                Option::Some(true) => (CycleState::Done, CycleAction::Finish),
            }
        },
        (state, _) => (state, CycleAction::Finish),
    }
}

/// One transition of the cycle: consumes the outcome of the previous action
/// and yields the next state and the next action the host must take.
pub fn step(state: CycleState, event: CycleEvent, precision: u8) -> (r: (CycleState, CycleAction))
    requires
        event_fits(state, event),
    ensures
        r == spec_step(state, event, precision),
{
    match (state, event) {
        (CycleState::Idle, CycleEvent::Tick) => (CycleState::Locking, CycleAction::AcquireLock),
        (CycleState::Locking, CycleEvent::LockResult(acquired)) => {
            if acquired {
                (CycleState::Fetching, CycleAction::FetchPrice)
            } else {
                (
                    CycleState::Failed(CycleError::AcquireStorageLockError),
                    CycleAction::Finish,
                )
            }
        },
        (CycleState::Fetching, CycleEvent::FetchResult(fetched)) => {
            match fetched {
                Result::Ok(token) => (CycleState::Converting(token), CycleAction::ConvertPrice),
                Result::Err(_) => (
                    CycleState::Failed(CycleError::HttpFetchingError),
                    CycleAction::Finish,
                ),
            }
        },
        (CycleState::Converting(token), CycleEvent::Advance) => {
            match parse_scaled_price(&token.data.price_usd, precision) {
                Result::Ok(price) => (
                    CycleState::Submitting(price),
                    CycleAction::SubmitPrice(price),
                ),
                Result::Err(ConversionError::ConvertToStringError) => (
                    CycleState::Failed(CycleError::ConvertToStringError),
                    CycleAction::Finish,
                ),
                Result::Err(ConversionError::ParsingToF64Error) => (
                    CycleState::Failed(CycleError::ParsingToF64Error),
                    CycleAction::Finish,
                ),
            }
        },
        (CycleState::Submitting(price), CycleEvent::SubmitResult(outcome)) => {
            match outcome {
                Option::None => (
                    CycleState::Failed(CycleError::NoLocalAcctForSigning),
                    CycleAction::Finish,
                ),
                Option::Some(false) => (
                    CycleState::Failed(CycleError::OffchainUnsignedTxSignedPayloadError),
                    CycleAction::Finish,
                ),
                Option::Some(true) => (CycleState::Done, CycleAction::Finish),
            }
        },
        (state, _) => (state, CycleAction::Finish),
    }
}

/// Where a whole cycle ends, given the outcome of each outside action.
pub open spec fn spec_cycle_outcome(
    lock_acquired: bool,
    fetched: Result<AssertToken, FetchError>,
    submit_outcome: Option<bool>,
    precision: u8,
) -> CycleState {
    if !lock_acquired {
        CycleState::Failed(CycleError::AcquireStorageLockError)
    } else {
        match fetched {
            Result::Err(_) => CycleState::Failed(CycleError::HttpFetchingError),
            Result::Ok(token) => match spec_convert(token.data.price_usd@, precision as nat) {
                Result::Err(ConversionError::ConvertToStringError) => CycleState::Failed(
                    CycleError::ConvertToStringError,
                ),
                Result::Err(ConversionError::ParsingToF64Error) => CycleState::Failed(
                    CycleError::ParsingToF64Error,
                ),
                Result::Ok(_) => match submit_outcome {
                    Option::None => CycleState::Failed(CycleError::NoLocalAcctForSigning),
                    Option::Some(false) => CycleState::Failed(
                        CycleError::OffchainUnsignedTxSignedPayloadError,
                    ),
                    Option::Some(true) => CycleState::Done,
                },
            },
        }
    }
}

/// Drives the machine through one whole cycle. The host supplies the
/// outcome of each outside action; on the paths where an action is never
/// reached its outcome is ignored.
pub fn run_cycle(
    lock_acquired: bool,
    fetched: Result<AssertToken, FetchError>,
    submit_outcome: Option<bool>,
    precision: u8,
) -> (r: CycleState)
    ensures
        r == spec_cycle_outcome(lock_acquired, fetched, submit_outcome, precision),
{
    let (st, _action) = step(CycleState::Idle, CycleEvent::Tick, precision);
    let (st, _action) = step(st, CycleEvent::LockResult(lock_acquired), precision);
    if let CycleState::Failed(_) = st {
        return st;
    }
    let (st, _action) = step(st, CycleEvent::FetchResult(fetched), precision);
    if let CycleState::Failed(_) = st {
        return st;
    }
    let (st, _action) = step(st, CycleEvent::Advance, precision);
    if let CycleState::Failed(_) = st {
        return st;
    }
    let (st, _action) = step(st, CycleEvent::SubmitResult(submit_outcome), precision);
    st
}

/// Event record emitted on every successful execution: the submitter
/// identity where one was authorized at execution, and the accepted price.
/// Submissions admitted by proof of origin execute without a paying
/// account, so the identity is absent for them.
#[derive(Clone, PartialEq, Eq, Debug)]
pub enum Event {
    ReceivedPrice(Option<[u8; 32]>, u64),
}

/// Call origins the ledger can dispatch with.
#[derive(Clone, PartialEq, Eq, Debug)]
pub enum Origin {
    /// Dispatched without an authorizing account: the admission proof
    /// already vouched for the submission.
    Unsigned,
    /// Dispatched by a paying account.
    Signed([u8; 32]),
    /// Dispatched by the ledger's root authority.
    Root,
}

/// The execution path of an admitted submission: the terminal step once the
/// transaction is actually included. Only an unsigned dispatch is accepted
/// (admission already verified the statement-of-origin); it appends the
/// price to the history and emits the observable event. Any other origin is
/// rejected and leaves the history unchanged.
pub fn submit_price_unsigned_with_signed_payload(
    origin: &Origin,
    history: &mut PriceHistory,
    payload: Payload,
) -> (r: Result<Event, ()>)
    requires
        old(history).well_formed(),
    ensures
        final(history).well_formed(),
        match origin {
            Origin::Unsigned => {
                &&& final(history)@ == spec_appended(old(history)@, payload.price)
                &&& r == Result::<Event, ()>::Ok(Event::ReceivedPrice(
                    Option::None,
                    payload.price,
                ))
            },
            _ => final(history)@ == old(history)@ && r == Result::<Event, ()>::Err(()),
        },
{
    match origin {
        Origin::Unsigned => {
            history.append_or_replace_price(payload.price);
            Result::Ok(Event::ReceivedPrice(Option::None, payload.price))
        },
        _ => Result::Err(()),
    }
}

/// No-credential law: a cycle that reaches submission with no local signing
/// credential configured ends in `Failed(NoLocalAcctForSigning)`; the price
/// history is untouched, since no cycle function mutates it.
pub proof fn lemma_no_credential_fails(
    fetched: Result<AssertToken, FetchError>,
    precision: u8,
)
    requires
        fetched is Ok,
        spec_convert(fetched->Ok_0.data.price_usd@, precision as nat) is Ok,
    ensures
        spec_cycle_outcome(true, fetched, Option::None, precision) == CycleState::Failed(
            CycleError::NoLocalAcctForSigning,
        ),
{
}

} // verus!
