use ocw_demo::convert::ConversionError;
use ocw_demo::fetch::{
    compute_deadline, finish_fetch, AssertToken, DataDetail, FetchError, HttpResponse,
};
use ocw_demo::history::PriceHistory;
use ocw_demo::payload::Payload;
use ocw_demo::worker::{
    run_cycle, step, submit_price_unsigned_with_signed_payload, CycleAction, CycleError,
    CycleEvent, CycleState, Event, Origin,
};
use ocw_demo::FETCH_TIMEOUT_PERIOD;

fn token(price_text: &[u8]) -> AssertToken {
    AssertToken {
        data: DataDetail {
            id: b"polkadot".to_vec(),
            symbol: b"DOT".to_vec(),
            price_usd: price_text.to_vec(),
        },
        timestamp: 1_700_000_000_000,
    }
}

#[test]
fn fetch_deadline_is_now_plus_timeout() {
    assert_eq!(FETCH_TIMEOUT_PERIOD, 3000);
    assert_eq!(compute_deadline(100), 3100);
}

#[test]
fn fetch_without_response_times_out() {
    // No response by the deadline: the fetch is abandoned as a timeout and
    // never yields any body.
    assert_eq!(finish_fetch(None), Err(FetchError::Timeout));
}

#[test]
fn fetch_with_bad_status_is_rejected() {
    let resp = HttpResponse { code: 500, body: b"{}".to_vec() };
    assert_eq!(finish_fetch(Some(resp)), Err(FetchError::BadStatus));
}

#[test]
fn fetch_with_ok_status_yields_full_body() {
    let resp = HttpResponse { code: 200, body: b"{\"x\":1}".to_vec() };
    assert_eq!(finish_fetch(Some(resp)), Ok(b"{\"x\":1}".to_vec()));
}

#[test]
fn step_walks_the_happy_path() {
    let (st, act) = step(CycleState::Idle, CycleEvent::Tick, 2);
    assert_eq!(st, CycleState::Locking);
    assert_eq!(act, CycleAction::AcquireLock);
    let (st, act) = step(st, CycleEvent::LockResult(true), 2);
    assert_eq!(st, CycleState::Fetching);
    assert_eq!(act, CycleAction::FetchPrice);
    let (st, act) = step(st, CycleEvent::FetchResult(Ok(token(b"6.789"))), 2);
    assert_eq!(st, CycleState::Converting(token(b"6.789")));
    assert_eq!(act, CycleAction::ConvertPrice);
    let (st, act) = step(st, CycleEvent::Advance, 2);
    assert_eq!(st, CycleState::Submitting(679));
    assert_eq!(act, CycleAction::SubmitPrice(679));
    let (st, act) = step(st, CycleEvent::SubmitResult(Some(true)), 2);
    assert_eq!(st, CycleState::Done);
    assert_eq!(act, CycleAction::Finish);
}

#[test]
fn cycle_fails_when_lock_is_held() {
    let outcome = run_cycle(false, Err(FetchError::Transport), None, 2);
    assert_eq!(
        outcome,
        CycleState::Failed(CycleError::AcquireStorageLockError)
    );
}

#[test]
fn cycle_maps_every_fetch_failure_to_http_error() {
    for err in [
        FetchError::Timeout,
        FetchError::BadStatus,
        FetchError::Transport,
        FetchError::InvalidBody,
    ] {
        let outcome = run_cycle(true, Err(err), Some(true), 2);
        assert_eq!(outcome, CycleState::Failed(CycleError::HttpFetchingError));
    }
}

#[test]
fn cycle_fails_on_non_numeric_price() {
    let outcome = run_cycle(true, Ok(token(b"abc")), Some(true), 2);
    assert_eq!(outcome, CycleState::Failed(CycleError::ParsingToF64Error));
}

#[test]
fn cycle_fails_on_invalid_utf8_price() {
    let outcome = run_cycle(true, Ok(token(&[0xff, 0xfe])), Some(true), 2);
    assert_eq!(outcome, CycleState::Failed(CycleError::ConvertToStringError));
}

#[test]
fn cycle_without_credential_fails_and_leaves_history_unchanged() {
    let mut history = PriceHistory::new();
    history.append_or_replace_price(42);
    let before = history.get_price();

    let outcome = run_cycle(true, Ok(token(b"6.789")), None, 2);
    assert_eq!(
        outcome,
        CycleState::Failed(CycleError::NoLocalAcctForSigning)
    );
    assert_eq!(history.get_price(), before);
}

#[test]
fn cycle_fails_when_pool_rejects_submission() {
    let outcome = run_cycle(true, Ok(token(b"6.789")), Some(false), 2);
    assert_eq!(
        outcome,
        CycleState::Failed(CycleError::OffchainUnsignedTxSignedPayloadError)
    );
}

#[test]
fn cycle_succeeds_with_credential_and_accepting_pool() {
    let outcome = run_cycle(true, Ok(token(b"6.789")), Some(true), 2);
    assert_eq!(outcome, CycleState::Done);
}

#[test]
fn build_submission_scales_price_and_attaches_key() {
    let public = [5u8; 32];
    let built = ocw_demo::payload::build_submission(&token(b"6.789"), 2, public);
    assert_eq!(built, Ok(Payload { price: 679, public }));
}

#[test]
fn build_submission_fails_as_the_conversion_fails() {
    let built = ocw_demo::payload::build_submission(&token(b"six"), 2, [5u8; 32]);
    assert_eq!(built, Err(ConversionError::ParsingToF64Error));
}

#[test]
fn execution_appends_price_and_emits_event() {
    let mut history = PriceHistory::new();
    let payload = Payload { price: 679, public: [1u8; 32] };
    let r = submit_price_unsigned_with_signed_payload(&Origin::Unsigned, &mut history, payload);
    assert_eq!(r, Ok(Event::ReceivedPrice(None, 679)));
    assert_eq!(history.get_price(), vec![679]);
}

#[test]
fn execution_rejects_non_unsigned_origins() {
    let mut history = PriceHistory::new();
    let payload = Payload { price: 679, public: [1u8; 32] };
    for origin in [Origin::Signed([1u8; 32]), Origin::Root] {
        let r = submit_price_unsigned_with_signed_payload(&origin, &mut history, payload.clone());
        assert_eq!(r, Err(()));
    }
    assert_eq!(history.get_price(), Vec::<u64>::new());
}
