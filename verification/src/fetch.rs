//! Deadline and status rules of the external price fetch.
//!
//! The HTTP transport itself is an external collaborator: the host sends the
//! request and waits for it. The rules it must follow are fixed here: the
//! hard deadline is computed once at call start, a fetch that has produced
//! no response by that deadline is abandoned and reported as a timeout, a
//! non-200 status is its own failure distinct from a timeout, and only a
//! fully buffered body of a 200 response is ever handed on. A timed-out or
//! failed fetch therefore never yields a partially-parsed payload.

use vstd::prelude::*;
use crate::FETCH_TIMEOUT_PERIOD;

verus! {

/// Failure of one external price fetch.
#[derive(Clone, Copy, PartialEq, Eq, Structural, Debug)]
pub enum FetchError {
    /// No response arrived by the deadline; the request was abandoned.
    Timeout,
    /// A response arrived with a status other than 200.
    BadStatus,
    /// The request could not be sent or the response could not be read.
    Transport,
    /// The response body was not the expected UTF-8 JSON document.
    InvalidBody,
}

/// The parsed fields of the price feed's JSON document. The record is
/// transient: it exists only within one fetch cycle and is never persisted.
#[derive(Clone, PartialEq, Eq, Debug)]
pub struct AssertToken {
    pub data: DataDetail,
    /// Server-side timestamp of the quote, in milliseconds.
    pub timestamp: u64,
}

/// The asset fields of the price feed's JSON document, as raw text.
#[derive(Clone, PartialEq, Eq, Debug)]
pub struct DataDetail {
    /// Asset identifier, e.g. `"polkadot"`.
    pub id: Vec<u8>,
    /// Asset ticker symbol.
    pub symbol: Vec<u8>,
    /// Quoted price in USD, as decimal text.
    pub price_usd: Vec<u8>,
}

/// A fully buffered HTTP response, as plain values.
pub struct HttpResponse {
    /// HTTP status code.
    pub code: u16,
    /// The complete response body.
    pub body: Vec<u8>,
}

/// The hard deadline of a fetch: computed once at call start, a fixed
/// timeout past the current wall clock.
pub fn compute_deadline(now: u64) -> (deadline: u64)
    requires
        now + FETCH_TIMEOUT_PERIOD <= u64::MAX,
    ensures
        deadline == now + FETCH_TIMEOUT_PERIOD,
{
    now + FETCH_TIMEOUT_PERIOD
}

/// Classifies what the transport produced by the deadline. No response means
/// the fetch timed out; a non-200 status is rejected; only the fully
/// buffered body of a 200 response is returned.
pub fn finish_fetch(outcome: Option<HttpResponse>) -> (r: Result<Vec<u8>, FetchError>)
    ensures
        match outcome {
            Option::None => r == Result::<Vec<u8>, FetchError>::Err(FetchError::Timeout),
            Option::Some(resp) => {
                if resp.code != 200 {
                    r == Result::<Vec<u8>, FetchError>::Err(FetchError::BadStatus)
                } else {
                    r is Ok && r->Ok_0@ == resp.body@
                }
            },
        },
{
    match outcome {
        Option::None => Result::Err(FetchError::Timeout),
        Option::Some(resp) => {
            if resp.code != 200 {
                Result::Err(FetchError::BadStatus)
            } else {
                Result::Ok(resp.body)
            }
        },
    }
}

} // verus!
