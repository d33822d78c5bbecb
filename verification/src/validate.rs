//! The transaction-admission rule.
//!
//! Every node that receives a candidate price-submission transaction runs
//! this rule before the transaction enters its pending pool, independently
//! of and prior to execution. A recognized submission whose
//! statement-of-origin signature verifies is admitted with a fixed
//! provenance tag (for pool-level deduplication), a fixed priority,
//! permission to propagate, and a bounded validity window; anything else is
//! rejected. The rule is pure: it never touches the price history.

use vstd::prelude::*;
use crate::UNSIGNED_TXS_LONGEVITY;
use crate::UNSIGNED_TXS_PRIORITY;
use crate::crypto::sr25519_verifies;
use crate::crypto::sr25519_verify;
use crate::payload::Payload;
use crate::payload::signing_message;

verus! {

/// A candidate transaction, as admission sees it.
#[derive(Clone, PartialEq, Eq, Debug)]
pub enum Call {
    /// The recognized price-submission kind: the payload and its
    /// statement-of-origin signature.
    SubmitPriceUnsignedWithSignedPayload(Payload, [u8; 64]),
    /// Any other transaction kind; never admitted here.
    Other,
}

/// Rejection reason of a candidate transaction.
#[derive(Clone, Copy, PartialEq, Eq, Structural, Debug)]
pub enum InvalidReason {
    /// The statement-of-origin signature does not verify against the
    /// payload and the claimed public key.
    BadProof,
    /// The transaction is not the recognized price-submission kind.
    UnknownCall,
}

/// The fixed provenance tag an admitted submission provides, under which
/// the pool deduplicates submissions of the same logical window.
#[derive(Clone, Copy, PartialEq, Eq, Structural, Debug)]
pub enum ProvideTag {
    PriceSubmission,
}

/// What the pool is told about an admitted transaction.
#[derive(Clone, Copy, PartialEq, Eq, Structural, Debug)]
pub struct ValidTransaction {
    /// Fixed priority of price submissions.
    pub priority: u64,
    /// Provenance tag for deduplication.
    pub provides: ProvideTag,
    /// How many logical-clock ticks the pending transaction stays valid
    /// before it is dropped rather than retried.
    pub longevity: u64,
    /// Whether the transaction may propagate to peers.
    pub propagate: bool,
}

/// The admission verdict.
#[derive(Clone, Copy, PartialEq, Eq, Structural, Debug)]
pub enum TransactionValidity {
    Valid(ValidTransaction),
    Invalid(InvalidReason),
}

/// The fixed terms under which every admitted submission enters the pool.
pub open spec fn spec_admitted() -> ValidTransaction {
    ValidTransaction {
        priority: UNSIGNED_TXS_PRIORITY,
        provides: ProvideTag::PriceSubmission,
        longevity: UNSIGNED_TXS_LONGEVITY,
        propagate: true,
    }
}

/// The admission rule: admit exactly the recognized submission kind whose
/// statement-of-origin signature verifies over the payload's signing bytes.
pub open spec fn spec_validate(call: Call) -> TransactionValidity {
    match call {
        Call::SubmitPriceUnsignedWithSignedPayload(payload, sig) => {
            if sr25519_verifies(
                signing_message(payload.price, payload.public@),
                sig@,
                payload.public@,
            ) {
                TransactionValidity::Valid(spec_admitted())
            } else {
                TransactionValidity::Invalid(InvalidReason::BadProof)
            }
        },
        Call::Other => TransactionValidity::Invalid(InvalidReason::UnknownCall),
    }
}

/// Decides whether a candidate transaction may enter the pending pool.
pub fn validate_unsigned(call: &Call) -> (r: TransactionValidity)
    ensures
        r == spec_validate(*call),
{
    match call {
        Call::SubmitPriceUnsignedWithSignedPayload(payload, sig) => {
            let msg = payload.signing_payload();
            if sr25519_verify(sig, &msg, &payload.public) {
                TransactionValidity::Valid(ValidTransaction {
                    priority: UNSIGNED_TXS_PRIORITY,
                    provides: ProvideTag::PriceSubmission,
                    longevity: UNSIGNED_TXS_LONGEVITY,
                    propagate: true,
                })
            } else {
                TransactionValidity::Invalid(InvalidReason::BadProof)
            }
        },
        Call::Other => TransactionValidity::Invalid(InvalidReason::UnknownCall),
    }
}

} // verus!
