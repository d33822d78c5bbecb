//! Off-chain price oracle coordination logic.
//!
//! A background worker periodically fetches an external asset price, converts
//! it to a fixed-point integer and submits it towards a shared, replicated
//! ledger. The modules here hold the coordination rules that make many
//! independent workers converge on a consistent, rate-limited, validated
//! write to shared state:
//!
//! - [`history`]: the bounded FIFO buffer of accepted prices;
//! - [`lock`]: the advisory distributed lock that rate-limits fetch cycles;
//! - [`fetch`]: the deadline and status rules of the external price fetch;
//! - [`convert`]: decimal text to scaled fixed-point price conversion;
//! - [`payload`]: the submission payload and its signing bytes;
//! - [`validate`]: the transaction-admission rule;
//! - [`worker`]: the state machine of one fetch-and-submit cycle.
//!
//! The replicated-ledger engine, the keystore, the HTTP transport and the
//! scheduler are external collaborators: the host drives these modules and
//! performs the outside work between steps.

use vstd::prelude::*;

pub mod convert;
pub mod crypto;
pub mod fetch;
pub mod history;
pub mod lock;
pub mod payload;
pub mod validate;
pub mod worker;

verus! {

/// Capacity of the price-history buffer.
pub const NUM_VEC_LEN: usize = 10;

/// Priority assigned to every admitted price-submission transaction.
pub const UNSIGNED_TXS_PRIORITY: u64 = 100;

/// Number of logical-clock ticks an admitted but un-included submission
/// stays valid in the pending pool.
pub const UNSIGNED_TXS_LONGEVITY: u64 = 3;

/// Hard deadline of one external price fetch, in milliseconds.
pub const FETCH_TIMEOUT_PERIOD: u64 = 3000;

/// Wall-clock expiry of the cycle lock, in milliseconds.
pub const LOCK_TIMEOUT_EXPIRATION: u64 = FETCH_TIMEOUT_PERIOD + 1000;

/// Logical-clock (block height) expiry of the cycle lock.
pub const LOCK_BLOCK_EXPIRATION: u32 = 3;

} // verus!
