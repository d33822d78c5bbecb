//! The submission payload and its signing bytes.
//!
//! A submission carries the scaled price and the public key of the worker
//! that attests it. The payload is submitted unsigned (nobody pays fees for
//! an oracle report) but accompanied by a statement-of-origin: a signature
//! over the payload's encoding under the claimed public key, which admission
//! checks instead of wallet-based authorization.

use vstd::prelude::*;
use crate::convert::ConversionError;
use crate::convert::parse_scaled_price;
use crate::convert::spec_convert;
use crate::fetch::AssertToken;

verus! {

/// The price-submission payload: the scaled price and the submitter's
/// public key.
#[derive(Clone, PartialEq, Eq, Debug)]
pub struct Payload {
    /// Scaled fixed-point price.
    pub price: u64,
    /// sr25519 public key of the attesting worker.
    pub public: [u8; 32],
}

pub open spec fn pow_256(i: int) -> int
    decreases i,
{
    if i <= 0 {
        1
    } else {
        256 * pow_256(i - 1)
    }
}

/// The eight bytes of a 64-bit integer, least significant first.
pub open spec fn u64_le_bytes(x: u64) -> Seq<u8> {
    Seq::new(8, |i: int| (((x as int) / pow_256(i)) % 256) as u8)
}

/// The bytes the statement-of-origin signature covers: the payload's
/// encoding, price first, then the public key.
pub open spec fn signing_message(price: u64, public: Seq<u8>) -> Seq<u8> {
    u64_le_bytes(price) + public
}

/// Relies on parity_scale_codec::Encode for `(u64, [u8; 32])`: fixed-width
/// integers are encoded as their little-endian bytes, byte arrays as their
/// raw bytes, and tuples as the concatenation of their fields.
#[verifier::external_body]
fn scale_encode_price_public(price: u64, public: &[u8; 32]) -> (r: Vec<u8>)
    ensures
        r@ == signing_message(price, public@),
{
    parity_scale_codec::Encode::encode(&(price, *public))
}

impl Payload {
    /// The claimed submitter identity.
    pub fn public(&self) -> (r: [u8; 32])
        ensures
            r == self.public,
    {
        self.public
    }

    /// The exact bytes a submitter signs and admission verifies.
    pub fn signing_payload(&self) -> (r: Vec<u8>)
        ensures
            r@ == signing_message(self.price, self.public@),
    {
        scale_encode_price_public(self.price, &self.public)
    }
}

/// Builds the submission payload from a fetched price record: converts the
/// price text to the scaled fixed-point price and attaches the submitter's
/// public key. Fails exactly as the conversion fails.
pub fn build_submission(raw: &AssertToken, precision: u8, public: [u8; 32]) -> (r: Result<
    Payload,
    ConversionError,
>)
    ensures
        match spec_convert(raw.data.price_usd@, precision as nat) {
            Result::Ok(v) => r == Result::<Payload, ConversionError>::Ok(
                Payload { price: v, public },
            ),
            Result::Err(e) => r == Result::<Payload, ConversionError>::Err(e),
        },
{
    match parse_scaled_price(&raw.data.price_usd, precision) {
        Result::Ok(price) => Result::Ok(Payload { price, public }),
        Result::Err(e) => Result::Err(e),
    }
}

} // verus!
