//! Boundary to the sr25519 signature scheme.
//!
//! The cryptographic subsystem is an external collaborator: the library
//! never computes a signature check itself, it only relies on the scheme
//! being a fixed, deterministic predicate of message, signature and public
//! key. The keystore that holds signing credentials belongs to the host.

use vstd::prelude::*;

verus! {

/// Whether the sr25519 signature is valid for the message under the public
/// key; decided by the signature scheme, deterministic in its arguments.
pub uninterp spec fn sr25519_verifies(msg: Seq<u8>, sig: Seq<u8>, public: Seq<u8>) -> bool;

/// Relies on sp_core::sr25519 signature verification
/// (`sp_core::crypto::Pair::verify`), a deterministic function of the
/// message, the signature bytes and the public key bytes.
#[verifier::external_body]
pub(crate) fn sr25519_verify(sig: &[u8; 64], msg: &Vec<u8>, public: &[u8; 32]) -> (r: bool)
    ensures
        r == sr25519_verifies(msg@, sig@, public@),
{
    let sig = sp_core::sr25519::Signature::from_raw(*sig);
    let public = sp_core::sr25519::Public::from_raw(*public);
    <sp_core::sr25519::Pair as sp_core::crypto::Pair>::verify(&sig, msg.as_slice(), &public)
}

} // verus!
