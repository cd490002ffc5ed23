//! The hash function of the commitment scheme.

use vstd::prelude::*;

verus! {

/// The Keccak-256 digest of a byte string.
///
/// The digest is not defined here: it is whatever `stylus_sdk::crypto::keccak`
/// computes, which depends on the input bytes alone.
pub uninterp spec fn keccak256(bytes: Seq<u8>) -> Seq<u8>;

/// Hashes a byte string with Keccak-256.
///
/// Trusted: the body calls `stylus_sdk::crypto::keccak`, which hands the
/// bytes to `alloy_primitives::keccak256`, and takes the 32 bytes out of the
/// `FixedBytes<32>` that comes back. The contract only gives that digest its
/// name, [`keccak256`].
#[verifier::external_body]
pub(crate) fn keccak(bytes: &[u8]) -> (digest: [u8; 32])
    ensures
        digest@ == keccak256(bytes@),
{
    stylus_sdk::crypto::keccak(bytes).0
}

} // verus!
