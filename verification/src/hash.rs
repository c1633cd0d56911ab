//! The 256-bit digest shared with the chains this node attests for.

use vstd::prelude::*;

verus! {

/// The Keccak-256 digest of a byte string, as a sequence of 32 bytes.
pub uninterp spec fn keccak256_digest(data: Seq<u8>) -> Seq<u8>;

/// Calls `alloy_primitives::keccak256`. Trusted: the 32 bytes handed back are
/// the Keccak-256 digest of `data`, a function of the bytes of `data` alone.
#[verifier::external_body]
pub(crate) fn keccak256(data: &[u8]) -> (digest: [u8; 32])
    ensures
        digest@ == keccak256_digest(data@),
{
    alloy_primitives::keccak256(data).0
}

} // verus!
