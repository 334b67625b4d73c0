//! The two hash functions of the bridge runtime: Keccak-256, from which EVM
//! function selectors are cut, and Blake2b-256, the runtime's code hash.

use sha3::Digest;
use vstd::prelude::*;

verus! {

/// The Keccak-256 digest (the pre-standard Keccak that Ethereum uses) of `data`.
pub uninterp spec fn keccak256(data: Seq<u8>) -> Seq<u8>;

/// The 256-bit Blake2b digest of `data`, the runtime's `BlakeTwo256` hash.
pub uninterp spec fn blake2_256(data: Seq<u8>) -> Seq<u8>;

/// Calls `sha3::Keccak256::digest`. Trusted: the 32 bytes it returns are the
/// Keccak-256 digest of `data`, known to Verus only by the name `keccak256`.
#[verifier::external_body]
pub(crate) fn keccak256_digest(data: &[u8]) -> (digest: [u8; 32])
    ensures
        digest@ == keccak256(data@),
{
    sha3::Keccak256::digest(data).into()
}

/// Calls `sp_crypto_hashing::blake2_256`. Trusted: the 32 bytes it returns are
/// the Blake2b-256 digest of `data`, known to Verus only by the name `blake2_256`.
#[verifier::external_body]
pub(crate) fn blake2_256_digest(data: &[u8]) -> (digest: [u8; 32])
    ensures
        digest@ == blake2_256(data@),
{
    sp_crypto_hashing::blake2_256(data)
}

} // verus!
