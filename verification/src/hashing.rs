//! The runtime's hash: Blake2b with a 256-bit output, computed by `sp-core`.
use vstd::prelude::*;

verus! {

/// The Blake2b-256 digest of `data`.
pub uninterp spec fn blake2_256_of(data: Seq<u8>) -> [u8; 32];

/// Hashes `data` with `sp_core::Blake2Hasher` (the `Hasher` of `sp-core` that
/// returns `sp_crypto_hashing::blake2_256(data)` as an `H256`). Trusted: the
/// result is the Blake2b-256 digest of exactly these bytes, and nothing more
/// is said of it.
#[verifier::external_body]
pub(crate) fn blake2_256(data: &[u8]) -> (r: [u8; 32])
    ensures
        r == blake2_256_of(data@),
{
    <sp_core::Blake2Hasher as sp_core::Hasher>::hash(data).0
}

} // verus!
