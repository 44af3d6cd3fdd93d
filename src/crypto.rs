use vstd::prelude::*;

use crate::text::hex_lower;

verus! {

/// The SHA-256 digest of `data`.
pub uninterp spec fn sha256_digest(data: Seq<u8>) -> Seq<u8>;

/// The Keccak-256 digest of `data`.
pub uninterp spec fn keccak256_digest(data: Seq<u8>) -> Seq<u8>;

/// Relies on `near_sdk::env::sha256`: the SHA-256 digest of the bytes, which
/// comes from a 32-byte array.
#[verifier::external_body]
pub(crate) fn sha256(data: &[u8]) -> (r: Vec<u8>)
    ensures
        r@ == sha256_digest(data@),
        r@.len() == 32,
{
    near_sdk::env::sha256(data)
}

/// Relies on `near_sdk::env::keccak256`: the Keccak-256 digest of the bytes,
/// which comes from a 32-byte array.
#[verifier::external_body]
pub(crate) fn keccak256(data: &[u8]) -> (r: Vec<u8>)
    ensures
        r@ == keccak256_digest(data@),
        r@.len() == 32,
{
    near_sdk::env::keccak256(data)
}

/// Relies on `hex::encode`: two lowercase hex digits per byte, high nibble
/// first, from the table `0123456789abcdef`.
#[verifier::external_body]
pub(crate) fn hex_encode(data: &[u8]) -> (r: String)
    ensures
        r@ == hex_lower(data@),
{
    hex::encode(data)
}

} // verus!
