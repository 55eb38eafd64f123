//! Calls into outside crates. Verus does not read these bodies: each
//! contract below is believed as written, and its doc comment says what it
//! claims of the outside function.

use vstd::prelude::*;
use sha2::Digest;
use crate::text::{hex_lower, is_v4_uuid, uuid_text};

verus! {

/// The SHA-256 digest of a byte sequence. The algorithm is not written out
/// here; only its name and its 32-byte length are relied on.
pub uninterp spec fn sha256(data: Seq<u8>) -> Seq<u8>;

/// Calls `sha2::Sha256::digest` (`Digest::digest`: a fresh hasher, one
/// `update` with `data`, then `finalize`). Claimed: the result is the
/// SHA-256 digest of `data`, a function of `data` alone, and has 32 bytes.
#[verifier::external_body]
pub(crate) fn sha256_digest(data: &[u8]) -> (res: Vec<u8>)
    ensures
        res@ == sha256(data@),
        res@.len() == 32,
{
    sha2::Sha256::digest(data).to_vec()
}

/// Calls `hex::encode`. Claimed: two lowercase hexadecimal digits per input
/// byte, high nibble first (the crate encodes with the table
/// `0123456789abcdef`).
#[verifier::external_body]
pub(crate) fn hex_encode(bytes: &[u8]) -> (res: String)
    ensures
        res@ == hex_lower(bytes@),
{
    hex::encode(bytes)
}

/// Calls `uuid::Uuid::from_u128` then its `Display` (`to_string`).
/// Claimed: the big-endian bytes of `v` in the hyphenated lowercase form
/// 8-4-4-4-12, as the crate's `format_hyphenated` writes them.
#[verifier::external_body]
pub(crate) fn uuid_to_text(v: u128) -> (res: String)
    ensures
        res@ == uuid_text(v),
{
    uuid::Uuid::from_u128(v).to_string()
}

/// Calls `uuid::Uuid::new_v4` and returns its 128-bit value. The value is
/// random; claimed only: it is a version-4 UUID, as `new_v4` masks in the
/// version nibble 4 and the variant bits `10`.
#[verifier::external_body]
pub(crate) fn new_uuid() -> (res: u128)
    ensures
        is_v4_uuid(res),
{
    uuid::Uuid::new_v4().as_u128()
}

} // verus!
