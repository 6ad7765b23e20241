//! Content hashing for uploads.
use sha1::{Digest, Sha1};
use vstd::prelude::*;

verus! {

/// The lowercase hexadecimal SHA-1 digest of `b`.
pub uninterp spec fn sha1_hex_of(b: Seq<u8>) -> Seq<char>;

/// A lowercase hexadecimal digit.
pub open spec fn is_lower_hex_digit(c: char) -> bool {
    ('0' <= c && c <= '9') || ('a' <= c && c <= 'f')
}

/// Relies on `sha1::Sha1::digest` (a 20-byte output) and on the `LowerHex`
/// rendering of its output array: two lowercase hex digits per byte.
#[verifier::external_body]
pub(crate) fn sha1_hex(content: &[u8]) -> (r: String)
    ensures
        r@ == sha1_hex_of(content@),
        r@.len() == 40,
        forall|i: int| 0 <= i < r@.len() ==> is_lower_hex_digit(#[trigger] r@[i]),
{
    format!("{:x}", Sha1::digest(content))
}

} // verus!
