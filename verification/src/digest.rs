//! SHA-256 digests, rendered as lower-case hexadecimal.
use vstd::prelude::*;
use sha2::Digest;
use crate::text::{hex_lower, is_lower_hex, to_hex_lower};

verus! {

/// The SHA-256 digest of `data`.
pub uninterp spec fn sha256(data: Seq<u8>) -> Seq<u8>;

/// `sha2::Sha256::digest`. Claimed: the result is the digest named `sha256(data@)`,
/// and it is 32 bytes long (the output size of SHA-256). The digest's value is not stated.
#[verifier::external_body]
fn sha256_digest(data: &[u8]) -> (r: Vec<u8>)
    ensures
        r@ == sha256(data@),
        r@.len() == 32,
{
    sha2::Sha256::digest(data).to_vec()
}

/// A SHA-256 digest as it is rendered: 64 lower-case hexadecimal digits.
pub open spec fn is_hex_digest(s: Seq<char>) -> bool {
    s.len() == 64 && is_lower_hex(s)
}

/// The SHA-256 digest of `bytes` as 64 lower-case hexadecimal digits.
pub fn sha256_hex(bytes: &[u8]) -> (r: String)
    ensures
        r@ == hex_lower(sha256(bytes@)),
        is_hex_digest(r@),
{
    let digest = sha256_digest(bytes);
    to_hex_lower(digest.as_slice())
}

} // verus!
