//! What the library takes on trust from the `sha2` and `hex` crates.

use vstd::prelude::*;
use sha2::{Digest, Sha256};
use crate::text::digit;

verus! {

/// The SHA-256 digest of `data`, as `sha2` computes it.
pub uninterp spec fn sha256_digest(data: Seq<u8>) -> Seq<u8>;

/// `sha2::Sha256::digest`. Taken on trust: the result is a function of the
/// bytes hashed and of nothing else, [`sha256_digest`] is its name, and it
/// is 32 bytes long.
#[verifier::external_body]
pub(crate) fn sha256(data: &[u8]) -> (digest: Vec<u8>)
    ensures
        digest@ == sha256_digest(data@),
        digest@.len() == 32,
{
    Sha256::digest(data).to_vec()
}

/// Bytes written in lower-case hexadecimal: two digits for every byte, the
/// high half of the byte first.
pub open spec fn hex_string(bytes: Seq<u8>) -> Seq<char> {
    Seq::new(
        2 * bytes.len(),
        |i: int|
            if i % 2 == 0 {
                digit(bytes[i / 2] as int / 16)
            } else {
                digit(bytes[i / 2] as int % 16)
            },
    )
}

/// `hex::encode`. Taken on trust: the string it returns is [`hex_string`] of
/// the bytes it is given.
#[verifier::external_body]
pub(crate) fn hex_encode(bytes: &[u8]) -> (text: String)
    ensures
        text@ == hex_string(bytes@),
{
    hex::encode(bytes)
}

} // verus!
