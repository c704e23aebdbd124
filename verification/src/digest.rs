//! The credential digest: SHA-224 of the UTF-8 password bytes, written as 56
//! lower-case hex digits.

use sha2::Digest;
use vstd::prelude::*;
use vstd::string::StringSliceAdditionalSpecFns;

use crate::bytes::bytes_eq;

verus! {

/// What SHA-224 returns for the given input bytes; the digest depends on the
/// input alone.
pub uninterp spec fn sha224_of(data: Seq<u8>) -> Seq<u8>;

/// The lower-case hex digit for a value below 16.
pub open spec fn hex_digit(n: u8) -> u8 {
    if n < 10 {
        (48 + n) as u8
    } else {
        (87 + n) as u8
    }
}

/// The lower-case hex encoding of a byte sequence: for each byte its high
/// nibble's digit, then its low nibble's.
pub open spec fn hex_of(data: Seq<u8>) -> Seq<u8> {
    Seq::new(
        data.len() * 2,
        |i: int|
            if i % 2 == 0 {
                hex_digit(data[i / 2] / 16)
            } else {
                hex_digit(data[i / 2] % 16)
            },
    )
}

/// The deployed form of a credential: the SHA-224 digest of the password
/// bytes, hex-encoded.
pub open spec fn credential_of(password: Seq<u8>) -> Seq<u8> {
    hex_of(sha224_of(password))
}

/// Relies on sha2::Sha224: the digest is exactly 28 bytes and a function of
/// the input bytes alone.
#[verifier::external_body]
fn sha224(data: &[u8]) -> (r: Vec<u8>)
    ensures
        r@ == sha224_of(data@),
        r@.len() == 28,
{
    sha2::Sha224::digest(data).to_vec()
}

/// Relies on hex::encode: each input byte becomes its two lower-case hex
/// digits, high nibble first.
#[verifier::external_body]
fn hex_lower(data: &[u8]) -> (r: Vec<u8>)
    ensures
        r@ == hex_of(data@),
{
    hex::encode(data).into_bytes()
}

/// The 56 hex bytes of the SHA-224 digest of a cleartext password.
pub fn hash_password(clear_text: &str) -> (r: Vec<u8>)
    ensures
        r@ == credential_of(clear_text.spec_bytes()),
        r@.len() == 56,
{
    let bytes = clear_text.as_bytes();
    let digest = sha224(bytes);
    hex_lower(digest.as_slice())
}

/// Whether a presented credential matches the deployed digest, compared byte
/// for byte.
pub fn credential_matches(presented: &[u8], digest: &[u8]) -> (r: bool)
    ensures
        r == (presented@ == digest@),
{
    bytes_eq(presented, digest)
}

} // verus!
