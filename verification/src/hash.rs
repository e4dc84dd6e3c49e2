//! SHA-256 fingerprints of text, written in hexadecimal.
use vstd::prelude::*;
use sha2::{Digest, Sha256};
use vstd::string::StringSliceAdditionalSpecFns;
use crate::text::push_char;

verus! {

/// The SHA-256 digest of a run of bytes, as sha2 computes it.
pub uninterp spec fn sha256(bytes: Seq<u8>) -> Seq<u8>;

/// `Sha256::digest` of sha2: the SHA-256 digest of `input`, which is 32
/// bytes long.
#[verifier::external_body]
fn sha256_digest(input: &[u8]) -> (digest: Vec<u8>)
    ensures
        digest@ == sha256(input@),
        digest@.len() == 32,
{
    Sha256::digest(input).to_vec()
}

/// The character of the hexadecimal digit `digit`, in lower case.
pub open spec fn hex_char(digit: int) -> char
    recommends
        0 <= digit < 16,
{
    if digit < 10 {
        ((48 + digit) as u8) as char
    } else {
        ((87 + digit) as u8) as char
    }
}

/// The bytes in hexadecimal: two lower-case digits for each byte, the high
/// one first.
pub open spec fn spec_hex(bytes: Seq<u8>) -> Seq<char>
    decreases bytes.len(),
{
    if bytes.len() == 0 {
        Seq::<char>::empty()
    } else {
        spec_hex(bytes.drop_last()).push(hex_char(bytes.last() as int / 16)).push(
            hex_char(bytes.last() as int % 16),
        )
    }
}

/// The hexadecimal notation of `bytes` is twice as long as `bytes`.
pub proof fn lemma_hex_len(bytes: Seq<u8>)
    ensures
        spec_hex(bytes).len() == 2 * bytes.len(),
    decreases bytes.len(),
{
    if bytes.len() > 0 {
        lemma_hex_len(bytes.drop_last());
    }
}

/// The character of a hexadecimal digit, in lower case.
pub fn hex_digit(digit: u8) -> (c: char)
    requires
        digit < 16,
    ensures
        c == hex_char(digit as int),
{
    if digit < 10 {
        (48 + digit) as char
    } else {
        (87 + digit) as char
    }
}

/// Writes `bytes` in hexadecimal, in lower case.
pub fn hex_lower(bytes: &[u8]) -> (text: String)
    ensures
        text@ == spec_hex(bytes@),
        text@.len() == 2 * bytes@.len(),
{
    let mut text = String::new();
    let mut at: usize = 0;
    assert(bytes@.subrange(0, 0) =~= Seq::<u8>::empty());
    while at < bytes.len()
        invariant
            at <= bytes@.len(),
            text@ == spec_hex(bytes@.subrange(0, at as int)),
        decreases bytes@.len() - at,
    {
        let byte = bytes[at];
        push_char(&mut text, hex_digit(byte / 16));
        push_char(&mut text, hex_digit(byte % 16));
        at = at + 1;
        proof {
            let prefix = bytes@.subrange(0, at as int);
            assert(prefix.drop_last() =~= bytes@.subrange(0, at - 1));
            assert(prefix.last() == byte);
        }
    }
    assert(bytes@.subrange(0, at as int) =~= bytes@);
    proof {
        lemma_hex_len(bytes@);
    }
    text
}

/// The SHA-256 digest of `input` in hexadecimal: 64 lower-case digits.
pub fn sha256_hash(input: &str) -> (text: String)
    ensures
        text@ == spec_hex(sha256(input.spec_bytes())),
        text@.len() == 64,
{
    let digest = sha256_digest(input.as_bytes());
    hex_lower(digest.as_slice())
}

} // verus!
