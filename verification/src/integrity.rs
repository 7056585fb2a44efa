//! Content hashes and the check of downloaded bytes against declared hashes.
//!
//! A file may declare a SHA-256 hash, a SHA-1 hash, both or neither. Where a
//! SHA-256 hash is declared it alone decides; otherwise the SHA-1 hash does;
//! a file that declares neither passes. Callers that need strict integrity
//! must always supply a hash.

use sha2::Digest;
use vstd::prelude::*;

use crate::text::{opt_text, same_text};

verus! {

/// The SHA-256 digest of `data`: 32 bytes.
pub uninterp spec fn sha256_of(data: Seq<u8>) -> Seq<u8>;

/// The SHA-1 digest of `data`: 20 bytes.
pub uninterp spec fn sha1_of(data: Seq<u8>) -> Seq<u8>;

/// The lower-case hexadecimal digit for a value below sixteen.
pub open spec fn hex_digit(n: nat) -> char {
    if n == 0 {
        '0'
    } else if n == 1 {
        '1'
    } else if n == 2 {
        '2'
    } else if n == 3 {
        '3'
    } else if n == 4 {
        '4'
    } else if n == 5 {
        '5'
    } else if n == 6 {
        '6'
    } else if n == 7 {
        '7'
    } else if n == 8 {
        '8'
    } else if n == 9 {
        '9'
    } else if n == 10 {
        'a'
    } else if n == 11 {
        'b'
    } else if n == 12 {
        'c'
    } else if n == 13 {
        'd'
    } else if n == 14 {
        'e'
    } else {
        'f'
    }
}

/// Lower-case hexadecimal text: two digits per byte, high half first.
pub open spec fn hex_lower(bytes: Seq<u8>) -> Seq<char>
    decreases bytes.len(),
{
    if bytes.len() == 0 {
        Seq::empty()
    } else {
        hex_lower(bytes.drop_last()).push(hex_digit(bytes.last() as nat / 16)).push(
            hex_digit(bytes.last() as nat % 16),
        )
    }
}

/// The SHA-256 digest of `data` as lower-case hexadecimal text.
pub open spec fn sha256_hex(data: Seq<u8>) -> Seq<char> {
    hex_lower(sha256_of(data))
}

/// The SHA-1 digest of `data` as lower-case hexadecimal text.
pub open spec fn sha1_hex(data: Seq<u8>) -> Seq<char> {
    hex_lower(sha1_of(data))
}

/// Which declared hash decides a check.
#[derive(Clone, Copy, Debug, PartialEq, Eq, Structural)]
pub enum HashChoice {
    /// A SHA-256 hash is declared and decides alone.
    Primary,
    /// Only a SHA-1 hash is declared.
    Secondary,
    /// No hash is declared: the content is trusted.
    Unchecked,
}

/// The hash that decides, given which hashes are declared.
pub open spec fn choice_of(has_sha256: bool, has_sha1: bool) -> HashChoice {
    if has_sha256 {
        HashChoice::Primary
    } else if has_sha1 {
        HashChoice::Secondary
    } else {
        HashChoice::Unchecked
    }
}

/// Whether `data` passes the check against the declared hashes.
pub open spec fn checksum_ok(
    data: Seq<u8>,
    sha256: Option<Seq<char>>,
    sha1: Option<Seq<char>>,
) -> bool {
    match choice_of(sha256 is Some, sha1 is Some) {
        HashChoice::Primary => sha256_hex(data) == sha256->0,
        HashChoice::Secondary => sha1_hex(data) == sha1->0,
        HashChoice::Unchecked => true,
    }
}

/// `sha2::Sha256::digest`: the SHA-256 digest of the whole input. The digest
/// is a function of the input bytes alone; the contract gives it its name.
#[verifier::external_body]
fn sha256_digest(data: &[u8]) -> (out: Vec<u8>)
    ensures
        out@ == sha256_of(data@),
{
    sha2::Sha256::digest(data).to_vec()
}

/// `sha1::Sha1::digest`: the SHA-1 digest of the whole input. The digest is a
/// function of the input bytes alone; the contract gives it its name.
#[verifier::external_body]
fn sha1_digest(data: &[u8]) -> (out: Vec<u8>)
    ensures
        out@ == sha1_of(data@),
{
    sha1::Sha1::digest(data).to_vec()
}

/// `hex::encode`: each byte becomes two characters taken from
/// `0123456789abcdef`, the high four bits first.
#[verifier::external_body]
fn hex_encode(bytes: &[u8]) -> (out: String)
    ensures
        out@ == hex_lower(bytes@),
{
    hex::encode(bytes)
}

/// The SHA-256 hash of `data` as lower-case hexadecimal text.
pub fn compute_sha256(data: &[u8]) -> (digest: String)
    ensures
        digest@ == sha256_hex(data@),
{
    let raw = sha256_digest(data);
    hex_encode(raw.as_slice())
}

/// The SHA-1 hash of `data` as lower-case hexadecimal text.
pub fn compute_sha1(data: &[u8]) -> (digest: String)
    ensures
        digest@ == sha1_hex(data@),
{
    let raw = sha1_digest(data);
    hex_encode(raw.as_slice())
}

/// Which declared hash decides: SHA-256 before SHA-1, and none if neither
/// is declared.
pub fn authoritative_hash(sha256: Option<&str>, sha1: Option<&str>) -> (choice: HashChoice)
    ensures
        choice == choice_of(sha256 is Some, sha1 is Some),
{
    if sha256.is_some() {
        HashChoice::Primary
    } else if sha1.is_some() {
        HashChoice::Secondary
    } else {
        HashChoice::Unchecked
    }
}

/// Whether a computed digest is the expected one, character for character.
pub fn digest_matches(actual: &str, expected: &str) -> (same: bool)
    ensures
        same == (actual@ == expected@),
{
    same_text(actual, expected)
}

/// Checks `data` against the declared hashes: SHA-256 if declared, else
/// SHA-1 if declared, else the data passes.
pub fn verify_checksum(data: &[u8], sha256: Option<&str>, sha1: Option<&str>) -> (ok: bool)
    ensures
        ok == checksum_ok(data@, opt_text(sha256), opt_text(sha1)),
{
    match authoritative_hash(sha256, sha1) {
        HashChoice::Primary => {
            let actual = compute_sha256(data);
            digest_matches(actual.as_str(), sha256.unwrap())
        },
        HashChoice::Secondary => {
            let actual = compute_sha1(data);
            digest_matches(actual.as_str(), sha1.unwrap())
        },
        HashChoice::Unchecked => true,
    }
}

/// With a SHA-256 hash declared, data passes exactly when its SHA-256 hash is
/// the declared one, whatever SHA-1 hash is declared beside it.
pub proof fn law_primary_hash_decides(data: Seq<u8>, expected: Seq<char>, sha1: Option<Seq<char>>)
    ensures
        checksum_ok(data, Some(expected), sha1) <==> sha256_hex(data) == expected,
{
}

/// With only a SHA-1 hash declared, data passes exactly when its SHA-1 hash
/// is the declared one.
pub proof fn law_secondary_hash_is_fallback(data: Seq<u8>, expected: Seq<char>)
    ensures
        checksum_ok(data, None, Some(expected)) <==> sha1_hex(data) == expected,
{
}

/// With no hash declared, every content passes.
pub proof fn law_no_hash_passes(data: Seq<u8>)
    ensures
        checksum_ok(data, None, None),
{
}

} // verus!
