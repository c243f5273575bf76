//! Cryptographic primitives: SHA-256 and HMAC-SHA256, raw and hex encoded.
use hmac::{Hmac, Mac};
use sha2::{Digest, Sha256};
use vstd::prelude::*;
use vstd::utf8::encode_utf8;

verus! {

/// The SHA-256 digest of a byte string, as the `sha2` crate computes it.
pub uninterp spec fn sha256_digest(data: Seq<u8>) -> Seq<u8>;

/// The HMAC-SHA256 tag of `message` under `key`, as the `hmac` crate
/// computes it.
pub uninterp spec fn hmac_sha256_tag(key: Seq<u8>, message: Seq<u8>) -> Seq<u8>;

/// Length in bytes of a SHA-256 digest and of an HMAC-SHA256 tag.
pub const DIGEST_LEN: usize = 32;

/// The lowercase hexadecimal digit for a value in `0..16`.
pub open spec fn hex_digit(nibble: int) -> char {
    seq!['0', '1', '2', '3', '4', '5', '6', '7', '8', '9', 'a', 'b', 'c', 'd', 'e', 'f'][nibble]
}

/// Lowercase hexadecimal text of a byte string: two digits per byte, the
/// high half of each byte first.
pub open spec fn hex_lower(bytes: Seq<u8>) -> Seq<char> {
    Seq::new(
        2 * bytes.len(),
        |i: int|
            if i % 2 == 0 {
                hex_digit(bytes[i / 2] as int / 16)
            } else {
                hex_digit(bytes[i / 2] as int % 16)
            },
    )
}

/// What `sha256_hex` returns for a text.
pub open spec fn sha256_hex_text(data: Seq<char>) -> Seq<char> {
    hex_lower(sha256_digest(encode_utf8(data)))
}

/// What `hmac_sha256_hex` returns for a key and a text.
pub open spec fn hmac_sha256_hex_text(key: Seq<u8>, data: Seq<char>) -> Seq<char> {
    hex_lower(hmac_sha256_tag(key, encode_utf8(data)))
}

/// Calls `Sha256::digest` of the `sha2` crate. Trusted: the result is the
/// SHA-256 digest of `data`, which is 32 bytes long.
#[verifier::external_body]
fn sha256_bytes(data: &[u8]) -> (digest: Vec<u8>)
    ensures
        digest@ == sha256_digest(data@),
        digest@.len() == DIGEST_LEN,
{
    Sha256::digest(data).to_vec()
}

/// Runs `Hmac<Sha256>` of the `hmac` crate over `message`, keyed with `key`.
/// Trusted: the result is the HMAC-SHA256 tag, which is 32 bytes long. The
/// crate accepts a key of any length.
#[verifier::external_body]
fn hmac_sha256_bytes(key: &[u8], message: &[u8]) -> (tag: Vec<u8>)
    ensures
        tag@ == hmac_sha256_tag(key@, message@),
        tag@.len() == DIGEST_LEN,
{
    let mut mac = Hmac::<Sha256>::new_from_slice(key).expect("HMAC can take key of any size");
    mac.update(message);
    mac.finalize().into_bytes().to_vec()
}

/// Calls `hex::encode`. Trusted: the result is the lowercase hexadecimal
/// text of `bytes`, two digits per byte.
#[verifier::external_body]
fn hex_encode(bytes: &[u8]) -> (text: String)
    ensures
        text@ == hex_lower(bytes@),
{
    hex::encode(bytes)
}

/// Lowercase hex text of the SHA-256 digest of the UTF-8 bytes of `data`.
pub fn sha256_hex(data: &str) -> (res: String)
    ensures
        res@ == sha256_hex_text(data@),
        res@.len() == 2 * DIGEST_LEN,
{
    let digest = sha256_bytes(data.as_bytes());
    hex_encode(digest.as_slice())
}

/// HMAC-SHA256 tag of the UTF-8 bytes of `data` under `key`, as raw bytes.
pub fn hmac_sha256(key: &[u8], data: &str) -> (tag: Vec<u8>)
    ensures
        tag@ == hmac_sha256_tag(key@, encode_utf8(data@)),
        tag@.len() == DIGEST_LEN,
{
    hmac_sha256_bytes(key, data.as_bytes())
}

/// Lowercase hex text of the HMAC-SHA256 tag of `data` under `key`.
pub fn hmac_sha256_hex(key: &[u8], data: &str) -> (res: String)
    ensures
        res@ == hmac_sha256_hex_text(key@, data@),
        res@.len() == 2 * DIGEST_LEN,
{
    let tag = hmac_sha256(key, data);
    hex_encode(tag.as_slice())
}

/// The value of a lowercase hexadecimal digit, and 0 for any other
/// character.
pub open spec fn hex_value(c: char) -> int {
    if c == '1' {
        1
    } else if c == '2' {
        2
    } else if c == '3' {
        3
    } else if c == '4' {
        4
    } else if c == '5' {
        5
    } else if c == '6' {
        6
    } else if c == '7' {
        7
    } else if c == '8' {
        8
    } else if c == '9' {
        9
    } else if c == 'a' {
        10
    } else if c == 'b' {
        11
    } else if c == 'c' {
        12
    } else if c == 'd' {
        13
    } else if c == 'e' {
        14
    } else if c == 'f' {
        15
    } else {
        0
    }
}

/// Hexadecimal text tells byte strings apart: two byte strings with the
/// same text are the same.
pub proof fn lemma_hex_lower_injective(a: Seq<u8>, b: Seq<u8>)
    requires
        hex_lower(a) == hex_lower(b),
    ensures
        a == b,
{
    assert(hex_lower(a).len() == 2 * a.len());
    assert(hex_lower(b).len() == 2 * b.len());
    assert(a.len() == b.len());
    assert(forall|d: int| 0 <= d < 16 ==> hex_value(#[trigger] hex_digit(d)) == d);
    assert forall|i: int| 0 <= i < a.len() implies a[i] == b[i] by {
        let x = a[i] as int;
        let y = b[i] as int;
        assert(hex_lower(a)[2 * i] == hex_digit(x / 16));
        assert(hex_lower(b)[2 * i] == hex_digit(y / 16));
        assert(hex_lower(a)[2 * i + 1] == hex_digit(x % 16));
        assert(hex_lower(b)[2 * i + 1] == hex_digit(y % 16));
        assert(0 <= x / 16 < 16 && 0 <= y / 16 < 16);
        assert(hex_value(hex_digit(x / 16)) == x / 16);
        assert(hex_value(hex_digit(y / 16)) == y / 16);
        assert(hex_value(hex_digit(x % 16)) == x % 16);
        assert(hex_value(hex_digit(y % 16)) == y % 16);
        assert(x == 16 * (x / 16) + x % 16);
        assert(y == 16 * (y / 16) + y % 16);
    }
    assert(a =~= b);
}

} // verus!
