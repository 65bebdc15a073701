//! Cryptographic primitives the logic relies on, each behind a small
//! trusted wrapper: SHA-256 digests (account and instruction tags),
//! HMAC-SHA-256 verification of internal requests, hex decoding of
//! signature headers, and fresh lease tokens.

use vstd::prelude::*;

use hmac::KeyInit;
use hmac::Mac;
use sha2::Digest;

verus! {

/// Byte `i` of the SHA-256 digest of a byte string: a pure function of
/// the input alone.
pub uninterp spec fn sha256_byte(input: Seq<u8>, i: int) -> u8;

/// The SHA-256 digest of a byte string: its 32 bytes.
pub open spec fn sha256_of(input: Seq<u8>) -> Seq<u8> {
    Seq::new(32, |i: int| sha256_byte(input, i))
}

/// The HMAC-SHA-256 tag over `message` keyed with `key`: a pure function
/// of the two inputs alone.
pub uninterp spec fn hmac_sha256_of(key: Seq<u8>, message: Seq<u8>) -> Seq<u8>;

/// Relies on `sha2::Sha256::digest`: the digest depends on the input bytes
/// alone and is 32 bytes long.
#[verifier::external_body]
pub(crate) fn sha256(input: &[u8]) -> (r: Vec<u8>)
    ensures
        r@ == sha256_of(input@),
        forall|i: int| 0 <= i < 32 ==> r@[i] == sha256_byte(input@, i),
{
    let digest = sha2::Sha256::digest(input);
    digest.as_slice().to_vec()
}

/// Relies on `hmac::Hmac::<sha2::Sha256>::new_from_slice`, `update` and
/// `verify_slice`: keys of any length are accepted, and `verify_slice`
/// succeeds exactly when the tag equals the MAC of the message (the
/// comparison runs in constant time).
#[verifier::external_body]
pub(crate) fn hmac_sha256_verify(key: &[u8], message: &[u8], tag: &[u8]) -> (r: bool)
    ensures
        r == (tag@ == hmac_sha256_of(key@, message@)),
{
    let mac = hmac::Hmac::<sha2::Sha256>::new_from_slice(key);
    match mac {
        Ok(mut m) => {
            m.update(message);
            m.verify_slice(tag).is_ok()
        },
        Err(_) => false,
    }
}

/// An ASCII hexadecimal digit.
pub open spec fn is_hex_digit(b: u8) -> bool {
    (48 <= b && b <= 57) || (97 <= b && b <= 102) || (65 <= b && b <= 70)
}

/// Value of an ASCII hexadecimal digit.
pub open spec fn hex_digit_val(b: u8) -> int {
    if 48 <= b && b <= 57 {
        b - 48
    } else if 97 <= b && b <= 102 {
        b - 87
    } else if 65 <= b && b <= 70 {
        b - 55
    } else {
        -1
    }
}

/// A byte string decodes as hex when its length is even and every byte
/// is a hex digit.
pub open spec fn hex_decode_ok(s: Seq<u8>) -> bool {
    s.len() % 2 == 0 && forall|i: int| 0 <= i < s.len() ==> is_hex_digit(#[trigger] s[i])
}

/// The bytes a hex string decodes to: one byte for each digit pair.
pub open spec fn hex_decode_val(s: Seq<u8>) -> Seq<u8> {
    Seq::new(s.len() / 2, |i: int| (hex_digit_val(s[2 * i]) * 16 + hex_digit_val(s[2 * i + 1])) as u8)
}

/// Relies on `hex::decode`: upper and lower case digits are both
/// accepted; an odd length or any non-digit byte is rejected; each digit
/// pair becomes one output byte, high nibble first.
#[verifier::external_body]
pub(crate) fn hex_decode(s: &[u8]) -> (r: Option<Vec<u8>>)
    ensures
        (match r {
            Some(v) => hex_decode_ok(s@) && v@ == hex_decode_val(s@),
            None => !hex_decode_ok(s@),
        }),
{
    hex::decode(s).ok()
}

/// Relies on `uuid::Uuid::new_v4`: a freshly drawn random 128-bit token.
/// Nothing is promised of the value.
#[verifier::external_body]
pub(crate) fn fresh_lock_token() -> u128 {
    uuid::Uuid::new_v4().as_u128()
}

} // verus!
