//! The narrow boundary to the outside world: hashing, base64 and hex
//! rendering from their crates, and the two ambient inputs (wall clock,
//! randomness). Each function's contract states exactly what the outside
//! code is relied upon for; nothing else in the crate is taken on trust.

use crate::wire::{b64_std, b64_url_nopad, hex_chars};
use vstd::prelude::*;
use vstd::utf8::encode_utf8;

verus! {

/// The HMAC-SHA-1 digest of a message under a key: a fixed function of the
/// two byte strings, left unspecified here.
pub uninterp spec fn hmac_sha1_of(key: Seq<u8>, message: Seq<u8>) -> Seq<u8>;

/// The HMAC-SHA-256 digest of a message under a key: a fixed function of
/// the two byte strings, left unspecified here.
pub uninterp spec fn hmac_sha256_of(key: Seq<u8>, message: Seq<u8>) -> Seq<u8>;

/// Relies on hmacsha1::hmac_sha1: the 20-byte HMAC-SHA-1 digest of the
/// message under the key, a function of the two arguments alone.
#[verifier::external_body]
pub(crate) fn hmac_sha1_digest(key: &[u8], message: &[u8]) -> (r: Vec<u8>)
    ensures
        r@ == hmac_sha1_of(key@, message@),
        r@.len() == 20,
{
    hmacsha1::hmac_sha1(key, message).to_vec()
}

/// Relies on rustc_serialize::hex::ToHex for [u8]: lowercase hexadecimal,
/// two digits per byte, high nibble first.
#[verifier::external_body]
pub(crate) fn bytes_to_hex(b: &[u8]) -> (r: String)
    ensures
        r@ == hex_chars(b@),
{
    rustc_serialize::hex::ToHex::to_hex(b)
}

/// Relies on base64::encode: standard alphabet, with padding, over the
/// UTF-8 bytes of the argument.
#[verifier::external_body]
pub(crate) fn b64_encode_str(s: &str) -> (r: String)
    ensures
        r@ == b64_std(encode_utf8(s@)),
{
    base64::encode(s)
}

/// Relies on base64::encode_config with URL_SAFE_NO_PAD: URL-safe
/// alphabet, no padding.
#[verifier::external_body]
pub(crate) fn b64url_encode_bytes(b: &[u8]) -> (r: String)
    ensures
        r@ == b64_url_nopad(b@),
{
    base64::encode_config(b, base64::URL_SAFE_NO_PAD)
}

#[verifier::external_type_specification]
#[verifier::external_body]
pub struct ExJwtError(jsonwebtoken::errors::Error);

/// Relies on jsonwebtoken::crypto::sign: under HS256 it always succeeds
/// and returns the URL-safe, unpadded base64 of the HMAC-SHA-256 digest of
/// the message under the secret key.
#[verifier::external_body]
pub(crate) fn hs256_sign(key: &[u8], message: &[u8]) -> (r: Result<
    String,
    jsonwebtoken::errors::Error,
>)
    ensures
        r is Ok,
        r matches Ok(s) ==> s@ == b64_url_nopad(hmac_sha256_of(key@, message@)),
{
    jsonwebtoken::crypto::sign(
        message,
        &jsonwebtoken::EncodingKey::from_secret(key),
        jsonwebtoken::Algorithm::HS256,
    )
}

/// Relies on std::time::SystemTime: the wall clock, read as whole seconds
/// since the Unix epoch. Nothing is promised of the value; it panics only
/// if the clock reads before the epoch.
#[verifier::external_body]
pub(crate) fn unix_time_seconds() -> u64 {
    std::time::SystemTime::now()
        .duration_since(std::time::UNIX_EPOCH)
        .expect("wall clock reads before the Unix epoch")
        .as_secs()
}

/// Relies on rand::random: a freshly drawn 64-bit value. Nothing is
/// promised of it; two calls may return anything.
#[verifier::external_body]
pub(crate) fn random_u64() -> u64 {
    rand::random::<u64>()
}

} // verus!
