//! The server-authentication assertion: a short-lived signed value that
//! authenticates a management-API call as coming from a specific account.
//! Its wire format is the usual three-part structure: a header naming the
//! signing algorithm, a claims payload, and an HMAC-SHA-256 signature over
//! header and payload, each part URL-safe base64 without padding.

use crate::error::OpenTokError;
use crate::trusted::hmac_sha256_of;
use crate::trusted::{b64url_encode_bytes, hs256_sign, random_u64, unix_time_seconds};
use crate::wire::{append_bytes, b64_url_nopad, dec_chars, json_escape, json_escape_bytes, u64_to_string};
use vstd::prelude::*;
use vstd::string::StringExecFns;
use vstd::utf8::encode_utf8;

verus! {

/// How long a server-authentication assertion stays valid, in seconds:
/// three minutes.
pub const ASSERTION_VALIDITY_SECONDS: u64 = 180;

/// The fixed header naming the signing algorithm.
pub open spec fn header_json_chars() -> Seq<char> {
    "{\"typ\":\"JWT\",\"alg\":\"HS256\"}"@
}

/// The claims payload: issuer, the fixed project-level issuer type, the
/// validity window and the anti-replay nonce, in this exact field order.
pub open spec fn claims_json_bytes(iss: Seq<char>, iat: u64, exp: u64, jti: u64) -> Seq<u8> {
    encode_utf8("{\"iss\":\""@) + json_escape(encode_utf8(iss)) + encode_utf8(
        "\",\"ist\":\"project\",\"iat\":"@,
    ) + encode_utf8(dec_chars(iat as int)) + encode_utf8(",\"exp\":"@) + encode_utf8(
        dec_chars(exp as int),
    ) + encode_utf8(",\"jti\":"@) + encode_utf8(dec_chars(jti as int)) + encode_utf8("}"@)
}

/// The part of the assertion that is signed: encoded header, a dot,
/// encoded claims.
pub open spec fn signing_input_chars(iss: Seq<char>, iat: u64, exp: u64, jti: u64) -> Seq<char> {
    b64_url_nopad(encode_utf8(header_json_chars())) + "."@ + b64_url_nopad(
        claims_json_bytes(iss, iat, exp, jti),
    )
}

/// The complete assertion for the given inputs: the signed part, a dot,
/// and the signature of the signed part under the account secret.
pub open spec fn assertion_chars(
    api_key: Seq<char>,
    api_secret: Seq<char>,
    iat: u64,
    jti: u64,
) -> Seq<char>
    recommends
        iat + ASSERTION_VALIDITY_SECONDS <= u64::MAX,
{
    let msg = signing_input_chars(api_key, iat, (iat + ASSERTION_VALIDITY_SECONDS) as u64, jti);
    msg + "."@ + b64_url_nopad(hmac_sha256_of(encode_utf8(api_secret), encode_utf8(msg)))
}

/// The transient claim set an assertion is built from: constructed fresh
/// per call, consumed once by the signing step, never reused.
pub struct Claims<'a> {
    pub iss: &'a str,
    pub ist: &'static str,
    pub iat: u64,
    pub exp: u64,
    pub jti: u64,
}

impl<'a> Claims<'a> {
    /// Builds the claim set from explicit time and nonce values, for
    /// callers that inject their own clock and randomness.
    pub fn from_parts(api_key: &'a str, iat: u64, jti: u64) -> (r: Self)
        requires
            iat <= u64::MAX - ASSERTION_VALIDITY_SECONDS,
        ensures
            r.iss@ == api_key@,
            r.ist@ == "project"@,
            r.iat == iat,
            r.exp == iat + ASSERTION_VALIDITY_SECONDS,
            r.jti == jti,
    {
        Claims { iss: api_key, ist: "project", iat, exp: iat + ASSERTION_VALIDITY_SECONDS, jti }
    }

    /// Builds the claim set from the wall clock and a fresh random nonce.
    /// The issuer type is always the fixed project-level constant and the
    /// validity window is always exactly three minutes.
    pub fn new(api_key: &'a str) -> (r: Self)
        ensures
            r.iss@ == api_key@,
            r.ist@ == "project"@,
            r.exp == r.iat + ASSERTION_VALIDITY_SECONDS,
    {
        let now = unix_time_seconds();
        let iat = if now > u64::MAX - ASSERTION_VALIDITY_SECONDS {
            u64::MAX - ASSERTION_VALIDITY_SECONDS
        } else {
            now
        };
        Self::from_parts(api_key, iat, random_u64())
    }

    /// Serializes the claim set to its JSON payload, fields in the fixed
    /// order the signature is computed over.
    pub fn to_json(&self) -> (r: Vec<u8>)
        requires
            self.ist@ == "project"@,
        ensures
            r@ == claims_json_bytes(self.iss@, self.iat, self.exp, self.jti),
    {
        let mut v: Vec<u8> = Vec::new();
        append_bytes(&mut v, "{\"iss\":\"".as_bytes());
        let mut esc = json_escape_bytes(self.iss.as_bytes());
        v.append(&mut esc);
        append_bytes(&mut v, "\",\"ist\":\"project\",\"iat\":".as_bytes());
        let iat = u64_to_string(self.iat);
        append_bytes(&mut v, iat.as_str().as_bytes());
        append_bytes(&mut v, ",\"exp\":".as_bytes());
        let exp = u64_to_string(self.exp);
        append_bytes(&mut v, exp.as_str().as_bytes());
        append_bytes(&mut v, ",\"jti\":".as_bytes());
        let jti = u64_to_string(self.jti);
        append_bytes(&mut v, jti.as_str().as_bytes());
        append_bytes(&mut v, "}".as_bytes());
        proof {
            assert(v@ =~= claims_json_bytes(self.iss@, self.iat, self.exp, self.jti));
        }
        v
    }
}

/// Builds the signed assertion for explicit time and nonce values.
/// Signing with the SHA-256 family HMAC cannot fail, so the result is
/// always the assertion for exactly these inputs.
pub fn auth_header_at(api_key: &str, api_secret: &str, iat: u64, jti: u64) -> (r: Result<
    String,
    OpenTokError,
>)
    requires
        iat <= u64::MAX - ASSERTION_VALIDITY_SECONDS,
    ensures
        r is Ok,
        r matches Ok(t) ==> t@ == assertion_chars(api_key@, api_secret@, iat, jti),
{
    let claims = Claims::from_parts(api_key, iat, jti);
    let json = claims.to_json();
    let mut msg = b64url_encode_bytes("{\"typ\":\"JWT\",\"alg\":\"HS256\"}".as_bytes());
    msg.append(".");
    let c64 = b64url_encode_bytes(json.as_slice());
    msg.append(c64.as_str());
    proof {
        assert(msg@ =~= signing_input_chars(
            api_key@,
            iat,
            (iat + ASSERTION_VALIDITY_SECONDS) as u64,
            jti,
        ));
    }
    match hs256_sign(api_secret.as_bytes(), msg.as_str().as_bytes()) {
        Ok(sig) => {
            let mut t = msg;
            t.append(".");
            t.append(sig.as_str());
            proof {
                assert(t@ =~= assertion_chars(api_key@, api_secret@, iat, jti));
            }
            Ok(t)
        },
        Err(_) => Err(OpenTokError::EncodingError),
    }
}

/// Builds a signed assertion for the account, stamped with the current
/// wall-clock time and a fresh random nonce, suitable for the
/// authentication header of a management-API call.
pub fn auth_header(api_key: &str, api_secret: &str) -> (r: Result<String, OpenTokError>)
    ensures
        r is Ok,
        r matches Ok(t) ==> exists|iat: u64, jti: u64|
            iat <= u64::MAX - ASSERTION_VALIDITY_SECONDS && t@ == assertion_chars(
                api_key@,
                api_secret@,
                iat,
                jti,
            ),
{
    let now = unix_time_seconds();
    let iat = if now > u64::MAX - ASSERTION_VALIDITY_SECONDS {
        u64::MAX - ASSERTION_VALIDITY_SECONDS
    } else {
        now
    };
    let jti = random_u64();
    auth_header_at(api_key, api_secret, iat, jti)
}

} // verus!
