//! The client session token: a role-scoped credential handed to end-user
//! applications. Its wire format is a fixed-order query string, signed
//! with HMAC-SHA-1 under the account secret, wrapped in an inner string,
//! base64-encoded and prefixed with the literal marker `T1==`.

use crate::trusted::hmac_sha1_of;
use crate::trusted::{bytes_to_hex, hmac_sha1_digest, random_u64, unix_time_seconds};
use crate::wire::{b64_alphabet, b64_decode, b64_std, dec_chars, hex_chars, lemma_b64_decode_encode, lemma_dec_chars_injective, lemma_hex_chars_len, lemma_hex_chars_no_colon, no_colon, u64_to_string};
use crate::{role_wire, TokenRole};
use vstd::prelude::*;
use vstd::string::StringExecFns;
use vstd::utf8::{decode_utf8, encode_utf8, encode_utf8_decode_utf8};

verus! {

/// How long a client session token stays valid, in seconds: one day.
pub const TOKEN_VALIDITY_SECONDS: u64 = 86400;

/// The fixed-order query string that is signed and embedded in a client
/// token. The field order must never change: the signature is computed
/// over these exact characters.
pub open spec fn query_chars(
    session_id: Seq<char>,
    create_time: u64,
    expire_time: u64,
    nonce: u64,
    role: TokenRole,
) -> Seq<char> {
    "session_id="@ + session_id + "&create_time="@ + dec_chars(create_time as int)
        + "&expire_time="@ + dec_chars(expire_time as int) + "&nonce="@ + dec_chars(nonce as int)
        + "&role="@ + role_wire(role)
}

/// The signature carried in a client token: the lowercase hexadecimal of
/// the HMAC-SHA-1 digest of the query string under the account secret.
pub open spec fn sig_hex_chars(api_secret: Seq<char>, qs: Seq<char>) -> Seq<char> {
    hex_chars(hmac_sha1_of(encode_utf8(api_secret), encode_utf8(qs)))
}

/// The inner string of a client token, before base64 encoding.
pub open spec fn inner_chars(api_key: Seq<char>, api_secret: Seq<char>, qs: Seq<char>) -> Seq<
    char,
> {
    "partner_id="@ + api_key + "&sig="@ + sig_hex_chars(api_secret, qs) + ":"@ + qs
}

/// The complete client session token for the given inputs.
pub open spec fn token_chars(
    api_key: Seq<char>,
    api_secret: Seq<char>,
    session_id: Seq<char>,
    role: TokenRole,
    create_time: u64,
    nonce: u64,
) -> Seq<char>
    recommends
        create_time + TOKEN_VALIDITY_SECONDS <= u64::MAX,
{
    "T1=="@ + b64_std(
        encode_utf8(
            inner_chars(
                api_key,
                api_secret,
                query_chars(
                    session_id,
                    create_time,
                    (create_time + TOKEN_VALIDITY_SECONDS) as u64,
                    nonce,
                    role,
                ),
            ),
        ),
    )
}

/// The transient record a client token is built from: one instance per
/// token, never cached or reused.
pub struct TokenData<'a> {
    pub session_id: &'a str,
    pub create_time: u64,
    pub expire_time: u64,
    pub nonce: u64,
    pub role: TokenRole,
}

impl<'a> TokenData<'a> {
    /// Builds the record from explicit time and nonce values, for callers
    /// that inject their own clock and randomness.
    pub fn from_parts(session_id: &'a str, role: TokenRole, create_time: u64, nonce: u64) -> (r:
        Self)
        requires
            create_time <= u64::MAX - TOKEN_VALIDITY_SECONDS,
        ensures
            r.session_id@ == session_id@,
            r.create_time == create_time,
            r.expire_time == create_time + TOKEN_VALIDITY_SECONDS,
            r.nonce == nonce,
            r.role == role,
    {
        TokenData {
            session_id,
            create_time,
            expire_time: create_time + TOKEN_VALIDITY_SECONDS,
            nonce,
            role,
        }
    }

    /// Builds the record from the wall clock and a fresh random nonce.
    /// The validity window is always exactly one day.
    pub fn new(session_id: &'a str, role: TokenRole) -> (r: Self)
        ensures
            r.session_id@ == session_id@,
            r.role == role,
            r.expire_time == r.create_time + TOKEN_VALIDITY_SECONDS,
    {
        let now = unix_time_seconds();
        let create_time = if now > u64::MAX - TOKEN_VALIDITY_SECONDS {
            u64::MAX - TOKEN_VALIDITY_SECONDS
        } else {
            now
        };
        Self::from_parts(session_id, role, create_time, random_u64())
    }

    /// Serializes the record to its fixed-order query-string form.
    pub fn query_string(&self) -> (r: String)
        ensures
            r@ == query_chars(
                self.session_id@,
                self.create_time,
                self.expire_time,
                self.nonce,
                self.role,
            ),
    {
        let mut s = "session_id=".to_owned();
        s.append(self.session_id);
        s.append("&create_time=");
        let ct = u64_to_string(self.create_time);
        s.append(ct.as_str());
        s.append("&expire_time=");
        let et = u64_to_string(self.expire_time);
        s.append(et.as_str());
        s.append("&nonce=");
        let nc = u64_to_string(self.nonce);
        s.append(nc.as_str());
        s.append("&role=");
        s.append(self.role.as_wire_str());
        proof {
            assert(s@ =~= query_chars(
                self.session_id@,
                self.create_time,
                self.expire_time,
                self.nonce,
                self.role,
            ));
        }
        s
    }
}

/// Builds the complete token string for an inner query string already
/// stamped with time and nonce.
pub(crate) fn token_for(api_key: &str, api_secret: &str, data: &TokenData) -> (r: String)
    ensures
        r@ == "T1=="@ + b64_std(
            encode_utf8(
                inner_chars(
                    api_key@,
                    api_secret@,
                    query_chars(
                        data.session_id@,
                        data.create_time,
                        data.expire_time,
                        data.nonce,
                        data.role,
                    ),
                ),
            ),
        ),
{
    let qs = data.query_string();
    let digest = hmac_sha1_digest(api_secret.as_bytes(), qs.as_str().as_bytes());
    let sig = bytes_to_hex(digest.as_slice());
    let mut inner = "partner_id=".to_owned();
    inner.append(api_key);
    inner.append("&sig=");
    inner.append(sig.as_str());
    inner.append(":");
    inner.append(qs.as_str());
    proof {
        assert(inner@ =~= inner_chars(
            api_key@,
            api_secret@,
            query_chars(
                data.session_id@,
                data.create_time,
                data.expire_time,
                data.nonce,
                data.role,
            ),
        ));
    }
    let encoded = crate::trusted::b64_encode_str(inner.as_str());
    let mut out = "T1==".to_owned();
    out.append(encoded.as_str());
    proof {
        assert(out@ =~= "T1=="@ + encoded@);
    }
    out
}

/// Law: every client token starts with the literal marker `T1==`, and what
/// follows the marker is (valid) base64: the standard encoding of the
/// token's inner string.
pub proof fn lemma_client_token_prefix(
    api_key: Seq<char>,
    api_secret: Seq<char>,
    session_id: Seq<char>,
    role: TokenRole,
    create_time: u64,
    nonce: u64,
)
    requires
        create_time + TOKEN_VALIDITY_SECONDS <= u64::MAX,
    ensures
        token_chars(api_key, api_secret, session_id, role, create_time, nonce).subrange(0, 4)
            == "T1=="@,
        token_chars(api_key, api_secret, session_id, role, create_time, nonce).skip(4) == b64_std(
            encode_utf8(
                inner_chars(
                    api_key,
                    api_secret,
                    query_chars(
                        session_id,
                        create_time,
                        (create_time + TOKEN_VALIDITY_SECONDS) as u64,
                        nonce,
                        role,
                    ),
                ),
            ),
        ),
{
    reveal_strlit("T1==");
    let t = token_chars(api_key, api_secret, session_id, role, create_time, nonce);
    assert(t.subrange(0, 4) =~= "T1=="@);
    assert(t.skip(4) =~= b64_std(
        encode_utf8(
            inner_chars(
                api_key,
                api_secret,
                query_chars(
                    session_id,
                    create_time,
                    (create_time + TOKEN_VALIDITY_SECONDS) as u64,
                    nonce,
                    role,
                ),
            ),
        ),
    ));
}

/// Law: the full round trip a consumer performs on a client token —
/// strip the marker, decode the base64, read the characters back from the
/// UTF-8 bytes, split the inner string at its first colon — recovers the
/// original API key as the partner id, the exact query string the token
/// was stamped with, and a signature equal to the HMAC-SHA-1 hex digest
/// of that query string under the original secret. The key must carry no
/// colon, which would make the inner string ambiguous; the digest is
/// twenty bytes long, as the hash always returns.
pub proof fn lemma_client_token_round_trip(
    api_key: Seq<char>,
    api_secret: Seq<char>,
    session_id: Seq<char>,
    role: TokenRole,
    create_time: u64,
    nonce: u64,
)
    requires
        create_time + TOKEN_VALIDITY_SECONDS <= u64::MAX,
        no_colon(api_key),
        hmac_sha1_of(
            encode_utf8(api_secret),
            encode_utf8(
                query_chars(
                    session_id,
                    create_time,
                    (create_time + TOKEN_VALIDITY_SECONDS) as u64,
                    nonce,
                    role,
                ),
            ),
        ).len() == 20,
    ensures
        ({
            let qs = query_chars(
                session_id,
                create_time,
                (create_time + TOKEN_VALIDITY_SECONDS) as u64,
                nonce,
                role,
            );
            let token = token_chars(api_key, api_secret, session_id, role, create_time, nonce);
            let inner = decode_utf8(b64_decode(token.skip(4)));
            inner == inner_chars(api_key, api_secret, qs) && parse_partner_id(inner) == api_key
                && parse_sig(inner) == sig_hex_chars(api_secret, qs) && parse_query(inner) == qs
        }),
{
    let qs = query_chars(
        session_id,
        create_time,
        (create_time + TOKEN_VALIDITY_SECONDS) as u64,
        nonce,
        role,
    );
    let inner = inner_chars(api_key, api_secret, qs);
    lemma_client_token_prefix(api_key, api_secret, session_id, role, create_time, nonce);
    lemma_b64_decode_encode(b64_alphabet(), encode_utf8(inner), true);
    encode_utf8_decode_utf8(inner);
    lemma_inner_round_trip(api_key, api_secret, qs);
}

/// Law: two tokens built for the same key, secret, session, role and
/// second differ whenever their nonces differ — the deterministic core of
/// the guarantee that tokens issued in immediate succession are distinct.
/// The key must carry no colon and the digests are twenty bytes long, as
/// for the round trip.
pub proof fn lemma_distinct_nonces_distinct_tokens(
    api_key: Seq<char>,
    api_secret: Seq<char>,
    session_id: Seq<char>,
    role: TokenRole,
    create_time: u64,
    nonce1: u64,
    nonce2: u64,
)
    requires
        create_time + TOKEN_VALIDITY_SECONDS <= u64::MAX,
        no_colon(api_key),
        hmac_sha1_of(
            encode_utf8(api_secret),
            encode_utf8(
                query_chars(
                    session_id,
                    create_time,
                    (create_time + TOKEN_VALIDITY_SECONDS) as u64,
                    nonce1,
                    role,
                ),
            ),
        ).len() == 20,
        hmac_sha1_of(
            encode_utf8(api_secret),
            encode_utf8(
                query_chars(
                    session_id,
                    create_time,
                    (create_time + TOKEN_VALIDITY_SECONDS) as u64,
                    nonce2,
                    role,
                ),
            ),
        ).len() == 20,
        nonce1 != nonce2,
    ensures
        token_chars(api_key, api_secret, session_id, role, create_time, nonce1) != token_chars(
            api_key,
            api_secret,
            session_id,
            role,
            create_time,
            nonce2,
        ),
{
    let expire_time = (create_time + TOKEN_VALIDITY_SECONDS) as u64;
    let qs1 = query_chars(session_id, create_time, expire_time, nonce1, role);
    let qs2 = query_chars(session_id, create_time, expire_time, nonce2, role);
    let t1 = token_chars(api_key, api_secret, session_id, role, create_time, nonce1);
    let t2 = token_chars(api_key, api_secret, session_id, role, create_time, nonce2);
    if t1 == t2 {
        lemma_client_token_round_trip(
            api_key,
            api_secret,
            session_id,
            role,
            create_time,
            nonce1,
        );
        lemma_client_token_round_trip(
            api_key,
            api_secret,
            session_id,
            role,
            create_time,
            nonce2,
        );
        assert(t1.skip(4) == t2.skip(4));
        assert(qs1 == qs2);
        let before = "session_id="@ + session_id + "&create_time="@ + dec_chars(
            create_time as int,
        ) + "&expire_time="@ + dec_chars(expire_time as int) + "&nonce="@;
        let after = "&role="@ + role_wire(role);
        assert(qs1 =~= before + dec_chars(nonce1 as int) + after);
        assert(qs2 =~= before + dec_chars(nonce2 as int) + after);
        assert(dec_chars(nonce1 as int) =~= qs1.subrange(
            before.len() as int,
            qs1.len() - after.len(),
        ));
        assert(dec_chars(nonce2 as int) =~= qs2.subrange(
            before.len() as int,
            qs2.len() - after.len(),
        ));
        lemma_dec_chars_injective(nonce1 as int, nonce2 as int);
        assert(false);
    }
}

/// Index of the first colon in `s`, or -1 where there is none.
pub open spec fn first_colon(s: Seq<char>) -> int
    decreases s.len(),
{
    if s.len() == 0 {
        -1
    } else if s[0] == ':' {
        0
    } else if first_colon(s.drop_first()) < 0 {
        -1
    } else {
        first_colon(s.drop_first()) + 1
    }
}

proof fn lemma_first_colon_prepend(a: Seq<char>, b: Seq<char>)
    requires
        no_colon(a),
        first_colon(b) >= 0,
    ensures
        first_colon(a + b) == a.len() + first_colon(b),
    decreases a.len(),
{
    if a.len() == 0 {
        assert(a + b =~= b);
    } else {
        assert((a + b).drop_first() =~= a.drop_first() + b);
        assert(no_colon(a.drop_first())) by {
            assert(forall|i: int|
                0 <= i < a.drop_first().len() ==> a.drop_first()[i] == a[i + 1]);
        }
        lemma_first_colon_prepend(a.drop_first(), b);
        assert((a + b)[0] == a[0]);
    }
}

/// What a consumer of an inner string reads back as the partner id: the
/// characters between the leading field name and the signature field.
pub open spec fn parse_partner_id(s: Seq<char>) -> Seq<char> {
    s.subrange(11, first_colon(s) - 45)
}

/// What a consumer reads back as the signature: the forty hexadecimal
/// digits standing before the first colon.
pub open spec fn parse_sig(s: Seq<char>) -> Seq<char> {
    s.subrange(first_colon(s) - 40, first_colon(s))
}

/// What a consumer reads back as the query string: everything after the
/// first colon.
pub open spec fn parse_query(s: Seq<char>) -> Seq<char> {
    s.skip(first_colon(s) + 1)
}

/// Law: parsing the inner string of a client token recovers the partner
/// id equal to the original API key and the query string the token was
/// built from, and the recovered signature is exactly the HMAC-SHA-1 hex
/// digest of that query string under the original secret. The key must
/// carry no colon, which would make the inner string ambiguous; the
/// digest is twenty bytes long, as the hash always returns.
pub proof fn lemma_inner_round_trip(api_key: Seq<char>, api_secret: Seq<char>, qs: Seq<char>)
    requires
        no_colon(api_key),
        hmac_sha1_of(encode_utf8(api_secret), encode_utf8(qs)).len() == 20,
    ensures
        parse_partner_id(inner_chars(api_key, api_secret, qs)) == api_key,
        parse_sig(inner_chars(api_key, api_secret, qs)) == sig_hex_chars(api_secret, qs),
        parse_query(inner_chars(api_key, api_secret, qs)) == qs,
{
    reveal_strlit("partner_id=");
    reveal_strlit("&sig=");
    reveal_strlit(":");
    let p1 = "partner_id="@;
    let p2 = "&sig="@;
    let col = ":"@;
    let sig = sig_hex_chars(api_secret, qs);
    let s = inner_chars(api_key, api_secret, qs);
    lemma_hex_chars_len(hmac_sha1_of(encode_utf8(api_secret), encode_utf8(qs)));
    lemma_hex_chars_no_colon(hmac_sha1_of(encode_utf8(api_secret), encode_utf8(qs)));
    assert(sig.len() == 40);
    let head = p1 + api_key + p2 + sig;
    let tail = col + qs;
    assert(s =~= head + tail);
    assert(no_colon(head)) by {
        assert(forall|i: int| 0 <= i < p1.len() ==> p1[i] != ':');
        assert(forall|i: int| 0 <= i < p2.len() ==> p2[i] != ':');
    }
    assert(first_colon(tail) == 0) by {
        assert(tail[0] == ':');
    }
    lemma_first_colon_prepend(head, tail);
    assert(first_colon(s) == head.len());
    assert(first_colon(s) == 56 + api_key.len());
    assert(parse_partner_id(s) =~= api_key);
    assert(parse_sig(s) =~= sig);
    assert(parse_query(s) =~= qs);
}

} // verus!
