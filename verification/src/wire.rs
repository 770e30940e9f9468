//! Exact character- and byte-level descriptions of the wire encodings the
//! token builders emit: decimal numbers, lowercase hexadecimal, base64
//! (standard and URL-safe alphabets) and JSON string escaping.

use vstd::prelude::*;

verus! {

// ---------------------------------------------------------------------------
// Decimal rendering of unsigned integers
// ---------------------------------------------------------------------------

/// The character for a single decimal digit.
pub open spec fn digit_char(d: int) -> char {
    if d == 0 {
        '0'
    } else if d == 1 {
        '1'
    } else if d == 2 {
        '2'
    } else if d == 3 {
        '3'
    } else if d == 4 {
        '4'
    } else if d == 5 {
        '5'
    } else if d == 6 {
        '6'
    } else if d == 7 {
        '7'
    } else if d == 8 {
        '8'
    } else {
        '9'
    }
}

/// The usual decimal rendering of a non-negative integer, without sign,
/// without leading zeros (except for zero itself).
pub open spec fn dec_chars(n: int) -> Seq<char>
    decreases n,
{
    if n < 10 {
        seq![digit_char(n)]
    } else {
        dec_chars(n / 10).push(digit_char(n % 10))
    }
}

proof fn lemma_dec_chars_len(n: int)
    requires
        n >= 0,
    ensures
        dec_chars(n).len() >= 1,
        n >= 10 ==> dec_chars(n).len() >= 2,
    decreases n,
{
    if n >= 10 {
        lemma_dec_chars_len(n / 10);
    }
}

/// Two distinct numbers never share a decimal rendering.
pub proof fn lemma_dec_chars_injective(m: int, n: int)
    requires
        m >= 0,
        n >= 0,
        dec_chars(m) == dec_chars(n),
    ensures
        m == n,
    decreases m,
{
    lemma_dec_chars_len(m);
    lemma_dec_chars_len(n);
    if m < 10 && n < 10 {
        assert(dec_chars(m)[0] == digit_char(m));
        assert(dec_chars(n)[0] == digit_char(n));
    } else if m >= 10 && n >= 10 {
        assert(dec_chars(m).last() == digit_char(m % 10));
        assert(dec_chars(n).last() == digit_char(n % 10));
        assert(m % 10 == n % 10);
        assert(dec_chars(m).drop_last() =~= dec_chars(m / 10));
        assert(dec_chars(n).drop_last() =~= dec_chars(n / 10));
        lemma_dec_chars_injective(m / 10, n / 10);
    }
}

fn digit_str(d: u64) -> (r: &'static str)
    requires
        d < 10,
    ensures
        r@ == seq![digit_char(d as int)],
{
    match d {
        0 => {
            proof {
                reveal_strlit("0");
                assert("0"@ =~= seq![digit_char(0int)]);
            }
            "0"
        },
        1 => {
            proof {
                reveal_strlit("1");
                assert("1"@ =~= seq![digit_char(1int)]);
            }
            "1"
        },
        2 => {
            proof {
                reveal_strlit("2");
                assert("2"@ =~= seq![digit_char(2int)]);
            }
            "2"
        },
        3 => {
            proof {
                reveal_strlit("3");
                assert("3"@ =~= seq![digit_char(3int)]);
            }
            "3"
        },
        4 => {
            proof {
                reveal_strlit("4");
                assert("4"@ =~= seq![digit_char(4int)]);
            }
            "4"
        },
        5 => {
            proof {
                reveal_strlit("5");
                assert("5"@ =~= seq![digit_char(5int)]);
            }
            "5"
        },
        6 => {
            proof {
                reveal_strlit("6");
                assert("6"@ =~= seq![digit_char(6int)]);
            }
            "6"
        },
        7 => {
            proof {
                reveal_strlit("7");
                assert("7"@ =~= seq![digit_char(7int)]);
            }
            "7"
        },
        8 => {
            proof {
                reveal_strlit("8");
                assert("8"@ =~= seq![digit_char(8int)]);
            }
            "8"
        },
        _ => {
            proof {
                reveal_strlit("9");
                assert("9"@ =~= seq![digit_char(d as int)]);
            }
            "9"
        },
    }
}

/// Renders an unsigned integer in decimal, exactly as the wire formats
/// carry timestamps and nonces.
pub fn u64_to_string(n: u64) -> (r: String)
    ensures
        r@ == dec_chars(n as int),
    decreases n,
{
    let d: u64 = n % 10;
    let ds = digit_str(d);
    if n < 10 {
        ds.to_owned()
    } else {
        let mut s = u64_to_string(n / 10);
        s.append(ds);
        proof {
            assert(s@ =~= dec_chars(n as int));
        }
        s
    }
}

// ---------------------------------------------------------------------------
// Lowercase hexadecimal
// ---------------------------------------------------------------------------

/// The character for a single lowercase hexadecimal digit.
pub open spec fn hex_digit(d: int) -> char {
    if d < 10 {
        digit_char(d)
    } else if d == 10 {
        'a'
    } else if d == 11 {
        'b'
    } else if d == 12 {
        'c'
    } else if d == 13 {
        'd'
    } else if d == 14 {
        'e'
    } else {
        'f'
    }
}

/// Lowercase hexadecimal rendering of a byte string: two digits per byte,
/// high nibble first.
pub open spec fn hex_chars(bytes: Seq<u8>) -> Seq<char>
    decreases bytes.len(),
{
    if bytes.len() == 0 {
        Seq::empty()
    } else {
        seq![hex_digit(bytes[0] as int / 16), hex_digit(bytes[0] as int % 16)] + hex_chars(
            bytes.drop_first(),
        )
    }
}

/// Whether no character of `s` is a colon.
pub open spec fn no_colon(s: Seq<char>) -> bool {
    forall|i: int| 0 <= i < s.len() ==> s[i] != ':'
}

/// Two hexadecimal digits per byte.
pub proof fn lemma_hex_chars_len(bytes: Seq<u8>)
    ensures
        hex_chars(bytes).len() == 2 * bytes.len(),
    decreases bytes.len(),
{
    if bytes.len() > 0 {
        lemma_hex_chars_len(bytes.drop_first());
    }
}

/// A hexadecimal rendering never contains a colon.
pub proof fn lemma_hex_chars_no_colon(bytes: Seq<u8>)
    ensures
        no_colon(hex_chars(bytes)),
    decreases bytes.len(),
{
    if bytes.len() > 0 {
        lemma_hex_chars_no_colon(bytes.drop_first());
        assert(hex_digit(bytes[0] as int / 16) != ':');
        assert(hex_digit(bytes[0] as int % 16) != ':');
        assert forall|i: int| 0 <= i < hex_chars(bytes).len() implies hex_chars(bytes)[i]
            != ':' by {
            if i >= 2 {
                assert(hex_chars(bytes)[i] == hex_chars(bytes.drop_first())[i - 2]);
            }
        }
    }
}

// ---------------------------------------------------------------------------
// Base64
// ---------------------------------------------------------------------------

/// The standard base64 alphabet.
pub open spec fn b64_alphabet() -> Seq<char> {
    "ABCDEFGHIJKLMNOPQRSTUVWXYZabcdefghijklmnopqrstuvwxyz0123456789+/"@
}

/// The URL-safe base64 alphabet.
pub open spec fn b64url_alphabet() -> Seq<char> {
    "ABCDEFGHIJKLMNOPQRSTUVWXYZabcdefghijklmnopqrstuvwxyz0123456789-_"@
}

/// Base64 encoding of a byte string over the alphabet `a`, with `=` padding
/// when `pad` is set: each group of three bytes becomes four characters,
/// a trailing group of one or two bytes becomes two or three.
pub open spec fn b64_encode_with(a: Seq<char>, s: Seq<u8>, pad: bool) -> Seq<char>
    decreases s.len(),
{
    if s.len() == 0 {
        Seq::empty()
    } else if s.len() == 1 {
        let b0 = s[0] as int;
        seq![a[b0 / 4], a[(b0 % 4) * 16]] + if pad {
            seq!['=', '=']
        } else {
            Seq::empty()
        }
    } else if s.len() == 2 {
        let b0 = s[0] as int;
        let b1 = s[1] as int;
        seq![a[b0 / 4], a[(b0 % 4) * 16 + b1 / 16], a[(b1 % 16) * 4]] + if pad {
            seq!['=']
        } else {
            Seq::empty()
        }
    } else {
        let b0 = s[0] as int;
        let b1 = s[1] as int;
        let b2 = s[2] as int;
        seq![a[b0 / 4], a[(b0 % 4) * 16 + b1 / 16], a[(b1 % 16) * 4 + b2 / 64], a[b2 % 64]]
            + b64_encode_with(a, s.skip(3), pad)
    }
}

/// Standard base64 with padding, as a client session token carries its
/// inner string.
pub open spec fn b64_std(s: Seq<u8>) -> Seq<char> {
    b64_encode_with(b64_alphabet(), s, true)
}

/// URL-safe base64 without padding, as the parts of a signed assertion are
/// carried.
pub open spec fn b64_url_nopad(s: Seq<u8>) -> Seq<char> {
    b64_encode_with(b64url_alphabet(), s, false)
}

/// The six-bit value a base64 character stands for, in either alphabet
/// (the two alphabets differ only in the characters for 62 and 63).
pub open spec fn b64_val(c: char) -> int {
    let u = c as u32;
    if 65 <= u <= 90 {
        u - 65
    } else if 97 <= u <= 122 {
        u - 97 + 26
    } else if 48 <= u <= 57 {
        u - 48 + 52
    } else if u == 43 || u == 45 {
        62
    } else {
        63
    }
}

/// Strips the trailing `=` padding from a base64 encoding.
pub open spec fn b64_strip_pad(s: Seq<char>) -> Seq<char>
    decreases s.len(),
{
    if s.len() > 0 && s.last() == '=' {
        b64_strip_pad(s.drop_last())
    } else {
        s
    }
}

/// Decodes an unpadded base64 character string back to bytes: four
/// characters to three bytes, a trailing pair or triple to one or two.
pub open spec fn b64_decode_groups(s: Seq<char>) -> Seq<u8>
    decreases s.len(),
{
    if s.len() < 2 {
        Seq::empty()
    } else if s.len() == 2 {
        seq![(b64_val(s[0]) * 4 + b64_val(s[1]) / 16) as u8]
    } else if s.len() == 3 {
        seq![
            (b64_val(s[0]) * 4 + b64_val(s[1]) / 16) as u8,
            ((b64_val(s[1]) % 16) * 16 + b64_val(s[2]) / 4) as u8,
        ]
    } else {
        seq![
            (b64_val(s[0]) * 4 + b64_val(s[1]) / 16) as u8,
            ((b64_val(s[1]) % 16) * 16 + b64_val(s[2]) / 4) as u8,
            ((b64_val(s[2]) % 4) * 64 + b64_val(s[3])) as u8,
        ] + b64_decode_groups(s.skip(4))
    }
}

/// Decodes a base64 character string, padded or not, back to bytes.
pub open spec fn b64_decode(s: Seq<char>) -> Seq<u8> {
    b64_decode_groups(b64_strip_pad(s))
}

/// In either alphabet, the character for a six-bit value decodes back to
/// that value, and is never a padding character.
proof fn lemma_b64_alphabet_val(a: Seq<char>)
    requires
        a == b64_alphabet() || a == b64url_alphabet(),
    ensures
        forall|v: int| 0 <= v < 64 ==> #[trigger] b64_val(a[v]) == v,
        forall|v: int| 0 <= v < 64 ==> #[trigger] a[v] != '=',
{
    reveal_strlit("ABCDEFGHIJKLMNOPQRSTUVWXYZabcdefghijklmnopqrstuvwxyz0123456789+/");
    reveal_strlit("ABCDEFGHIJKLMNOPQRSTUVWXYZabcdefghijklmnopqrstuvwxyz0123456789-_");
    assert forall|v: int| 0 <= v < 64 implies #[trigger] b64_val(a[v]) == v && a[v] != '=' by {
        assert(b64_val(a[v]) == v && a[v] != '=');
    }
}

/// An unpadded encoding never ends in a padding character, so stripping
/// distributes over a whole trailing group.
proof fn lemma_strip_pad_encode(a: Seq<char>, s: Seq<u8>)
    requires
        a == b64_alphabet() || a == b64url_alphabet(),
    ensures
        b64_strip_pad(b64_encode_with(a, s, true)) == b64_encode_with(a, s, false),
    decreases s.len(),
{
    lemma_b64_alphabet_val(a);
    if s.len() == 0 {
    } else if s.len() == 1 {
        let e = b64_encode_with(a, s, true);
        let n = b64_encode_with(a, s, false);
        assert(e =~= n + seq!['=', '=']);
        assert(e.last() == '=');
        assert(b64_strip_pad(e) == b64_strip_pad(e.drop_last()));
        assert(e.drop_last() =~= n + seq!['=']);
        assert((n + seq!['=']).last() == '=');
        assert(b64_strip_pad(n + seq!['=']) == b64_strip_pad((n + seq!['=']).drop_last()));
        assert((n + seq!['=']).drop_last() =~= n);
        assert(n.last() == a[(s[0] as int % 4) * 16]);
        assert(n.last() != '=');
        assert(b64_strip_pad(n) == n);
    } else if s.len() == 2 {
        let e = b64_encode_with(a, s, true);
        let n = b64_encode_with(a, s, false);
        assert(e =~= n + seq!['=']);
        assert(e.last() == '=');
        assert(b64_strip_pad(e) == b64_strip_pad(e.drop_last()));
        assert(e.drop_last() =~= n);
        assert(n.last() == a[(s[1] as int % 16) * 4]);
        assert(n.last() != '=');
        assert(b64_strip_pad(n) == n);
    } else {
        lemma_strip_pad_encode(a, s.skip(3));
        let head = seq![
            a[s[0] as int / 4],
            a[(s[0] as int % 4) * 16 + s[1] as int / 16],
            a[(s[1] as int % 16) * 4 + s[2] as int / 64],
            a[s[2] as int % 64],
        ];
        let ep = b64_encode_with(a, s.skip(3), true);
        let en = b64_encode_with(a, s.skip(3), false);
        assert(b64_encode_with(a, s, true) =~= head + ep);
        assert(b64_encode_with(a, s, false) =~= head + en);
        if s.skip(3).len() > 0 {
            lemma_encode_last_in_alphabet(a, s.skip(3));
        }
        assert(head.last() == a[s[2] as int % 64]);
        assert(head.last() != '=');
        lemma_strip_pad_prepend(head, ep, en);
    }
}

/// Stripping padding from `x + y` strips only inside `y`, as long as what
/// remains of `y` is what an unpadded encoding of a non-empty or empty
/// tail leaves: either non-empty without trailing padding, or empty while
/// `x` itself ends without padding.
proof fn lemma_strip_pad_prepend(x: Seq<char>, y: Seq<char>, r: Seq<char>)
    requires
        b64_strip_pad(y) == r,
        r.len() > 0 ==> r.last() != '=',
        x.len() > 0,
        x.last() != '=',
    ensures
        b64_strip_pad(x + y) == x + r,
    decreases y.len(),
{
    if y.len() == 0 {
        assert(x + y =~= x);
        assert(r =~= y);
        if x.last() == '=' {
        } else {
            assert(b64_strip_pad(x) == x);
        }
    } else if y.last() == '=' {
        assert((x + y).last() == '=');
        assert((x + y).drop_last() =~= x + y.drop_last());
        lemma_strip_pad_prepend(x, y.drop_last(), r);
    } else {
        assert(b64_strip_pad(y) == y);
        assert((x + y).last() == y.last());
        assert(b64_strip_pad(x + y) == x + y);
    }
}

/// Law: decoding recovers exactly the bytes an encoding was built from,
/// for both alphabets, padded or not. In particular every encoding is
/// valid base64.
pub proof fn lemma_b64_decode_encode(a: Seq<char>, s: Seq<u8>, pad: bool)
    requires
        a == b64_alphabet() || a == b64url_alphabet(),
    ensures
        b64_decode(b64_encode_with(a, s, pad)) == s,
    decreases s.len(),
{
    lemma_b64_alphabet_val(a);
    if pad {
        lemma_strip_pad_encode(a, s);
    }
    lemma_b64_decode_groups_encode(a, s);
    let e = b64_encode_with(a, s, pad);
    if !pad {
        if s.len() > 0 {
            lemma_encode_last_in_alphabet(a, s);
            assert(e.last() != '=');
        }
        assert(b64_strip_pad(e) == e);
    }
}

/// The last character of an unpadded encoding is an alphabet character.
proof fn lemma_encode_last_in_alphabet(a: Seq<char>, s: Seq<u8>)
    requires
        a == b64_alphabet() || a == b64url_alphabet(),
        s.len() > 0,
    ensures
        b64_encode_with(a, s, false).last() != '=',
    decreases s.len(),
{
    lemma_b64_alphabet_val(a);
    if s.len() <= 2 {
    } else {
        if s.skip(3).len() > 0 {
            lemma_encode_last_in_alphabet(a, s.skip(3));
        }
        let head = seq![
            a[s[0] as int / 4],
            a[(s[0] as int % 4) * 16 + s[1] as int / 16],
            a[(s[1] as int % 16) * 4 + s[2] as int / 64],
            a[s[2] as int % 64],
        ];
        let tail = b64_encode_with(a, s.skip(3), false);
        assert(b64_encode_with(a, s, false) =~= head + tail);
        if tail.len() == 0 {
            assert((head + tail).last() == head.last());
        } else {
            assert((head + tail).last() == tail.last());
        }
    }
}

proof fn lemma_b64_decode_groups_encode(a: Seq<char>, s: Seq<u8>)
    requires
        a == b64_alphabet() || a == b64url_alphabet(),
    ensures
        b64_decode_groups(b64_encode_with(a, s, false)) == s,
    decreases s.len(),
{
    lemma_b64_alphabet_val(a);
    let e = b64_encode_with(a, s, false);
    if s.len() == 0 {
        assert(b64_decode_groups(e) =~= s);
    } else if s.len() == 1 {
        let b0 = s[0] as int;
        assert(b64_val(e[0]) == b0 / 4 && b64_val(e[1]) == (b0 % 4) * 16);
        assert((b0 / 4) * 4 + ((b0 % 4) * 16) / 16 == b0);
        assert(b64_decode_groups(e) =~= s);
    } else if s.len() == 2 {
        let b0 = s[0] as int;
        let b1 = s[1] as int;
        assert(b64_val(e[0]) == b0 / 4);
        assert(b64_val(e[1]) == (b0 % 4) * 16 + b1 / 16);
        assert(b64_val(e[2]) == (b1 % 16) * 4);
        assert((b0 / 4) * 4 + ((b0 % 4) * 16 + b1 / 16) / 16 == b0);
        assert((((b0 % 4) * 16 + b1 / 16) % 16) * 16 + ((b1 % 16) * 4) / 4 == b1);
        assert(b64_decode_groups(e) =~= s);
    } else {
        lemma_b64_decode_groups_encode(a, s.skip(3));
        let b0 = s[0] as int;
        let b1 = s[1] as int;
        let b2 = s[2] as int;
        let head = seq![
            a[b0 / 4],
            a[(b0 % 4) * 16 + b1 / 16],
            a[(b1 % 16) * 4 + b2 / 64],
            a[b2 % 64],
        ];
        let tail = b64_encode_with(a, s.skip(3), false);
        assert(e =~= head + tail);
        assert(e.len() >= 4);
        assert(e[0] == head[0] && e[1] == head[1] && e[2] == head[2] && e[3] == head[3]);
        assert(e.skip(4) =~= tail);
        assert(b64_val(e[0]) == b0 / 4);
        assert(b64_val(e[1]) == (b0 % 4) * 16 + b1 / 16);
        assert(b64_val(e[2]) == (b1 % 16) * 4 + b2 / 64);
        assert(b64_val(e[3]) == b2 % 64);
        assert((b0 / 4) * 4 + ((b0 % 4) * 16 + b1 / 16) / 16 == b0);
        assert((((b0 % 4) * 16 + b1 / 16) % 16) * 16 + (((b1 % 16) * 4 + b2 / 64)) / 4 == b1);
        assert(((((b1 % 16) * 4 + b2 / 64)) % 4) * 64 + b2 % 64 == b2);
        assert(b64_decode_groups(e) =~= s);
    }
}

// ---------------------------------------------------------------------------
// JSON string escaping
// ---------------------------------------------------------------------------

/// The byte of a single lowercase hexadecimal digit.
pub open spec fn hex_digit_byte(d: int) -> u8 {
    if d < 10 {
        (48 + d) as u8
    } else {
        (87 + d) as u8
    }
}

/// How one byte of a string appears inside a JSON string literal: quote and
/// backslash gain a backslash, control bytes become a `\u00..` escape, and
/// every other byte stands as it is (multi-byte UTF-8 sequences pass
/// through unchanged).
pub open spec fn json_escape_byte(b: u8) -> Seq<u8> {
    if b == 34 {
        seq![92u8, 34u8]
    } else if b == 92 {
        seq![92u8, 92u8]
    } else if b < 32 {
        seq![92u8, 117u8, 48u8, 48u8, hex_digit_byte(b as int / 16), hex_digit_byte(b as int % 16)]
    } else {
        seq![b]
    }
}

/// The body of a JSON string literal holding the bytes `s`.
pub open spec fn json_escape(s: Seq<u8>) -> Seq<u8>
    decreases s.len(),
{
    if s.len() == 0 {
        Seq::empty()
    } else {
        json_escape_byte(s[0]) + json_escape(s.drop_first())
    }
}

proof fn lemma_json_escape_concat(x: Seq<u8>, y: Seq<u8>)
    ensures
        json_escape(x + y) == json_escape(x) + json_escape(y),
    decreases x.len(),
{
    if x.len() == 0 {
        assert(x + y =~= y);
        assert(json_escape(x) + json_escape(y) =~= json_escape(y));
    } else {
        assert((x + y).drop_first() =~= x.drop_first() + y);
        lemma_json_escape_concat(x.drop_first(), y);
        assert(json_escape(x + y) =~= json_escape(x) + json_escape(y));
    }
}

fn hex_digit_u8(d: u8) -> (r: u8)
    requires
        d < 16,
    ensures
        r == hex_digit_byte(d as int),
{
    if d < 10 {
        48 + d
    } else {
        87 + d
    }
}

/// Appends a byte slice to a byte vector.
pub fn append_bytes(v: &mut Vec<u8>, s: &[u8])
    ensures
        final(v)@ == old(v)@ + s@,
{
    let mut i: usize = 0;
    while i < s.len()
        invariant
            i <= s@.len(),
            v@ == old(v)@ + s@.take(i as int),
        decreases s@.len() - i,
    {
        v.push(s[i]);
        proof {
            assert(old(v)@ + s@.take(i as int) + seq![s@[i as int]] =~= old(v)@ + s@.take(i + 1));
        }
        i = i + 1;
    }
    proof {
        assert(old(v)@ + s@.take(i as int) =~= old(v)@ + s@);
    }
}

/// Escapes the bytes of a string for inclusion in a JSON string literal.
pub fn json_escape_bytes(s: &[u8]) -> (r: Vec<u8>)
    ensures
        r@ == json_escape(s@),
{
    let mut r: Vec<u8> = Vec::new();
    let mut i: usize = 0;
    while i < s.len()
        invariant
            i <= s@.len(),
            r@ == json_escape(s@.take(i as int)),
        decreases s@.len() - i,
    {
        let b = s[i];
        if b == 34 {
            r.push(92);
            r.push(34);
        } else if b == 92 {
            r.push(92);
            r.push(92);
        } else if b < 32 {
            r.push(92);
            r.push(117);
            r.push(48);
            r.push(48);
            r.push(hex_digit_u8(b / 16));
            r.push(hex_digit_u8(b % 16));
        } else {
            r.push(b);
        }
        proof {
            assert(s@.take(i as int) + seq![s@[i as int]] =~= s@.take(i + 1));
            lemma_json_escape_concat(s@.take(i as int), seq![s@[i as int]]);
            assert(seq![s@[i as int]].drop_first() =~= Seq::<u8>::empty());
            assert(json_escape(Seq::<u8>::empty()) =~= Seq::<u8>::empty());
            assert(json_escape(seq![s@[i as int]]) =~= json_escape_byte(s@[i as int]));
            assert(r@ =~= json_escape(s@.take(i + 1)));
        }
        i = i + 1;
    }
    proof {
        assert(s@.take(i as int) =~= s@);
    }
    r
}

} // verus!
