use opentok_server::{auth_header, auth_header_at, Claims, OpenTok, TokenData, TokenRole};
use rustc_serialize::hex::ToHex;

fn decode_inner(token: &str) -> String {
    assert!(token.starts_with("T1=="));
    let inner = base64::decode(&token[4..]).unwrap();
    String::from_utf8(inner).unwrap()
}

fn query_field(qs: &str, name: &str) -> String {
    for pair in qs.split('&') {
        let mut it = pair.splitn(2, '=');
        let k = it.next().unwrap();
        let v = it.next().unwrap_or("");
        if k == name {
            return v.to_string();
        }
    }
    panic!("field {} not present in {}", name, qs);
}

#[test]
fn token_has_marker_and_decodes() {
    let opentok = OpenTok::new("k".into(), "s".into());
    let token = opentok.generate_token("sess1", TokenRole::Publisher);
    assert!(token.starts_with("T1=="));
    let inner = decode_inner(&token);
    assert!(inner.starts_with("partner_id=k&sig="));
}

#[test]
fn token_round_trip_signature() {
    let opentok = OpenTok::new("k".into(), "s".into());
    let token = opentok.generate_token_at("sess1", TokenRole::Publisher, 1_600_000_000, 42);
    let inner = decode_inner(&token);
    let colon = inner.find(':').unwrap();
    let (left, right) = inner.split_at(colon);
    let qs = &right[1..];
    let sig_pos = left.find("&sig=").unwrap();
    let partner = &left["partner_id=".len()..sig_pos];
    let sig = &left[sig_pos + "&sig=".len()..];
    assert_eq!(partner, "k");
    let recomputed = hmacsha1::hmac_sha1("s".as_bytes(), qs.as_bytes()).to_hex();
    assert_eq!(sig, recomputed);
    assert_eq!(query_field(qs, "session_id"), "sess1");
    assert_eq!(query_field(qs, "nonce"), "42");
    assert_eq!(query_field(qs, "role"), "publisher");
}

#[test]
fn token_window_is_one_day() {
    let opentok = OpenTok::new("k".into(), "s".into());
    let token = opentok.generate_token("sess1", TokenRole::Subscriber);
    let inner = decode_inner(&token);
    let qs = &inner[inner.find(':').unwrap() + 1..];
    let create: u64 = query_field(qs, "create_time").parse().unwrap();
    let expire: u64 = query_field(qs, "expire_time").parse().unwrap();
    assert_eq!(expire - create, 86400);

    let data = TokenData::from_parts("sess1", TokenRole::Subscriber, 1_000, 2);
    assert_eq!(data.expire_time - data.create_time, 86400);
}

#[test]
fn token_create_time_is_current() {
    let before = std::time::SystemTime::now()
        .duration_since(std::time::UNIX_EPOCH)
        .unwrap()
        .as_secs();
    let opentok = OpenTok::new("k".into(), "s".into());
    let token = opentok.generate_token("sess1", TokenRole::Publisher);
    let after = std::time::SystemTime::now()
        .duration_since(std::time::UNIX_EPOCH)
        .unwrap()
        .as_secs();
    let inner = decode_inner(&token);
    let qs = &inner[inner.find(':').unwrap() + 1..];
    let create: u64 = query_field(qs, "create_time").parse().unwrap();
    assert!(before <= create && create <= after);
}

#[test]
fn successive_tokens_differ() {
    let opentok = OpenTok::new("k".into(), "s".into());
    let first = opentok.generate_token("sess1", TokenRole::Publisher);
    let second = opentok.generate_token("sess1", TokenRole::Publisher);
    assert_ne!(first, second);
}

#[test]
fn moderator_token_contents() {
    let opentok = OpenTok::new("k".into(), "s".into());
    let token = opentok.generate_token("sess1", TokenRole::Moderator);
    assert!(token.starts_with("T1=="));
    let inner = decode_inner(&token);
    let qs = &inner[inner.find(':').unwrap() + 1..];
    assert_eq!(query_field(qs, "role"), "moderator");
}

#[test]
fn assertion_structure_and_window() {
    let token = auth_header_at("k", "s", 1_600_000_000, 7).unwrap();
    let parts: Vec<&str> = token.split('.').collect();
    assert_eq!(parts.len(), 3);
    let header = base64::decode_config(parts[0], base64::URL_SAFE_NO_PAD).unwrap();
    assert_eq!(header, b"{\"typ\":\"JWT\",\"alg\":\"HS256\"}".to_vec());
    let claims = base64::decode_config(parts[1], base64::URL_SAFE_NO_PAD).unwrap();
    let expected =
        "{\"iss\":\"k\",\"ist\":\"project\",\"iat\":1600000000,\"exp\":1600000180,\"jti\":7}";
    assert_eq!(String::from_utf8(claims).unwrap(), expected);
    let message = format!("{}.{}", parts[0], parts[1]);
    let valid = jsonwebtoken::crypto::verify(
        parts[2],
        message.as_bytes(),
        &jsonwebtoken::DecodingKey::from_secret("s".as_bytes()),
        jsonwebtoken::Algorithm::HS256,
    )
    .unwrap();
    assert!(valid);
}

#[test]
fn assertion_fresh_values() {
    let token = auth_header("k", "s").unwrap();
    let parts: Vec<&str> = token.split('.').collect();
    assert_eq!(parts.len(), 3);
    let claims = base64::decode_config(parts[1], base64::URL_SAFE_NO_PAD).unwrap();
    let claims = String::from_utf8(claims).unwrap();
    assert!(claims.contains("\"ist\":\"project\""));
    let iat_pos = claims.find("\"iat\":").unwrap() + "\"iat\":".len();
    let iat: u64 = claims[iat_pos..].chars().take_while(|c| c.is_ascii_digit()).collect::<String>().parse().unwrap();
    let exp_pos = claims.find("\"exp\":").unwrap() + "\"exp\":".len();
    let exp: u64 = claims[exp_pos..].chars().take_while(|c| c.is_ascii_digit()).collect::<String>().parse().unwrap();
    assert_eq!(exp - iat, 180);
}

#[test]
fn claims_json_exact() {
    let claims = Claims::from_parts("k\"x", 100, 5);
    assert_eq!(claims.iat, 100);
    assert_eq!(claims.exp, 280);
    assert_eq!(claims.ist, "project");
    let json = claims.to_json();
    let expected = "{\"iss\":\"k\\\"x\",\"ist\":\"project\",\"iat\":100,\"exp\":280,\"jti\":5}";
    assert_eq!(String::from_utf8(json).unwrap(), expected);
}

#[test]
fn decimal_rendering() {
    assert_eq!(opentok_server::wire::u64_to_string(0), "0");
    assert_eq!(opentok_server::wire::u64_to_string(7), "7");
    assert_eq!(opentok_server::wire::u64_to_string(1234567890), "1234567890");
    assert_eq!(
        opentok_server::wire::u64_to_string(u64::MAX),
        "18446744073709551615"
    );
}
