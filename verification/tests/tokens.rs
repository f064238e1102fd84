use perps::payload::render_claims;
use perps::token::{
    access_token, authorize, bearer_token, claims_at, decode_jwt, encode_jwt, is_expired, issue_claims,
    token_outcome, unix_now, Claims, MAX_UNIX_SECONDS, TOKEN_LIFETIME_SECONDS,
};

const ID: u128 = 0x67e5_5044_10b1_426f_9247_bb68_0e5f_e0c8;

fn claims_json(exp: usize, iat: usize, email: &str, id: u128) -> String {
    format!(
        "{{\"exp\":{},\"iat\":{},\"email\":{},\"id\":\"{}\"}}",
        exp,
        iat,
        serde_json::to_string(email).unwrap(),
        uuid::Uuid::from_u128(id)
    )
}

#[test]
fn issued_claims_last_one_day() {
    let c = Claims::issue("a@b.c".to_string(), 7, 1_700_000_000);
    assert_eq!(c.iat, 1_700_000_000);
    assert_eq!(c.exp, 1_700_086_400);
    assert_eq!(c.email, "a@b.c");
    assert_eq!(c.id, 7);
    let before = unix_now();
    let c = issue_claims("x@y.z".to_string(), 3).unwrap();
    let after = unix_now();
    assert!(before as usize <= c.iat && c.iat <= after as usize);
    assert_eq!(c.exp, c.iat + TOKEN_LIFETIME_SECONDS as usize);
}

#[test]
fn claims_need_a_representable_expiry() {
    let last = MAX_UNIX_SECONDS - TOKEN_LIFETIME_SECONDS;
    let c = claims_at("a@b.c".to_string(), 1, last).unwrap();
    assert_eq!(c.exp, MAX_UNIX_SECONDS as usize);
    assert!(claims_at("a@b.c".to_string(), 1, last + 1).is_none());
    assert!(claims_at("a@b.c".to_string(), 1, MAX_UNIX_SECONDS).is_none());
    assert!(claims_at("a@b.c".to_string(), 1, 0).is_some());
}

#[test]
fn claims_render_as_serde_writes_them() {
    assert_eq!(
        render_claims(1_700_086_400, 1_700_000_000, &"a@b.c".to_string(), ID),
        "{\"exp\":1700086400,\"iat\":1700000000,\"email\":\"a@b.c\",\"id\":\"67e55044-10b1-426f-9247-bb680e5fe0c8\"}"
    );
    for email in ["", "q\"uote", "back\\slash", "tab\tnew\nline", "\u{1}\u{1f}\u{7f}", "é ünï 😀", "\u{8}\u{c}\r"] {
        assert_eq!(render_claims(5, 4, &email.to_string(), 9), claims_json(5, 4, email, 9));
    }
    assert_eq!(
        render_claims(0, 0, &"\u{1}".to_string(), 0),
        "{\"exp\":0,\"iat\":0,\"email\":\"\\u0001\",\"id\":\"00000000-0000-0000-0000-000000000000\"}"
    );
}

#[test]
fn signed_token_is_what_jsonwebtoken_signs() {
    let json = claims_json(1_700_086_400, 1_700_000_000, "a@b.c", ID);
    let ours = encode_jwt(&json, "secret").unwrap();
    let raw = serde_json::value::RawValue::from_string(json.clone()).unwrap();
    let reference = jsonwebtoken::encode(
        &jsonwebtoken::Header::default(),
        &raw,
        &jsonwebtoken::EncodingKey::from_secret(b"secret"),
    )
    .unwrap();
    assert_eq!(ours, reference);
    assert!(ours.starts_with("eyJ0eXAiOiJKV1QiLCJhbGciOiJIUzI1NiJ9."));
    assert_eq!(ours.split('.').count(), 3);
    let token = access_token(&"a@b.c".to_string(), ID, 1_700_000_000, "secret").unwrap();
    assert_eq!(token, ours);
}

#[test]
fn fresh_token_decodes_to_its_claims() {
    let now = unix_now();
    let token = access_token(&"a@b.c".to_string(), 11, now, "s3cret").unwrap();
    let decoded = decode_jwt(&token, "s3cret").unwrap();
    assert_eq!(decoded, claims_json((now + 86_400) as usize, now as usize, "a@b.c", 11));
    let back: serde_json::Value = serde_json::from_str(&decoded).unwrap();
    assert_eq!(back["id"].as_str().unwrap(), uuid::Uuid::from_u128(11).to_string());
    assert_eq!(back["email"].as_str().unwrap(), "a@b.c");
    assert_eq!(back["exp"].as_i64().unwrap(), back["iat"].as_i64().unwrap() + 86_400);
    assert!(decode_jwt(&token, "other").is_err());
}

#[test]
fn altered_token_is_refused() {
    let now = unix_now();
    let token = access_token(&"a@b.c".to_string(), 11, now, "k").unwrap();
    let other = access_token(&"e@f.g".to_string(), 12, now, "k").unwrap();
    let parts: Vec<&str> = token.split('.').collect();
    let other_parts: Vec<&str> = other.split('.').collect();
    let forged = format!("{}.{}.{}", parts[0], other_parts[1], parts[2]);
    assert!(decode_jwt(&forged, "k").is_err());
}

#[test]
fn old_token_checks_but_its_claims_have_expired() {
    // the checker decides by the token and the secret alone ...
    let token = access_token(&"a@b.c".to_string(), 1, 1_000_000, "k").unwrap();
    let decoded = decode_jwt(&token, "k").unwrap();
    assert_eq!(decoded, claims_json(1_086_400, 1_000_000, "a@b.c", 1));
    // ... and the expiry is judged against the clock
    let c = Claims::issue("a@b.c".to_string(), 1, 1_000_000);
    assert!(is_expired(&c, unix_now()));
    assert!(!is_expired(&c, 1_086_460));
    assert!(is_expired(&c, 1_086_461));
    let e = perps::auth::authenticated_user(Some(c), unix_now()).err().unwrap();
    assert_eq!((e.status, e.message.as_str()), (401, "invalid token"));
}

#[test]
fn every_refusal_of_the_checker_is_invalid_token() {
    for reason in ["ExpiredSignature", "InvalidSignature", ""] {
        let e = token_outcome(Err(reason.to_string())).err().unwrap();
        assert_eq!((e.status, e.message.as_str()), (401, "invalid token"));
    }
    assert_eq!(token_outcome(Ok("{}".to_string())).ok().unwrap(), "{}");
}

#[test]
fn token_with_an_audience_is_refused() {
    let token = encode_jwt("{\"exp\":1,\"aud\":\"x\"}", "k").unwrap();
    assert!(decode_jwt(&token, "k").is_err());
}

#[test]
fn invalid_claims_text_is_not_signed() {
    assert!(encode_jwt("{not json", "k").is_err());
    assert!(encode_jwt("", "k").is_err());
    // whitespace around the value is dropped before signing
    let now = unix_now();
    let json = claims_json((now + 60) as usize, now as usize, "a", 1);
    let token = encode_jwt(&format!("  {}\n", json), "k").unwrap();
    assert_eq!(decode_jwt(&token, "k").unwrap(), json);
}

#[test]
fn bearer_credentials_are_read() {
    assert_eq!(bearer_token(Some(b"Bearer abc.def")).ok().unwrap(), "abc.def");
    assert_eq!(bearer_token(Some(b"Bearer ")).ok().unwrap(), "");
    for bad in [&b"Basic abc"[..], b"bearer abc", b"Bearer", b"", b"Bearer a\x01b", b"Bearer \xffab"] {
        let e = bearer_token(Some(bad)).err().unwrap();
        assert_eq!((e.status, e.message.as_str()), (401, "missing authorization header"));
    }
    let e = bearer_token(None).err().unwrap();
    assert_eq!((e.status, e.message.as_str()), (401, "missing authorization header"));
    assert_eq!(bearer_token(Some(b"Bearer a\tb")).ok().unwrap(), "a\tb");
}

#[test]
fn authorization_header_is_checked() {
    let now = unix_now();
    let token = access_token(&"a@b.c".to_string(), 5, now, "k").unwrap();
    let header = format!("Bearer {}", token);
    assert_eq!(
        authorize(Some(header.as_bytes()), "k").ok().unwrap(),
        claims_json((now + 86_400) as usize, now as usize, "a@b.c", 5)
    );
    let e = authorize(Some(header.as_bytes()), "wrong").err().unwrap();
    assert_eq!((e.status, e.message.as_str()), (401, "invalid token"));
    let e = authorize(Some(b"Bearer not.a.token"), "k").err().unwrap();
    assert_eq!((e.status, e.message.as_str()), (401, "invalid token"));
    let e = authorize(Some(token.as_bytes()), "k").err().unwrap();
    assert_eq!((e.status, e.message.as_str()), (401, "missing authorization header"));
}
