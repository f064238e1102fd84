use perps::auth::{
    authenticate, authenticated_user, login_reply, signup_created, signup_precheck, signup_reply,
};
use perps::outcome::DbError;
use perps::password::{check_password, hash_new_password, PasswordCheck};
use perps::records::{Timestamp, User};
use perps::token::Claims;

fn account(password: &str) -> User {
    User {
        id: 42,
        username: "sam".to_string(),
        email: "sam@example.com".to_string(),
        password: password.to_string(),
        created_at: Timestamp { micros: 1_700_000_000_000_000 },
        updated_at: Timestamp { micros: 1_700_000_000_000_000 },
    }
}

#[test]
fn signed_up_password_logs_in() {
    let stored = hash_new_password("hunter2").ok().unwrap();
    assert!(stored.starts_with("$argon2id$"));
    let u = authenticate(Ok(Some(account(&stored))), "hunter2").ok().unwrap();
    assert_eq!(u.id, 42);
    assert_eq!(u.username, "sam");
}

#[test]
fn wrong_password_is_unauthorized() {
    let stored = hash_new_password("hunter2").ok().unwrap();
    let e = authenticate(Ok(Some(account(&stored))), "hunter3").err().unwrap();
    assert_eq!((e.status, e.message.as_str()), (401, "invalid email or password"));
}

#[test]
fn unknown_email_is_unauthorized() {
    let e = authenticate(Ok(None), "hunter2").err().unwrap();
    assert_eq!((e.status, e.message.as_str()), (401, "invalid username or password"));
}

#[test]
fn plain_text_stored_password_is_a_server_error() {
    let e = authenticate(Ok(Some(account("hunter2"))), "hunter2").err().unwrap();
    assert_eq!((e.status, e.message.as_str()), (500, "stored password hash is invalid"));
}

#[test]
fn failed_lookup_is_a_server_error() {
    let e = authenticate(Err(DbError::Other("connection refused".to_string())), "x").err().unwrap();
    assert_eq!((e.status, e.message.as_str()), (500, "connection refused"));
}

#[test]
fn password_checks() {
    let stored = hash_new_password("pw").ok().unwrap();
    assert_eq!(check_password("pw", &stored), PasswordCheck::Accepted);
    assert_eq!(check_password("pW", &stored), PasswordCheck::Rejected);
    assert_eq!(check_password("pw", "not a hash"), PasswordCheck::Malformed);
    // two hashes of one password differ by their salt, and both verify
    let other = hash_new_password("pw").ok().unwrap();
    assert_ne!(stored, other);
    assert_eq!(check_password("pw", &other), PasswordCheck::Accepted);
}

fn expected_claims(email: &str, id: u128, now: i64) -> String {
    format!(
        "{{\"exp\":{},\"iat\":{},\"email\":{},\"id\":\"{}\"}}",
        now + 86_400,
        now,
        serde_json::to_string(email).unwrap(),
        uuid::Uuid::from_u128(id)
    )
}

#[test]
fn login_reply_carries_account_and_token() {
    let now = perps::token::unix_now();
    let r = login_reply(account("h"), now, "k").ok().unwrap();
    assert_eq!(r.message, "logged in successfully");
    assert!(r.success);
    assert_eq!(r.data.id, 42);
    assert_eq!(r.data.username, "sam");
    assert_eq!(r.data.email, "sam@example.com");
    // the token carries the account's e-mail and id, issued now for one day
    let claims = perps::token::decode_jwt(&r.data.access_token, "k").unwrap();
    assert_eq!(claims, expected_claims("sam@example.com", 42, now));
    assert!(perps::token::decode_jwt(&r.data.access_token, "other").is_err());
}

#[test]
fn signup_steps() {
    let e = signup_precheck(Ok(Some(account("h")))).err().unwrap();
    assert_eq!((e.status, e.message.as_str()), (409, "user already exists"));
    assert!(signup_precheck(Ok(None)).is_ok());
    let e = signup_precheck(Err(DbError::Other("boom".to_string()))).err().unwrap();
    assert_eq!((e.status, e.message.as_str()), (500, "boom"));
    let e = signup_created(Err(DbError::Other("unique violation".to_string()))).err().unwrap();
    assert_eq!((e.status, e.message.as_str()), (500, "error creating user"));
    assert_eq!(signup_created(Ok(account("h"))).ok().unwrap().id, 42);
    let now = perps::token::unix_now();
    let (status, r) = signup_reply(account("h"), now, "k").ok().unwrap();
    assert_eq!(status, 201);
    assert_eq!(r.message, "user created successfully");
    assert_eq!(r.data.email, "sam@example.com");
    assert_eq!(r.data.id, 42);
    let claims = perps::token::decode_jwt(&r.data.access_token, "k").unwrap();
    assert_eq!(claims, expected_claims("sam@example.com", 42, now));
}

#[test]
fn hashing_succeeds_for_any_password() {
    // hashing succeeds for ordinary passwords, the empty one included
    assert!(hash_new_password("").is_ok());
}

#[test]
fn claims_name_the_caller() {
    let c = Claims { exp: 1_000, iat: 900, email: "a@b.c".to_string(), id: 9 };
    let u = authenticated_user(Some(c), 1_000).ok().unwrap();
    assert_eq!((u.id, u.email.as_str()), (9, "a@b.c"));
    let e = authenticated_user(None, 1_000).err().unwrap();
    assert_eq!((e.status, e.message.as_str()), (401, "invalid token"));
}

#[test]
fn expired_claims_are_refused_after_the_leeway() {
    let c = || Claims { exp: 1_000, iat: 900, email: "a@b.c".to_string(), id: 9 };
    assert!(authenticated_user(Some(c()), 1_060).is_ok());
    let e = authenticated_user(Some(c()), 1_061).err().unwrap();
    assert_eq!((e.status, e.message.as_str()), (401, "invalid token"));
    assert!(authenticated_user(Some(c()), -5).is_ok());
    assert!(authenticated_user(Some(c()), 59).is_ok());
}

fn signup_payload(password: &str) -> perps::auth::SignupRequestPayload {
    perps::auth::SignupRequestPayload {
        username: "sam".to_string(),
        email: "sam@example.com".to_string(),
        password: password.to_string(),
    }
}

#[test]
fn prepared_signup_stores_a_hash_that_logs_in() {
    let a = perps::auth::prepare_signup(signup_payload("hunter2"), Ok(None)).ok().unwrap();
    assert_eq!(a.username(), "sam");
    assert_eq!(a.email(), "sam@example.com");
    assert_ne!(a.password_hash(), "hunter2");
    let stored = account(a.password_hash());
    assert_eq!(authenticate(Ok(Some(stored)), "hunter2").ok().unwrap().email, "sam@example.com");
}

#[test]
fn prepared_signup_refuses_taken_email() {
    let e = perps::auth::prepare_signup(signup_payload("pw"), Ok(Some(account("x")))).err().unwrap();
    assert_eq!((e.status, e.message.as_str()), (409, "user already exists"));
    let e = perps::auth::prepare_signup(signup_payload("pw"), Err(DbError::Other("db".to_string())))
        .err()
        .unwrap();
    assert_eq!((e.status, e.message.as_str()), (500, "db"));
}
