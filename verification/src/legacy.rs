//! Decisions of the first API generation (plain-text passwords, replies with
//! the account's name and timestamps).
use vstd::prelude::*;
use crate::outcome::DbError;
use crate::records::Timestamp;
use crate::auth::is_access_token_for;
use crate::token::{
    access_token, can_issue_at, MAX_UNIX_SECONDS, MIN_UNIX_SECONDS,
};

verus! {

/// Body of `POST /auth/login`.
pub struct LoginRequest {
    pub email: String,
    pub password: String,
}

/// Body of `POST /auth/signup`.
pub struct SignUpRequest {
    pub name: String,
    pub email: String,
    pub password: String,
}

/// The account and access token returned by log-in and sign-up.
pub struct AuthResponse {
    pub name: String,
    pub email: String,
    pub updated_at: String,
    pub created_at: String,
    pub access_token: String,
}

/// An account row of the first generation's `users` table.
pub struct LegacyAccount {
    pub id: u128,
    pub name: String,
    pub email: String,
    pub password: String,
    pub created_at: Timestamp,
    pub updated_at: Timestamp,
}

/// A reply of the first API generation.
pub enum LegacyReply {
    /// `200` with the account and its token as JSON.
    Authenticated(AuthResponse),
    /// `400` with a plain-text body.
    BadRequest(String),
    /// `401` with a plain-text body.
    Unauthorized(String),
    /// `500` with the failure's message as body.
    InternalError(String),
}

/// Whether an instant lies in the range of `chrono`'s date-times.
pub open spec fn in_calendar_range(ts: Timestamp) -> bool {
    MIN_UNIX_SECONDS * 1_000_000 <= ts.micros <= MAX_UNIX_SECONDS * 1_000_000 + 999_999
}

/// Whether an instant lies in the range of `chrono`'s date-times.
pub fn within_calendar_range(ts: Timestamp) -> (b: bool)
    ensures
        b == in_calendar_range(ts),
        0 <= ts.micros <= LAST_MICROS_OF_9999 ==> b,
{
    MIN_UNIX_SECONDS * 1_000_000 <= ts.micros && ts.micros <= MAX_UNIX_SECONDS * 1_000_000 + 999_999
}

/// The last microsecond of the year 9999 (`9999-12-31 23:59:59.999999`), in
/// microseconds after the Unix epoch.
pub const LAST_MICROS_OF_9999: i64 = 253_402_300_799_999_999;

/// An instant is in range exactly when its whole second (rounded down) is one
/// that `chrono` represents: any microsecond of a representable second is.
pub proof fn calendar_range_is_whole_seconds(ts: Timestamp)
    ensures
        in_calendar_range(ts) <==> MIN_UNIX_SECONDS <= ts.micros / 1_000_000 <= MAX_UNIX_SECONDS,
{
    let m = ts.micros as int;
    let q = m / 1_000_000;
    let r = m % 1_000_000;
    assert(m == q * 1_000_000 + r && 0 <= r < 1_000_000) by (nonlinear_arith)
        requires
            q == m / 1_000_000,
            r == m % 1_000_000,
    ;
    assert(MIN_UNIX_SECONDS <= q ==> MIN_UNIX_SECONDS * 1_000_000 <= m) by (nonlinear_arith)
        requires
            m == q * 1_000_000 + r,
            0 <= r,
    ;
    assert(MIN_UNIX_SECONDS * 1_000_000 <= m ==> MIN_UNIX_SECONDS <= q) by (nonlinear_arith)
        requires
            m == q * 1_000_000 + r,
            r < 1_000_000,
    ;
    assert(q <= MAX_UNIX_SECONDS ==> m <= MAX_UNIX_SECONDS * 1_000_000 + 999_999) by (
    nonlinear_arith)
        requires
            m == q * 1_000_000 + r,
            r < 1_000_000,
    ;
    assert(m <= MAX_UNIX_SECONDS * 1_000_000 + 999_999 ==> q <= MAX_UNIX_SECONDS) by (
    nonlinear_arith)
        requires
            m == q * 1_000_000 + r,
            0 <= r,
    ;
}

/// Every instant from 1970 to the end of 9999 is in range, so a stored
/// timestamp of an ordinary account is always displayed.
pub proof fn ordinary_instants_are_in_range(ts: Timestamp)
    requires
        0 <= ts.micros <= LAST_MICROS_OF_9999,
    ensures
        in_calendar_range(ts),
{
}

/// The text that `chrono::NaiveDateTime`'s `Display` gives for the instant
/// `micros` microseconds after the Unix epoch.
pub uninterp spec fn naive_datetime_text(micros: i64) -> Seq<char>;

/// Renders an instant as `chrono::NaiveDateTime` displays it (the instant is
/// turned into a date-time with `DateTime::from_timestamp_micros`, which
/// succeeds in the range required, and displayed with `naive_utc().to_string()`).
#[verifier::external_body]
fn datetime_text(ts: Timestamp) -> (s: String)
    requires
        in_calendar_range(ts),
    ensures
        s@ == naive_datetime_text(ts.micros),
{
    match chrono::DateTime::from_timestamp_micros(ts.micros) {
        Some(dt) => dt.naive_utc().to_string(),
        None => String::new(),
    }
}

/// Checks a first-generation log-in: the account found by e-mail must exist
/// (else `401 User not found`) and its stored password must equal the one
/// offered (else `401 Invalid password`); a failed lookup is a `500` carrying
/// the driver's message.
pub fn legacy_login_check(lookup: Result<Option<LegacyAccount>, DbError>, password: &String) -> (res:
    Result<LegacyAccount, LegacyReply>)
    ensures
        match lookup {
            Err(e) => res matches Err(LegacyReply::InternalError(m)) && m@ == e.text(),
            Ok(None) => res matches Err(LegacyReply::Unauthorized(m)) && m@ == "User not found"@,
            Ok(Some(a)) => if a.password@ == password@ {
                res == Ok::<LegacyAccount, LegacyReply>(a)
            } else {
                res matches Err(LegacyReply::Unauthorized(m)) && m@ == "Invalid password"@
            },
        },
{
    match lookup {
        Err(e) => Err(LegacyReply::InternalError(e.message())),
        Ok(None) => Err(LegacyReply::Unauthorized("User not found".to_owned())),
        Ok(Some(a)) => {
            if a.password == *password {
                Ok(a)
            } else {
                Err(LegacyReply::Unauthorized("Invalid password".to_owned()))
            }
        },
    }
}

/// Whether `r` reports the account named `name` with e-mail `email`, created and
/// updated at the given instants, and the token `token`.
pub open spec fn reports_account(
    r: AuthResponse,
    name: Seq<char>,
    email: Seq<char>,
    created_at: Timestamp,
    updated_at: Timestamp,
    token: Seq<char>,
) -> bool {
    &&& r.name@ == name
    &&& r.email@ == email
    &&& r.created_at@ == naive_datetime_text(created_at.micros)
    &&& r.updated_at@ == naive_datetime_text(updated_at.micros)
    &&& r.access_token@ == token
}

/// The reply that carries an account and an access token signed for it under
/// `secret`, issued at `now` (the account's e-mail and id in its claims);
/// signing such claims does not fail.
pub fn legacy_auth_reply(
    name: String,
    email: String,
    id: u128,
    created_at: Timestamp,
    updated_at: Timestamp,
    now: i64,
    secret: &str,
) -> (r: LegacyReply)
    requires
        in_calendar_range(created_at),
        in_calendar_range(updated_at),
        can_issue_at(now),
    ensures
        r is Authenticated,
        r matches LegacyReply::Authenticated(a) ==> reports_account(
            a,
            name@,
            email@,
            created_at,
            updated_at,
            a.access_token@,
        ) && is_access_token_for(a.access_token@, secret@, email@, id, now),
{
    match access_token(&email, id, now, secret) {
        Err(m) => LegacyReply::InternalError(m),
        Ok(t) => LegacyReply::Authenticated(
            AuthResponse {
                name,
                email,
                created_at: datetime_text(created_at),
                updated_at: datetime_text(updated_at),
                access_token: t,
            },
        ),
    }
}

/// Whether a first-generation sign-up may go on, from the lookup of the e-mail's
/// account id: a taken e-mail is `400 User already exists with this email`; a
/// failed lookup is a `500` carrying the driver's message.
pub fn legacy_signup_check(existing: Result<Option<u128>, DbError>) -> (res: Result<(), LegacyReply>)
    ensures
        match existing {
            Err(e) => res matches Err(LegacyReply::InternalError(m)) && m@ == e.text(),
            Ok(Some(_)) => res matches Err(LegacyReply::BadRequest(m)) && m@
                == "User already exists with this email"@,
            Ok(None) => res is Ok,
        },
{
    match existing {
        Err(e) => Err(LegacyReply::InternalError(e.message())),
        Ok(Some(_)) => Err(LegacyReply::BadRequest("User already exists with this email".to_owned())),
        Ok(None) => Ok(()),
    }
}

/// The creation and update instants of the inserted account; a failed insert
/// is a `500` carrying the driver's message.
pub fn legacy_signup_inserted(inserted: Result<(Timestamp, Timestamp), DbError>) -> (res: Result<
    (Timestamp, Timestamp),
    LegacyReply,
>)
    ensures
        match inserted {
            Err(e) => res matches Err(LegacyReply::InternalError(m)) && m@ == e.text(),
            Ok(times) => res == Ok::<(Timestamp, Timestamp), LegacyReply>(times),
        },
{
    match inserted {
        Err(e) => Err(LegacyReply::InternalError(e.message())),
        Ok(times) => Ok(times),
    }
}

} // verus!
