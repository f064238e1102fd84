//! Sign-up, log-in and the authenticated caller of the current API.
use vstd::prelude::*;
use crate::outcome::{ApiError, DbError, CONFLICT, CREATED, INTERNAL_SERVER_ERROR, UNAUTHORIZED};
use crate::password::{
    argon2_verifies, argon2id_prefix, check_password, hash_new_password, max_password_bytes,
    phc_string_parses, utf8_len, PasswordCheck,
};
use crate::records::User;
use crate::token::{
    access_token, can_issue_at, hs256_jwt, is_token_text, jwt_verified_payload,
    claims_expired, is_expired, token_claims, Claims,
};

verus! {

/// Body of `POST /auth/login`.
pub struct LoginRequestPayload {
    pub email: String,
    pub password: String,
}

/// Body of `POST /auth/signup`.
pub struct SignupRequestPayload {
    pub username: String,
    pub email: String,
    pub password: String,
}

/// The account and access token returned by a successful log-in.
pub struct LoginData {
    pub access_token: String,
    pub id: u128,
    pub username: String,
    pub email: String,
}

/// Envelope of the log-in reply.
pub struct LoginResponse {
    pub message: String,
    pub success: bool,
    pub data: LoginData,
}

/// The account and access token returned by a successful sign-up.
pub struct SignupData {
    pub access_token: String,
    pub id: u128,
    pub username: String,
    pub email: String,
}

/// Envelope of the sign-up reply.
pub struct SignupResponse {
    pub message: String,
    pub success: bool,
    pub data: SignupData,
}

/// The caller that a valid access token identifies.
pub struct AuthUser {
    pub id: u128,
    pub email: String,
}

/// How a log-in attempt ends, given the lookup of the account by e-mail and
/// the password offered: the account, or the refusal (status and message).
/// An unknown e-mail and a wrong password are both `401`; a stored password
/// that is not a PHC string is a server error.
pub open spec fn login_outcome(lookup: Result<Option<User>, DbError>, password: Seq<char>) -> Result<
    User,
    (u16, Seq<char>),
> {
    match lookup {
        Err(e) => Err((INTERNAL_SERVER_ERROR, e.text())),
        Ok(None) => Err((UNAUTHORIZED, "invalid username or password"@)),
        Ok(Some(u)) => if !phc_string_parses(u.password@) {
            Err((INTERNAL_SERVER_ERROR, "stored password hash is invalid"@))
        } else if !argon2_verifies(password, u.password@) {
            Err((UNAUTHORIZED, "invalid email or password"@))
        } else {
            Ok(u)
        },
    }
}

/// Checks a log-in: the account found by e-mail and the password offered.
pub fn authenticate(lookup: Result<Option<User>, DbError>, password: &str) -> (res: Result<User, ApiError>)
    ensures
        match res {
            Ok(u) => login_outcome(lookup, password@) == Ok::<User, (u16, Seq<char>)>(u),
            Err(e) => login_outcome(lookup, password@) == Err::<User, (u16, Seq<char>)>(e@),
        },
{
    match lookup {
        Err(e) => Err(e.into_server_error()),
        Ok(None) => Err(ApiError::new(UNAUTHORIZED, "invalid username or password")),
        Ok(Some(u)) => match check_password(password, u.password.as_str()) {
            PasswordCheck::Malformed => Err(
                ApiError::new(INTERNAL_SERVER_ERROR, "stored password hash is invalid"),
            ),
            PasswordCheck::Rejected => Err(ApiError::new(UNAUTHORIZED, "invalid email or password")),
            PasswordCheck::Accepted => Ok(u),
        },
    }
}

/// Whether `token` is the access token signed under `secret` for the account
/// with the given e-mail and id, issued at `now`: it is the named HS256 token of
/// that account's claims, and its signature carries exactly those claims.
pub open spec fn is_access_token_for(
    token: Seq<char>,
    secret: Seq<char>,
    email: Seq<char>,
    id: u128,
    now: i64,
) -> bool {
    &&& token == hs256_jwt(token_claims(email, id, now), secret)
    &&& is_token_text(token)
    &&& jwt_verified_payload(token, secret) == Some(token_claims(email, id, now))
}

/// The reply to a checked log-in: the account with an access token for it,
/// issued at `now` and signed under `secret` (signing such claims does not
/// fail).
pub fn login_reply(user: User, now: i64, secret: &str) -> (res: Result<LoginResponse, ApiError>)
    requires
        can_issue_at(now),
    ensures
        res is Ok,
        match res {
            Err(e) => e@ == (INTERNAL_SERVER_ERROR, "failed to generate access token"@),
            Ok(r) => {
                &&& r.message@ == "logged in successfully"@
                &&& r.success
                &&& r.data.id == user.id
                &&& r.data.username == user.username
                &&& r.data.email == user.email
                &&& is_access_token_for(r.data.access_token@, secret@, user.email@, user.id, now)
            },
        },
{
    match access_token(&user.email, user.id, now, secret) {
        Err(_) => Err(ApiError::new(INTERNAL_SERVER_ERROR, "failed to generate access token")),
        Ok(t) => Ok(
            LoginResponse {
                message: "logged in successfully".to_owned(),
                success: true,
                data: LoginData {
                    access_token: t,
                    id: user.id,
                    username: user.username,
                    email: user.email,
                },
            },
        ),
    }
}

/// Whether a sign-up may go on, from the lookup of its e-mail: a failed lookup
/// is a server error with the driver's message; an e-mail already registered is
/// `409 user already exists`.
pub fn signup_precheck(existing: Result<Option<User>, DbError>) -> (res: Result<(), ApiError>)
    ensures
        match existing {
            Err(e) => res matches Err(r) && r@ == (INTERNAL_SERVER_ERROR, e.text()),
            Ok(Some(_)) => res matches Err(r) && r@ == (CONFLICT, "user already exists"@),
            Ok(None) => res is Ok,
        },
{
    match existing {
        Err(e) => Err(e.into_server_error()),
        Ok(Some(_)) => Err(ApiError::new(CONFLICT, "user already exists")),
        Ok(None) => Ok(()),
    }
}

/// An account that may be stored: its e-mail was found free and its password
/// was hashed. Only `prepare_signup` makes one.
pub struct NewAccount {
    username: String,
    email: String,
    password_hash: String,
}

impl View for NewAccount {
    /// The name, the e-mail and the PHC string of the password.
    type V = (Seq<char>, Seq<char>, Seq<char>);

    closed spec fn view(&self) -> (Seq<char>, Seq<char>, Seq<char>) {
        (self.username@, self.email@, self.password_hash@)
    }
}

impl NewAccount {
    pub fn username(&self) -> (s: &String)
        ensures
            s@ == self@.0,
    {
        &self.username
    }

    pub fn email(&self) -> (s: &String)
        ensures
            s@ == self@.1,
    {
        &self.email
    }

    pub fn password_hash(&self) -> (s: &String)
        ensures
            s@ == self@.2,
    {
        &self.password_hash
    }
}

/// Prepares a sign-up from its request and the lookup of its e-mail: refused
/// as `signup_precheck` says, else the account to store, with the requested
/// name and e-mail and its password hashed. Hashing succeeds for every password
/// that Argon2 accepts (at most `argon2::MAX_PWD_LEN` bytes); a hasher failure
/// is `500 failed to hash password`. The stored hash is a PHC string that the
/// password verifies against, and it is not the password itself unless the
/// password starts as such a string does.
pub fn prepare_signup(payload: SignupRequestPayload, existing: Result<Option<User>, DbError>) -> (res:
    Result<NewAccount, ApiError>)
    ensures
        match existing {
            Err(e) => res matches Err(r) && r@ == (INTERNAL_SERVER_ERROR, e.text()),
            Ok(Some(_)) => res matches Err(r) && r@ == (CONFLICT, "user already exists"@),
            Ok(None) => {
                &&& utf8_len(payload.password@) <= max_password_bytes() ==> res is Ok
                &&& match res {
                    Ok(a) => {
                        &&& a@.0 == payload.username@
                        &&& a@.1 == payload.email@
                        &&& phc_string_parses(a@.2)
                        &&& argon2_verifies(payload.password@, a@.2)
                        &&& argon2id_prefix().is_prefix_of(a@.2)
                        &&& !argon2id_prefix().is_prefix_of(payload.password@) ==> a@.2
                            != payload.password@
                    },
                    Err(r) => r@ == (INTERNAL_SERVER_ERROR, "failed to hash password"@),
                }
            },
        },
{
    signup_precheck(existing)?;
    let password_hash = hash_new_password(payload.password.as_str())?;
    Ok(NewAccount { username: payload.username, email: payload.email, password_hash })
}

/// An account stored from a prepared sign-up logs in with the password of the
/// sign-up request: whatever the store returns as the account, if it keeps the
/// prepared hash as the account's password, the log-in is accepted.
pub proof fn prepared_account_logs_in(account: NewAccount, request_password: Seq<char>, stored: User)
    requires
        phc_string_parses(account@.2),
        argon2_verifies(request_password, account@.2),
        stored.password@ == account@.2,
    ensures
        login_outcome(Ok(Some(stored)), request_password) == Ok::<User, (u16, Seq<char>)>(stored),
{
}

/// The account created by a sign-up; a failure to store it is
/// `500 error creating user`.
pub fn signup_created(created: Result<User, DbError>) -> (res: Result<User, ApiError>)
    ensures
        match created {
            Err(_) => res matches Err(r) && r@ == (INTERNAL_SERVER_ERROR, "error creating user"@),
            Ok(u) => res == Ok::<User, ApiError>(u),
        },
{
    match created {
        Err(_) => Err(ApiError::new(INTERNAL_SERVER_ERROR, "error creating user")),
        Ok(u) => Ok(u),
    }
}

/// The reply to a completed sign-up: `201` with the account and an access token
/// for it, issued at `now` and signed under `secret` (signing such claims does
/// not fail).
pub fn signup_reply(user: User, now: i64, secret: &str) -> (res: Result<
    (u16, SignupResponse),
    ApiError,
>)
    requires
        can_issue_at(now),
    ensures
        res is Ok,
        match res {
            Err(e) => e@ == (INTERNAL_SERVER_ERROR, "failed to generate access token"@),
            Ok((status, r)) => {
                &&& status == CREATED
                &&& r.message@ == "user created successfully"@
                &&& r.success
                &&& r.data.id == user.id
                &&& r.data.username == user.username
                &&& r.data.email == user.email
                &&& is_access_token_for(r.data.access_token@, secret@, user.email@, user.id, now)
            },
        },
{
    match access_token(&user.email, user.id, now, secret) {
        Err(_) => Err(ApiError::new(INTERNAL_SERVER_ERROR, "failed to generate access token")),
        Ok(t) => Ok(
            (
                CREATED,
                SignupResponse {
                    message: "user created successfully".to_owned(),
                    success: true,
                    data: SignupData {
                        access_token: t,
                        id: user.id,
                        username: user.username,
                        email: user.email,
                    },
                },
            ),
        ),
    }
}

/// The caller named by the claims of a token whose signature checked, at
/// `now`: claims that cannot be read, or that have expired, are
/// `401 invalid token`.
pub fn authenticated_user(claims: Option<Claims>, now: i64) -> (res: Result<AuthUser, ApiError>)
    ensures
        match claims {
            None => res matches Err(e) && e@ == (UNAUTHORIZED, "invalid token"@),
            Some(c) => if claims_expired(c, now) {
                res matches Err(e) && e@ == (UNAUTHORIZED, "invalid token"@)
            } else {
                res matches Ok(u) && u.id == c.id && u.email == c.email
            },
        },
{
    match claims {
        None => Err(ApiError::new(UNAUTHORIZED, "invalid token")),
        Some(c) => {
            if is_expired(&c, now) {
                Err(ApiError::new(UNAUTHORIZED, "invalid token"))
            } else {
                Ok(AuthUser { id: c.id, email: c.email })
            }
        },
    }
}

} // verus!
