//! Access tokens: the claims that a token carries, HS256 signing and checking
//! with `jsonwebtoken`, and the bearer credentials of a request.
use vstd::prelude::*;
use crate::ids::push_char;
use crate::outcome::{ApiError, UNAUTHORIZED};
use crate::payload::{claims_text, claims_text_is_trimmed, is_claims_text, json_trim, render_claims};

verus! {

/// The latest Unix time (in seconds) that `chrono` can represent (end of year 262142).
pub const MAX_UNIX_SECONDS: i64 = 8_210_266_876_799;

/// The earliest Unix time (in seconds) that `chrono` can represent (start of year -262143).
pub const MIN_UNIX_SECONDS: i64 = -8_334_601_228_800;

/// How long an access token is valid: 24 hours.
pub const TOKEN_LIFETIME_SECONDS: i64 = 86_400;

/// What an access token asserts: who the bearer is, when the token was issued
/// and when it expires (Unix seconds).
pub struct Claims {
    pub exp: usize,
    pub iat: usize,
    pub email: String,
    pub id: u128,
}

/// Whether `c` holds the issue and expiry times of a token issued at `now`.
pub open spec fn issued_at(c: Claims, now: i64) -> bool {
    &&& c.iat == now as usize
    &&& c.exp == (now + TOKEN_LIFETIME_SECONDS) as usize
}

/// The current Unix time in seconds (`chrono::Utc::now().timestamp()`). It
/// depends on the clock; what is stated is what holds of every time it returns:
/// `Utc::now` returns only for a clock at or after the Unix epoch (it panics
/// before), within the range of times that `chrono` represents.
#[verifier::external_body]
pub fn unix_now() -> (t: i64)
    ensures
        0 <= t <= MAX_UNIX_SECONDS,
{
    chrono::Utc::now().timestamp()
}

impl Claims {
    /// The claims of a token issued at `now` for the given account: issued at
    /// `now` and expiring 24 hours later. (Past the end of `chrono`'s range the
    /// expiry cannot be computed; such a `now` is left out.)
    pub fn issue(email: String, id: u128, now: i64) -> (c: Claims)
        requires
            MIN_UNIX_SECONDS <= now,
            now + TOKEN_LIFETIME_SECONDS <= MAX_UNIX_SECONDS,
        ensures
            c.email == email,
            c.id == id,
            issued_at(c, now),
    {
        let exp = now + TOKEN_LIFETIME_SECONDS;
        Claims { exp: exp as usize, iat: now as usize, email, id }
    }
}

/// Whether a token can be issued at `now`: its expiry, 24 hours later, lies
/// within `chrono`'s range.
pub open spec fn can_issue_at(now: i64) -> bool {
    MIN_UNIX_SECONDS <= now && now + TOKEN_LIFETIME_SECONDS <= MAX_UNIX_SECONDS
}

/// The claims of a token issued at `now` for the given account, when its expiry
/// can be computed.
pub fn claims_at(email: String, id: u128, now: i64) -> (res: Option<Claims>)
    ensures
        res is Some <==> can_issue_at(now),
        res matches Some(c) ==> c.email == email && c.id == id && issued_at(c, now),
{
    if MIN_UNIX_SECONDS <= now && now <= MAX_UNIX_SECONDS - TOKEN_LIFETIME_SECONDS {
        Some(Claims::issue(email, id, now))
    } else {
        None
    }
}

/// The claims of a token issued now for the given account: `claims_at` with the
/// clock's reading, so `None` only when the clock reads a time within the last
/// day of `chrono`'s range, where no expiry can be computed.
pub fn issue_claims(email: String, id: u128) -> (res: Option<Claims>)
    ensures
        exists|now: i64|
            0 <= now <= MAX_UNIX_SECONDS && (res is Some <==> can_issue_at(now)) && (res matches Some(
                c,
            ) ==> c.email == email && c.id == id && issued_at(c, now)),
{
    let now = unix_now();
    claims_at(email, id, now)
}

/// A token issued at a time from 1970 on expires exactly 24 hours after it was
/// issued.
pub proof fn token_lasts_one_day(c: Claims, now: i64)
    requires
        issued_at(c, now),
        0 <= now,
        now + TOKEN_LIFETIME_SECONDS <= usize::MAX,
    ensures
        c.exp == c.iat + TOKEN_LIFETIME_SECONDS,
{
}

/// How far past its expiry a token is still accepted: 60 seconds, the leeway
/// of `jsonwebtoken::Validation::default()`.
pub const EXPIRY_LEEWAY_SECONDS: i64 = 60;

/// Whether claims have expired at `now`: their expiry lies more than the
/// leeway before `now` (`exp < now - leeway`, as `jsonwebtoken` validates it).
pub open spec fn claims_expired(c: Claims, now: i64) -> bool {
    c.exp < now - EXPIRY_LEEWAY_SECONDS
}

/// Whether claims have expired at `now`.
pub fn is_expired(c: &Claims, now: i64) -> (b: bool)
    ensures
        b == claims_expired(*c, now),
{
    if now < EXPIRY_LEEWAY_SECONDS {
        false
    } else {
        let limit = (now - EXPIRY_LEEWAY_SECONDS) as u64;
        (c.exp as u64) < limit
    }
}

/// A token issued at a time from 1970 on is accepted up to 24 hours and the
/// leeway after its issue, and refused from then on.
pub proof fn token_accepted_within_lifetime(c: Claims, issued: i64, now: i64)
    requires
        issued_at(c, issued),
        0 <= issued,
        issued + TOKEN_LIFETIME_SECONDS <= usize::MAX,
    ensures
        claims_expired(c, now) <==> now > issued + TOKEN_LIFETIME_SECONDS + EXPIRY_LEEWAY_SECONDS,
{
}

/// The token that `jsonwebtoken::encode` produces with the default header
/// (HS256, type JWT) for the claims whose JSON text is given, signed with the
/// UTF-8 bytes of `secret`.
pub uninterp spec fn hs256_jwt(claims_json: Seq<char>, secret: Seq<char>) -> Seq<char>;

/// Whether `serde_json::value::RawValue::from_string` accepts `text`: a single
/// JSON value, possibly with whitespace around it.
pub uninterp spec fn raw_json_accepts(text: Seq<char>) -> bool;

/// The payload text of `token` when its HS256 signature checks under `secret`:
/// the token has three dot-separated parts, its header names HS256 and its
/// signature is the HMAC-SHA256, under the UTF-8 bytes of `secret`, of its first
/// two parts; the payload is its second part decoded from base64url, as UTF-8
/// text. `None` when any of these fails. (This is the part of
/// `jsonwebtoken::decode` that depends on the token and the secret alone.)
pub uninterp spec fn jwt_verified_payload(token: Seq<char>, secret: Seq<char>) -> Option<Seq<char>>;

/// Whether `c` may stand in a token: base64url letters and digits, `-`, `_`
/// and the dots between the parts.
pub open spec fn is_token_char(c: char) -> bool {
    ('A' <= c && c <= 'Z') || ('a' <= c && c <= 'z') || ('0' <= c && c <= '9') || c == '-' || c
        == '_' || c == '.'
}

/// Whether every character of `t` may stand in a token.
pub open spec fn is_token_text(t: Seq<char>) -> bool {
    forall|i: int| 0 <= i < t.len() ==> is_token_char(#[trigger] t[i])
}

/// Signs claims, given as their JSON text, into an HS256 token
/// (`jsonwebtoken::encode` with `Header::default()` and
/// `EncodingKey::from_secret`; the JSON text is first read by
/// `serde_json::value::RawValue::from_string`, which drops whitespace around
/// it). It fails exactly when that read fails (the HMAC key matches the HS256
/// header, and HMAC signing does not fail); the error is the failure's message.
/// The token is the named result; its parts are base64url text joined by dots,
/// and its signature checks under the same secret with the read text as payload.
#[verifier::external_body]
pub fn encode_jwt(claims_json: &str, secret: &str) -> (res: Result<String, String>)
    ensures
        res is Ok <==> raw_json_accepts(claims_json@),
        is_claims_text(claims_json@) ==> res is Ok,
        res matches Ok(t) ==> t@ == hs256_jwt(claims_json@, secret@) && is_token_text(t@)
            && jwt_verified_payload(t@, secret@) == Some(json_trim(claims_json@)),
{
    let claims = match serde_json::value::RawValue::from_string(claims_json.to_string()) {
        Ok(raw) => raw,
        Err(e) => return Err(e.to_string()),
    };
    let key = jsonwebtoken::EncodingKey::from_secret(secret.as_bytes());
    match jsonwebtoken::encode(&jsonwebtoken::Header::default(), &claims, &key) {
        Ok(t) => Ok(t),
        Err(e) => Err(e.to_string()),
    }
}

/// Whether the signature of `token` checks under `secret` and carries claims as
/// `claims_text` writes them.
pub open spec fn carries_claims_text(token: Seq<char>, secret: Seq<char>) -> bool {
    jwt_verified_payload(token, secret) matches Some(p) && is_claims_text(p)
}

/// Checks an HS256 token with `jsonwebtoken::decode` and returns its claims as
/// JSON text (the payload without whitespace around it), or the failure's
/// message. The validation is `Validation::default()` without the expiry check
/// (and so without requiring an `exp` claim): the signature under `secret`, the
/// algorithm, the payload's JSON and an `aud` claim (refused, as none is
/// expected). What it decides depends on the token and the secret alone; the
/// expiry is checked against the clock by `authenticated_user`. A token comes
/// back only when its signature checks under `secret`, with the payload that
/// names; one whose signed payload is claims as `claims_text` writes them (a
/// JSON object without `aud`) always comes back.
#[verifier::external_body]
pub fn decode_jwt(token: &str, secret: &str) -> (res: Result<String, String>)
    ensures
        res matches Ok(j) ==> (jwt_verified_payload(token@, secret@) matches Some(p) && j@
            == json_trim(p)),
        carries_claims_text(token@, secret@) ==> res is Ok,
{
    let key = jsonwebtoken::DecodingKey::from_secret(secret.as_bytes());
    let mut validation = jsonwebtoken::Validation::default();
    validation.validate_exp = false;
    validation.required_spec_claims.clear();
    match jsonwebtoken::decode::<Box<serde_json::value::RawValue>>(token, &key, &validation) {
        Ok(data) => Ok(data.claims.get().to_string()),
        Err(e) => Err(e.to_string()),
    }
}

/// The claims text of a token issued at `now` for the account with the given
/// e-mail and id.
pub open spec fn token_claims(email: Seq<char>, id: u128, now: i64) -> Seq<char> {
    claims_text((now + TOKEN_LIFETIME_SECONDS) as usize, now as usize, email, id)
}

/// Signs an access token for the account with the given e-mail and id, issued
/// at `now` and expiring 24 hours later, under `secret`. Its payload is
/// `token_claims`; signing always succeeds, and the token's signature checks
/// under `secret` with that payload.
pub fn access_token(email: &String, id: u128, now: i64, secret: &str) -> (res: Result<String, String>)
    requires
        can_issue_at(now),
    ensures
        res is Ok,
        res matches Ok(t) ==> t@ == hs256_jwt(token_claims(email@, id, now), secret@)
            && is_token_text(t@) && jwt_verified_payload(t@, secret@) == Some(
            token_claims(email@, id, now),
        ),
{
    let claims = Claims::issue(email.clone(), id, now);
    let text = render_claims(claims.exp, claims.iat, &claims.email, claims.id);
    proof {
        claims_text_is_trimmed(claims.exp, claims.iat, email@, id);
        assert(is_claims_text(text@));
    }
    encode_jwt(text.as_str(), secret)
}

/// Whether a header byte is visible ASCII (or a tab), as `http` requires of a
/// header value read as text.
pub open spec fn is_visible_ascii(b: u8) -> bool {
    (32 <= b && b < 127) || b == 9
}

/// A header value read as text (`HeaderValue::to_str`): each byte as its
/// character when all are visible ASCII, and nothing otherwise.
pub open spec fn header_text(bytes: Seq<u8>) -> Option<Seq<char>> {
    if forall|i: int| 0 <= i < bytes.len() ==> is_visible_ascii(#[trigger] bytes[i]) {
        Some(Seq::new(bytes.len(), |i: int| bytes[i] as char))
    } else {
        None
    }
}

/// The scheme that precedes the credentials of an `Authorization` header.
pub open spec fn bearer_prefix() -> Seq<char> {
    seq!['B', 'e', 'a', 'r', 'e', 'r', ' ']
}

/// The bearer credentials that an `Authorization` header carries: its text
/// after the `Bearer ` prefix, when it is present, readable and so prefixed.
pub open spec fn bearer_credentials(header: Option<Seq<u8>>) -> Option<Seq<char>> {
    match header {
        None => None,
        Some(bytes) => match header_text(bytes) {
            None => None,
            Some(text) => if bearer_prefix().is_prefix_of(text) {
                Some(text.skip(7))
            } else {
                None
            },
        },
    }
}

/// The bytes of the `Bearer ` prefix.
pub open spec fn bearer_prefix_bytes() -> Seq<u8> {
    seq![66u8, 101u8, 97u8, 114u8, 101u8, 114u8, 32u8]
}

fn byte_char(b: u8) -> (c: char)
    ensures
        c == b as char,
{
    b as char
}

/// Reads the bearer credentials of an `Authorization` header (its raw bytes, if
/// the header is there); without them the request is refused with
/// `401 missing authorization header`.
pub fn bearer_token(header: Option<&[u8]>) -> (res: Result<String, ApiError>)
    ensures
        match bearer_credentials(slice_view(header)) {
            Some(t) => res matches Ok(s) && s@ == t,
            None => res matches Err(e) && e@ == (UNAUTHORIZED, "missing authorization header"@),
        },
{
    let bytes = match header {
        None => return Err(ApiError::new(UNAUTHORIZED, "missing authorization header")),
        Some(b) => b,
    };
    let n = bytes.len();
    let mut i: usize = 0;
    while i < n
        invariant
            n == bytes@.len(),
            slice_view(header) == Some(bytes@),
            i <= n,
            forall|j: int| 0 <= j < i ==> is_visible_ascii(#[trigger] bytes@[j]),
        decreases n - i,
    {
        let b = bytes[i];
        if !((32 <= b && b < 127) || b == 9) {
            assert(!is_visible_ascii(bytes@[i as int]));
            return Err(ApiError::new(UNAUTHORIZED, "missing authorization header"));
        }
        i = i + 1;
    }
    let ghost text = Seq::new(bytes@.len(), |i: int| bytes@[i] as char);
    assert(header_text(bytes@) == Some(text));
    let prefix: [u8; 7] = [66u8, 101u8, 97u8, 114u8, 101u8, 114u8, 32u8];
    if n < 7 {
        assert(!bearer_prefix().is_prefix_of(text));
        return Err(ApiError::new(UNAUTHORIZED, "missing authorization header"));
    }
    let mut k: usize = 0;
    while k < 7
        invariant
            n == bytes@.len(),
            slice_view(header) == Some(bytes@),
            7 <= n,
            k <= 7,
            prefix@ == bearer_prefix_bytes(),
            text == Seq::new(bytes@.len(), |i: int| bytes@[i] as char),
            forall|j: int| 0 <= j < k ==> text[j] == bearer_prefix()[j],
        decreases 7 - k,
    {
        if bytes[k] != prefix[k] {
            assert(text.subrange(0, 7)[k as int] != bearer_prefix()[k as int]);
            return Err(ApiError::new(UNAUTHORIZED, "missing authorization header"));
        }
        k = k + 1;
    }
    assert(bearer_prefix().is_prefix_of(text));
    let mut s = String::new();
    let mut m: usize = 7;
    while m < n
        invariant
            n == bytes@.len(),
            slice_view(header) == Some(bytes@),
            7 <= m <= n,
            text == Seq::new(bytes@.len(), |i: int| bytes@[i] as char),
            s@ == text.subrange(7, m as int),
        decreases n - m,
    {
        push_char(&mut s, byte_char(bytes[m]));
        assert(text.subrange(7, m + 1) == text.subrange(7, m as int).push(text[m as int]));
        m = m + 1;
    }
    assert(s@ == text.skip(7));
    Ok(s)
}

/// The view of an optional byte slice.
pub open spec fn slice_view(header: Option<&[u8]>) -> Option<Seq<u8>> {
    match header {
        Some(b) => Some(b@),
        None => None,
    }
}

/// A readable header made of `Bearer ` and a token gives that token back.
pub proof fn bearer_round_trip(token: Seq<u8>)
    requires
        forall|i: int| 0 <= i < token.len() ==> is_visible_ascii(#[trigger] token[i]),
    ensures
        bearer_credentials(Some(bearer_prefix_bytes() + token)) == Some(
            Seq::new(token.len(), |i: int| token[i] as char),
        ),
{
    let bytes = bearer_prefix_bytes() + token;
    assert forall|i: int| 0 <= i < bytes.len() implies is_visible_ascii(#[trigger] bytes[i]) by {
        if i >= 7 {
            assert(bytes[i] == token[i - 7]);
        }
    }
    let text = Seq::new(bytes.len(), |i: int| bytes[i] as char);
    assert(bearer_prefix().is_prefix_of(text));
    assert(text.skip(7) =~= Seq::new(token.len(), |i: int| token[i] as char));
}

/// The answer to the token checker's result: the claims text it accepted, or
/// `401 invalid token` whatever the reason of a refusal.
pub fn token_outcome(decoded: Result<String, String>) -> (res: Result<String, ApiError>)
    ensures
        match decoded {
            Ok(j) => res == Ok::<String, ApiError>(j),
            Err(_) => res matches Err(e) && e@ == (UNAUTHORIZED, "invalid token"@),
        },
{
    match decoded {
        Ok(claims) => Ok(claims),
        Err(_) => Err(ApiError::new(UNAUTHORIZED, "invalid token")),
    }
}

/// Authorizes a request by its `Authorization` header: the bearer credentials
/// must be there (else `401 missing authorization header`) and must be a token
/// that `decode_jwt` accepts under `secret` (else `401 invalid token`); the
/// token's claims are returned as JSON text. A token whose signature checks
/// under `secret` and carries claims as `claims_text` writes them is accepted
/// with exactly those claims.
pub fn authorize(header: Option<&[u8]>, secret: &str) -> (res: Result<String, ApiError>)
    ensures
        match bearer_credentials(slice_view(header)) {
            None => res matches Err(e) && e@ == (UNAUTHORIZED, "missing authorization header"@),
            Some(t) => {
                &&& res matches Ok(j) ==> (jwt_verified_payload(t, secret@) matches Some(p) && j@
                    == json_trim(p))
                &&& res matches Err(e) ==> e@ == (UNAUTHORIZED, "invalid token"@)
                &&& jwt_verified_payload(t, secret@) is None ==> (res matches Err(e) && e@ == (
                    UNAUTHORIZED,
                    "invalid token"@,
                ))
                &&& carries_claims_text(t, secret@) ==> (res matches Ok(j) && j@
                    == jwt_verified_payload(t, secret@)->0)
            },
        },
{
    let token = bearer_token(header)?;
    proof {
        if carries_claims_text(token@, secret@) {
            let p = jwt_verified_payload(token@, secret@)->0;
            let (exp, iat, email, id) = choose|exp: usize, iat: usize, email: Seq<char>, id: u128|
                #[trigger] claims_text(exp, iat, email, id) == p;
            claims_text_is_trimmed(exp, iat, email, id);
        }
    }
    token_outcome(decode_jwt(token.as_str(), secret))
}

/// The bytes of a text made of ASCII characters.
pub open spec fn ascii_bytes(t: Seq<char>) -> Seq<u8> {
    Seq::new(t.len(), |i: int| t[i] as u8)
}

/// A token signed for an account (as `access_token` signs it), sent as
/// `Bearer <token>`, is read back by `authorize` (and by `decode_jwt`) under
/// the same secret as exactly the claims naming that account: the header gives
/// the token back, and the payload that its signature carries is claims as
/// `claims_text` writes them, which the checker accepts as they are.
pub proof fn access_token_authorizes(
    token: Seq<char>,
    secret: Seq<char>,
    email: Seq<char>,
    id: u128,
    now: i64,
)
    requires
        is_token_text(token),
        jwt_verified_payload(token, secret) == Some(token_claims(email, id, now)),
    ensures
        bearer_credentials(Some(bearer_prefix_bytes() + ascii_bytes(token))) == Some(token),
        jwt_verified_payload(token, secret) matches Some(p) && json_trim(p) == token_claims(
            email,
            id,
            now,
        ) && is_claims_text(p) && p == token_claims(email, id, now),
{
    let bytes = ascii_bytes(token);
    assert forall|i: int| 0 <= i < bytes.len() implies is_visible_ascii(#[trigger] bytes[i]) by {
        assert(is_token_char(token[i]));
    }
    bearer_round_trip(bytes);
    assert(Seq::new(bytes.len(), |i: int| bytes[i] as char) =~= token) by {
        assert forall|i: int| 0 <= i < token.len() implies (bytes[i] as char) == token[i] by {
            assert(is_token_char(token[i]));
        }
    }
    claims_text_is_trimmed(
        (now + TOKEN_LIFETIME_SECONDS) as usize,
        now as usize,
        email,
        id,
    );
    assert(is_claims_text(token_claims(email, id, now)));
}

/// The whole round trip of an access token: signed at `issued` for an account
/// and sent as `Bearer <token>` at any time `now` up to 24 hours and the leeway
/// later, the header gives the token back, the checker accepts it under the
/// same secret with exactly the claims text of that account, that text is the
/// rendering of the claims issued at `issued` for that e-mail and id, and those
/// claims have not expired at `now`.
pub proof fn signed_token_authenticates_within_lifetime(
    token: Seq<char>,
    secret: Seq<char>,
    email: Seq<char>,
    id: u128,
    issued: i64,
    now: i64,
)
    requires
        is_token_text(token),
        jwt_verified_payload(token, secret) == Some(token_claims(email, id, issued)),
        0 <= issued,
        issued + TOKEN_LIFETIME_SECONDS <= usize::MAX,
        issued <= now <= issued + TOKEN_LIFETIME_SECONDS + EXPIRY_LEEWAY_SECONDS,
    ensures
        bearer_credentials(Some(bearer_prefix_bytes() + ascii_bytes(token))) == Some(token),
        carries_claims_text(token, secret),
        jwt_verified_payload(token, secret)->0 == token_claims(email, id, issued),
        forall|c: Claims|
            c.email@ == email && c.id == id && #[trigger] issued_at(c, issued) ==> claims_text(
                c.exp,
                c.iat,
                c.email@,
                c.id,
            ) == token_claims(email, id, issued) && !claims_expired(c, now),
{
    access_token_authorizes(token, secret, email, id, issued);
}

} // verus!
