//! Bearer-token authentication of admin requests: issuing HS512 JSON Web
//! Tokens that expire a day after issue, and checking the `Authorization`
//! header of a request.
use vstd::prelude::*;
use vstd::string::StringExecFns;
use crate::chars::{has_prefix, str_chars, starts_with, strip_prefix_repeats, strip_prefixes};

verus! {

/// How long an issued token stays valid, in seconds.
pub const SECS_PER_DAY: i64 = 86400;

/// The scheme prefix of a bearer `Authorization` header.
pub const BEARER: &'static str = "Bearer ";

/// The claims of an admin token: only its expiry, in seconds since the epoch.
#[derive(Debug, Clone, Copy, PartialEq, Eq, Structural)]
pub struct Claims {
    pub exp: usize,
}

/// Why an authentication step refuses a request or fails.
#[derive(Debug, Clone, Copy, PartialEq, Eq, Structural)]
pub enum AuthError {
    /// The `Authorization` header does not start with `Bearer `.
    BearerPrefixMissing,
    /// The token's signature, algorithm, shape or expiry is not accepted.
    InvalidToken,
    /// The `Authorization` header is not visible ASCII text.
    BrokenToken,
    /// Signing a new token failed.
    TokenCreationFailed,
    /// The clock is so late that a day cannot be added to it.
    ClockOutOfRange,
    /// HTTP Basic credentials that do not carry the admin password.
    BasicCredentialsRejected,
}

/// The message that goes with an authentication error.
pub open spec fn auth_error_message(e: AuthError) -> Seq<char> {
    match e {
        AuthError::BearerPrefixMissing => "JWT token is not using Bearer prefix."@,
        AuthError::InvalidToken => "Invalid JWT token."@,
        AuthError::BrokenToken => "JWT token is broken."@,
        AuthError::TokenCreationFailed => "Failed to create JWT token."@,
        AuthError::ClockOutOfRange => "valid timestamp"@,
        AuthError::BasicCredentialsRejected => "Unauthorized"@,
    }
}

/// The HTTP status that goes with an authentication error.
pub open spec fn auth_error_status(e: AuthError) -> u16 {
    match e {
        AuthError::BearerPrefixMissing => 400,
        AuthError::ClockOutOfRange => 500,
        _ => 401,
    }
}

impl AuthError {
    /// The error's message.
    pub fn message(&self) -> (m: String)
        ensures
            m@ == auth_error_message(*self),
    {
        match self {
            AuthError::BearerPrefixMissing => String::from_str("JWT token is not using Bearer prefix."),
            AuthError::InvalidToken => String::from_str("Invalid JWT token."),
            AuthError::BrokenToken => String::from_str("JWT token is broken."),
            AuthError::TokenCreationFailed => String::from_str("Failed to create JWT token."),
            AuthError::ClockOutOfRange => String::from_str("valid timestamp"),
            AuthError::BasicCredentialsRejected => String::from_str("Unauthorized"),
        }
    }

    /// The HTTP status code of the error's response.
    pub fn status_code(&self) -> (s: u16)
        ensures
            s == auth_error_status(*self),
    {
        match self {
            AuthError::BearerPrefixMissing => 400,
            AuthError::ClockOutOfRange => 500,
            _ => 401,
        }
    }
}

/// A character that can stand in a compact JSON Web Token: the base64url
/// alphabet and the `.` that separates the parts.
pub open spec fn is_jwt_char(c: char) -> bool {
    let n = c as u32;
    ||| 65 <= n <= 90
    ||| 97 <= n <= 122
    ||| 48 <= n <= 57
    ||| n == 45
    ||| n == 95
    ||| n == 46
}

/// Every character of `t` can stand in a compact JSON Web Token.
pub open spec fn is_jwt_text(t: Seq<char>) -> bool {
    forall|k: int| 0 <= k < t.len() ==> is_jwt_char(#[trigger] t[k])
}

/// The HS512 token that `jsonwebtoken::encode` makes for the claims
/// `{"exp": exp}` under the header `Header::new(Algorithm::HS512)` with the
/// bytes of `secret` as HMAC key.
pub uninterp spec fn hs512_jwt(exp: usize, secret: Seq<char>) -> Seq<char>;

#[verifier::external_type_specification]
#[verifier::external_body]
pub struct ExJwtError(jsonwebtoken::errors::Error);

/// Signs the claims `{"exp": exp}` with `jsonwebtoken::encode`, under
/// `jsonwebtoken::Header::new(Algorithm::HS512)` and
/// `jsonwebtoken::EncodingKey::from_secret` of the secret's bytes.
/// Claimed: it succeeds, since the HMAC key family matches HS512, a header
/// and a map from a string to an integer always serialise to JSON, and HMAC
/// signing always yields a tag; its token is the named result `hs512_jwt` of
/// the two arguments (HMAC signing is deterministic), and consists of
/// base64url characters and dots, as `encode` joins base64url parts with `.`.
#[verifier::external_body]
fn jwt_encode_hs512(exp: usize, secret: &str) -> (res: Result<String, jsonwebtoken::errors::Error>)
    ensures
        res is Ok,
        res matches Ok(t) ==> t@ == hs512_jwt(exp, secret@) && is_jwt_text(t@),
{
    let claims = std::collections::BTreeMap::from([("exp", exp)]);
    jsonwebtoken::encode(
        &jsonwebtoken::Header::new(jsonwebtoken::Algorithm::HS512),
        &claims,
        &jsonwebtoken::EncodingKey::from_secret(secret.as_bytes()),
    )
}

/// What `jsonwebtoken::decode` gives for `token` under
/// `Validation::new(Algorithm::HS512)` with the expiry check switched off and
/// the bytes of `secret` as HMAC key: `None` when it refuses the token, else
/// the `exp` claim when it is a non-negative integer.
pub uninterp spec fn hs512_decoded_exp(token: Seq<char>, secret: Seq<char>) -> Option<Option<u64>>;

/// Checks `token` with `jsonwebtoken::decode` (claims read as a JSON map)
/// under `jsonwebtoken::Validation::new(Algorithm::HS512)` with
/// `validate_exp` off, and `jsonwebtoken::DecodingKey::from_secret` of the
/// secret's bytes; gives the `exp` claim through `serde_json::Value::as_u64`.
/// Claimed: the outcome is the named result `hs512_decoded_exp` of the two
/// arguments (with the expiry check off, decoding reads no clock); and a
/// token that `jwt_encode_hs512` signed with the same secret decodes to its
/// `exp`: `decode` re-signs header and claims with the key and compares,
/// finds `alg` HS512 among the allowed algorithms and the required `exp`
/// claim present, and has no audience, issuer or subject to check.
#[verifier::external_body]
fn jwt_decode_hs512(token: &str, secret: &str) -> (res: Option<Option<u64>>)
    ensures
        res == hs512_decoded_exp(token@, secret@),
        forall|e: usize| token@ == #[trigger] hs512_jwt(e, secret@) ==> res == Some(Some(e as u64)),
{
    let mut validation = jsonwebtoken::Validation::new(jsonwebtoken::Algorithm::HS512);
    validation.validate_exp = false;
    let data = jsonwebtoken::decode::<std::collections::HashMap<String, serde_json::Value>>(
        token,
        &jsonwebtoken::DecodingKey::from_secret(secret.as_bytes()),
        &validation,
    ).ok()?;
    Some(data.claims.get("exp").and_then(|v| v.as_u64()))
}

/// Seconds since the Unix epoch, from `jsonwebtoken::get_current_timestamp`,
/// the clock that the crate's own expiry check reads. Nothing is claimed: it
/// is the clock's. It panics when the system clock reads before 1970, which
/// no `requires` can exclude.
#[verifier::external_body]
fn jwt_clock() -> u64 {
    jsonwebtoken::get_current_timestamp()
}

/// Seconds past its `exp` that a token is still accepted (clock skew).
pub const EXP_LEEWAY_SECS: u64 = 60;

/// A token whose `exp` is `exp` has expired at `now`: `exp` lies more than
/// the leeway before `now`.
pub open spec fn token_expired(exp: u64, now: u64) -> bool {
    now >= EXP_LEEWAY_SECS && exp < now - EXP_LEEWAY_SECS
}

/// What checking a bearer `Authorization` header with `secret` at time
/// `now` gives.
pub open spec fn verify_spec(header: Seq<char>, secret: Seq<char>, now: u64) -> Result<
    Claims,
    AuthError,
> {
    if !has_prefix(header, BEARER@) {
        Err(AuthError::BearerPrefixMissing)
    } else {
        match hs512_decoded_exp(strip_prefixes(header, BEARER@), secret) {
            Some(Some(e)) => if e <= usize::MAX && !token_expired(e, now) {
                Ok(Claims { exp: e as usize })
            } else {
                Err(AuthError::InvalidToken)
            },
            _ => Err(AuthError::InvalidToken),
        }
    }
}

/// The latest second since the epoch that a `chrono::DateTime<Utc>` can
/// hold, rounded up: `DateTime::<Utc>::MAX_UTC` lies in the year 262142.
pub const CHRONO_MAX_SECS: i64 = 8_300_000_000_000;

/// Seconds since the Unix epoch, from `chrono::Utc::now` and
/// `chrono::DateTime::timestamp`. Claimed only the range that any returned
/// reading lies in: `Utc::now` takes the system time since the epoch
/// (`duration_since(UNIX_EPOCH).expect(..)`, so not before 1970) and builds
/// the `DateTime` with `from_timestamp(..).unwrap()`, so within chrono's
/// range. Which second it reads is the clock's. It panics when the system
/// clock reads before 1970, which no `requires` can exclude.
#[verifier::external_body]
fn now_unix_seconds() -> (res: i64)
    ensures
        0 <= res <= CHRONO_MAX_SECS,
{
    chrono::Utc::now().timestamp()
}

/// The expiry of a token issued at `now`: a day later, as `usize`.
pub open spec fn expiration_after_day(now: i64) -> usize {
    (now + SECS_PER_DAY) as i64 as usize
}

/// `r` is what issuing a token at clock reading `now` with `secret` gives:
/// `ClockOutOfRange` when a day cannot be added to `now`, else the token
/// for the claims that expire a day after `now`.
pub open spec fn issued_at(r: Result<String, AuthError>, now: i64, secret: Seq<char>) -> bool {
    if now > i64::MAX - SECS_PER_DAY {
        r == Err::<String, AuthError>(AuthError::ClockOutOfRange)
    } else {
        r is Ok && r->Ok_0@ == hs512_jwt(expiration_after_day(now), secret) && is_jwt_text(
            r->Ok_0@,
        )
    }
}

/// Issues the token of an admin session that starts at `now`: claims that
/// expire a day later, signed with `secret`; `ClockOutOfRange` when `now`
/// is so late that a day cannot be added to it.
pub fn token_for_time(now: i64, secret: &str) -> (r: Result<String, AuthError>)
    ensures
        issued_at(r, now, secret@),
{
    if now > i64::MAX - SECS_PER_DAY {
        return Err(AuthError::ClockOutOfRange);
    }
    let expiration = now + SECS_PER_DAY;
    let exp = expiration as usize;
    match jwt_encode_hs512(exp, secret) {
        Ok(t) => Ok(t),
        Err(_) => Err(AuthError::TokenCreationFailed),
    }
}

/// Issues an admin token that expires a day from now, by the clock of
/// `chrono`: as `token_for_time` at the clock's reading, which always
/// leaves room for a day, so a token always comes back.
pub fn create_jwt(secret: &str) -> (r: Result<String, AuthError>)
    ensures
        r is Ok,
        exists|now: i64| 0 <= now <= CHRONO_MAX_SECS && #[trigger] issued_at(r, now, secret@),
{
    token_for_time(now_unix_seconds(), secret)
}

/// The token of a bearer `Authorization` header: `None` when the header does
/// not start with `Bearer `, else the header with every leading `Bearer `
/// removed.
pub fn bearer_token(header: &str) -> (r: Option<&str>)
    ensures
        !has_prefix(header@, BEARER@) ==> r is None,
        has_prefix(header@, BEARER@) ==> (r matches Some(t) && t@ == strip_prefixes(
            header@,
            BEARER@,
        )),
{
    let hs = str_chars(header);
    let ps = str_chars(BEARER);
    if !starts_with(&hs, &ps) {
        return None;
    }
    Some(strip_prefix_repeats(header, BEARER))
}

/// The claims of a token whose signature and expiry were accepted, from its
/// `exp` claim: `InvalidToken` when there is none or it exceeds `usize`.
pub fn claims_from_exp(exp: Option<u64>) -> (r: Result<Claims, AuthError>)
    ensures
        (exp is Some && exp->0 <= usize::MAX) ==> r == Ok::<Claims, AuthError>(
            Claims { exp: exp->0 as usize },
        ),
        !(exp is Some && exp->0 <= usize::MAX) ==> r == Err::<Claims, AuthError>(
            AuthError::InvalidToken,
        ),
{
    match exp {
        Some(e) => {
            if e <= usize::MAX as u64 {
                Ok(Claims { exp: e as usize })
            } else {
                Err(AuthError::InvalidToken)
            }
        },
        None => Err(AuthError::InvalidToken),
    }
}

/// The claims of a decoding outcome checked at time `now`: `InvalidToken`
/// when the decoder refused the token, when its `exp` is missing or exceeds
/// `usize`, or when it has expired.
pub fn claims_from_decoded(decoded: Option<Option<u64>>, now: u64) -> (r: Result<Claims, AuthError>)
    ensures
        (decoded matches Some(Some(e)) && e <= usize::MAX && !token_expired(e, now)) ==> r
            == Ok::<Claims, AuthError>(Claims { exp: decoded->0->0 as usize }),
        !(decoded matches Some(Some(e)) && e <= usize::MAX && !token_expired(e, now)) ==> r
            == Err::<Claims, AuthError>(AuthError::InvalidToken),
{
    match decoded {
        Some(exp) => match claims_from_exp(exp) {
            Ok(c) => {
                let e = exp.unwrap();
                if now >= EXP_LEEWAY_SECS && e < now - EXP_LEEWAY_SECS {
                    Err(AuthError::InvalidToken)
                } else {
                    Ok(c)
                }
            },
            Err(err) => Err(err),
        },
        None => Err(AuthError::InvalidToken),
    }
}

/// Checks a bearer `Authorization` header at time `now`:
/// `BearerPrefixMissing` when it does not start with `Bearer `; else the
/// token behind the prefixes must carry a valid HS512 signature under
/// `secret` and an `exp` that has not passed, and its claims come back,
/// or `InvalidToken`. A header that carries a token signed for `exp` with
/// `secret` is accepted until `exp` plus the leeway, and refused after.
pub fn verify_token_at(token: &str, secret: &str, now: u64) -> (r: Result<Claims, AuthError>)
    ensures
        r == verify_spec(token@, secret@, now),
        forall|e: usize|
            is_jwt_text(#[trigger] hs512_jwt(e, secret@)) && token@ == BEARER@ + hs512_jwt(
                e,
                secret@,
            ) && !token_expired(e as u64, now) ==> r == Ok::<Claims, AuthError>(Claims { exp: e }),
        forall|e: usize|
            is_jwt_text(#[trigger] hs512_jwt(e, secret@)) && token@ == BEARER@ + hs512_jwt(
                e,
                secret@,
            ) && token_expired(e as u64, now) ==> r == Err::<Claims, AuthError>(
                AuthError::InvalidToken,
            ),
{
    let r = match bearer_token(token) {
        None => Err(AuthError::BearerPrefixMissing),
        Some(jwt) => claims_from_decoded(jwt_decode_hs512(jwt, secret), now),
    };
    proof {
        assert forall|e: usize|
            is_jwt_text(#[trigger] hs512_jwt(e, secret@)) && token@ == BEARER@ + hs512_jwt(
                e,
                secret@,
            ) && !token_expired(e as u64, now) implies r == Ok::<Claims, AuthError>(
            Claims { exp: e },
        ) by {
            lemma_bearer_header_yields_token(hs512_jwt(e, secret@));
        }
        assert forall|e: usize|
            is_jwt_text(#[trigger] hs512_jwt(e, secret@)) && token@ == BEARER@ + hs512_jwt(
                e,
                secret@,
            ) && token_expired(e as u64, now) implies r == Err::<Claims, AuthError>(
            AuthError::InvalidToken,
        ) by {
            lemma_bearer_header_yields_token(hs512_jwt(e, secret@));
        }
    }
    r
}

/// Checks a bearer `Authorization` header now, by the clock of
/// `jsonwebtoken`: as `verify_token_at` at some time.
pub fn verify_token(token: &str, secret: &str) -> (r: Result<Claims, AuthError>)
    ensures
        exists|now: u64| r == #[trigger] verify_spec(token@, secret@, now),
        !has_prefix(token@, BEARER@) ==> r == Err::<Claims, AuthError>(
            AuthError::BearerPrefixMissing,
        ),
{
    let now = jwt_clock();
    verify_token_at(token, secret, now)
}

/// What the admin-scope guard does with a request before any secret is
/// needed.
#[derive(Debug, Clone, Copy, PartialEq, Eq, Structural)]
pub enum BearerStep {
    /// Let the request through.
    Pass,
    /// Refuse the request with this error.
    Refuse(AuthError),
    /// Check the bearer token of the `Authorization` header.
    CheckToken,
}

/// The first step of the admin-scope guard: `OPTIONS` requests pass; a
/// header that is not visible ASCII text (`None`) is `BrokenToken`; one
/// without the `Bearer ` prefix is `BearerPrefixMissing`; else its token is
/// to be checked.
pub fn bearer_step(method: &str, authorization: Option<&str>) -> (r: BearerStep)
    ensures
        method@ == "OPTIONS"@ ==> r == BearerStep::Pass,
        method@ != "OPTIONS"@ && authorization is None ==> r == BearerStep::Refuse(
            AuthError::BrokenToken,
        ),
        method@ != "OPTIONS"@ && authorization is Some && !has_prefix(authorization->0@, BEARER@)
            ==> r == BearerStep::Refuse(AuthError::BearerPrefixMissing),
        method@ != "OPTIONS"@ && authorization is Some && has_prefix(authorization->0@, BEARER@)
            ==> r == BearerStep::CheckToken,
{
    if method.to_owned() == "OPTIONS".to_owned() {
        return BearerStep::Pass;
    }
    match authorization {
        Some(t) => match bearer_token(t) {
            Some(_) => BearerStep::CheckToken,
            None => BearerStep::Refuse(AuthError::BearerPrefixMissing),
        },
        None => BearerStep::Refuse(AuthError::BrokenToken),
    }
}

/// Guards the admin scope: `OPTIONS` requests pass; otherwise the
/// `Authorization` header (`None` when it is not visible ASCII text) must
/// carry a valid bearer token, checked now.
pub fn basic_auth_validator(method: &str, authorization: Option<&str>, secret: &str) -> (r: Result<
    (),
    AuthError,
>)
    ensures
        method@ == "OPTIONS"@ ==> r is Ok,
        method@ != "OPTIONS"@ && authorization is None ==> r == Err::<(), AuthError>(
            AuthError::BrokenToken,
        ),
        method@ != "OPTIONS"@ && authorization is Some ==> exists|now: u64|
            match #[trigger] verify_spec(authorization->0@, secret@, now) {
                Ok(_) => r is Ok,
                Err(e) => r == Err::<(), AuthError>(e),
            },
{
    match bearer_step(method, authorization) {
        BearerStep::Pass => Ok(()),
        BearerStep::Refuse(e) => {
            proof {
                if authorization is Some {
                    assert(verify_spec(authorization->0@, secret@, 0) == Err::<Claims, AuthError>(
                        e,
                    ));
                }
            }
            Err(e)
        },
        BearerStep::CheckToken => match authorization {
            Some(t) => match verify_token(t, secret) {
                Ok(_) => Ok(()),
                Err(e) => Err(e),
            },
            None => Err(AuthError::BrokenToken),
        },
    }
}

/// A token that `create_jwt` issues, sent as `Bearer {token}`, passes the
/// prefix check, and exactly the token reaches the decoder.
pub proof fn lemma_bearer_header_yields_token(t: Seq<char>)
    requires
        is_jwt_text(t),
    ensures
        has_prefix(BEARER@ + t, BEARER@),
        strip_prefixes(BEARER@ + t, BEARER@) == t,
{
    reveal_strlit("Bearer ");
    let p = BEARER@;
    let u = p + t;
    assert(p.len() == 7);
    assert(u.take(7) =~= p);
    assert(u.skip(7) =~= t);
    if t.len() >= 7 {
        assert(p[6] == ' ');
        if t.take(7) == p {
            assert(t.take(7)[6] == t[6]);
            assert(is_jwt_char(t[6]));
        }
    }
    assert(!has_prefix(t, p));
    assert(strip_prefixes(t, p) == t);
    assert(has_prefix(u, p));
    assert(u.skip(p.len() as int) == t);
    assert(strip_prefixes(u, p) == strip_prefixes(u.skip(p.len() as int), p));
}

} // verus!
