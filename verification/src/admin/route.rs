//! The admin login exchange: a password comes in, a token or a refusal
//! goes out.
use vstd::prelude::*;
use vstd::string::StringExecFns;
use crate::middlewares::auth::{
    auth_error_message, create_jwt, expiration_after_day, hs512_jwt, issued_at, is_jwt_text, AuthError,
    CHRONO_MAX_SECS, SECS_PER_DAY,
};
use crate::utils::validate_credentials;

verus! {

/// The answer to a login request.
#[derive(Debug, PartialEq, Eq)]
pub enum LoginResponse {
    /// `200 OK` with the JSON body `{"jwt_token": ...}`.
    Token(String),
    /// `400 Bad Request` with this text as body.
    BadRequest(String),
}

/// The answer once the password was accepted and a token was asked for.
pub fn token_response(token: Result<String, AuthError>) -> (r: LoginResponse)
    ensures
        token matches Ok(t) ==> r == LoginResponse::Token(t),
        token matches Err(e) ==> (r matches LoginResponse::BadRequest(m) && m@
            == auth_error_message(e)),
{
    match token {
        Ok(t) => LoginResponse::Token(t),
        Err(e) => LoginResponse::BadRequest(e.message()),
    }
}

/// The first step of a login: `None` when the password is the admin
/// password `expected` and a token is to be issued, else the refusal.
pub fn login_step(password: &str, expected: &str) -> (r: Option<LoginResponse>)
    ensures
        password@ == expected@ ==> r is None,
        password@ != expected@ ==> (r matches Some(LoginResponse::BadRequest(m)) && m@
            == "Bad request."@),
{
    match validate_credentials(password, expected) {
        Ok(validation) => {
            if validation {
                None
            } else {
                Some(LoginResponse::BadRequest(String::from_str("Password does not match.")))
            }
        },
        Err(_) => Some(LoginResponse::BadRequest(String::from_str("Bad request."))),
    }
}

/// The answer to a login with the right password when the token is issued
/// at clock reading `now`.
pub open spec fn login_answer_at(r: LoginResponse, now: i64, secret: Seq<char>) -> bool {
    if now > i64::MAX - SECS_PER_DAY {
        r matches LoginResponse::BadRequest(m) && m@ == auth_error_message(
            AuthError::ClockOutOfRange,
        )
    } else {
        r matches LoginResponse::Token(t) && t@ == hs512_jwt(expiration_after_day(now), secret)
            && is_jwt_text(t@)
    }
}

/// Logs the admin in: with the admin password `expected`, a token signed
/// with `secret` that expires a day from now; with another password,
/// `Bad request.`.
pub fn admin_login(password: &str, expected: &str, secret: &str) -> (r: LoginResponse)
    ensures
        password@ != expected@ ==> (r matches LoginResponse::BadRequest(m) && m@
            == "Bad request."@),
        password@ == expected@ ==> r is Token,
        password@ == expected@ ==> exists|now: i64|
            0 <= now <= CHRONO_MAX_SECS && #[trigger] login_answer_at(r, now, secret@),
{
    match login_step(password, expected) {
        None => {
            let token = create_jwt(secret);
            let ghost issued = token;
            let r = token_response(token);
            proof {
                let now = choose|now: i64|
                    0 <= now <= CHRONO_MAX_SECS && #[trigger] issued_at(issued, now, secret@);
                assert(login_answer_at(r, now, secret@));
            }
            r
        },
        Some(r) => r,
    }
}

} // verus!
