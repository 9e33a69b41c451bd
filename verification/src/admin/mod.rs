//! The admin area: HTTP Basic guard and the login that issues bearer tokens.
pub mod route;

use vstd::prelude::*;
use crate::chars::{all_white_space, lemma_trim_ignores_padding, trim, trim_spec};
use crate::middlewares::auth::AuthError;
use crate::utils::validate_credentials;

verus! {

/// Basic credentials are accepted when their password, trimmed of white
/// space, is the admin password.
pub open spec fn basic_password_accepted(password: Seq<char>, expected: Seq<char>) -> bool {
    trim_spec(password) == expected
}

/// Guards a route with HTTP Basic credentials: passes when the password,
/// trimmed of surrounding white space, is the admin password `expected`.
pub fn basic_auth_validator(password: &str, expected: &str) -> (r: Result<(), AuthError>)
    ensures
        basic_password_accepted(password@, expected@) ==> r is Ok,
        !basic_password_accepted(password@, expected@) ==> r == Err::<(), AuthError>(
            AuthError::BasicCredentialsRejected,
        ),
{
    match validate_credentials(trim(password), expected) {
        Ok(res) => {
            if res {
                Ok(())
            } else {
                Err(AuthError::BasicCredentialsRejected)
            }
        },
        Err(_) => Err(AuthError::BasicCredentialsRejected),
    }
}

/// White space around a Basic password changes nothing: the padded password
/// is accepted exactly when the bare one is.
pub proof fn lemma_basic_password_padding(
    w1: Seq<char>,
    password: Seq<char>,
    w2: Seq<char>,
    expected: Seq<char>,
)
    requires
        all_white_space(w1),
        all_white_space(w2),
    ensures
        basic_password_accepted(w1 + password + w2, expected) == basic_password_accepted(
            password,
            expected,
        ),
{
    lemma_trim_ignores_padding(w1, password, w2);
}

} // verus!
