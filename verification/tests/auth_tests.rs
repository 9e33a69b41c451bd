use imageboard::admin::basic_auth_validator as admin_basic_auth_validator;
use imageboard::admin::route::{admin_login, login_step, token_response, LoginResponse};
use imageboard::middlewares::auth::{
    basic_auth_validator, bearer_step, bearer_token, BearerStep, claims_from_decoded, claims_from_exp, create_jwt, token_for_time,
    verify_token, verify_token_at, AuthError, Claims,
};

fn reference_token(exp: usize, secret: &str) -> String {
    let claims = std::collections::BTreeMap::from([("exp", exp)]);
    jsonwebtoken::encode(
        &jsonwebtoken::Header::new(jsonwebtoken::Algorithm::HS512),
        &claims,
        &jsonwebtoken::EncodingKey::from_secret(secret.as_bytes()),
    )
    .unwrap()
}

#[test]
fn token_for_time_signs_exp_a_day_later() {
    let t = token_for_time(1000, "s3cret").unwrap();
    assert_eq!(t, reference_token(87400, "s3cret"));
    assert!(t.chars().all(|c| c.is_ascii_alphanumeric() || c == '-' || c == '_' || c == '.'));
    assert_eq!(t.matches('.').count(), 2);
}

#[test]
fn token_for_time_is_deterministic() {
    assert_eq!(token_for_time(5, "k").unwrap(), token_for_time(5, "k").unwrap());
    assert_ne!(token_for_time(5, "k").unwrap(), token_for_time(6, "k").unwrap());
    assert_ne!(token_for_time(5, "k").unwrap(), token_for_time(5, "l").unwrap());
}

#[test]
fn created_token_is_accepted() {
    let t = create_jwt("topsecret").unwrap();
    let header = format!("Bearer {}", t);
    let claims = verify_token(&header, "topsecret").unwrap();
    let now = std::time::SystemTime::now()
        .duration_since(std::time::UNIX_EPOCH)
        .unwrap()
        .as_secs() as usize;
    assert!(claims.exp >= now + 86400 - 10 && claims.exp <= now + 86400 + 10);
}

#[test]
fn bearer_header_yields_the_token() {
    let t = create_jwt("abc").unwrap();
    let header = format!("Bearer {}", t);
    assert_eq!(bearer_token(&header), Some(t.as_str()));
}

#[test]
fn token_with_other_secret_is_invalid() {
    let t = create_jwt("one").unwrap();
    assert_eq!(
        verify_token(&format!("Bearer {}", t), "two"),
        Err(AuthError::InvalidToken)
    );
}

#[test]
fn expired_token_is_invalid() {
    let t = token_for_time(0, "k").unwrap();
    assert_eq!(verify_token(&format!("Bearer {}", t), "k"), Err(AuthError::InvalidToken));
}

#[test]
fn repeated_bearer_prefix_is_stripped() {
    let t = create_jwt("k").unwrap();
    assert!(verify_token(&format!("Bearer Bearer {}", t), "k").is_ok());
}

#[test]
fn verify_token_needs_bearer_prefix() {
    assert_eq!(verify_token("Token abc", "k"), Err(AuthError::BearerPrefixMissing));
    assert_eq!(verify_token("bearer abc", "k"), Err(AuthError::BearerPrefixMissing));
    assert_eq!(verify_token("Bearer garbage", "k"), Err(AuthError::InvalidToken));
    assert_eq!(bearer_token("Basic x"), None);
}

#[test]
fn claims_from_exp_cases() {
    assert_eq!(claims_from_exp(Some(7)), Ok(Claims { exp: 7 }));
    assert_eq!(claims_from_exp(None), Err(AuthError::InvalidToken));
}

#[test]
fn middleware_cases() {
    assert_eq!(basic_auth_validator("OPTIONS", None, "k"), Ok(()));
    assert_eq!(basic_auth_validator("GET", None, "k"), Err(AuthError::BrokenToken));
    assert_eq!(
        basic_auth_validator("POST", Some("Token x"), "k"),
        Err(AuthError::BearerPrefixMissing)
    );
    assert_eq!(
        basic_auth_validator("POST", Some("Bearer x"), "k"),
        Err(AuthError::InvalidToken)
    );
    let t = create_jwt("k").unwrap();
    assert_eq!(basic_auth_validator("POST", Some(&format!("Bearer {}", t)), "k"), Ok(()));
}

#[test]
fn auth_error_messages_and_statuses() {
    let cases = [
        (AuthError::BearerPrefixMissing, "JWT token is not using Bearer prefix.", 400),
        (AuthError::InvalidToken, "Invalid JWT token.", 401),
        (AuthError::BrokenToken, "JWT token is broken.", 401),
        (AuthError::TokenCreationFailed, "Failed to create JWT token.", 401),
        (AuthError::ClockOutOfRange, "valid timestamp", 500),
        (AuthError::BasicCredentialsRejected, "Unauthorized", 401),
    ];
    for (e, m, s) in cases {
        assert_eq!(e.message(), m);
        assert_eq!(e.status_code(), s);
    }
}

#[test]
fn admin_basic_auth_trims_password() {
    assert_eq!(admin_basic_auth_validator(" pw\n", "pw"), Ok(()));
    assert_eq!(admin_basic_auth_validator("pw", "pw"), Ok(()));
    assert_eq!(
        admin_basic_auth_validator("p w", "pw"),
        Err(AuthError::BasicCredentialsRejected)
    );
}

#[test]
fn admin_basic_auth_padding_law() {
    for p in ["pw", "nope"] {
        assert_eq!(
            admin_basic_auth_validator(&format!("\t \u{3000}{}\u{a0}", p), "pw"),
            admin_basic_auth_validator(p, "pw")
        );
    }
}

#[test]
fn admin_login_wrong_password() {
    assert_eq!(
        admin_login("guess", "pw", "k"),
        LoginResponse::BadRequest("Bad request.".to_string())
    );
}

#[test]
fn admin_login_right_password_gives_valid_token() {
    match admin_login("pw", "pw", "k") {
        LoginResponse::Token(t) => {
            assert!(verify_token(&format!("Bearer {}", t), "k").is_ok());
        }
        other => panic!("unexpected {:?}", other),
    }
}

#[test]
fn token_response_cases() {
    assert_eq!(token_response(Ok("t".to_string())), LoginResponse::Token("t".to_string()));
    assert_eq!(
        token_response(Err(AuthError::TokenCreationFailed)),
        LoginResponse::BadRequest("Failed to create JWT token.".to_string())
    );
}

#[test]
fn claims_from_decoded_cases() {
    assert_eq!(claims_from_decoded(None, 100), Err(AuthError::InvalidToken));
    assert_eq!(claims_from_decoded(Some(Some(9)), 69), Ok(Claims { exp: 9 }));
    assert_eq!(claims_from_decoded(Some(Some(9)), 70), Err(AuthError::InvalidToken));
    assert_eq!(claims_from_decoded(Some(Some(9)), 10), Ok(Claims { exp: 9 }));
    assert_eq!(claims_from_decoded(Some(None), 0), Err(AuthError::InvalidToken));
}

#[test]
fn issued_token_is_accepted_until_a_day_and_leeway_later() {
    let t = token_for_time(1000, "k").unwrap();
    let header = format!("Bearer {}", t);
    assert_eq!(verify_token_at(&header, "k", 1000), Ok(Claims { exp: 87400 }));
    assert_eq!(verify_token_at(&header, "k", 87460), Ok(Claims { exp: 87400 }));
    assert_eq!(verify_token_at(&header, "k", 87461), Err(AuthError::InvalidToken));
    assert_eq!(verify_token_at(&header, "other", 1000), Err(AuthError::InvalidToken));
    assert_eq!(verify_token_at(&t, "k", 1000), Err(AuthError::BearerPrefixMissing));
}

#[test]
fn tampered_token_is_refused() {
    let t = token_for_time(1000, "k").unwrap();
    let mut bytes = t.into_bytes();
    let last = bytes.len() - 1;
    bytes[last] = if bytes[last] == b'A' { b'B' } else { b'A' };
    let tampered = String::from_utf8(bytes).unwrap();
    assert_eq!(
        verify_token_at(&format!("Bearer {}", tampered), "k", 1000),
        Err(AuthError::InvalidToken)
    );
}

#[test]
fn token_signed_with_other_algorithm_is_refused() {
    let claims = std::collections::BTreeMap::from([("exp", 87400usize)]);
    let t = jsonwebtoken::encode(
        &jsonwebtoken::Header::new(jsonwebtoken::Algorithm::HS256),
        &claims,
        &jsonwebtoken::EncodingKey::from_secret(b"k"),
    )
    .unwrap();
    assert_eq!(verify_token_at(&format!("Bearer {}", t), "k", 1000), Err(AuthError::InvalidToken));
}

#[test]
fn array_claims_are_refused_by_the_decoder_itself() {
    let far = 4_000_000_000usize;
    let t = jsonwebtoken::encode(
        &jsonwebtoken::Header::new(jsonwebtoken::Algorithm::HS512),
        &vec![far],
        &jsonwebtoken::EncodingKey::from_secret(b"k"),
    )
    .unwrap();
    // Whatever claims type is asked for, `decode` refuses an array payload
    // while validating it, so a struct of claims would refuse it too.
    let direct = jsonwebtoken::decode::<(usize,)>(
        &t,
        &jsonwebtoken::DecodingKey::from_secret(b"k"),
        &jsonwebtoken::Validation::new(jsonwebtoken::Algorithm::HS512),
    );
    assert!(direct.is_err());
    assert_eq!(verify_token_at(&format!("Bearer {}", t), "k", 1000), Err(AuthError::InvalidToken));
}

#[test]
fn bearer_step_cases() {
    assert_eq!(bearer_step("OPTIONS", None), BearerStep::Pass);
    assert_eq!(bearer_step("GET", None), BearerStep::Refuse(AuthError::BrokenToken));
    assert_eq!(bearer_step("GET", Some("Token x")), BearerStep::Refuse(AuthError::BearerPrefixMissing));
    assert_eq!(bearer_step("GET", Some("Bearer x")), BearerStep::CheckToken);
}

#[test]
fn login_step_cases() {
    assert_eq!(login_step("pw", "pw"), None);
    assert_eq!(
        login_step("guess", "pw"),
        Some(LoginResponse::BadRequest("Bad request.".to_string()))
    );
}

#[test]
fn issued_token_is_refused_after_a_day_and_leeway() {
    let t = token_for_time(-86400 + 5, "k").unwrap();
    let header = format!("Bearer {}", t);
    assert_eq!(verify_token_at(&header, "k", 65), Ok(Claims { exp: 5 }));
    assert_eq!(verify_token_at(&header, "k", 66), Err(AuthError::InvalidToken));
}

#[test]
fn token_for_time_refuses_a_clock_too_late_for_a_day() {
    assert_eq!(token_for_time(i64::MAX, "k"), Err(AuthError::ClockOutOfRange));
    assert_eq!(token_for_time(i64::MAX - 86400 + 1, "k"), Err(AuthError::ClockOutOfRange));
    assert!(token_for_time(i64::MAX - 86400, "k").is_ok());
}
