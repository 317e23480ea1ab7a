use auth_service::auth::{Claims, TokenError, JWT_COOKIE_NAME};
use auth_service::email::Email;
use auth_service::error::AuthAPIError;
use auth_service::routes::{
    login, logout, logout_checked, signup, verify_2fa, verify_token, AppState, LoginRequest, LoginResponse,
    SignupRequest, Verify2FARequest, VerifyTokenRequest,
};
use auth_service::two_fa::{LoginAttemptId, TwoFACode};

fn app() -> AppState {
    AppState::new("test-signing-secret".to_string())
}

fn get_random_email() -> String {
    format!("{}@umbrella.corp", uuid::Uuid::new_v4())
}

fn signup_body(email: &str, password: &str, require_2fa: bool) -> SignupRequest {
    SignupRequest { email: email.to_string(), password: password.to_string(), require_2fa }
}

fn login_body(email: &str, password: &str) -> LoginRequest {
    LoginRequest { email: email.to_string(), password: password.to_string() }
}

fn status(r: Result<(), AuthAPIError>) -> u16 {
    match r {
        Ok(()) => 200,
        Err(e) => e.status_code(),
    }
}

/// Logs in a user without 2FA and hands back the token of the cookie.
fn login_token(app: &mut AppState, email: &str, password: &str) -> String {
    match login(app, login_body(email, password)).expect("login failed") {
        LoginResponse::RegularAuth(c) => {
            assert_eq!(c.name(), JWT_COOKIE_NAME);
            c.value().to_string()
        }
        LoginResponse::TwoFactorAuth { .. } => panic!("No auth cookie found"),
    }
}

#[test]
fn should_return_200_if_valid_credentials_and_2fa_disabled() {
    let mut app = app();
    let random_email = get_random_email();
    let response = signup(&mut app, signup_body(&random_email, "notSoSecure1", false));
    assert!(response.is_ok());
    let token = login_token(&mut app, &random_email, "notSoSecure1");
    assert!(!token.is_empty());
}

#[test]
fn should_return_206_if_valid_credentials_and_2fa_enabled() {
    let mut app = app();
    let random_email = get_random_email();
    assert!(signup(&mut app, signup_body(&random_email, "notSoSecure", true)).is_ok());

    let response = login(&mut app, login_body(&random_email, "notSoSecure")).unwrap();
    let (json_body, code) = match response {
        LoginResponse::TwoFactorAuth { response, code, .. } => (response, code),
        LoginResponse::RegularAuth(_) => panic!("2FA required"),
    };
    assert_eq!(json_body.message, "2FA required".to_owned());

    let code_tuple = app
        .two_fa_code_store
        .get_code(&Email::parse(random_email).unwrap())
        .expect("Failed to get 2FA code");
    assert_eq!(code_tuple.0.as_str(), json_body.login_attempt_id);
    assert_eq!(code_tuple.1, code);
}

#[test]
fn should_return_400_if_invalid_input() {
    let mut app = app();
    let random_email = get_random_email();
    assert!(signup(&mut app, signup_body(&random_email, "notSoSecure1", false)).is_ok());

    let test_cases = vec![
        ("invalid_email", "password123"),
        (random_email.as_str(), "invalid"),
        ("", "password123"),
        (random_email.as_str(), ""),
        ("", ""),
    ];
    for (email, password) in test_cases {
        let err = login(&mut app, login_body(email, password)).err().expect("must fail");
        assert_eq!(err.status_code(), 400, "Failed for input: {:?}", (email, password));
        assert_eq!(err.error_response().1.error, "Invalid credentials".to_owned());
    }
}

#[test]
fn should_return_401_if_incorrect_credentials() {
    let mut app = app();
    let random_email = get_random_email();
    assert!(signup(&mut app, signup_body(&random_email, "notSoSecret", false)).is_ok());

    let test_cases = vec![
        (random_email.as_str(), "inCoRrecT"),
        ("ap@umbrella.corp", "zoMbiEEs"),
        ("x@0xfrait.com", "+#$^^<>?@@%"),
    ];
    for (email, password) in test_cases {
        let err = login(&mut app, login_body(email, password)).err().expect("must fail");
        assert_eq!(err.status_code(), 401, "failed for case: {:?}", (email, password));
        assert_eq!(err.error_response().1.error, "Incorrect credentials".to_owned());
    }
}

#[test]
fn should_return_200_if_valid_jwt_cookie() {
    let mut app = app();
    let random_email = get_random_email();
    assert!(signup(&mut app, signup_body(&random_email, "1passWordd", false)).is_ok());
    let token = login_token(&mut app, &random_email, "1passWordd");
    assert!(!token.is_empty());

    assert_eq!(status(logout(&mut app, Some(token.clone()))), 200);
    let contains_token = app
        .banned_token_store
        .contains_token(&token)
        .expect("failed to check if token is banned");
    assert!(contains_token);
}

#[test]
fn should_return_400_if_jwt_cookie_missing() {
    let mut app = app();
    let err = logout(&mut app, None).unwrap_err();
    assert_eq!(err.status_code(), 400, "non 400 BAD REQUEST response");
    assert_eq!(err.error_response().1.error, "Missing auth token".to_owned());
}

#[test]
fn should_return_400_if_logout_called_twice_in_a_row() {
    let mut app = app();
    let random_email = get_random_email();
    assert!(signup(&mut app, signup_body(&random_email, "noTsoSecure", false)).is_ok());
    let token = login_token(&mut app, &random_email, "noTsoSecure");

    assert_eq!(status(logout(&mut app, Some(token))), 200);
    // the client cleared its cookie, so the second call carries none
    let err = logout(&mut app, None).unwrap_err();
    assert_eq!(err.status_code(), 400);
    assert_eq!(err.error_response().1.error, "Missing auth token".to_owned());
}

#[test]
fn ds_should_return_401_if_invalid_token() {
    let mut app = app();
    let err = logout(&mut app, Some("invalid".to_string())).unwrap_err();
    assert_eq!(err.status_code(), 401);
    assert_eq!(err.error_response().1.error, "Invalid auth token".to_owned());
}

#[test]
fn should_return_200_for_valid_token() {
    let mut app = app();
    let random_email = get_random_email();
    assert!(signup(&mut app, signup_body(&random_email, "noTsoSecure", false)).is_ok());
    let token = login_token(&mut app, &random_email, "noTsoSecure");
    assert!(!token.is_empty());
    assert_eq!(status(verify_token(&app, VerifyTokenRequest { token })), 200);
}

#[test]
fn should_return_401_if_invalid_token() {
    let app = app();
    for test_case in ["", "invalid_token"] {
        let err = verify_token(&app, VerifyTokenRequest { token: test_case.to_string() })
            .unwrap_err();
        assert_eq!(err.status_code(), 401);
        assert_eq!(err.error_response().1.error, "Invalid auth token".to_owned());
    }
}

#[test]
fn should_return_401_if_banned_token() {
    let mut app = app();
    let random_email = get_random_email();
    assert!(signup(&mut app, signup_body(&random_email, "notSoSecure", false)).is_ok());
    let token = login_token(&mut app, &random_email, "notSoSecure");
    assert_eq!(status(logout(&mut app, Some(token.clone()))), 200);

    let err = verify_token(&app, VerifyTokenRequest { token }).unwrap_err();
    assert_eq!(err.status_code(), 401);
    assert_eq!(err.error_response().1.error, "Invalid auth token".to_owned());
}

#[test]
fn signup_then_same_address_is_conflict() {
    let mut app = app();
    let first = signup(&mut app, signup_body("a@b.com", "goodpass1", false)).unwrap();
    assert_eq!(first.message, "User created successfully!");
    let second = signup(&mut app, signup_body("a@b.com", "otherpass2", true)).err().unwrap();
    assert_eq!(second, AuthAPIError::UserAlreadyExists);
    assert_eq!(second.status_code(), 409);
    // the first account is kept as it was
    assert!(login(&mut app, login_body("a@b.com", "otherpass2")).is_err());
    assert!(login(&mut app, login_body("a@b.com", "goodpass1")).is_ok());
}

#[test]
fn signup_rejects_invalid_input() {
    let mut app = app();
    for (e, p) in [("invalid_email", "password123"), ("a@b.com", "short"), ("", "")] {
        let err = signup(&mut app, signup_body(e, p, false)).err().unwrap();
        assert_eq!(err, AuthAPIError::InvalidCredentials);
    }
}

fn two_fa_login(app: &mut AppState, email: &str, password: &str) -> (String, String) {
    match login(app, login_body(email, password)).unwrap() {
        LoginResponse::TwoFactorAuth { response, code, email: e } => {
            assert_eq!(e.as_str(), email);
            (response.login_attempt_id, code.as_str().to_string())
        }
        LoginResponse::RegularAuth(_) => panic!("a token was handed out before the second factor"),
    }
}

fn verify_body(email: &str, id: &str, code: &str) -> Verify2FARequest {
    Verify2FARequest {
        email: email.to_string(),
        login_attempt_id: id.to_string(),
        two_fa_code: code.to_string(),
    }
}

#[test]
fn verify_2fa_succeeds_once() {
    let mut app = app();
    signup(&mut app, signup_body("c@d.com", "notSoSecure", true)).unwrap();
    let (id, code) = two_fa_login(&mut app, "c@d.com", "notSoSecure");

    let cookie = verify_2fa(&mut app, verify_body("c@d.com", &id, &code)).unwrap();
    assert_eq!(cookie.name(), "jwt");
    assert_eq!(cookie.value().split('.').count(), 3);
    assert_eq!(status(verify_token(&app, VerifyTokenRequest { token: cookie.value().to_string() })), 200);

    let replay = verify_2fa(&mut app, verify_body("c@d.com", &id, &code)).unwrap_err();
    assert_eq!(replay, AuthAPIError::IncorrectCredentials);
}

#[test]
fn second_login_invalidates_first_challenge() {
    let mut app = app();
    signup(&mut app, signup_body("c@d.com", "notSoSecure", true)).unwrap();
    let (id1, code1) = two_fa_login(&mut app, "c@d.com", "notSoSecure");
    let (id2, code2) = two_fa_login(&mut app, "c@d.com", "notSoSecure");
    assert_ne!(id1, id2);

    let err = verify_2fa(&mut app, verify_body("c@d.com", &id1, &code1)).unwrap_err();
    assert_eq!(err, AuthAPIError::IncorrectCredentials);
    assert!(verify_2fa(&mut app, verify_body("c@d.com", &id2, &code2)).is_ok());
}

#[test]
fn verify_2fa_errors() {
    let mut app = app();
    signup(&mut app, signup_body("c@d.com", "notSoSecure", true)).unwrap();
    let id = LoginAttemptId::default().as_str().to_string();
    let code = TwoFACode::default().as_str().to_string();
    for (e, i, c) in [
        ("invalid_email", id.as_str(), code.as_str()),
        ("c@d.com", "invalid_login_attempt_id", code.as_str()),
        ("c@d.com", id.as_str(), "invalid_two_fa_code"),
        ("", "", ""),
    ] {
        let err = verify_2fa(&mut app, verify_body(e, i, c)).unwrap_err();
        assert_eq!(err, AuthAPIError::InvalidCredentials);
        assert_eq!(err.status_code(), 400);
    }
    // no challenge was started
    let err = verify_2fa(&mut app, verify_body("c@d.com", &id, &code)).unwrap_err();
    assert_eq!(err, AuthAPIError::IncorrectCredentials);

    let (real_id, real_code) = two_fa_login(&mut app, "c@d.com", "notSoSecure");
    let wrong_code = if real_code == "123456" { "654321" } else { "123456" };
    let err = verify_2fa(&mut app, verify_body("c@d.com", &real_id, wrong_code)).unwrap_err();
    assert_eq!(err, AuthAPIError::IncorrectCredentials);
    let err = verify_2fa(&mut app, verify_body("c@d.com", &id, &real_code)).unwrap_err();
    assert_eq!(err, AuthAPIError::IncorrectCredentials);
    // a wrong guess does not consume the challenge
    assert!(verify_2fa(&mut app, verify_body("c@d.com", &real_id, &real_code)).is_ok());
}

#[test]
fn logout_twice_with_same_token_is_invalid_token() {
    let mut app = app();
    signup(&mut app, signup_body("a@b.com", "goodpass1", false)).unwrap();
    let token = login_token(&mut app, "a@b.com", "goodpass1");
    assert_eq!(status(logout(&mut app, Some(token.clone()))), 200);
    assert_eq!(logout(&mut app, Some(token)).unwrap_err(), AuthAPIError::InvalidToken);
}

#[test]
fn full_session_scenario() {
    let mut app = app();
    let created = signup(&mut app, signup_body("a@b.com", "goodpass1", false));
    assert!(created.is_ok());
    let token = login_token(&mut app, "a@b.com", "goodpass1");
    assert_eq!(token.split('.').count(), 3);
    assert_eq!(status(verify_token(&app, VerifyTokenRequest { token: token.clone() })), 200);
    assert_eq!(status(logout(&mut app, Some(token.clone()))), 200);
    let err = verify_token(&app, VerifyTokenRequest { token }).unwrap_err();
    assert_eq!(err, AuthAPIError::InvalidToken);
    assert_eq!(err.status_code(), 401);
}

#[test]
fn logout_checked_bans_only_accepted_tokens() {
    let mut app = app();
    let refused = logout_checked(&mut app, "t1".to_string(), Err(TokenError::InvalidToken));
    assert_eq!(refused, Err(AuthAPIError::InvalidToken));
    assert!(!app.banned_token_store.contains_token("t1").unwrap());
    let claims = Claims { sub: "a@b.com".to_string(), exp: 1 };
    assert_eq!(logout_checked(&mut app, "t2".to_string(), Ok(claims)), Ok(()));
    assert!(app.banned_token_store.contains_token("t2").unwrap());
}
