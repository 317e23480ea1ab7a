use auth_service::error::AuthAPIError;
use auth_service::protected::{auth_links, protected_outcome, PROTECTED_IMAGE_URL};
use auth_service::report::log_error_chain;

#[test]
fn error_status_and_messages() {
    let cases = [
        (AuthAPIError::UserAlreadyExists, 409, "User already exists"),
        (AuthAPIError::InvalidCredentials, 400, "Invalid credentials"),
        (AuthAPIError::IncorrectCredentials, 401, "Incorrect credentials"),
        (AuthAPIError::MissingToken, 400, "Missing auth token"),
        (AuthAPIError::InvalidToken, 401, "Invalid auth token"),
        (AuthAPIError::UnexpectedError, 500, "Unexpected error"),
        (AuthAPIError::TwoFACodeNotSent, 502, "Failed to send 2FA code"),
    ];
    for (e, s, m) in cases {
        assert_eq!(e.status_code(), s);
        assert_eq!(e.message(), m);
        let (status, body) = e.error_response();
        assert_eq!(status, s);
        assert_eq!(body.error, m);
    }
}

#[test]
fn error_chain_report_text() {
    let sep = format!("\n{}\n", "-".repeat(82));
    let r = log_error_chain("Outer", &vec![]);
    assert_eq!(r, format!("{sep}Outer\n\n{sep}"));
    let r = log_error_chain("Outer", &vec!["Inner".to_string(), "Root".to_string()]);
    assert_eq!(
        r,
        format!("{sep}Outer\n\nCaused by:\n\nInner\nCaused by:\n\nRoot\n{sep}")
    );
}

#[test]
fn protected_page_outcomes() {
    assert_eq!(protected_outcome(false, Some(200)).err(), Some(401));
    assert_eq!(protected_outcome(true, None).err(), Some(500));
    assert_eq!(protected_outcome(true, Some(401)).err(), Some(401));
    assert_eq!(protected_outcome(true, Some(400)).err(), Some(401));
    assert_eq!(protected_outcome(true, Some(503)).err(), Some(500));
    let ok = protected_outcome(true, Some(200)).ok().unwrap();
    assert_eq!(ok.img_url, PROTECTED_IMAGE_URL);
}

#[test]
fn auth_service_links() {
    let (login, logout) = auth_links(None);
    assert_eq!(login, "http://localhost:42069");
    assert_eq!(logout, "http://localhost:42069/logout");
    let (login, _) = auth_links(Some(String::new()));
    assert_eq!(login, "http://localhost:42069");
    let (login, logout) = auth_links(Some("10.0.0.2".to_string()));
    assert_eq!(login, "http://10.0.0.2:42069");
    assert_eq!(logout, "http://10.0.0.2:42069/logout");
}
