use auth_service::email::Email;
use auth_service::error::ValidationError;
use auth_service::password::Password;
use auth_service::two_fa::{six_digit_text, LoginAttemptId, TwoFACode};

#[test]
fn email_reject_empty_string() {
    let email = "".to_string();
    assert!(Email::parse(email).is_err());
}

#[test]
fn reject_email_missing_at_symbol() {
    let email = "u.org".to_string();
    assert!(Email::parse(email).is_err());
}

#[test]
fn reject_email_missing_subject() {
    let email = "@me.org".to_string();
    assert!(Email::parse(email).is_err());
}

#[test]
fn password_reject_empty_string() {
    let password = "".to_string();
    assert!(Password::parse(password).is_err());
}

#[test]
fn reject_string_less_than_8_characters() {
    let password = "123456".to_owned();
    assert!(Password::parse(password).is_err());
}

#[test]
fn email_accepts_valid_addresses() {
    for s in ["a@b.com", "ibrahim@umbrella.corp", "weirder-email@here.and.there.com"] {
        let e = Email::parse(s.to_string()).expect("valid address");
        assert_eq!(e.as_str(), s);
    }
}

#[test]
fn email_rejects_malformed_addresses() {
    for s in ["a@", "a@b@c.com", "no spaces@x.com", "invalid_email"] {
        assert_eq!(Email::parse(s.to_string()).unwrap_err(), ValidationError::InvalidEmail);
    }
}

#[test]
fn email_equality_is_case_sensitive() {
    let a = Email::parse("A@b.com".to_string()).unwrap();
    let b = Email::parse("a@b.com".to_string()).unwrap();
    assert!(a != b);
    assert!(a == a.clone());
}

#[test]
fn password_length_boundary() {
    assert!(Password::parse("1234567".to_string()).is_err());
    assert!(Password::parse("12345678".to_string()).is_ok());
    assert_eq!(Password::parse("goodpass1".to_string()).unwrap().as_str(), "goodpass1");
    assert_eq!(Password::parse("short".to_string()).unwrap_err(), ValidationError::InvalidPassword);
}

#[test]
fn password_counts_characters() {
    assert!(Password::parse("ééééééé".to_string()).is_err());
    assert!(Password::parse("éééééééé".to_string()).is_ok());
}

#[test]
fn login_attempt_id_parse() {
    let id = "550e8400-e29b-41d4-a716-446655440000";
    assert_eq!(LoginAttemptId::parse(id.to_string()).unwrap().as_str(), id);
    assert_eq!(
        LoginAttemptId::parse("invalid_login_attempt_id".to_string()).unwrap_err(),
        ValidationError::InvalidLoginAttemptId
    );
    assert!(LoginAttemptId::parse("".to_string()).is_err());
}

#[test]
fn login_attempt_id_default_is_fresh_uuid() {
    let a = LoginAttemptId::default();
    let b = LoginAttemptId::default();
    assert_eq!(a.as_str().len(), 36);
    assert!(LoginAttemptId::parse(a.as_str().to_string()).is_ok());
    assert!(a != b);
}

#[test]
fn two_fa_code_parse() {
    assert_eq!(TwoFACode::parse("123456".to_string()).unwrap().as_str(), "123456");
    assert_eq!(
        TwoFACode::parse("invalid_two_fa_code".to_string()).unwrap_err(),
        ValidationError::InvalidTwoFACode
    );
    assert!(TwoFACode::parse("12345".to_string()).is_err());
    assert!(TwoFACode::parse("1234567".to_string()).is_err());
    assert!(TwoFACode::parse("12a456".to_string()).is_err());
    assert!(TwoFACode::parse("".to_string()).is_err());
}

#[test]
fn two_fa_code_default_is_six_digits() {
    for _ in 0..20 {
        let c = TwoFACode::default();
        assert_eq!(c.as_str().len(), 6);
        assert!(c.as_str().chars().all(|ch| ch.is_ascii_digit()));
        assert!(!c.as_str().starts_with('0'));
    }
}

#[test]
fn six_digit_text_pads_with_zeros() {
    assert_eq!(six_digit_text(0), "000000");
    assert_eq!(six_digit_text(42), "000042");
    assert_eq!(six_digit_text(100000), "100000");
    assert_eq!(six_digit_text(999999), "999999");
    assert_eq!(six_digit_text(123456), "123456");
}
