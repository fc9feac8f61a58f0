use doido_auth::config::{AuthConfig, AuthModule};
use doido_auth::error::AuthError;
use doido_auth::validations::{validate_email, validate_password_length, validate_registration};

#[test]
fn accepts_reasonable_emails() {
    for e in ["a@b.com", "user.name@example.co", "x@sub.domain.io"] {
        assert!(validate_email(e).is_ok(), "{e} should be valid");
    }
}

#[test]
fn rejects_bad_emails() {
    for e in ["", "no-at", "a@b", "@b.com", "a b@c.com", "a@.com", "a@b."] {
        assert!(validate_email(e).is_err(), "{e} should be invalid");
    }
}

#[test]
fn enforces_minimum_password_length() {
    assert!(validate_password_length("secret", 6).is_ok());
    assert!(validate_password_length("short", 6).is_err());
}

#[test]
fn invalid_email_error_message() {
    assert_eq!(
        validate_email("no-at"),
        Err(AuthError::Validation("email is invalid".to_string()))
    );
}

#[test]
fn too_short_message_names_minimum() {
    assert_eq!(
        validate_password_length("short", 12),
        Err(AuthError::Validation(
            "password is too short (minimum is 12 characters)".to_string()
        ))
    );
    // counted in characters, not bytes
    assert!(validate_password_length("ééé", 3).is_ok());
}

#[test]
fn email_is_trimmed_and_split_at_first_at() {
    assert!(validate_email("  a@b.com \n").is_ok());
    assert!(validate_email("a@b@c.com").is_ok());
    assert!(validate_email("a@b.c@").is_ok());
    assert!(validate_email("a\u{00A0}b@c.com").is_err());
}

#[test]
fn registration_checks_only_when_validatable() {
    assert!(validate_registration(None, "bad", "x").is_ok());
    let mut config = AuthConfig::default();
    assert!(validate_registration(Some(&config), "bad", "x").is_err());
    assert!(validate_registration(Some(&config), "a@b.com", "x").is_err());
    assert!(validate_registration(Some(&config), "a@b.com", "secret").is_ok());
    config.modules = vec![AuthModule::DatabaseAuthenticatable];
    assert!(validate_registration(Some(&config), "bad", "x").is_ok());
}
