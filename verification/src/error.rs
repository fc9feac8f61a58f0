//! Typed auth errors, their messages and their HTTP status codes.

use vstd::prelude::*;
use crate::text::{push_str, string_of};

verus! {

/// Errors raised by the auth layer.
#[derive(Debug, Clone, PartialEq, Eq)]
pub enum AuthError {
    /// Email/password combination is wrong or the account has no password.
    InvalidCredentials,
    /// Registration attempted with an email that is already taken.
    EmailTaken,
    /// A `validatable`-module check failed (email format, password length, ...).
    Validation(String),
    /// Sign-in blocked because the account's email is not confirmed.
    NotConfirmed,
    /// Sign-in blocked because the account is locked.
    AccountLocked,
    /// No authenticated identity was found on the request.
    Unauthorized,
    /// A bearer or JWT token is missing or malformed.
    InvalidToken,
    /// JWT verification failed (wrong secret, expired, etc.).
    Jwt(String),
    /// OAuth provider or callback failed.
    OAuth(String),
    /// Two-factor verification failed.
    TwoFactor(String),
    /// The `auth` configuration is invalid or incomplete.
    Config(String),
    /// An unknown auth strategy was referenced in config.
    UnknownStrategy(String),
    /// Database or internal failure.
    Internal(String),
}

/// The mathematical value of an [`AuthError`]: its variant and the characters
/// of its message argument.
pub enum AuthErrorView {
    InvalidCredentials,
    EmailTaken,
    Validation(Seq<char>),
    NotConfirmed,
    AccountLocked,
    Unauthorized,
    InvalidToken,
    Jwt(Seq<char>),
    OAuth(Seq<char>),
    TwoFactor(Seq<char>),
    Config(Seq<char>),
    UnknownStrategy(Seq<char>),
    Internal(Seq<char>),
}

impl View for AuthError {
    type V = AuthErrorView;

    open spec fn view(&self) -> AuthErrorView {
        match self {
            AuthError::InvalidCredentials => AuthErrorView::InvalidCredentials,
            AuthError::EmailTaken => AuthErrorView::EmailTaken,
            AuthError::Validation(m) => AuthErrorView::Validation(m@),
            AuthError::NotConfirmed => AuthErrorView::NotConfirmed,
            AuthError::AccountLocked => AuthErrorView::AccountLocked,
            AuthError::Unauthorized => AuthErrorView::Unauthorized,
            AuthError::InvalidToken => AuthErrorView::InvalidToken,
            AuthError::Jwt(m) => AuthErrorView::Jwt(m@),
            AuthError::OAuth(m) => AuthErrorView::OAuth(m@),
            AuthError::TwoFactor(m) => AuthErrorView::TwoFactor(m@),
            AuthError::Config(m) => AuthErrorView::Config(m@),
            AuthError::UnknownStrategy(m) => AuthErrorView::UnknownStrategy(m@),
            AuthError::Internal(m) => AuthErrorView::Internal(m@),
        }
    }
}

/// The view of a unit result.
pub open spec fn unit_result_view(r: Result<(), AuthError>) -> Result<(), AuthErrorView> {
    match r {
        Ok(()) => Ok(()),
        Err(e) => Err(e@),
    }
}

/// The human-readable message of an error.
pub open spec fn error_message(e: AuthErrorView) -> Seq<char> {
    match e {
        AuthErrorView::InvalidCredentials => "auth: invalid credentials"@,
        AuthErrorView::EmailTaken => "auth: email already taken"@,
        AuthErrorView::Validation(m) => "auth: "@ + m,
        AuthErrorView::NotConfirmed => "auth: email not confirmed"@,
        AuthErrorView::AccountLocked => "auth: account locked"@,
        AuthErrorView::Unauthorized => "auth: unauthorized"@,
        AuthErrorView::InvalidToken => "auth: invalid token"@,
        AuthErrorView::Jwt(m) => "auth: jwt error: "@ + m,
        AuthErrorView::OAuth(m) => "auth: oauth error: "@ + m,
        AuthErrorView::TwoFactor(m) => "auth: two-factor error: "@ + m,
        AuthErrorView::Config(m) => "auth: config error: "@ + m,
        AuthErrorView::UnknownStrategy(m) => "auth: unknown strategy: "@ + m,
        AuthErrorView::Internal(m) => "auth: internal error: "@ + m,
    }
}

/// The HTTP status an error is answered with.
pub open spec fn error_status(e: AuthErrorView) -> u16 {
    match e {
        AuthErrorView::Unauthorized | AuthErrorView::InvalidCredentials
        | AuthErrorView::InvalidToken => 401,
        AuthErrorView::EmailTaken | AuthErrorView::Validation(_) => 422,
        AuthErrorView::NotConfirmed | AuthErrorView::AccountLocked => 403,
        _ => 500,
    }
}

impl AuthError {
    /// The error's message (what `Display` prints).
    pub fn message(&self) -> (r: String)
        ensures
            r@ == error_message(self@),
    {
        let mut out: Vec<char> = Vec::new();
        match self {
            AuthError::InvalidCredentials => push_str(&mut out, "auth: invalid credentials"),
            AuthError::EmailTaken => push_str(&mut out, "auth: email already taken"),
            AuthError::Validation(m) => {
                push_str(&mut out, "auth: ");
                push_str(&mut out, m.as_str());
            },
            AuthError::NotConfirmed => push_str(&mut out, "auth: email not confirmed"),
            AuthError::AccountLocked => push_str(&mut out, "auth: account locked"),
            AuthError::Unauthorized => push_str(&mut out, "auth: unauthorized"),
            AuthError::InvalidToken => push_str(&mut out, "auth: invalid token"),
            AuthError::Jwt(m) => {
                push_str(&mut out, "auth: jwt error: ");
                push_str(&mut out, m.as_str());
            },
            AuthError::OAuth(m) => {
                push_str(&mut out, "auth: oauth error: ");
                push_str(&mut out, m.as_str());
            },
            AuthError::TwoFactor(m) => {
                push_str(&mut out, "auth: two-factor error: ");
                push_str(&mut out, m.as_str());
            },
            AuthError::Config(m) => {
                push_str(&mut out, "auth: config error: ");
                push_str(&mut out, m.as_str());
            },
            AuthError::UnknownStrategy(m) => {
                push_str(&mut out, "auth: unknown strategy: ");
                push_str(&mut out, m.as_str());
            },
            AuthError::Internal(m) => {
                push_str(&mut out, "auth: internal error: ");
                push_str(&mut out, m.as_str());
            },
        }
        string_of(&out)
    }

    /// The HTTP status code the error maps to in a response.
    pub fn status_code(&self) -> (r: u16)
        ensures
            r == error_status(self@),
    {
        match self {
            AuthError::Unauthorized | AuthError::InvalidCredentials | AuthError::InvalidToken => 401,
            AuthError::EmailTaken | AuthError::Validation(_) => 422,
            AuthError::NotConfirmed | AuthError::AccountLocked => 403,
            _ => 500,
        }
    }
}

} // verus!
