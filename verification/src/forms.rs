//! Request forms of the built-in auth controllers and the decisions the
//! controllers take on them.

use vstd::prelude::*;
use crate::text::str_eq;

verus! {

/// Sign-in form.
#[derive(Debug, Clone)]
pub struct SignInForm {
    pub email: String,
    pub password: String,
    /// `rememberable`: a truthy value issues a persistent remember cookie.
    pub remember: Option<String>,
}

/// Sign-up form.
#[derive(Debug, Clone)]
pub struct SignUpForm {
    pub email: String,
    pub password: String,
    pub password_confirmation: Option<String>,
}

/// Password-reset request form.
#[derive(Debug, Clone)]
pub struct PasswordResetForm {
    pub email: String,
}

/// Password-update form.
#[derive(Debug, Clone)]
pub struct PasswordUpdateForm {
    pub password: String,
    pub password_confirmation: Option<String>,
    pub reset_password_token: String,
}

/// Query of the choose-new-password page.
#[derive(Debug, Clone)]
pub struct EditQuery {
    pub reset_password_token: String,
}

/// Query of the confirmation link.
#[derive(Debug, Clone)]
pub struct ConfirmQuery {
    pub confirmation_token: String,
}

/// Resend-confirmation form.
#[derive(Debug, Clone)]
pub struct ResendForm {
    pub email: String,
}

/// The values a "remember me" field counts as set with.
pub open spec fn truthy(v: Seq<char>) -> bool {
    v == "1"@ || v == "true"@ || v == "on"@ || v == "yes"@
}

/// Whether an optional form value is `1`, `true`, `on` or `yes`.
pub fn is_truthy(value: &Option<String>) -> (r: bool)
    ensures
        r == match value {
            Some(v) => truthy(v@),
            None => false,
        },
{
    match value {
        Some(v) => {
            let s = v.as_str();
            str_eq(s, "1") || str_eq(s, "true") || str_eq(s, "on") || str_eq(s, "yes")
        },
        None => false,
    }
}

/// Whether a given password confirmation differs from the password (an absent
/// confirmation never does).
pub fn confirmation_mismatch(password: &str, confirmation: &Option<String>) -> (r: bool)
    ensures
        r == match confirmation {
            Some(c) => c@ != password@,
            None => false,
        },
{
    match confirmation {
        Some(c) => !str_eq(password, c.as_str()),
        None => false,
    }
}

} // verus!
