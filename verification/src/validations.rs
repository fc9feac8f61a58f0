//! `validatable` module: email format and password length checks on
//! registration.

use vstd::prelude::*;
use crate::config::{AuthConfig, AuthModule};
use crate::error::{AuthError, AuthErrorView, unit_result_view};
use crate::text::{
    chars_of, decimal, has_char, has_char_exec, index_of, is_ws, is_whitespace, lemma_index_of_bounds,
    lemma_index_of_is, push_decimal, push_str, slice_chars, string_of, trim, trim_str,
};

verus! {

/// Whether `s` holds a whitespace character.
pub open spec fn has_ws(s: Seq<char>) -> bool {
    exists|i: int| 0 <= i < s.len() && is_ws(s[i])
}

/// The conservative email check: after trimming, a non-empty address with no
/// whitespace, of the form `local@domain` split at the first `@`, where the
/// local part is non-empty and the domain holds a dot and neither starts nor
/// ends with one.
pub open spec fn valid_email(s: Seq<char>) -> bool {
    let e = trim(s);
    let k = index_of(e, '@');
    let local = e.take(k);
    let domain = e.skip(k + 1);
    &&& e.len() > 0
    &&& !has_ws(e)
    &&& k >= 0
    &&& local.len() > 0
    &&& has_char(domain, '.')
    &&& !(domain.len() > 0 && domain[0] == '.')
    &&& !(domain.len() > 0 && domain.last() == '.')
}

/// What `validate_email` yields.
pub open spec fn email_check(s: Seq<char>) -> Result<(), AuthErrorView> {
    if valid_email(s) {
        Ok(())
    } else {
        Err(AuthErrorView::Validation("email is invalid"@))
    }
}

/// The too-short message for minimum `min`.
pub open spec fn too_short_message(min: nat) -> Seq<char> {
    "password is too short (minimum is "@ + decimal(min) + " characters)"@
}

/// What `validate_password_length` yields.
pub open spec fn length_check(password: Seq<char>, min: nat) -> Result<(), AuthErrorView> {
    if password.len() >= min {
        Ok(())
    } else {
        Err(AuthErrorView::Validation(too_short_message(min)))
    }
}

/// What `validate_registration` yields for the installed config (`None` when
/// auth is not initialised).
pub open spec fn registration_check(
    config: Option<AuthConfig>,
    email: Seq<char>,
    password: Seq<char>,
) -> Result<(), AuthErrorView> {
    match config {
        None => Ok(()),
        Some(c) => if !c.modules@.contains(AuthModule::Validatable) {
            Ok(())
        } else {
            match email_check(email) {
                Err(e) => Err(e),
                Ok(_) => length_check(password, c.password_length as nat),
            }
        },
    }
}

/// Validate an email/password pair for registration when the `validatable`
/// module is enabled. A no-op when auth is not initialised (`config` is
/// `None`) or the module is disabled, so callers can invoke it unconditionally.
pub fn validate_registration(config: Option<&AuthConfig>, email: &str, password: &str) -> (r: Result<(), AuthError>)
    ensures
        unit_result_view(r) == registration_check(
            match config { Some(c) => Some(*c), None => None },
            email@,
            password@,
        ),
{
    let c = match config {
        Some(c) => c,
        None => return Ok(()),
    };
    if !c.has_module(AuthModule::Validatable) {
        return Ok(());
    }
    let e = validate_email(email);
    if e.is_err() {
        return e;
    }
    validate_password_length(password, c.password_length)
}

/// A conservative email format check. Returns a validation error on failure.
pub fn validate_email(email: &str) -> (r: Result<(), AuthError>)
    ensures
        unit_result_view(r) == email_check(email@),
{
    if is_valid_email(email) {
        Ok(())
    } else {
        Err(AuthError::Validation("email is invalid".to_owned()))
    }
}

/// Enforce a minimum password length, counted in characters.
pub fn validate_password_length(password: &str, min: usize) -> (r: Result<(), AuthError>)
    ensures
        unit_result_view(r) == length_check(password@, min as nat),
{
    let count = chars_of(password).len();
    if count >= min {
        Ok(())
    } else {
        let mut msg: Vec<char> = Vec::new();
        push_str(&mut msg, "password is too short (minimum is ");
        push_decimal(&mut msg, min as u64);
        push_str(&mut msg, " characters)");
        Err(AuthError::Validation(string_of(&msg)))
    }
}

/// Whether `email` passes [`valid_email`].
pub fn is_valid_email(email: &str) -> (r: bool)
    ensures
        r == valid_email(email@),
{
    let e = trim_str(email);
    if e.len() == 0 {
        return false;
    }
    let mut i: usize = 0;
    while i < e.len()
        invariant
            i <= e.len(),
            e@ == trim(email@),
            forall|t: int| 0 <= t < i ==> !is_ws(e@[t]),
        decreases e.len() - i,
    {
        if is_whitespace(e[i]) {
            assert(is_ws(e@[i as int]));
            assert(has_ws(e@));
            return false;
        }
        i += 1;
    }
    let mut k: usize = 0;
    while k < e.len() && e[k] != '@'
        invariant
            k <= e.len(),
            forall|t: int| 0 <= t < k ==> e@[t] != '@',
        decreases e.len() - k,
    {
        k += 1;
    }
    proof {
        lemma_index_of_is(e@, '@', k as int);
        lemma_index_of_bounds(e@, '@');
    }
    if k == e.len() {
        return false;
    }
    let domain = slice_chars(&e, k + 1, e.len());
    assert(domain@ =~= e@.skip(k + 1));
    k > 0 && has_char_exec(&domain, '.') && !(domain.len() > 0 && domain[0] == '.') && !(
    domain.len() > 0 && domain[domain.len() - 1] == '.')
}

} // verus!
