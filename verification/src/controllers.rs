//! The built-in auth controllers and what each action answers.
//!
//! An action reads its form, waits on the database or the mailer, and
//! answers; the answer is decided here from what the action learnt.

use vstd::prelude::*;
use std::marker::PhantomData;
use crate::error::{AuthError, AuthErrorView};
use crate::forms::confirmation_mismatch;
use crate::config::{strategy_names, AuthConfig};

verus! {

/// Sessions controller (`sign_in` / `sign_out`) for the user model `U`.
pub struct AuthSessions<U>(pub PhantomData<U>);

/// Registrations controller (`sign_up`) for the user model `U`.
pub struct AuthRegistrations<U>(pub PhantomData<U>);

/// Passwords controller (`recoverable` reset request and update).
pub struct AuthPasswords<U>(pub PhantomData<U>);

/// Confirmations controller (`confirmable` confirm and resend).
pub struct AuthConfirmations<U>(pub PhantomData<U>);

/// Two-factor controller (enrollment form; enabling and challenges answer
/// 501 for now).
pub struct AuthTwoFactor<U>(pub PhantomData<U>);

/// OAuth redirect and callback controller.
pub struct AuthOauth;

/// What an action answers.
pub enum Reply {
    /// A bare status code.
    Status(u16),
    /// A redirect to a path.
    Redirect(String),
    /// A view, rendered with one `(key, message)` entry or with none.
    Render(String, Option<(String, String)>),
    /// The signed-in user as JSON.
    UserJson,
    /// A JSON `{"status": ...}` body.
    JsonStatus(String),
}

/// The value of a [`Reply`].
pub enum ReplyView {
    Status(u16),
    Redirect(Seq<char>),
    Render(Seq<char>, Option<(Seq<char>, Seq<char>)>),
    UserJson,
    JsonStatus(Seq<char>),
}

impl View for Reply {
    type V = ReplyView;

    open spec fn view(&self) -> ReplyView {
        match self {
            Reply::Status(c) => ReplyView::Status(*c),
            Reply::Redirect(p) => ReplyView::Redirect(p@),
            Reply::Render(v, d) => ReplyView::Render(
                v@,
                match d {
                    Some((k, m)) => Some((k@, m@)),
                    None => None,
                },
            ),
            Reply::UserJson => ReplyView::UserJson,
            Reply::JsonStatus(s) => ReplyView::JsonStatus(s@),
        }
    }
}

/// `view` rendered with `key: message`.
pub open spec fn render_with(view: Seq<char>, key: Seq<char>, message: Seq<char>) -> ReplyView {
    ReplyView::Render(view, Some((key, message)))
}

fn render(view: &str, key: &str, message: &str) -> (r: Reply)
    ensures
        r@ == render_with(view@, key@, message@),
{
    Reply::Render(view.to_owned(), Some((key.to_owned(), message.to_owned())))
}

/// After sign-in credentials were checked.
pub open spec fn sign_in_spec(json: bool, authenticated: bool) -> ReplyView {
    if authenticated {
        if json {
            ReplyView::UserJson
        } else {
            ReplyView::Redirect("/"@)
        }
    } else if json {
        ReplyView::Status(401)
    } else {
        render_with("auth/sign_in"@, "error"@, "Invalid email or password"@)
    }
}

/// The answer to `POST sign_in`: the user (JSON) or home, else 401 (JSON)
/// or the form again with an error.
pub fn sign_in_reply(json: bool, authenticated: bool) -> (r: Reply)
    ensures
        r@ == sign_in_spec(json, authenticated),
{
    if authenticated {
        if json {
            Reply::UserJson
        } else {
            Reply::Redirect("/".to_owned())
        }
    } else if json {
        Reply::Status(401)
    } else {
        render("auth/sign_in", "error", "Invalid email or password")
    }
}

/// The answer to `DELETE sign_out`: 204 (JSON) or home.
pub fn sign_out_reply(json: bool) -> (r: Reply)
    ensures
        r@ == if json {
            ReplyView::Status(204)
        } else {
            ReplyView::Redirect("/"@)
        },
{
    if json {
        Reply::Status(204)
    } else {
        Reply::Redirect("/".to_owned())
    }
}

/// A failed registration: 422 (JSON) or the form with `message`.
pub open spec fn registration_error_spec(json: bool, message: Seq<char>) -> ReplyView {
    if json {
        ReplyView::Status(422)
    } else {
        render_with("auth/sign_up"@, "error"@, message)
    }
}

fn registration_error(json: bool, message: &str) -> (r: Reply)
    ensures
        r@ == registration_error_spec(json, message@),
{
    if json {
        Reply::Status(422)
    } else {
        render("auth/sign_up", "error", message)
    }
}

/// Before registering: a confirmation that differs from the password is
/// refused.
pub fn registration_check(json: bool, password: &str, confirmation: &Option<String>) -> (r: Option<Reply>)
    ensures
        match r {
            Some(reply) => (confirmation matches Some(c) && c@ != password@) && reply@
                == registration_error_spec(json, "Password confirmation does not match"@),
            None => !(confirmation matches Some(c) && c@ != password@),
        },
{
    if confirmation_mismatch(password, confirmation) {
        Some(registration_error(json, "Password confirmation does not match"))
    } else {
        None
    }
}

/// After registering: the user (JSON) or home; a taken email shows the
/// error; any other failure is passed on.
pub fn registration_reply(json: bool, outcome: Result<(), AuthError>) -> (r: Result<Reply, AuthError>)
    ensures
        match outcome {
            Ok(()) => r matches Ok(reply) && reply@ == if json {
                ReplyView::UserJson
            } else {
                ReplyView::Redirect("/"@)
            },
            Err(e) => if e@ == AuthErrorView::EmailTaken {
                r matches Ok(reply) && reply@ == registration_error_spec(json, "Email has already been taken"@)
            } else {
                r matches Err(f) && f@ == e@
            },
        },
{
    match outcome {
        Ok(()) => {
            if json {
                Ok(Reply::UserJson)
            } else {
                Ok(Reply::Redirect("/".to_owned()))
            }
        },
        Err(AuthError::EmailTaken) => Ok(registration_error(json, "Email has already been taken")),
        Err(e) => Err(e),
    }
}

/// A failed password update: 422 (JSON) or the edit form with `message`.
pub open spec fn password_error_spec(json: bool, message: Seq<char>) -> ReplyView {
    if json {
        ReplyView::Status(422)
    } else {
        render_with("auth/password_edit"@, "error"@, message)
    }
}

fn password_error(json: bool, message: &str) -> (r: Reply)
    ensures
        r@ == password_error_spec(json, message@),
{
    if json {
        Reply::Status(422)
    } else {
        render("auth/password_edit", "error", message)
    }
}

/// The answer to `POST password` whatever the email: it never tells whether
/// the account exists.
pub fn reset_requested_reply(json: bool) -> (r: Reply)
    ensures
        r@ == if json {
            ReplyView::JsonStatus("reset_email_sent"@)
        } else {
            render_with("auth/password_new"@, "notice"@, "If your email exists, reset instructions were sent."@)
        },
{
    if json {
        Reply::JsonStatus("reset_email_sent".to_owned())
    } else {
        render("auth/password_new", "notice", "If your email exists, reset instructions were sent.")
    }
}

/// Before resetting: a confirmation that differs from the password is
/// refused.
pub fn password_update_check(json: bool, password: &str, confirmation: &Option<String>) -> (r: Option<Reply>)
    ensures
        match r {
            Some(reply) => (confirmation matches Some(c) && c@ != password@) && reply@
                == password_error_spec(json, "Password confirmation does not match"@),
            None => !(confirmation matches Some(c) && c@ != password@),
        },
{
    if confirmation_mismatch(password, confirmation) {
        Some(password_error(json, "Password confirmation does not match"))
    } else {
        None
    }
}

/// After the reset was tried with the token: success answers
/// `password_reset` (JSON) or the sign-in page; a bad or expired token shows
/// the error.
pub fn password_updated_reply(json: bool, reset: bool) -> (r: Reply)
    ensures
        r@ == if !reset {
            password_error_spec(json, "Reset link is invalid or has expired"@)
        } else if json {
            ReplyView::JsonStatus("password_reset"@)
        } else {
            ReplyView::Redirect("/users/sign_in"@)
        },
{
    if !reset {
        password_error(json, "Reset link is invalid or has expired")
    } else if json {
        Reply::JsonStatus("password_reset".to_owned())
    } else {
        Reply::Redirect("/users/sign_in".to_owned())
    }
}

/// The answer to a confirmation link.
pub fn confirmation_reply(json: bool, confirmed: bool) -> (r: Reply)
    ensures
        r@ == if !confirmed {
            if json {
                ReplyView::Status(422)
            } else {
                render_with("auth/sign_in"@, "error"@, "Confirmation link is invalid or has expired"@)
            }
        } else if json {
            ReplyView::JsonStatus("confirmed"@)
        } else {
            ReplyView::Redirect("/users/sign_in"@)
        },
{
    if !confirmed {
        if json {
            Reply::Status(422)
        } else {
            render("auth/sign_in", "error", "Confirmation link is invalid or has expired")
        }
    } else if json {
        Reply::JsonStatus("confirmed".to_owned())
    } else {
        Reply::Redirect("/users/sign_in".to_owned())
    }
}

/// The answer to a resend request whatever the email.
pub fn confirmation_resent_reply(json: bool) -> (r: Reply)
    ensures
        r@ == if json {
            ReplyView::JsonStatus("confirmation_sent"@)
        } else {
            render_with("auth/sign_in"@, "notice"@, "If your email exists, a confirmation link was sent."@)
        },
{
    if json {
        Reply::JsonStatus("confirmation_sent".to_owned())
    } else {
        render("auth/sign_in", "notice", "If your email exists, a confirmation link was sent.")
    }
}

/// Whether a JSON sign-in answers with a JWT pair (the `jwt` strategy is
/// configured and its signer is ready) rather than a session cookie.
pub fn issues_tokens(config: &AuthConfig, jwt_ready: bool) -> (r: bool)
    ensures
        r == (strategy_names(*config).contains("jwt"@) && jwt_ready),
{
    let mut i: usize = 0;
    let ghost names = strategy_names(*config);
    while i < config.strategies.len()
        invariant
            i <= config.strategies@.len(),
            names == strategy_names(*config),
            forall|k: int| 0 <= k < i ==> names[k] != "jwt"@,
        decreases config.strategies@.len() - i,
    {
        assert(names[i as int] == config.strategies@[i as int]@);
        if crate::text::str_eq(config.strategies[i].as_str(), "jwt") {
            return jwt_ready;
        }
        i += 1;
    }
    false
}

/// A refused password update (a confirmation that does not match, or a
/// reset link that is invalid or expired) answers a JSON request with 422
/// Unprocessable Entity, whatever the message, just as a refused
/// registration does; it is never the JSON success answer.
pub proof fn refused_password_update_is_422(message: Seq<char>)
    ensures
        password_error_spec(true, message) == ReplyView::Status(422),
        password_error_spec(true, message) == registration_error_spec(true, message),
        password_error_spec(true, message) != ReplyView::JsonStatus("password_reset"@),
{
}

} // verus!
