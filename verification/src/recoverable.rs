//! `recoverable` module: password reset via an emailed token. The library
//! decides when the module applies, when a token is still fresh, and what the
//! email says; storage and delivery are the application's.

use vstd::prelude::*;
use crate::config::{AuthConfig, AuthModule, link_prefix, link_prefix_exec, module_active, module_on, opt_config};
use crate::mail::AuthMail;
use crate::text::{push_all, push_str, string_of};

verus! {

/// Whether the `recoverable` module is enabled in the installed config.
pub fn enabled(config: Option<&AuthConfig>) -> (r: bool)
    ensures
        r == module_on(opt_config(config), AuthModule::Recoverable),
{
    module_active(config, AuthModule::Recoverable)
}

/// The reset-token lifetime when the module is on.
pub fn reset_window(config: Option<&AuthConfig>) -> (r: Option<i64>)
    ensures
        match r {
            Some(w) => module_on(opt_config(config), AuthModule::Recoverable)
                && w == config->0.reset_password_within,
            None => !module_on(opt_config(config), AuthModule::Recoverable),
        },
{
    match config {
        Some(c) => if c.has_module(AuthModule::Recoverable) {
            Some(c.reset_password_within)
        } else {
            None
        },
        None => None,
    }
}

/// A token sent `elapsed` seconds ago is usable while `elapsed <= within`; a
/// token with no recorded send time is usable.
pub fn token_fresh(elapsed: Option<i64>, within: i64) -> (r: bool)
    ensures
        r == match elapsed {
            Some(e) => e <= within,
            None => true,
        },
{
    match elapsed {
        Some(e) => !(e > within),
        None => true,
    }
}

/// The reset link for `token`.
pub open spec fn reset_url(config: Option<AuthConfig>, token: Seq<char>) -> Seq<char> {
    link_prefix(config) + "/password/edit?reset_password_token="@ + token
}

/// The reset-instructions email body.
pub open spec fn reset_body(url: Seq<char>) -> Seq<char> {
    "Someone requested a password reset. Use this link to choose a new password:\n\n"@ + url
        + "\n\nIf you didn't request this, ignore this email."@
}

/// The reset-instructions email for `email` carrying `token`.
pub fn reset_mail(config: Option<&AuthConfig>, email: &str, token: &str) -> (r: AuthMail)
    ensures
        r.to@ == email@,
        r.subject@ == "Reset your password"@,
        r.body@ == reset_body(reset_url(opt_config(config), token@)),
{
    let mut url = link_prefix_exec(config);
    push_str(&mut url, "/password/edit?reset_password_token=");
    push_str(&mut url, token);
    let mut body: Vec<char> = Vec::new();
    push_str(
        &mut body,
        "Someone requested a password reset. Use this link to choose a new password:\n\n",
    );
    push_all(&mut body, &url);
    push_str(&mut body, "\n\nIf you didn't request this, ignore this email.");
    AuthMail { to: email.to_owned(), subject: "Reset your password".to_owned(), body: string_of(&body) }
}

/// The reset columns of a user row: its password digest, the pending reset
/// token and the time (in seconds) that token was sent.
#[derive(Debug, Clone, PartialEq, Eq)]
pub struct ResetColumns {
    pub password_digest: String,
    pub reset_password_token: Option<String>,
    pub reset_password_sent_at: Option<i64>,
}

/// The characters of a row's digest and token, and its send time.
pub open spec fn reset_view(c: ResetColumns) -> (Seq<char>, Option<Seq<char>>, Option<i64>) {
    (
        c.password_digest@,
        match c.reset_password_token {
            Some(t) => Some(t@),
            None => None,
        },
        c.reset_password_sent_at,
    )
}

/// A reset request for the user `row` (`None` when no user has the email)
/// with a fresh `token` at time `now`: when the module is on and the user
/// exists, the row holds the token sent `now` and the token is handed back;
/// otherwise nothing changes and no token is handed back.
pub fn request_reset(enabled: bool, row: Option<ResetColumns>, token: String, now: i64) -> (r: (
    Option<ResetColumns>,
    Option<String>,
))
    ensures
        match row {
            Some(c) if enabled => {
                &&& r.0 is Some
                &&& reset_view(r.0->0) == (c.password_digest@, Some(token@), Some(now))
                &&& r.1 is Some
                &&& r.1->0@ == token@
            },
            _ => r.0 == row && r.1 is None,
        },
{
    match row {
        Some(c) => if enabled {
            let t2 = token.clone();
            let updated = ResetColumns {
                password_digest: c.password_digest,
                reset_password_token: Some(token),
                reset_password_sent_at: Some(now),
            };
            (Some(updated), Some(t2))
        } else {
            (Some(c), None)
        },
        None => (None, None),
    }
}

/// A reset with the token held by `row` (`None` when no user holds it) to
/// the new `digest` at time `now`, with `window` the reset lifetime when the
/// module is on: succeeds when the module is on, a user holds the token and
/// it is fresh (see [`token_fresh`]); then the row takes the new digest and
/// loses the token and its send time. Otherwise nothing changes.
pub fn reset_password(window: Option<i64>, row: Option<ResetColumns>, digest: String, now: i64) -> (r: (
    Option<ResetColumns>,
    bool,
))
    requires
        row matches Some(c) && c.reset_password_sent_at matches Some(t) ==> i64::MIN <= now - t <= i64::MAX,
    ensures
        r.1 == (window is Some && row is Some && match row->0.reset_password_sent_at {
            Some(t) => now - t <= window->0,
            None => true,
        }),
        r.1 ==> r.0 is Some && reset_view(r.0->0) == (digest@, None::<Seq<char>>, None::<i64>),
        !r.1 ==> r.0 == row,
{
    let within = match window {
        Some(w) => w,
        None => return (row, false),
    };
    match row {
        None => (None, false),
        Some(c) => {
            let elapsed = match c.reset_password_sent_at {
                Some(t) => Some(now - t),
                None => None,
            };
            if token_fresh(elapsed, within) {
                (Some(ResetColumns { password_digest: digest, reset_password_token: None, reset_password_sent_at: None }), true)
            } else {
                (Some(c), false)
            }
        },
    }
}

} // verus!
