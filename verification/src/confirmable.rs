//! `confirmable` module: require email confirmation before sign-in. The
//! database reads and writes and the delivery are the application's; the
//! library decides when the module applies and what the email says.

use vstd::prelude::*;
use crate::config::{AuthConfig, AuthModule, link_prefix, link_prefix_exec, module_active, module_on, opt_config};
use crate::mail::AuthMail;
use crate::text::{push_all, push_str, string_of};

verus! {

/// Whether the `confirmable` module is enabled in the installed config.
pub fn is_enabled(config: Option<&AuthConfig>) -> (r: bool)
    ensures
        r == module_on(opt_config(config), AuthModule::Confirmable),
{
    module_active(config, AuthModule::Confirmable)
}

/// The confirmation link for `token`.
pub open spec fn confirmation_url(config: Option<AuthConfig>, token: Seq<char>) -> Seq<char> {
    link_prefix(config) + "/confirmation?confirmation_token="@ + token
}

/// The confirmation-instructions email body.
pub open spec fn confirmation_body(url: Seq<char>) -> Seq<char> {
    "Welcome! Confirm your email address to activate your account:\n\n"@ + url + "\n"@
}

/// The confirmation-instructions email for `email` carrying `token`.
pub fn confirmation_mail(config: Option<&AuthConfig>, email: &str, token: &str) -> (r: AuthMail)
    ensures
        r.to@ == email@,
        r.subject@ == "Confirm your email"@,
        r.body@ == confirmation_body(confirmation_url(opt_config(config), token@)),
{
    let mut url = link_prefix_exec(config);
    push_str(&mut url, "/confirmation?confirmation_token=");
    push_str(&mut url, token);
    let mut body: Vec<char> = Vec::new();
    push_str(&mut body, "Welcome! Confirm your email address to activate your account:\n\n");
    push_all(&mut body, &url);
    push_str(&mut body, "\n");
    AuthMail { to: email.to_owned(), subject: "Confirm your email".to_owned(), body: string_of(&body) }
}

} // verus!
