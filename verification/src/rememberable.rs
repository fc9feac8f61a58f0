//! `rememberable` module: a persistent "remember me" cookie.

use vstd::prelude::*;
use crate::config::{AuthConfig, AuthModule, module_active, module_on, opt_config};

verus! {

/// Signed cookie holding the remembered user id.
pub const REMEMBER_COOKIE: &'static str = "_doido_remember";

/// Whether the `rememberable` module is enabled in the installed config.
pub fn enabled(config: Option<&AuthConfig>) -> (r: bool)
    ensures
        r == module_on(opt_config(config), AuthModule::Rememberable),
{
    module_active(config, AuthModule::Rememberable)
}

/// Lifetime of the remember cookie: `auth.remember_for`, or two weeks before
/// boot.
pub fn remember_max_age(config: Option<&AuthConfig>) -> (r: i64)
    ensures
        r == match config {
            Some(c) => c.remember_for,
            None => 1_209_600,
        },
{
    match config {
        Some(c) => c.remember_for,
        None => 1_209_600,
    }
}

/// The strategy that signs a user back in from the remember cookie when no
/// session is present (it runs after the session and JWT strategies).
pub struct RememberStrategy;

impl RememberStrategy {
    /// The strategy's name in the chain.
    pub fn name(&self) -> (r: &'static str)
        ensures
            r@ == "remember"@,
    {
        "remember"
    }
}

} // verus!
