//! Test fixtures: an in-memory user and minimal auth configurations.

use vstd::prelude::*;
use crate::config::{
    AuthConfig, AuthModule, JwtConfig, config_check, default_module_set, default_settings, enabled_groups,
    first_strategy_error, groups_upto, strategy_names,
};
use crate::error::AuthErrorView;

verus! {

/// Simple in-memory user for auth tests.
#[derive(Debug, Clone, PartialEq, Eq)]
pub struct TestUser {
    pub id: i64,
    pub email: String,
    pub password_digest: String,
}

/// A minimal auth config for tests: the cookie strategy and only the
/// `database_authenticatable` module, so module behaviours stay off unless a
/// test enables them.
pub fn test_auth_config() -> (r: AuthConfig)
    ensures
        r.modules@ == seq![AuthModule::DatabaseAuthenticatable],
        r.strategies@.len() == 1,
        r.strategies@[0]@ == "cookie"@,
        r.jwt is None,
        default_settings(r),
        enabled_groups(r.modules@) == seq!["sessions"@],
        forall|registered: Set<Seq<char>>| #[trigger] config_check(r, registered) == Ok::<(), AuthErrorView>(()),
{
    let mut c = AuthConfig::default();
    c.modules = vec![AuthModule::DatabaseAuthenticatable];
    assert(c.modules@ =~= seq![AuthModule::DatabaseAuthenticatable]);
    proof {
        reveal_with_fuel(groups_upto, 12);
        reveal_strlit("cookie");
        assert(enabled_groups(c.modules@) =~= seq!["sessions"@]);
        assert(c.modules@.contains(AuthModule::DatabaseAuthenticatable));
        assert forall|registered: Set<Seq<char>>| #[trigger] config_check(c, registered) == Ok::<(), AuthErrorView>(()) by {
            reveal_with_fuel(first_strategy_error, 2);
            assert(strategy_names(c) =~= seq!["cookie"@]);
            assert(strategy_names(c).drop_first() =~= Seq::<Seq<char>>::empty());
        }
    }
    c
}

/// An auth config with the JWT strategy after the cookie strategy, signing
/// with `secret` (issuer `test`, default lifetimes).
pub fn test_jwt_auth_config(secret: &str) -> (r: AuthConfig)
    ensures
        r.modules@ == default_module_set(),
        r.strategies@.len() == 2,
        r.strategies@[0]@ == "cookie"@,
        r.strategies@[1]@ == "jwt"@,
        r.jwt is Some,
        r.jwt->0.secret@ == secret@,
        r.jwt->0.access_ttl == 900,
        r.jwt->0.refresh_ttl == 604_800,
        r.jwt->0.issuer is Some,
        r.jwt->0.issuer->0@ == "test"@,
        default_settings(r),
{
    let mut c = AuthConfig::default();
    let mut strategies: Vec<String> = Vec::new();
    strategies.push("cookie".to_owned());
    strategies.push("jwt".to_owned());
    c.strategies = strategies;
    c.jwt = Some(
        JwtConfig {
            secret: secret.to_owned(),
            access_ttl: 900,
            refresh_ttl: 604_800,
            issuer: Some("test".to_owned()),
        },
    );
    c
}

} // verus!
