//! The `auth:` configuration section: strategies, Devise-style modules, JWT,
//! OAuth providers, route paths and the numeric knobs of each module.

use vstd::prelude::*;
use crate::error::{AuthError, AuthErrorView, unit_result_view};
use crate::registry::StrategyRegistry;
use crate::text::{chars_of, push_str, str_eq, string_of, trim, trim_end_char, trim_end_char_exec, trim_str};

verus! {

/// Which auth strategies are enabled (consulted in order by extractors/layer).
#[derive(Debug, Clone, Copy, PartialEq, Eq, Structural)]
pub enum StrategyKind {
    Cookie,
    Jwt,
}

impl Default for StrategyKind {
    fn default() -> (r: Self)
        ensures
            r == StrategyKind::Cookie,
    {
        StrategyKind::Cookie
    }
}

/// Devise-style auth modules, declared under `auth.modules`.
///
/// A module toggles a coherent feature (its routes, its migration columns and
/// its runtime behaviour); strategies decide how a request is authenticated.
#[derive(Debug, Clone, Copy, PartialEq, Eq, Structural)]
pub enum AuthModule {
    /// Password authentication (email + `password_digest`). Effectively required.
    DatabaseAuthenticatable,
    /// Sign-up / account registration (`registrations` routes).
    Registerable,
    /// Password reset via emailed token (`passwords` routes).
    Recoverable,
    /// "Remember me" persistent cookie.
    Rememberable,
    /// Sign-in tracking (count, timestamps, IPs).
    Trackable,
    /// Session expiry after `auth.timeout` seconds.
    Timeoutable,
    /// Email/password format + length validation on registration.
    Validatable,
    /// Email confirmation before sign-in (`confirmation` routes).
    Confirmable,
    /// Lock an account after repeated failed sign-ins (`unlock` routes).
    Lockable,
    /// OAuth / social sign-in (`oauth` routes).
    Omniauthable,
    /// TOTP two-factor authentication.
    TwoFactorAuthenticatable,
}

/// All modules, in declaration order.
pub open spec fn all_modules() -> Seq<AuthModule> {
    seq![
        AuthModule::DatabaseAuthenticatable,
        AuthModule::Registerable,
        AuthModule::Recoverable,
        AuthModule::Rememberable,
        AuthModule::Trackable,
        AuthModule::Timeoutable,
        AuthModule::Validatable,
        AuthModule::Confirmable,
        AuthModule::Lockable,
        AuthModule::Omniauthable,
        AuthModule::TwoFactorAuthenticatable,
    ]
}

/// The snake_case name of a module.
pub open spec fn module_name(m: AuthModule) -> Seq<char> {
    match m {
        AuthModule::DatabaseAuthenticatable => "database_authenticatable"@,
        AuthModule::Registerable => "registerable"@,
        AuthModule::Recoverable => "recoverable"@,
        AuthModule::Rememberable => "rememberable"@,
        AuthModule::Trackable => "trackable"@,
        AuthModule::Timeoutable => "timeoutable"@,
        AuthModule::Validatable => "validatable"@,
        AuthModule::Confirmable => "confirmable"@,
        AuthModule::Lockable => "lockable"@,
        AuthModule::Omniauthable => "omniauthable"@,
        AuthModule::TwoFactorAuthenticatable => "two_factor_authenticatable"@,
    }
}

/// The route group a module mounts, if any.
pub open spec fn module_group(m: AuthModule) -> Option<Seq<char>> {
    match m {
        AuthModule::Registerable => Some("registrations"@),
        AuthModule::Recoverable => Some("passwords"@),
        AuthModule::Confirmable => Some("confirmation"@),
        AuthModule::Lockable => Some("unlock"@),
        AuthModule::Omniauthable => Some("oauth"@),
        AuthModule::TwoFactorAuthenticatable => Some("two_factor"@),
        _ => None,
    }
}

/// The module whose name is `s`, if any.
pub open spec fn module_named(s: Seq<char>) -> Option<AuthModule> {
    if exists|m: AuthModule| module_name(m) == s {
        Some(choose|m: AuthModule| module_name(m) == s)
    } else {
        None
    }
}

/// Distinct modules have distinct names.
pub proof fn lemma_module_name_injective(a: AuthModule, b: AuthModule)
    ensures
        module_name(a) == module_name(b) ==> a == b,
{
    reveal_strlit("database_authenticatable");
    reveal_strlit("registerable");
    reveal_strlit("recoverable");
    reveal_strlit("rememberable");
    reveal_strlit("trackable");
    reveal_strlit("timeoutable");
    reveal_strlit("validatable");
    reveal_strlit("confirmable");
    reveal_strlit("lockable");
    reveal_strlit("omniauthable");
    reveal_strlit("two_factor_authenticatable");
    if module_name(a) == module_name(b) && a != b {
        assert(module_name(a)[0] == module_name(b)[0]);
        assert(module_name(a)[2] == module_name(b)[2]);
        assert(module_name(a)[4] == module_name(b)[4]);
    }
}

/// Parsing a module's own name gives the module back.
pub proof fn lemma_module_name_roundtrip(m: AuthModule)
    ensures
        module_named(module_name(m)) == Some(m),
{
    let c = choose|x: AuthModule| module_name(x) == module_name(m);
    lemma_module_name_injective(c, m);
}

/// The route groups for the modules in `mods`, `sessions` first, then those of
/// the first `k` modules of [`all_modules`] in order.
pub open spec fn groups_upto(mods: Seq<AuthModule>, k: int) -> Seq<Seq<char>>
    decreases k,
{
    if k <= 0 {
        seq!["sessions"@]
    } else {
        let prev = groups_upto(mods, k - 1);
        let m = all_modules()[k - 1];
        if mods.contains(m) && module_group(m) is Some {
            prev.push(module_group(m)->0)
        } else {
            prev
        }
    }
}

/// The route groups mounted for the enabled modules `mods`.
pub open spec fn enabled_groups(mods: Seq<AuthModule>) -> Seq<Seq<char>> {
    groups_upto(mods, 11)
}

impl AuthModule {
    /// All modules, in declaration order.
    pub fn all() -> (r: Vec<AuthModule>)
        ensures
            r@ == all_modules(),
    {
        let r = vec![
            AuthModule::DatabaseAuthenticatable,
            AuthModule::Registerable,
            AuthModule::Recoverable,
            AuthModule::Rememberable,
            AuthModule::Trackable,
            AuthModule::Timeoutable,
            AuthModule::Validatable,
            AuthModule::Confirmable,
            AuthModule::Lockable,
            AuthModule::Omniauthable,
            AuthModule::TwoFactorAuthenticatable,
        ];
        assert(r@ =~= all_modules());
        r
    }

    /// The snake_case name used in config and generator flags.
    pub fn as_str(self) -> (r: &'static str)
        ensures
            r@ == module_name(self),
    {
        match self {
            AuthModule::DatabaseAuthenticatable => "database_authenticatable",
            AuthModule::Registerable => "registerable",
            AuthModule::Recoverable => "recoverable",
            AuthModule::Rememberable => "rememberable",
            AuthModule::Trackable => "trackable",
            AuthModule::Timeoutable => "timeoutable",
            AuthModule::Validatable => "validatable",
            AuthModule::Confirmable => "confirmable",
            AuthModule::Lockable => "lockable",
            AuthModule::Omniauthable => "omniauthable",
            AuthModule::TwoFactorAuthenticatable => "two_factor_authenticatable",
        }
    }

    /// Parse a module from its snake_case name.
    pub fn from_str(s: &str) -> (r: Option<AuthModule>)
        ensures
            r == module_named(s@),
    {
        let all = AuthModule::all();
        let mut i: usize = 0;
        while i < all.len()
            invariant
                i <= all.len(),
                all@ == all_modules(),
                forall|k: int| 0 <= k < i ==> module_name(all_modules()[k]) != s@,
            decreases all.len() - i,
        {
            let m = all[i];
            if str_eq(m.as_str(), s) {
                proof {
                    lemma_module_name_roundtrip(m);
                }
                return Some(m);
            }
            i += 1;
        }
        proof {
            assert forall|m: AuthModule| module_name(m) != s@ by {
                let k: int = match m {
                    AuthModule::DatabaseAuthenticatable => 0,
                    AuthModule::Registerable => 1,
                    AuthModule::Recoverable => 2,
                    AuthModule::Rememberable => 3,
                    AuthModule::Trackable => 4,
                    AuthModule::Timeoutable => 5,
                    AuthModule::Validatable => 6,
                    AuthModule::Confirmable => 7,
                    AuthModule::Lockable => 8,
                    AuthModule::Omniauthable => 9,
                    AuthModule::TwoFactorAuthenticatable => 10,
                };
                assert(all_modules()[k] == m);
            }
        }
        None
    }

    /// The route group this module mounts, if any. Behaviour-only modules
    /// (trackable, timeoutable, rememberable, validatable,
    /// database_authenticatable) mount none.
    pub fn route_group(self) -> (r: Option<&'static str>)
        ensures
            match r {
                Some(g) => module_group(self) == Some(g@),
                None => module_group(self) is None,
            },
    {
        match self {
            AuthModule::Registerable => Some("registrations"),
            AuthModule::Recoverable => Some("passwords"),
            AuthModule::Confirmable => Some("confirmation"),
            AuthModule::Lockable => Some("unlock"),
            AuthModule::Omniauthable => Some("oauth"),
            AuthModule::TwoFactorAuthenticatable => Some("two_factor"),
            _ => None,
        }
    }
}

/// JWT bearer settings from the `auth.jwt` section.
#[derive(Debug, Clone)]
pub struct JwtConfig {
    pub secret: String,
    pub access_ttl: u64,
    pub refresh_ttl: u64,
    pub issuer: Option<String>,
}

/// Default access-token lifetime: 15 minutes.
pub fn default_access_ttl() -> (r: u64)
    ensures
        r == 900,
{
    900
}

/// Default refresh-token lifetime: one week.
pub fn default_refresh_ttl() -> (r: u64)
    ensures
        r == 604_800,
{
    604_800
}

/// What validating a JWT config yields.
pub open spec fn jwt_check(secret: Seq<char>) -> Result<(), AuthErrorView> {
    if trim(secret).len() == 0 {
        Err(AuthErrorView::Config("auth.jwt.secret must not be empty"@))
    } else {
        Ok(())
    }
}

impl JwtConfig {
    /// The secret must hold a non-whitespace character.
    pub fn validate(&self) -> (r: Result<(), AuthError>)
        ensures
            unit_result_view(r) == jwt_check(self.secret@),
    {
        let t = trim_str(self.secret.as_str());
        if t.len() == 0 {
            return Err(AuthError::Config("auth.jwt.secret must not be empty".to_owned()));
        }
        Ok(())
    }
}

/// OAuth provider type.
#[derive(Debug, Clone, Copy, PartialEq, Eq, Structural)]
pub enum OAuthProviderType {
    Oauth1,
    Oauth2,
}

/// One OAuth/OAuth2 provider entry under `auth.oauth`.
#[derive(Debug, Clone)]
pub struct OAuthProviderConfig {
    pub provider_type: OAuthProviderType,
    pub client_id: Option<String>,
    pub client_secret: Option<String>,
    pub consumer_key: Option<String>,
    pub consumer_secret: Option<String>,
    pub redirect_uri: Option<String>,
    pub scopes: Vec<String>,
    pub authorize_url: Option<String>,
    pub token_url: Option<String>,
}

/// Two-factor settings from `auth.two_factor`.
#[derive(Debug, Clone)]
pub struct TwoFactorConfig {
    pub enabled: bool,
    pub issuer: Option<String>,
}

impl Default for TwoFactorConfig {
    fn default() -> (r: Self)
        ensures
            !r.enabled,
            r.issuer is None,
    {
        TwoFactorConfig { enabled: false, issuer: None }
    }
}

/// Devise-style route prefix and path segments.
#[derive(Debug, Clone)]
pub struct AuthRoutesConfig {
    pub prefix: String,
    pub sign_in: String,
    pub sign_out: String,
    pub sign_up: String,
    pub password_reset: String,
}

/// Default route prefix.
pub fn default_prefix() -> (r: String)
    ensures
        r@ == "/users"@,
{
    "/users".to_owned()
}

/// Default sign-in segment.
pub fn default_sign_in() -> (r: String)
    ensures
        r@ == "sign_in"@,
{
    "sign_in".to_owned()
}

/// Default sign-out segment.
pub fn default_sign_out() -> (r: String)
    ensures
        r@ == "sign_out"@,
{
    "sign_out".to_owned()
}

/// Default sign-up segment.
pub fn default_sign_up() -> (r: String)
    ensures
        r@ == "sign_up"@,
{
    "sign_up".to_owned()
}

/// Default password-reset segment.
pub fn default_password_reset() -> (r: String)
    ensures
        r@ == "password"@,
{
    "password".to_owned()
}

impl Default for AuthRoutesConfig {
    fn default() -> (r: Self)
        ensures
            r.prefix@ == "/users"@,
            r.sign_in@ == "sign_in"@,
            r.sign_out@ == "sign_out"@,
            r.sign_up@ == "sign_up"@,
            r.password_reset@ == "password"@,
    {
        AuthRoutesConfig {
            prefix: default_prefix(),
            sign_in: default_sign_in(),
            sign_out: default_sign_out(),
            sign_up: default_sign_up(),
            password_reset: default_password_reset(),
        }
    }
}

/// `prefix` without trailing slashes, a slash, then `segment`.
pub open spec fn route_path(prefix: Seq<char>, segment: Seq<char>) -> Seq<char> {
    trim_end_char(prefix, '/') + seq!['/'] + segment
}

/// Builds `route_path(prefix, segment)`.
fn prefixed(prefix: &String, segment: &String) -> (r: String)
    ensures
        r@ == route_path(prefix@, segment@),
{
    let p = chars_of(prefix.as_str());
    let mut out = trim_end_char_exec(&p, '/');
    out.push('/');
    push_str(&mut out, segment.as_str());
    string_of(&out)
}

impl AuthRoutesConfig {
    pub fn sign_in_path(&self) -> (r: String)
        ensures
            r@ == route_path(self.prefix@, self.sign_in@),
    {
        prefixed(&self.prefix, &self.sign_in)
    }

    pub fn sign_out_path(&self) -> (r: String)
        ensures
            r@ == route_path(self.prefix@, self.sign_out@),
    {
        prefixed(&self.prefix, &self.sign_out)
    }

    pub fn sign_up_path(&self) -> (r: String)
        ensures
            r@ == route_path(self.prefix@, self.sign_up@),
    {
        prefixed(&self.prefix, &self.sign_up)
    }

    pub fn password_path(&self) -> (r: String)
        ensures
            r@ == route_path(self.prefix@, self.password_reset@),
    {
        prefixed(&self.prefix, &self.password_reset)
    }
}

/// Full auth configuration from the `auth` section.
///
/// OAuth providers are held as `(name, config)` pairs.
#[derive(Debug, Clone)]
pub struct AuthConfig {
    pub user_model: Option<String>,
    pub modules: Vec<AuthModule>,
    pub strategies: Vec<String>,
    pub jwt: Option<JwtConfig>,
    pub oauth: Vec<(String, OAuthProviderConfig)>,
    pub two_factor: TwoFactorConfig,
    /// Session timeout in seconds for the `timeoutable` module.
    pub timeout: u64,
    /// Minimum password length enforced by the `validatable` module.
    pub password_length: usize,
    /// Failed sign-in attempts before `lockable` locks an account.
    pub maximum_attempts: u32,
    /// Seconds a `lockable` account stays locked before auto-unlocking.
    pub unlock_in: i64,
    /// Seconds a `recoverable` password-reset token stays valid.
    pub reset_password_within: i64,
    /// Seconds a `rememberable` "remember me" cookie persists.
    pub remember_for: i64,
    pub routes: AuthRoutesConfig,
}

/// The default strategy list: `cookie` only.
pub fn default_strategies() -> (r: Vec<String>)
    ensures
        r@.len() == 1,
        r@[0]@ == "cookie"@,
{
    let mut v: Vec<String> = Vec::new();
    v.push("cookie".to_owned());
    v
}

/// Devise's default module set.
pub open spec fn default_module_set() -> Seq<AuthModule> {
    seq![
        AuthModule::DatabaseAuthenticatable,
        AuthModule::Registerable,
        AuthModule::Recoverable,
        AuthModule::Rememberable,
        AuthModule::Validatable,
    ]
}

/// Devise's default module set for a generated model.
pub fn default_modules() -> (r: Vec<AuthModule>)
    ensures
        r@ == default_module_set(),
{
    let r = vec![
        AuthModule::DatabaseAuthenticatable,
        AuthModule::Registerable,
        AuthModule::Recoverable,
        AuthModule::Rememberable,
        AuthModule::Validatable,
    ];
    assert(r@ =~= default_module_set());
    r
}

/// Default session timeout: 30 minutes.
pub fn default_timeout() -> (r: u64)
    ensures
        r == 1_800,
{
    1_800
}

/// Default minimum password length.
pub fn default_password_length() -> (r: usize)
    ensures
        r == 6,
{
    6
}

/// Default failed attempts before locking.
pub fn default_maximum_attempts() -> (r: u32)
    ensures
        r == 20,
{
    20
}

/// Default lock duration: one hour.
pub fn default_unlock_in() -> (r: i64)
    ensures
        r == 3_600,
{
    3_600
}

/// Default reset-token validity: six hours.
pub fn default_reset_within() -> (r: i64)
    ensures
        r == 21_600,
{
    21_600
}

/// Default remember-me duration: two weeks.
pub fn default_remember_for() -> (r: i64)
    ensures
        r == 1_209_600,
{
    1_209_600
}

/// The configuration every omitted field defaults to.
pub open spec fn is_default_config(c: AuthConfig) -> bool {
    &&& c.modules@ == default_module_set()
    &&& c.strategies@.len() == 1
    &&& c.strategies@[0]@ == "cookie"@
    &&& c.jwt is None
    &&& default_settings(c)
}

/// Every setting other than the modules, the strategies and the JWT section
/// has its default.
pub open spec fn default_settings(c: AuthConfig) -> bool {
    &&& c.user_model is None
    &&& c.oauth@.len() == 0
    &&& !c.two_factor.enabled
    &&& c.two_factor.issuer is None
    &&& c.timeout == 1_800
    &&& c.password_length == 6
    &&& c.maximum_attempts == 20
    &&& c.unlock_in == 3_600
    &&& c.reset_password_within == 21_600
    &&& c.remember_for == 1_209_600
    &&& c.routes.prefix@ == "/users"@
    &&& c.routes.sign_in@ == "sign_in"@
    &&& c.routes.sign_out@ == "sign_out"@
    &&& c.routes.sign_up@ == "sign_up"@
    &&& c.routes.password_reset@ == "password"@
}

impl Default for AuthConfig {
    fn default() -> (r: Self)
        ensures
            is_default_config(r),
    {
        AuthConfig {
            user_model: None,
            modules: default_modules(),
            strategies: default_strategies(),
            jwt: None,
            oauth: Vec::new(),
            two_factor: TwoFactorConfig::default(),
            timeout: default_timeout(),
            password_length: default_password_length(),
            maximum_attempts: default_maximum_attempts(),
            unlock_in: default_unlock_in(),
            reset_password_within: default_reset_within(),
            remember_for: default_remember_for(),
            routes: AuthRoutesConfig::default(),
        }
    }
}

/// The characters of each strategy name.
pub open spec fn strategy_names(c: AuthConfig) -> Seq<Seq<char>> {
    c.strategies@.map_values(|s: String| s@)
}

/// The error the strategy named `name` raises, if any.
pub open spec fn strategy_error(
    name: Seq<char>,
    jwt: Option<JwtConfig>,
    registered: Set<Seq<char>>,
) -> Option<AuthErrorView> {
    if name == "cookie"@ {
        None
    } else if name == "jwt"@ {
        match jwt {
            None => Some(
                AuthErrorView::Config("auth.jwt section required when jwt strategy is enabled"@),
            ),
            Some(j) => match jwt_check(j.secret@) {
                Err(e) => Some(e),
                Ok(_) => None,
            },
        }
    } else if registered.contains(name) {
        None
    } else {
        Some(AuthErrorView::UnknownStrategy(name))
    }
}

/// The first error among the strategies `names`, in order.
pub open spec fn first_strategy_error(
    names: Seq<Seq<char>>,
    jwt: Option<JwtConfig>,
    registered: Set<Seq<char>>,
) -> Option<AuthErrorView>
    decreases names.len(),
{
    if names.len() == 0 {
        None
    } else {
        match strategy_error(names[0], jwt, registered) {
            Some(e) => Some(e),
            None => first_strategy_error(names.drop_first(), jwt, registered),
        }
    }
}

/// What validating a configuration yields against the registered names.
pub open spec fn config_check(c: AuthConfig, registered: Set<Seq<char>>) -> Result<(), AuthErrorView> {
    match first_strategy_error(strategy_names(c), c.jwt, registered) {
        Some(e) => Err(e),
        None => if !c.modules@.contains(AuthModule::DatabaseAuthenticatable) {
            Err(AuthErrorView::Config("auth.modules must include database_authenticatable"@))
        } else {
            Ok(())
        },
    }
}

/// The strategy kinds named in `names`, in order, unknown names skipped.
pub open spec fn kinds_of(names: Seq<Seq<char>>) -> Seq<StrategyKind>
    decreases names.len(),
{
    if names.len() == 0 {
        seq![]
    } else {
        let rest = kinds_of(names.drop_first());
        if names[0] == "cookie"@ {
            seq![StrategyKind::Cookie] + rest
        } else if names[0] == "jwt"@ {
            seq![StrategyKind::Jwt] + rest
        } else {
            rest
        }
    }
}

impl AuthConfig {
    /// Returns whether `module` is enabled.
    pub fn has_module(&self, module: AuthModule) -> (r: bool)
        ensures
            r == self.modules@.contains(module),
    {
        let mut i: usize = 0;
        while i < self.modules.len()
            invariant
                i <= self.modules.len(),
                forall|k: int| 0 <= k < i ==> self.modules@[k] != module,
            decreases self.modules.len() - i,
        {
            if self.modules[i] == module {
                assert(self.modules@[i as int] == module);
                return true;
            }
            i += 1;
        }
        false
    }

    /// The route groups for the enabled modules in a stable order, `sessions`
    /// first. Used for the `only:` list and to gate the runtime route mounter.
    pub fn enabled_route_groups(&self) -> (r: Vec<&'static str>)
        ensures
            r@.len() == enabled_groups(self.modules@).len(),
            forall|k: int| 0 <= k < r@.len() ==> #[trigger] r@[k]@ == enabled_groups(self.modules@)[k],
    {
        let mut groups: Vec<&'static str> = Vec::new();
        groups.push("sessions");
        let all = AuthModule::all();
        let mut i: usize = 0;
        while i < all.len()
            invariant
                i <= all.len(),
                all@ == all_modules(),
                groups@.len() == groups_upto(self.modules@, i as int).len(),
                forall|k: int| 0 <= k < groups@.len() ==> #[trigger] groups@[k]@ == groups_upto(self.modules@, i as int)[k],
            decreases all.len() - i,
        {
            let module = all[i];
            if self.has_module(module) {
                if let Some(group) = module.route_group() {
                    groups.push(group);
                }
            }
            i += 1;
        }
        groups
    }

    /// Validate required secrets, strategy-specific settings and module
    /// coherence. Custom strategy names are looked up in `registered`.
    ///
    /// Two-factor support is part of this library, so a configuration that
    /// lists `two_factor_authenticatable` is not refused for it.
    pub fn validate(&self, registered: &StrategyRegistry) -> (r: Result<(), AuthError>)
        ensures
            unit_result_view(r) == config_check(*self, registered.name_set()),
    {
        let mut i: usize = 0;
        assert(strategy_names(*self).skip(0) =~= strategy_names(*self));
        while i < self.strategies.len()
            invariant
                i <= self.strategies.len(),
                first_strategy_error(strategy_names(*self), self.jwt, registered.name_set())
                    == first_strategy_error(
                    strategy_names(*self).skip(i as int),
                    self.jwt,
                    registered.name_set(),
                ),
            decreases self.strategies.len() - i,
        {
            let ghost names = strategy_names(*self).skip(i as int);
            assert(names[0] == self.strategies@[i as int]@);
            assert(names.drop_first() =~= strategy_names(*self).skip(i + 1));
            let name = self.strategies[i].as_str();
            if str_eq(name, "cookie") {
            } else if str_eq(name, "jwt") {
                match &self.jwt {
                    None => {
                        return Err(
                            AuthError::Config(
                                "auth.jwt section required when jwt strategy is enabled".to_owned(),
                            ),
                        );
                    },
                    Some(jwt) => {
                        let checked = jwt.validate();
                        if checked.is_err() {
                            return checked;
                        }
                    },
                }
            } else if !registered.contains(name) {
                return Err(AuthError::UnknownStrategy(name.to_owned()));
            }
            i += 1;
        }
        assert(strategy_names(*self).skip(i as int) =~= Seq::<Seq<char>>::empty());
        if !self.has_module(AuthModule::DatabaseAuthenticatable) {
            return Err(
                AuthError::Config("auth.modules must include database_authenticatable".to_owned()),
            );
        }
        Ok(())
    }

    /// The known strategy kinds among the configured strategy names.
    pub fn strategy_kinds(&self) -> (r: Vec<StrategyKind>)
        ensures
            r@ == kinds_of(strategy_names(*self)),
    {
        let mut out: Vec<StrategyKind> = Vec::new();
        let mut i: usize = self.strategies.len();
        assert(strategy_names(*self).skip(i as int) =~= Seq::<Seq<char>>::empty());
        while i > 0
            invariant
                i <= self.strategies.len(),
                out@ == kinds_of(strategy_names(*self).skip(i as int)),
            decreases i,
        {
            i -= 1;
            let ghost names = strategy_names(*self).skip(i as int);
            assert(names.drop_first() =~= strategy_names(*self).skip(i + 1));
            assert(names[0] == self.strategies@[i as int]@);
            let name = self.strategies[i].as_str();
            if str_eq(name, "cookie") {
                out.insert(0, StrategyKind::Cookie);
            } else if str_eq(name, "jwt") {
                out.insert(0, StrategyKind::Jwt);
            }
            assert(out@ =~= kinds_of(names));
        }
        assert(strategy_names(*self).skip(0) =~= strategy_names(*self));
        out
    }
}

/// File-based config wrapper: only the `auth` section is read.
#[derive(Debug, Clone)]
pub struct YamlConfig {
    pub auth: AuthConfig,
}

impl Default for YamlConfig {
    fn default() -> (r: Self)
        ensures
            is_default_config(r.auth),
    {
        YamlConfig { auth: AuthConfig::default() }
    }
}

/// The config of the installed auth state, as a value (`None` before boot).
pub open spec fn opt_config(config: Option<&AuthConfig>) -> Option<AuthConfig> {
    match config {
        Some(c) => Some(*c),
        None => None,
    }
}

/// Whether module `m` is on in the installed config (off before boot).
pub open spec fn module_on(config: Option<AuthConfig>, m: AuthModule) -> bool {
    match config {
        Some(c) => c.modules@.contains(m),
        None => false,
    }
}

/// Whether module `m` is on in the installed config (`None` before boot).
pub fn module_active(config: Option<&AuthConfig>, m: AuthModule) -> (r: bool)
    ensures
        r == module_on(opt_config(config), m),
{
    match config {
        Some(c) => c.has_module(m),
        None => false,
    }
}

/// The route prefix mails link under: the configured prefix without trailing
/// slashes, or `/users` before boot.
pub open spec fn link_prefix(config: Option<AuthConfig>) -> Seq<char> {
    match config {
        Some(c) => trim_end_char(c.routes.prefix@, '/'),
        None => "/users"@,
    }
}

/// Builds [`link_prefix`].
pub fn link_prefix_exec(config: Option<&AuthConfig>) -> (r: Vec<char>)
    ensures
        r@ == link_prefix(opt_config(config)),
{
    match config {
        Some(c) => trim_end_char_exec(&chars_of(c.routes.prefix.as_str()), '/'),
        None => chars_of("/users"),
    }
}

} // verus!
