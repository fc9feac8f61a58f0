use doido_auth::chat::{login_reply, other_users, parse_i64, parse_id, shows_conversation, UserSummary};
use doido_auth::config::{AuthConfig, AuthModule, JwtConfig, OAuthProviderConfig, OAuthProviderType};
use doido_auth::confirmable::confirmation_mail;
use doido_auth::controllers::{
    confirmation_reply, issues_tokens, registration_check, registration_reply, sign_in_reply, sign_out_reply, Reply,
};
use doido_auth::error::AuthError;
use doido_auth::extractors::AuthToken;
use doido_auth::forms::{confirmation_mismatch, is_truthy};
use doido_auth::jwt::{authenticate_bearer, bearer_token, issue_tokens, token_pair, verify_token};
use doido_auth::lockable::{
    ensure_not_locked, lock_check, record_failure, reset_attempts, settings, should_lock, LockCheck, LockColumns,
};
use doido_auth::oauth::{find_provider, providers_from_config, url_encode, OAuth2Provider};
use doido_auth::recoverable::{request_reset, reset_mail, reset_password, token_fresh, ResetColumns};
use doido_auth::registry::{has_strategy, register_strategy, registered_strategies, StrategyRegistry};
use doido_auth::rememberable::{remember_max_age, RememberStrategy};
use doido_auth::route_plan::{has_api_only, join_path, module_enabled, mount_routes, plan_auth_routes, route_specs};
use doido_auth::session::{clear_session_cookie, find_cookie, is_session_expired, session_cookie};
use doido_auth::state::{strategy_chain, StrategySlot};
use doido_auth::testing::{test_auth_config, test_jwt_auth_config};
use doido_auth::two_factor::{enroll, enrollment_for, rand_secret, secret_from_uuids, verify_code};

fn jwt_config(secret: &str) -> JwtConfig {
    JwtConfig { secret: secret.to_string(), access_ttl: 900, refresh_ttl: 1_209_600, issuer: None }
}

fn github() -> OAuthProviderConfig {
    OAuthProviderConfig {
        provider_type: OAuthProviderType::Oauth2,
        client_id: Some("id 1".to_string()),
        client_secret: Some("s3cret".to_string()),
        consumer_key: None,
        consumer_secret: None,
        redirect_uri: Some("https://app.test/auth/github/callback".to_string()),
        scopes: vec!["read:user".to_string(), "user:email".to_string()],
        authorize_url: Some("https://github.com/login/oauth/authorize".to_string()),
        token_url: Some("https://github.com/login/oauth/access_token".to_string()),
    }
}

#[test]
fn module_names_round_trip() {
    let all = AuthModule::all();
    assert_eq!(all.len(), 11);
    for m in all {
        assert_eq!(AuthModule::from_str(m.as_str()), Some(m));
    }
    assert_eq!(AuthModule::from_str("nope"), None);
    assert_eq!(AuthModule::Registerable.route_group(), Some("registrations"));
}

#[test]
fn config_validation_errors() {
    let reg = StrategyRegistry::new();
    let mut c = test_auth_config();
    assert_eq!(c.validate(&reg), Ok(()));
    c.strategies = vec!["cookie".to_string(), "jwt".to_string()];
    assert_eq!(
        c.validate(&reg),
        Err(AuthError::Config("auth.jwt section required when jwt strategy is enabled".to_string()))
    );
    c.jwt = Some(jwt_config("  "));
    assert_eq!(c.validate(&reg), Err(AuthError::Config("auth.jwt.secret must not be empty".to_string())));
    c.jwt = Some(jwt_config("k"));
    assert_eq!(c.validate(&reg), Ok(()));
    c.strategies.push("ldap".to_string());
    assert_eq!(c.validate(&reg), Err(AuthError::UnknownStrategy("ldap".to_string())));
    let mut reg2 = StrategyRegistry::new();
    register_strategy(&mut reg2, "ldap".to_string());
    assert_eq!(c.validate(&reg2), Ok(()));
    c.modules = vec![AuthModule::Registerable];
    assert_eq!(
        c.validate(&reg2),
        Err(AuthError::Config("auth.modules must include database_authenticatable".to_string()))
    );
}

#[test]
fn registry_sorted_and_deduplicated() {
    let mut reg = StrategyRegistry::new();
    for n in ["zeta", "alpha", "Mid", "alpha", "alp"] {
        register_strategy(&mut reg, n.to_string());
    }
    assert!(has_strategy(&reg, "alpha"));
    assert!(!has_strategy(&reg, "beta"));
    assert_eq!(registered_strategies(&reg), vec!["Mid", "alp", "alpha", "zeta"]);
}

#[test]
fn strategy_chain_follows_config_order() {
    let mut reg = StrategyRegistry::new();
    register_strategy(&mut reg, "ldap".to_string());
    let mut c = test_jwt_auth_config("secret");
    c.strategies = vec!["ldap".to_string(), "jwt".to_string(), "cookie".to_string()];
    let chain = strategy_chain(&c, &reg).unwrap();
    assert_eq!(chain.len(), 3);
    assert!(matches!(&chain[0], StrategySlot::Custom(n) if n == "ldap"));
    assert!(matches!(chain[1], StrategySlot::Jwt));
    assert!(matches!(chain[2], StrategySlot::Cookie));
    let empty = StrategyRegistry::new();
    assert!(matches!(strategy_chain(&c, &empty), Err(AuthError::UnknownStrategy(_))));
}

#[test]
fn route_paths_and_groups() {
    assert_eq!(join_path("/users/", "/sign_in"), "/users/sign_in");
    assert_eq!(join_path("/users", ""), "/users");
    let c = AuthConfig::default();
    assert_eq!(c.routes.sign_in_path(), "/users/sign_in");
    assert_eq!(c.routes.password_path(), "/users/password");
    assert_eq!(c.enabled_route_groups(), vec!["sessions", "registrations", "passwords"]);
    assert!(module_enabled("sessions", &None, &None));
    assert!(!module_enabled("sessions", &Some(vec!["passwords".to_string()]), &None));
    assert!(!module_enabled("passwords", &None, &Some(vec!["passwords".to_string()])));
    assert!(has_api_only("[app]\napi_only = TRUE # json\n"));
    assert!(!has_api_only("api_only = false\n# api_only = true\n"));
    let all = route_specs("/accounts/");
    assert!(all.iter().all(|r| r.path.starts_with("/accounts/") || r.path.starts_with("/auth/")));
    assert!(all.iter().any(|r| r.path == "/accounts/sign_in"));
    let only_sessions = plan_auth_routes(None, &Some(vec!["sessions".to_string()]), &None, false);
    assert!(only_sessions.iter().all(|r| r.module == "sessions"));
    assert!(only_sessions.iter().any(|r| r.path == "/users/sign_in" && r.method == "POST"));
    let api = plan_auth_routes(None, &None, &None, true);
    assert!(api.iter().all(|r| !r.html_only));
    assert!(api.len() < route_specs("/users").len());
}

#[test]
fn session_cookies_and_timeout() {
    assert_eq!(session_cookie("abc"), "_doido_session=abc; Path=/; HttpOnly; SameSite=Lax");
    assert_eq!(clear_session_cookie(), "_doido_session=; Path=/; Max-Age=0; HttpOnly; SameSite=Lax");
    assert_eq!(find_cookie("a=1; _doido_session=x=y ; b", "_doido_session"), Some("x=y".to_string()));
    assert_eq!(find_cookie("a=1", "_doido_session"), None);
    let issued = session_cookie("c2Vzc2lvbg==");
    assert_eq!(find_cookie(&issued, "_doido_session"), Some("c2Vzc2lvbg==".to_string()));
    assert_eq!(find_cookie("_doido_session=c2Vzc2lvbg==", "_doido_session"), Some("c2Vzc2lvbg==".to_string()));
    let mut c = test_auth_config();
    assert!(!is_session_expired(Some(&c), Some(0), 10_000));
    c.modules.push(AuthModule::Timeoutable);
    c.timeout = 1800;
    assert!(is_session_expired(Some(&c), Some(0), 1801));
    assert!(!is_session_expired(Some(&c), Some(0), 1800));
    assert!(!is_session_expired(Some(&c), None, 1_000_000));
    assert!(!is_session_expired(None, Some(0), 1_000_000));
}

#[test]
fn lockable_decisions() {
    let mut c = test_auth_config();
    assert!(settings(Some(&c)).is_none());
    c.modules.push(AuthModule::Lockable);
    c.maximum_attempts = 3;
    c.unlock_in = 60;
    let s = settings(Some(&c)).unwrap();
    assert!(!should_lock(2, s));
    assert!(should_lock(3, s));
    assert!(should_lock(-1, s));
    assert_eq!(lock_check(s, None), LockCheck::Allow);
    assert_eq!(lock_check(s, Some(59)), LockCheck::Locked);
    assert_eq!(lock_check(s, Some(60)), LockCheck::Unlock);
}

#[test]
fn recovery_and_confirmation_mail() {
    assert!(token_fresh(Some(10), 10));
    assert!(!token_fresh(Some(11), 10));
    assert!(token_fresh(None, 10));
    let m = reset_mail(None, "a@b.c", "tok");
    assert_eq!(m.to, "a@b.c");
    assert_eq!(m.subject, "Reset your password");
    assert_eq!(
        m.body,
        "Someone requested a password reset. Use this link to choose a new password:\n\n/users/password/edit?reset_password_token=tok\n\nIf you didn't request this, ignore this email."
    );
    let mut c = test_auth_config();
    c.routes.prefix = "/accounts/".to_string();
    let cm = confirmation_mail(Some(&c), "a@b.c", "t1");
    assert!(cm.body.contains("/accounts/confirmation?confirmation_token=t1"));
    c.modules.push(AuthModule::Rememberable);
    c.remember_for = 42;
    assert_eq!(remember_max_age(Some(&c)), 42);
    assert_eq!(RememberStrategy.name(), "remember");
}

#[test]
fn oauth_urls_and_token_requests() {
    assert_eq!(url_encode("a b&c/é~"), "a%20b%26c%2F%C3%A9~");
    let p = OAuth2Provider::new("github".to_string(), github());
    assert_eq!(p.name(), "github");
    assert_eq!(
        p.authorize_url("st 8").unwrap(),
        "https://github.com/login/oauth/authorize?client_id=id%201&redirect_uri=https%3A%2F%2Fapp.test%2Fauth%2Fgithub%2Fcallback&response_type=code&state=st%208&scope=read%3Auser%20user%3Aemail"
    );
    let req = p.token_request("c0de").unwrap();
    assert_eq!(req.url, "https://github.com/login/oauth/access_token");
    assert_eq!(
        req.body,
        "grant_type=authorization_code&code=c0de&redirect_uri=https://app.test/auth/github/callback&client_id=id 1&client_secret=s3cret"
    );
    let mut broken = github();
    broken.client_id = None;
    let b = OAuth2Provider::new("x".to_string(), broken);
    assert_eq!(b.authorize_url("s"), Err(AuthError::OAuth("missing client_id".to_string())));
    let providers = providers_from_config(&vec![("github".to_string(), github())]);
    assert_eq!(providers.len(), 1);
}

#[test]
fn bearer_tokens_and_pairs() {
    assert_eq!(bearer_token(Some("Bearer abc.def")), Some("abc.def".to_string()));
    assert_eq!(bearer_token(Some("Bearer   ")), None);
    assert_eq!(bearer_token(Some("Basic abc")), None);
    assert_eq!(bearer_token(None), None);
    assert_eq!(AuthToken::from_authorization(Some("Bearer  t ")), Ok(AuthToken("t".to_string())));
    assert_eq!(AuthToken::from_authorization(Some("bearer t")), Err(AuthError::InvalidToken));
    let pair = token_pair("a".to_string(), "r".to_string(), &jwt_config("k"));
    assert_eq!(pair.token_type, "Bearer");
    assert_eq!(pair.expires_in, 900);
}

#[test]
fn error_messages_and_statuses() {
    let cases = [
        (AuthError::InvalidCredentials, "auth: invalid credentials", 401),
        (AuthError::EmailTaken, "auth: email already taken", 422),
        (AuthError::Validation("x".to_string()), "auth: x", 422),
        (AuthError::NotConfirmed, "auth: email not confirmed", 403),
        (AuthError::AccountLocked, "auth: account locked", 403),
        (AuthError::Unauthorized, "auth: unauthorized", 401),
        (AuthError::InvalidToken, "auth: invalid token", 401),
        (AuthError::Jwt("exp".to_string()), "auth: jwt error: exp", 500),
        (AuthError::OAuth("o".to_string()), "auth: oauth error: o", 500),
        (AuthError::TwoFactor("t".to_string()), "auth: two-factor error: t", 500),
        (AuthError::Config("c".to_string()), "auth: config error: c", 500),
        (AuthError::UnknownStrategy("s".to_string()), "auth: unknown strategy: s", 500),
        (AuthError::Internal("i".to_string()), "auth: internal error: i", 500),
    ];
    for (e, msg, status) in cases {
        assert_eq!(e.message(), msg);
        assert_eq!(e.status_code(), status);
    }
}

#[test]
fn two_factor_enroll_and_verify() {
    let e = enrollment_for("a@b.c", "MyApp", &[0u8; 20]);
    assert_eq!(e.secret, "AAAAAAAAAAAAAAAAAAAAAAAAAAA=");
    assert_eq!(
        e.otpauth_uri,
        "otpauth://totp/MyApp:a@b.c?secret=AAAAAAAAAAAAAAAAAAAAAAAAAAA=&issuer=MyApp&algorithm=SHA1&digits=6&period=30"
    );
    let code = totp_lite::totp_custom::<totp_lite::Sha1>(30, 6, &[0u8; 20], 0);
    assert_eq!(verify_code(&e.secret, &code), Ok(true));
    let other = if code == "000000" { "111111" } else { "000000" };
    assert_eq!(verify_code(&e.secret, other), Ok(false));
    assert!(matches!(verify_code("!!!", "123456"), Err(AuthError::TwoFactor(m)) if m.starts_with("invalid secret: ")));
    let fresh = enroll("u@x.io", "Issuer").unwrap();
    assert_eq!(fresh.secret.len(), 28);
    assert!(fresh.otpauth_uri.starts_with("otpauth://totp/Issuer:u@x.io?secret="));
    let a = rand_secret();
    let b = rand_secret();
    assert_eq!(a.len(), 20);
    assert_ne!(a, b);
}

#[test]
fn form_helpers() {
    for v in ["1", "true", "on", "yes"] {
        assert!(is_truthy(&Some(v.to_string())));
    }
    assert!(!is_truthy(&Some("TRUE".to_string())));
    assert!(!is_truthy(&None));
    assert!(confirmation_mismatch("a", &Some("b".to_string())));
    assert!(!confirmation_mismatch("a", &Some("a".to_string())));
    assert!(!confirmation_mismatch("a", &None));
}

#[test]
fn controller_replies() {
    assert!(matches!(sign_in_reply(true, true), Reply::UserJson));
    assert!(matches!(sign_in_reply(true, false), Reply::Status(401)));
    assert!(matches!(sign_in_reply(false, true), Reply::Redirect(p) if p == "/"));
    match sign_in_reply(false, false) {
        Reply::Render(view, Some((k, m))) => {
            assert_eq!(view, "auth/sign_in");
            assert_eq!(k, "error");
            assert_eq!(m, "Invalid email or password");
        }
        _ => panic!("expected the sign-in form"),
    }
    assert!(matches!(sign_out_reply(true), Reply::Status(204)));
    assert!(registration_check(true, "pw", &Some("pw".to_string())).is_none());
    assert!(matches!(registration_check(true, "pw", &Some("px".to_string())), Some(Reply::Status(422))));
    assert!(matches!(
        registration_reply(false, Err(AuthError::EmailTaken)),
        Ok(Reply::Render(_, Some((_, m)))) if m == "Email has already been taken"
    ));
    assert!(matches!(
        registration_reply(false, Err(AuthError::Internal("db".to_string()))),
        Err(AuthError::Internal(_))
    ));
    assert!(matches!(confirmation_reply(true, true), Reply::JsonStatus(s) if s == "confirmed"));
    assert!(matches!(confirmation_reply(false, true), Reply::Redirect(p) if p == "/users/sign_in"));
}

#[test]
fn chat_decisions() {
    assert_eq!(parse_id(Some("42")), 42);
    assert_eq!(parse_id(Some("-7")), -7);
    assert_eq!(parse_id(Some("+5")), 5);
    assert_eq!(parse_id(Some("4x")), 0);
    assert_eq!(parse_id(Some("")), 0);
    assert_eq!(parse_id(Some("-")), 0);
    assert_eq!(parse_id(None), 0);
    assert_eq!(parse_i64("9223372036854775807"), Some(i64::MAX));
    assert_eq!(parse_i64("9223372036854775808"), None);
    assert_eq!(parse_i64("-9223372036854775808"), Some(i64::MIN));
    assert_eq!(parse_i64("00017"), Some(17));
    assert!(!shows_conversation(0, true));
    assert!(shows_conversation(3, true));
    let users = vec![
        UserSummary { id: 1, email: "a@x".to_string() },
        UserSummary { id: 2, email: "b@x".to_string() },
        UserSummary { id: 3, email: "c@x".to_string() },
    ];
    let others = other_users(users, 2);
    let ids: Vec<i64> = others.iter().map(|u| u.id).collect();
    assert_eq!(ids, vec![1, 3]);
    assert_eq!(others[1].email, "c@x");
}

#[test]
fn provider_lookup_prefers_configured() {
    let configured = vec![OAuth2Provider::new("github".to_string(), github())];
    let mut other = github();
    other.client_id = Some("registered".to_string());
    let registered = vec![
        OAuth2Provider::new("github".to_string(), other.clone()),
        OAuth2Provider::new("gitlab".to_string(), other),
    ];
    let p = find_provider(&configured, &registered, "github").unwrap();
    assert!(p.authorize_url("s").unwrap().contains("client_id=id%201"));
    let q = find_provider(&configured, &registered, "gitlab").unwrap();
    assert!(q.authorize_url("s").unwrap().contains("client_id=registered"));
    assert_eq!(
        find_provider(&configured, &registered, "bitbucket").err(),
        Some(AuthError::OAuth("unknown provider bitbucket".to_string()))
    );
}

#[test]
fn json_sign_in_mode_and_chat_login() {
    let mut c = test_auth_config();
    assert!(!issues_tokens(&c, true));
    c.strategies.push("jwt".to_string());
    assert!(issues_tokens(&c, true));
    assert!(!issues_tokens(&c, false));
    assert!(matches!(login_reply(true), Reply::Redirect(p) if p == "/chat"));
    assert!(matches!(login_reply(false), Reply::Render(v, Some((k, t))) if v == "chat/login" && k == "title" && t == "Entrar"));
}

#[test]
fn default_config_is_valid_and_cookie_only() {
    let c = AuthConfig::default();
    assert_eq!(c.validate(&StrategyRegistry::new()), Ok(()));
    assert_eq!(c.strategies, vec!["cookie".to_string()]);
    assert_eq!(c.timeout, 1800);
    assert_eq!(c.password_length, 6);
    assert_eq!(c.maximum_attempts, 20);
    assert_eq!(c.remember_for, 1_209_600);
    assert!(c.has_module(AuthModule::Validatable));
    assert!(!c.has_module(AuthModule::Lockable));
}

#[test]
fn test_auth_config_keeps_other_defaults() {
    let c = test_auth_config();
    let d = AuthConfig::default();
    assert_eq!(c.modules, vec![AuthModule::DatabaseAuthenticatable]);
    assert_eq!(c.strategies, vec!["cookie".to_string()]);
    assert!(c.jwt.is_none());
    assert_eq!(c.maximum_attempts, d.maximum_attempts);
    assert_eq!(c.unlock_in, d.unlock_in);
    assert_eq!(c.reset_password_within, d.reset_password_within);
    assert_eq!(c.remember_for, d.remember_for);
    assert_eq!(c.timeout, d.timeout);
    assert_eq!(c.password_length, d.password_length);
    assert_eq!(c.routes.prefix, d.routes.prefix);
    assert!(c.oauth.is_empty());
    assert!(!c.two_factor.enabled);
    assert_eq!(c.enabled_route_groups(), vec!["sessions"]);
    assert!(c.validate(&StrategyRegistry::new()).is_ok());
}

#[test]
fn mounted_router_routes() {
    let mut c = test_auth_config();
    c.routes.prefix = "/accounts/".to_string();
    let r = mount_routes(&c.routes);
    let got: Vec<(String, String)> = r.iter().map(|x| (x.method.to_string(), x.path.clone())).collect();
    let want: Vec<(String, String)> = vec![
        ("POST", "/accounts/sign_in"),
        ("DELETE", "/accounts/sign_out"),
        ("POST", "/accounts/sign_up"),
        ("GET", "/accounts/password/new"),
        ("POST", "/accounts/password"),
        ("PATCH", "/accounts/password"),
        ("GET", "/auth/{provider}"),
        ("GET", "/auth/{provider}/callback"),
    ]
    .into_iter()
    .map(|(m, p)| (m.to_string(), p.to_string()))
    .collect();
    assert_eq!(got, want);
    assert_eq!(r[5].action, "update");
}

#[test]
fn lockable_row_updates() {
    let mut c = test_auth_config();
    c.modules.push(AuthModule::Lockable);
    c.maximum_attempts = 2;
    c.unlock_in = 60;
    let s = settings(Some(&c));
    let fresh = LockColumns { failed_attempts: 0, locked_at: None };
    assert_eq!(record_failure(None, fresh, 5), Some(fresh));
    let one = record_failure(s, fresh, 5).unwrap();
    assert_eq!(one, LockColumns { failed_attempts: 1, locked_at: None });
    let two = record_failure(s, one, 7).unwrap();
    assert_eq!(two, LockColumns { failed_attempts: 2, locked_at: Some(7) });
    assert_eq!(record_failure(s, LockColumns { failed_attempts: i32::MAX, locked_at: None }, 1), None);
    assert!(matches!(ensure_not_locked(s, two, 66), Err(AuthError::AccountLocked)));
    assert_eq!(ensure_not_locked(s, two, 67).ok(), Some(fresh));
    assert_eq!(ensure_not_locked(None, two, 8).ok(), Some(two));
    assert_eq!(reset_attempts(s, two), fresh);
    assert_eq!(reset_attempts(None, two), two);
}

#[test]
fn recoverable_row_updates() {
    let row = ResetColumns {
        password_digest: "old".to_string(),
        reset_password_token: None,
        reset_password_sent_at: None,
    };
    let (none_row, none_tok) = request_reset(true, None, "t".to_string(), 1);
    assert!(none_row.is_none() && none_tok.is_none());
    let (same, tok) = request_reset(false, Some(row.clone()), "t".to_string(), 1);
    assert_eq!(same, Some(row.clone()));
    assert!(tok.is_none());
    let (sent, tok) = request_reset(true, Some(row.clone()), "t".to_string(), 100);
    let sent = sent.unwrap();
    assert_eq!(tok, Some("t".to_string()));
    assert_eq!(sent.reset_password_token, Some("t".to_string()));
    assert_eq!(sent.reset_password_sent_at, Some(100));
    let (stale, ok) = reset_password(Some(10), Some(sent.clone()), "new".to_string(), 111);
    assert!(!ok);
    assert_eq!(stale, Some(sent.clone()));
    let (done, ok) = reset_password(Some(10), Some(sent.clone()), "new".to_string(), 110);
    assert!(ok);
    assert_eq!(
        done,
        Some(ResetColumns { password_digest: "new".to_string(), reset_password_token: None, reset_password_sent_at: None })
    );
    let (off, ok) = reset_password(None, Some(sent.clone()), "new".to_string(), 100);
    assert!(!ok);
    assert_eq!(off, Some(sent));
}

#[test]
fn secret_joins_two_uuids() {
    let a: Vec<u8> = (0u8..16).collect();
    let b: Vec<u8> = (100u8..116).collect();
    let s = secret_from_uuids(&a, &b);
    assert_eq!(s.len(), 20);
    assert_eq!(&s[..16], &a[..]);
    assert_eq!(&s[16..], &[100, 101, 102, 103]);
}

#[test]
fn enrollment_secret_is_standard_base64() {
    assert_eq!(enrollment_for("a@b.c", "I", b"f").secret, "Zg==");
    assert_eq!(enrollment_for("a@b.c", "I", b"fo").secret, "Zm8=");
    assert_eq!(enrollment_for("a@b.c", "I", b"foobar").secret, "Zm9vYmFy");
    assert_eq!(enrollment_for("a@b.c", "I", &[0xfb, 0xff]).secret, "+/8=");
}

#[test]
fn jwt_tokens_sign_and_verify() {
    let config = jwt_config("s3cret");
    let now = 4_000_000_000;
    let pair = issue_tokens(&config, "42", now).unwrap();
    assert_eq!(pair.token_type, "Bearer");
    assert_eq!(pair.expires_in, 900);
    // deterministic for the same claims
    assert_eq!(issue_tokens(&config, "42", now).unwrap(), pair);
    let claims = verify_token(&config, &pair.access_token).unwrap();
    assert_eq!(claims.sub_json, "42");
    assert_eq!(claims.iat, now);
    assert_eq!(claims.exp, now + 900);
    assert_eq!(claims.typ.as_deref(), Some("access"));
    assert!(claims.iss.is_none());
    let refresh = verify_token(&config, &pair.refresh_token).unwrap();
    assert_eq!(refresh.typ.as_deref(), Some("refresh"));
    assert_eq!(refresh.exp, now + 1_209_600);
    let header = format!("Bearer {}", pair.access_token);
    assert_eq!(authenticate_bearer(&config, Some(&header)).unwrap(), Some("42".to_string()));
    assert_eq!(authenticate_bearer(&config, None).unwrap(), None);
    assert!(matches!(verify_token(&jwt_config("other"), &pair.access_token), Err(AuthError::Jwt(_))));
    // an expired token fails
    let old = issue_tokens(&config, "\"u\"", 1_000).unwrap();
    assert!(matches!(verify_token(&config, &old.access_token), Err(AuthError::Jwt(_))));
    // the subject must be JSON
    assert!(matches!(issue_tokens(&config, "not json", now), Err(AuthError::Jwt(_))));
    // a configured issuer is written and checked
    let mut with_iss = jwt_config("s3cret");
    with_iss.issuer = Some("doido".to_string());
    let p = issue_tokens(&with_iss, "\"user-1\"", now).unwrap();
    let c = verify_token(&with_iss, &p.access_token).unwrap();
    assert_eq!(c.iss.as_deref(), Some("doido"));
    assert_eq!(c.sub_json, "\"user-1\"");
    // jsonwebtoken's own claim check cannot read an object subject
    let obj = issue_tokens(&with_iss, "{\"id\":1}", now).unwrap();
    assert!(matches!(verify_token(&with_iss, &obj.access_token), Err(AuthError::Jwt(_))));
    let mut other_iss = with_iss.clone();
    other_iss.issuer = Some("else".to_string());
    assert!(verify_token(&other_iss, &p.access_token).is_err());
}
