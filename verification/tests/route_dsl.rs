use doido_auth::route_dsl::{
    expand_auth_route_decls, expand_auth_routes, expand_body, expand_routes, lex, render, AuthRoutesInput, Tok,
};

#[test]
fn parses_devise_style_options() {
    let toks = lex(
        "User, only: [sessions, registrations], prefix: \"/accounts\",
            controllers: { sessions: auth::SessionsController },
            actions: { sessions: { create: auth::SessionsController::create } }",
    )
    .unwrap();
    let input = AuthRoutesInput::parse(&toks).unwrap();
    assert_eq!(input.user, "User");
    assert_eq!(input.prefix.as_deref(), Some("/accounts"));
    assert_eq!(input.only.as_ref().unwrap().len(), 2);
    assert!(input.controllers.iter().any(|(k, _)| k == "sessions"));
    assert_eq!(input.actions[0].1[0].1, vec!["auth", "SessionsController", "create"]);
}

#[test]
fn replaces_auth_routes_with_route_decls() {
    let input = lex("auth_routes!(User);\nget!(\"/\", HomeController::index);").unwrap();
    let expanded = expand_body(&input, false);
    let s = render(&expanded);
    assert!(s.contains("post !"));
    assert!(s.contains("sign_in"));
    assert!(s.contains("HomeController :: index"));
}

#[test]
fn route_decls_use_overrides_and_options() {
    let toks = lex("User, only: [sessions], controllers: { sessions: auth::SessionsController }, actions: { sessions: { destroy: my::out } }").unwrap();
    let decls = expand_auth_route_decls(&toks, true).unwrap();
    assert_eq!(
        render(&decls),
        "post ! ( \"/users/sign_in\" , auth :: SessionsController :: create ) ; delete ! ( \"/users/sign_out\" , my :: out ) ;"
    );
    let builtin = expand_auth_route_decls(&lex("Account, skip: [sessions, passwords, two_factor, oauth]").unwrap(), false).unwrap();
    assert_eq!(
        render(&builtin),
        "get ! ( \"/users/sign_up\" , doido_auth :: controllers :: AuthRegistrations :: < Account > :: new ) ; post ! ( \"/users/sign_up\" , doido_auth :: controllers :: AuthRegistrations :: < Account > :: create ) ;"
    );
    let oauth = expand_auth_route_decls(&lex("U, only: [oauth]").unwrap(), false).unwrap();
    assert!(render(&oauth).contains("\"/auth/{provider}/callback\" , doido_auth :: controllers :: AuthOauth :: callback"));
}

#[test]
fn route_dsl_errors() {
    let err = |src: &str| expand_auth_route_decls(&lex(src).unwrap(), false).unwrap_err();
    assert_eq!(err("User, bogus: [x]"), "unknown auth_routes option: bogus");
    assert_eq!(err("User, only: sessions"), "expected `[`");
    assert_eq!(err("User, only: [sessions"), "expected `]`");
    assert_eq!(err("User, prefix: users"), "expected string literal");
    assert_eq!(err("User,"), "expected identifier");
    assert_eq!(err("User only"), "unexpected token");
    assert_eq!(err(""), "expected identifier");
    assert_eq!(lex("\"open").unwrap_err(), "unterminated string literal");
    assert_eq!(lex("\"a\\\"b\"").unwrap_err(), "escapes in string literals are not supported");
    let body = expand_body(&lex("auth_routes!(User, nope: 1);").unwrap(), false);
    assert_eq!(render(&body), "compile_error ! ( \"unknown auth_routes option: nope\" ) ;");
}

#[test]
fn lexing_marks_joint_punctuation() {
    let toks = lex("a::b -> c").unwrap();
    assert!(matches!(toks[1], Tok::Punct(':', true)));
    assert!(matches!(toks[2], Tok::Punct(':', false)));
    assert!(matches!(toks[4], Tok::Punct('-', true)));
    assert_eq!(render(&toks), "a :: b -> c");
}

#[test]
fn expands_whole_routes_block() {
    let out = expand_routes("get!(\"/\", Home::index); auth_routes!(User, only: [sessions])", true);
    assert_eq!(
        out,
        "doido_controller :: routes ! { get ! ( \"/\" , Home :: index ) ; post ! ( \"/users/sign_in\" , doido_auth :: controllers :: AuthSessions :: < User > :: create ) ; delete ! ( \"/users/sign_out\" , doido_auth :: controllers :: AuthSessions :: < User > :: destroy ) ; }"
    );
    assert_eq!(expand_routes("\"unterminated", false), "doido_controller :: routes ! { }");
}

#[test]
fn standalone_router_registers_and_routes() {
    let out = render(&expand_auth_routes(&lex("User, only: [sessions]").unwrap(), true));
    assert_eq!(
        out,
        "{ :: doido_controller :: register_routes ( :: std :: vec ! [ :: doido_controller :: RouteEntry { method : \"POST\" . to_string ( ) , path : \"/users/sign_in\" . to_string ( ) , } , :: doido_controller :: RouteEntry { method : \"DELETE\" . to_string ( ) , path : \"/users/sign_out\" . to_string ( ) , } ] ) ; doido_controller :: axum :: Router :: new ( ) . route ( \"/users/sign_in\" , doido_controller :: axum :: routing :: post ( doido_auth :: controllers :: AuthSessions :: < User > :: create ) , ) . route ( \"/users/sign_out\" , doido_controller :: axum :: routing :: delete ( doido_auth :: controllers :: AuthSessions :: < User > :: destroy ) , ) }"
    );
    let err = render(&expand_auth_routes(&lex("User, x: [a]").unwrap(), false));
    assert_eq!(err, "compile_error ! ( \"unknown auth_routes option: x\" )");
}
