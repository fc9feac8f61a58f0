//! Edits of `config/routes.rs`, `app/controllers/mod.rs` and
//! `app/models/mod.rs`: injecting `auth_routes!(User)` understood by the
//! `routes!` macro, resources, action routes and module declarations.

use vstd::prelude::*;
use crate::generators::lines::{
    LineTest, LineTestView, first_from, first_line, insert_before_block_close, insert_before_close,
    insert_line, insert_use, last_line, last_passing, passes, with_use,
};
use crate::text::{
    chars_of, contains, contains_seq, contains_str, join, join_strs, line_views, lines, lines_of,
    push_all, push_str, replace_first, replace_first_exec, slice_chars, starts_with, str_views,
    string_of, trim, trim_end, trim_end_chars, unlines, unlines_exec,
};

verus! {

pub const ROUTES_PATH: &'static str = "config/routes.rs";

pub const CONTROLLERS_MOD_PATH: &'static str = "app/controllers/mod.rs";

pub const MODELS_MOD_PATH: &'static str = "app/models/mod.rs";

/// Import that brings the app's `User` model into scope for a bare
/// `auth_routes!(User);`.
pub const USER_IMPORT: &'static str = "use crate::models::user::Model as User;";

/// Import that brings the app's ejected `auth` controllers module into scope.
pub const AUTH_MOD_IMPORT: &'static str = "use crate::controllers::auth;";

/// The line a plain `routes! {` block opener becomes.
pub open spec fn auth_block_line() -> Seq<char> {
    "    doido::auth::routes! {"@
}

/// Each line that, trimmed, starts with `routes! {` becomes the auth-aware
/// opener, when the source has such a block and no auth-aware one yet.
pub open spec fn switch_block(ls: Seq<Seq<char>>, routes: Seq<char>) -> Seq<Seq<char>> {
    if contains(routes, "routes! {"@) && !contains(routes, "doido::auth::routes!"@) {
        Seq::new(
            ls.len(),
            |i: int|
                if starts_with(trim(ls[i]), "routes! {"@) {
                    auth_block_line()
                } else {
                    ls[i]
                },
        )
    } else {
        ls
    }
}

/// Each line importing `routes` from `doido::controller` imports `axum` only.
pub open spec fn drop_routes_import(ls: Seq<Seq<char>>, routes: Seq<char>) -> Seq<Seq<char>> {
    if contains(routes, "use doido::controller::{axum, routes}"@) {
        Seq::new(
            ls.len(),
            |i: int|
                if contains(ls[i], "use doido::controller::{axum, routes}"@) {
                    "use doido::controller::axum;"@
                } else {
                    ls[i]
                },
        )
    } else {
        ls
    }
}

/// `ls` with each of `imports` added in turn.
pub open spec fn with_uses(ls: Seq<Seq<char>>, imports: Seq<Seq<char>>) -> Seq<Seq<char>>
    decreases imports.len(),
{
    if imports.len() == 0 {
        ls
    } else {
        with_uses(with_use(ls, imports[0]), imports.drop_first())
    }
}

/// The routes source switched to the auth-aware `routes!` block, with the
/// `routes` import dropped, `imports` added, and `auth_line` (indented by
/// eight spaces) inserted before the block's closing brace.
pub open spec fn auth_block_text(routes: Seq<char>, auth_line: Seq<char>, imports: Seq<Seq<char>>) -> Seq<char> {
    let ls = drop_routes_import(switch_block(lines(routes), routes), routes);
    unlines(insert_before_close(with_uses(ls, imports), "        "@ + auth_line))
}

/// Applies [`auth_block_text`].
fn ensure_auth_routes_block(routes: &Vec<char>, auth_line: &Vec<char>, imports: &Vec<Vec<char>>) -> (r: Vec<char>)
    ensures
        r@ == auth_block_text(routes@, auth_line@, line_views(imports@)),
{
    let mut ls = lines_of(routes);
    let ghost l0 = line_views(ls@);
    if contains_str(routes, "routes! {") && !contains_str(routes, "doido::auth::routes!") {
        let mut i: usize = 0;
        while i < ls.len()
            invariant
                i <= ls@.len(),
                ls@.len() == l0.len(),
                forall|k: int| 0 <= k < i ==> #[trigger] line_views(ls@)[k] == (if starts_with(trim(l0[k]), "routes! {"@) { auth_block_line() } else { l0[k] }),
                forall|k: int| i <= k < ls@.len() ==> #[trigger] line_views(ls@)[k] == l0[k],
            decreases ls.len() - i,
        {
            let opener = LineTest::TrimStartsWith(chars_of("routes! {"));
            assert(line_views(ls@)[i as int] == ls@[i as int]@);
            let ghost prev = line_views(ls@);
            if test_line_at(&ls, i, &opener) {
                let nl = chars_of("    doido::auth::routes! {");
                ls.set(i, nl);
                assert(line_views(ls@) =~= prev.update(i as int, auth_block_line()));
            }
            i += 1;
        }
        assert(line_views(ls@) =~= switch_block(l0, routes@));
    }
    let ghost l1 = line_views(ls@);
    assert(l1 == switch_block(l0, routes@));
    if contains_str(routes, "use doido::controller::{axum, routes}") {
        let mut i: usize = 0;
        while i < ls.len()
            invariant
                i <= ls@.len(),
                ls@.len() == l1.len(),
                forall|k: int| 0 <= k < i ==> #[trigger] line_views(ls@)[k] == (if contains(l1[k], "use doido::controller::{axum, routes}"@) { "use doido::controller::axum;"@ } else { l1[k] }),
                forall|k: int| i <= k < ls@.len() ==> #[trigger] line_views(ls@)[k] == l1[k],
            decreases ls.len() - i,
        {
            let old_import = LineTest::Contains(chars_of("use doido::controller::{axum, routes}"));
            assert(line_views(ls@)[i as int] == ls@[i as int]@);
            let ghost prev = line_views(ls@);
            if test_line_at(&ls, i, &old_import) {
                let nl = chars_of("use doido::controller::axum;");
                ls.set(i, nl);
                assert(line_views(ls@) =~= prev.update(i as int, "use doido::controller::axum;"@));
            }
            i += 1;
        }
        assert(line_views(ls@) =~= drop_routes_import(l1, routes@));
    }
    let ghost l2 = line_views(ls@);
    assert(l2 == drop_routes_import(l1, routes@));
    let mut j: usize = 0;
    assert(line_views(imports@).skip(0) =~= line_views(imports@));
    while j < imports.len()
        invariant
            j <= imports@.len(),
            with_uses(l2, line_views(imports@)) == with_uses(line_views(ls@), line_views(imports@).skip(j as int)),
        decreases imports.len() - j,
    {
        let ghost rest = line_views(imports@).skip(j as int);
        assert(rest[0] == imports@[j as int]@);
        assert(rest.drop_first() =~= line_views(imports@).skip(j + 1));
        insert_use(&mut ls, &imports[j]);
        j += 1;
    }
    assert(line_views(imports@).skip(j as int) =~= Seq::<Seq<char>>::empty());
    let mut indented = chars_of("        ");
    push_all(&mut indented, auth_line);
    insert_before_block_close(&mut ls, &indented);
    unlines_exec(&ls)
}

/// Runs `t` on line `i`.
fn test_line_at(ls: &Vec<Vec<char>>, i: usize, t: &LineTest) -> (r: bool)
    requires
        i < ls@.len(),
    ensures
        r == passes(t@, ls@[i as int]@),
{
    crate::generators::lines::test_line(t, &ls[i])
}

/// What [`inject_auth_routes`] produces.
pub open spec fn inject_auth_routes_spec(routes: Seq<char>) -> Seq<char> {
    if contains(routes, "auth_routes!(User"@) {
        routes
    } else {
        auth_block_text(routes, "auth_routes!(User);"@, seq![USER_IMPORT@])
    }
}

fn one_line(s: &str) -> (r: Vec<Vec<char>>)
    ensures
        line_views(r@) == seq![s@],
{
    let mut v: Vec<Vec<char>> = Vec::new();
    v.push(chars_of(s));
    assert(line_views(v@) =~= seq![s@]);
    v
}

/// Injects the framework's built-in auth routes: switches the plain `routes!`
/// block to `doido::auth::routes!`, brings `User` into scope and adds a bare
/// `auth_routes!(User);`. Returns the source unchanged when it already holds
/// `auth_routes!(User`.
pub fn inject_auth_routes(routes: &str) -> (r: String)
    ensures
        r@ == inject_auth_routes_spec(routes@),
{
    let src = chars_of(routes);
    if contains_str(&src, "auth_routes!(User") {
        return routes.to_owned();
    }
    let line = chars_of("auth_routes!(User);");
    string_of(&ensure_auth_routes_block(&src, &line, &one_line(USER_IMPORT)))
}

/// The `auth_routes!` line restricted to `groups`.
pub open spec fn only_line(groups: Seq<Seq<char>>) -> Seq<char> {
    "auth_routes!(User, only: ["@ + join(groups, ", "@) + "]);"@
}

/// What [`inject_auth_routes_only`] produces.
pub open spec fn inject_auth_routes_only_spec(routes: Seq<char>, groups: Seq<Seq<char>>) -> Seq<char> {
    if contains(routes, "auth_routes!(User"@) {
        routes
    } else {
        auth_block_text(routes, only_line(groups), seq![USER_IMPORT@])
    }
}

/// Like [`inject_auth_routes`] but mounts only the given route groups
/// (`auth_routes!(User, only: [sessions, registrations, ...]);`).
pub fn inject_auth_routes_only(routes: &str, groups: &[&str]) -> (r: String)
    ensures
        r@ == inject_auth_routes_only_spec(routes@, str_views(groups@)),
{
    let src = chars_of(routes);
    if contains_str(&src, "auth_routes!(User") {
        return routes.to_owned();
    }
    let mut line = chars_of("auth_routes!(User, only: [");
    let joined = join_strs(groups, ", ");
    push_all(&mut line, &joined);
    push_str(&mut line, "]);");
    string_of(&ensure_auth_routes_block(&src, &line, &one_line(USER_IMPORT)))
}

/// The controller overrides pointing every route module at the app's local
/// controllers.
pub open spec fn overrides(two_factor: bool) -> Seq<Seq<char>> {
    let base = seq![
        "sessions: auth::SessionsController"@,
        "registrations: auth::RegistrationsController"@,
        "passwords: auth::PasswordsController"@,
        "oauth: auth::OauthController"@,
    ];
    if two_factor {
        base.push("two_factor: auth::TwoFactorController"@)
    } else {
        base
    }
}

/// The `auth_routes!` line that points every route module at the app's local
/// controllers.
pub open spec fn local_line(two_factor: bool) -> Seq<char> {
    "auth_routes!(User, controllers: { "@ + join(overrides(two_factor), ", "@) + " });"@
}

/// Builds [`local_line`]. When every module is overridden the macro never
/// refers to `User`, so callers drop the `User` import.
pub fn local_controllers_line(two_factor: bool) -> (r: String)
    ensures
        r@ == local_line(two_factor),
{
    let mut items: Vec<&str> = Vec::new();
    items.push("sessions: auth::SessionsController");
    items.push("registrations: auth::RegistrationsController");
    items.push("passwords: auth::PasswordsController");
    items.push("oauth: auth::OauthController");
    if two_factor {
        items.push("two_factor: auth::TwoFactorController");
    }
    assert(str_views(items@) =~= overrides(two_factor));
    let mut out = chars_of("auth_routes!(User, controllers: { ");
    let joined = join_strs(items.as_slice(), ", ");
    push_all(&mut out, &joined);
    push_str(&mut out, " });");
    string_of(&out)
}

/// What [`ensure_use`] produces.
pub open spec fn ensure_use_spec(routes: Seq<char>, import: Seq<char>) -> Seq<char> {
    if contains(routes, import) {
        routes
    } else {
        unlines(with_use(lines(routes), import))
    }
}

/// Ensures `import` is present.
pub fn ensure_use(routes: &Vec<char>, import: &Vec<char>) -> (r: Vec<char>)
    ensures
        r@ == ensure_use_spec(routes@, import@),
{
    if contains_seq(routes, import) {
        return slice_chars(routes, 0, routes.len());
    }
    let mut ls = lines_of(routes);
    insert_use(&mut ls, import);
    unlines_exec(&ls)
}

/// The lines other than the `User` import.
pub open spec fn without_user_import(ls: Seq<Seq<char>>) -> Seq<Seq<char>> {
    ls.filter(|l: Seq<char>| trim(l) != USER_IMPORT@)
}

/// What [`rewire_local_controllers`] produces.
pub open spec fn rewire_spec(routes: Seq<char>, two_factor: bool) -> Seq<char> {
    if contains(routes, "controllers: {"@) {
        routes
    } else if contains(routes, "auth_routes!(User);"@) {
        let replaced = replace_first(routes, "auth_routes!(User);"@, local_line(two_factor));
        let ls = lines(replaced);
        if first_from(ls, 0, LineTestView::TrimEquals(USER_IMPORT@)) >= 0 {
            unlines(with_use(without_user_import(ls), AUTH_MOD_IMPORT@))
        } else {
            ensure_use_spec(replaced, AUTH_MOD_IMPORT@)
        }
    } else {
        auth_block_text(routes, local_line(two_factor), seq![USER_IMPORT@, AUTH_MOD_IMPORT@])
    }
}

/// Rewrites the routes to use the app's local (ejected) auth controllers,
/// adding `use crate::controllers::auth;`. An installed bare
/// `auth_routes!(User);` is replaced in place and the `User` import is
/// dropped, as the overridden macro no longer names `User` for the sessions,
/// registrations, passwords, OAuth (and two-factor) routes; an application
/// that also mounts modules left on the built-in controllers (such as
/// `confirmation`) still needs that import. Without a bare line the auth
/// block is injected with both the `User` and the `auth` imports.
/// Returns the source unchanged when it already holds a `controllers:`
/// override.
pub fn rewire_local_controllers(routes: &str, two_factor: bool) -> (r: String)
    ensures
        r@ == rewire_spec(routes@, two_factor),
{
    let src = chars_of(routes);
    if contains_str(&src, "controllers: {") {
        return routes.to_owned();
    }
    let line = chars_of(local_controllers_line(two_factor).as_str());
    let auth_import = chars_of(AUTH_MOD_IMPORT);
    if contains_str(&src, "auth_routes!(User);") {
        let bare = chars_of("auth_routes!(User);");
        proof {
            reveal_strlit("auth_routes!(User);");
        }
        let replaced = replace_first_exec(&src, &bare, &line);
        let ls = lines_of(&replaced);
        let user_line = LineTest::TrimEquals(chars_of(USER_IMPORT));
        if first_line(&ls, 0, &user_line).is_some() {
            let mut kept: Vec<Vec<char>> = Vec::new();
            let ghost pred = |l: Seq<char>| trim(l) != USER_IMPORT@;
            let mut i: usize = 0;
            while i < ls.len()
                invariant
                    i <= ls@.len(),
                    pred == (|l: Seq<char>| trim(l) != USER_IMPORT@),
                    user_line@ == LineTestView::TrimEquals(USER_IMPORT@),
                    line_views(kept@) == line_views(ls@).take(i as int).filter(pred),
                decreases ls.len() - i,
            {
                proof {
                    reveal_with_fuel(Seq::<_>::filter, 1);
                    assert(line_views(ls@).take(i + 1).drop_last() =~= line_views(ls@).take(i as int));
                    assert(line_views(ls@).take(i + 1).last() == ls@[i as int]@);
                }
                let ghost prev = line_views(kept@);
                if !test_line_at(&ls, i, &user_line) {
                    assert(pred(ls@[i as int]@));
                    let copy = slice_chars(&ls[i], 0, ls[i].len());
                    assert(copy@ =~= ls@[i as int]@);
                    kept.push(copy);
                    assert(line_views(ls@).take(i + 1).filter(pred) == prev.push(ls@[i as int]@));
                    assert(line_views(kept@) =~= prev.push(ls@[i as int]@));
                } else {
                    assert(!pred(ls@[i as int]@));
                    assert(line_views(ls@).take(i + 1).filter(pred) == prev);
                }
                i += 1;
            }
            assert(line_views(ls@).take(ls@.len() as int) =~= line_views(ls@));
            insert_use(&mut kept, &auth_import);
            return string_of(&unlines_exec(&kept));
        }
        return string_of(&ensure_use(&replaced, &auth_import));
    }
    let mut imports: Vec<Vec<char>> = Vec::new();
    imports.push(chars_of(USER_IMPORT));
    imports.push(auth_import);
    assert(line_views(imports@) =~= seq![USER_IMPORT@, AUTH_MOD_IMPORT@]);
    string_of(&ensure_auth_routes_block(&src, &line, &imports))
}

/// The `resources!` line of a scaffold.
pub open spec fn resources_line(plural: Seq<char>, controller: Seq<char>, api: bool) -> Seq<char> {
    if api {
        "resources!("@ + plural + ", "@ + controller + ", except: [new, edit]);"@
    } else {
        "resources!("@ + plural + ", "@ + controller + ");"@
    }
}

/// The `use` line of an app controller.
pub open spec fn controller_use(controller: Seq<char>) -> Seq<char> {
    "use crate::controllers::"@ + controller + ";"@
}

/// `ls` with the controller's `use` line after the last line mentioning
/// `use crate::controllers` (else at the top), unless `routes` holds it.
pub open spec fn with_controller_use(ls: Seq<Seq<char>>, routes: Seq<char>, controller: Seq<char>) -> Seq<Seq<char>> {
    if contains(routes, controller_use(controller)) {
        ls
    } else {
        let a = last_passing(ls, LineTestView::Contains("use crate::controllers"@));
        ls.insert(if a >= 0 { a + 1 } else { 0 }, controller_use(controller))
    }
}

/// What [`inject_resources`] produces.
pub open spec fn inject_resources_spec(routes: Seq<char>, plural: Seq<char>, controller: Seq<char>, api: bool) -> Seq<char> {
    let res = resources_line(plural, controller, api);
    if contains(routes, res) {
        routes
    } else {
        unlines(insert_before_close(with_controller_use(lines(routes), routes, controller), "        "@ + res))
    }
}

proof fn lemma_last_bound(ls: Seq<Seq<char>>, t: LineTestView)
    ensures
        -1 <= last_passing(ls, t) < ls.len(),
    decreases ls.len(),
{
    if ls.len() > 0 && !passes(t, ls.last()) {
        lemma_last_bound(ls.drop_last(), t);
    }
}

/// Adds the controller's `use` line as [`with_controller_use`] describes.
fn add_controller_use(ls: &mut Vec<Vec<char>>, routes: &Vec<char>, controller: &str)
    ensures
        line_views(final(ls)@) == with_controller_use(line_views(old(ls)@), routes@, controller@),
{
    let mut use_line = chars_of("use crate::controllers::");
    push_str(&mut use_line, controller);
    push_str(&mut use_line, ";");
    if !contains_seq(routes, &use_line) {
        let n = ls.len();
        proof {
            lemma_last_bound(line_views(ls@), LineTestView::Contains("use crate::controllers"@));
        }
        let pos = match last_line(ls, &LineTest::Contains(chars_of("use crate::controllers"))) {
            Some(i) => {
                assert(i < n);
                i + 1
            },
            None => 0,
        };
        insert_line(ls, pos, &use_line);
    }
}

/// Injects `resources!(...)` for a scaffold (`except: [new, edit]` for APIs).
/// Returns the source unchanged when it already holds that line.
pub fn inject_resources(routes: &str, plural: &str, controller: &str, api: bool) -> (r: String)
    ensures
        r@ == inject_resources_spec(routes@, plural@, controller@, api),
{
    let src = chars_of(routes);
    let mut res = chars_of("resources!(");
    push_str(&mut res, plural);
    push_str(&mut res, ", ");
    push_str(&mut res, controller);
    if api {
        push_str(&mut res, ", except: [new, edit]);");
    } else {
        push_str(&mut res, ");");
    }
    if contains_seq(&src, &res) {
        return routes.to_owned();
    }
    let mut ls = lines_of(&src);
    add_controller_use(&mut ls, &src, controller);
    let mut indented = chars_of("        ");
    push_all(&mut indented, &res);
    insert_before_block_close(&mut ls, &indented);
    string_of(&unlines_exec(&ls))
}

/// The GET route of a named controller action.
pub open spec fn action_route(snake: Seq<char>, controller: Seq<char>, action: Seq<char>) -> Seq<char> {
    "get!(\""@ + "/"@ + snake + "/"@ + action + "\", "@ + controller + "::"@ + action + ");"@
}

/// Inserts, at `close`, the route of each action in turn that `routes` does
/// not hold yet (so later actions land above earlier ones).
pub open spec fn add_action_routes(
    ls: Seq<Seq<char>>,
    close: int,
    routes: Seq<char>,
    snake: Seq<char>,
    controller: Seq<char>,
    actions: Seq<Seq<char>>,
) -> Seq<Seq<char>>
    decreases actions.len(),
{
    if actions.len() == 0 {
        ls
    } else {
        let route = action_route(snake, controller, actions[0]);
        let next = if !contains(routes, route) {
            ls.insert(close, "        "@ + route)
        } else {
            ls
        };
        add_action_routes(next, close, routes, snake, controller, actions.drop_first())
    }
}

/// What [`inject_action_routes`] produces.
pub open spec fn inject_action_routes_spec(
    routes: Seq<char>,
    snake: Seq<char>,
    controller: Seq<char>,
    actions: Seq<Seq<char>>,
) -> Seq<char> {
    let ls = with_controller_use(lines(routes), routes, controller);
    let o = first_from(ls, 0, LineTestView::RoutesOpen);
    let c = first_from(ls, o, LineTestView::CloseBrace);
    if o < 0 || c < 0 {
        unlines(ls)
    } else {
        unlines(add_action_routes(ls, c, routes, snake, controller, actions))
    }
}

proof fn lemma_first_bound(ls: Seq<Seq<char>>, k: int, t: LineTestView)
    ensures
        first_from(ls, k, t) == -1 || (k <= first_from(ls, k, t) < ls.len()),
    decreases ls.len() - k,
{
    if 0 <= k < ls.len() && !passes(t, ls[k]) {
        lemma_first_bound(ls, k + 1, t);
    }
}

/// Injects a `get!` route for each named controller action not yet present.
pub fn inject_action_routes(routes: &str, snake: &str, controller: &str, actions: &[&str]) -> (r: String)
    ensures
        r@ == inject_action_routes_spec(routes@, snake@, controller@, str_views(actions@)),
{
    let src = chars_of(routes);
    let mut ls = lines_of(&src);
    add_controller_use(&mut ls, &src, controller);
    let ghost l1 = line_views(ls@);
    if let Some(open) = first_line(&ls, 0, &LineTest::RoutesOpen) {
        if let Some(close) = first_line(&ls, open, &LineTest::CloseBrace) {
            proof {
                lemma_first_bound(l1, open as int, LineTestView::CloseBrace);
            }
            let ghost acts = str_views(actions@);
            let mut i: usize = 0;
            assert(acts.skip(0) =~= acts);
            while i < actions.len()
                invariant
                    i <= actions@.len(),
                    acts == str_views(actions@),
                    close <= line_views(ls@).len(),
                    add_action_routes(l1, close as int, src@, snake@, controller@, acts)
                        == add_action_routes(line_views(ls@), close as int, src@, snake@, controller@, acts.skip(i as int)),
                decreases actions@.len() - i,
            {
                let action = actions[i];
                let ghost rest = acts.skip(i as int);
                assert(rest[0] == action@);
                assert(rest.drop_first() =~= acts.skip(i + 1));
                let mut route = chars_of("get!(\"");
                push_str(&mut route, "/");
                push_str(&mut route, snake);
                push_str(&mut route, "/");
                push_str(&mut route, action);
                push_str(&mut route, "\", ");
                push_str(&mut route, controller);
                push_str(&mut route, "::");
                push_str(&mut route, action);
                push_str(&mut route, ");");
                if !contains_seq(&src, &route) {
                    let mut indented = chars_of("        ");
                    push_all(&mut indented, &route);
                    insert_line(&mut ls, close, &indented);
                }
                i += 1;
            }
            assert(acts.skip(i as int) =~= Seq::<Seq<char>>::empty());
            return string_of(&unlines_exec(&ls));
        }
    }
    string_of(&unlines_exec(&ls))
}

/// What [`register_controller`] produces.
pub open spec fn register_controller_spec(cm: Seq<char>, plural: Seq<char>, controller: Seq<char>) -> Seq<char> {
    let module = plural + "_controller"@;
    let decl = "mod "@ + module + ";"@;
    if first_from(lines(cm), 0, LineTestView::TrimEquals(decl)) >= 0 {
        cm
    } else {
        trim_end(cm) + "\n"@ + "mod "@ + module + ";\n"@ + "pub use "@ + module + "::"@ + controller
            + ";\n"@
    }
}

/// Declares `mod <plural>_controller;` and re-exports the controller from
/// `app/controllers/mod.rs`, unless the declaration is there.
pub fn register_controller(controllers_mod: &str, plural: &str, controller: &str) -> (r: String)
    ensures
        r@ == register_controller_spec(controllers_mod@, plural@, controller@),
{
    let cm = chars_of(controllers_mod);
    let mut module = chars_of(plural);
    push_str(&mut module, "_controller");
    let mut decl = chars_of("mod ");
    push_all(&mut decl, &module);
    push_str(&mut decl, ";");
    let ls = lines_of(&cm);
    if first_line(&ls, 0, &LineTest::TrimEquals(decl)).is_some() {
        return controllers_mod.to_owned();
    }
    let mut out = trim_end_chars(&cm);
    push_str(&mut out, "\n");
    push_str(&mut out, "mod ");
    push_all(&mut out, &module);
    push_str(&mut out, ";\n");
    push_str(&mut out, "pub use ");
    push_all(&mut out, &module);
    push_str(&mut out, "::");
    push_str(&mut out, controller);
    push_str(&mut out, ";\n");
    string_of(&out)
}

/// What [`register_auth_controllers_mod`] produces.
pub open spec fn register_auth_mod_spec(cm: Seq<char>) -> Seq<char> {
    if contains(cm, "pub mod auth;"@) {
        cm
    } else {
        trim_end(cm) + "\n"@ + "pub mod auth;"@ + "\n"@
    }
}

/// Registers the `auth` controller submodule in `app/controllers/mod.rs`.
pub fn register_auth_controllers_mod(controllers_mod: &str) -> (r: String)
    ensures
        r@ == register_auth_mod_spec(controllers_mod@),
{
    let cm = chars_of(controllers_mod);
    if contains_str(&cm, "pub mod auth;") {
        return controllers_mod.to_owned();
    }
    let mut out = trim_end_chars(&cm);
    push_str(&mut out, "\n");
    push_str(&mut out, "pub mod auth;");
    push_str(&mut out, "\n");
    string_of(&out)
}

/// The module declaration line.
pub open spec fn pub_mod_decl(module: Seq<char>) -> Seq<char> {
    "pub mod "@ + module + ";"@
}

/// What [`register_module`] produces.
pub open spec fn register_module_spec(existing: Seq<char>, module: Seq<char>, marker: Seq<char>) -> Seq<char> {
    let decl = pub_mod_decl(module);
    let ls = lines(existing);
    if first_from(ls, 0, LineTestView::TrimEquals(decl)) >= 0 {
        existing
    } else {
        let i = first_from(ls, 0, LineTestView::Contains(marker));
        if i >= 0 {
            unlines(ls.insert(i, decl))
        } else {
            unlines(ls.push(decl))
        }
    }
}

/// Adds `pub mod <module>;` to a directory `mod.rs` just above the first line
/// holding `marker` (at the end when none does), unless it is declared.
pub fn register_module(existing: &str, module: &str, marker: &str) -> (r: String)
    ensures
        r@ == register_module_spec(existing@, module@, marker@),
{
    let src = chars_of(existing);
    let mut decl = chars_of("pub mod ");
    push_str(&mut decl, module);
    push_str(&mut decl, ";");
    let mut ls = lines_of(&src);
    let d = slice_chars(&decl, 0, decl.len());
    assert(d@ =~= decl@);
    if first_line(&ls, 0, &LineTest::TrimEquals(d)).is_some() {
        return existing.to_owned();
    }
    let n = ls.len();
    match first_line(&ls, 0, &LineTest::Contains(chars_of(marker))) {
        Some(i) => {
            proof {
                lemma_first_bound(line_views(ls@), 0, LineTestView::Contains(marker@));
            }
            insert_line(&mut ls, i, &decl);
        },
        None => {
            ls.push(decl);
            assert(line_views(ls@) =~= lines(src@).push(pub_mod_decl(module@)));
        },
    }
    string_of(&unlines_exec(&ls))
}

/// Adds `pub mod <module>;` to `app/models/mod.rs` above the
/// `@generated-models` marker.
pub fn register_model_module(models_mod: &str, module: &str) -> (r: String)
    ensures
        r@ == register_module_spec(models_mod@, module@, "@generated-models"@),
{
    register_module(models_mod, module, "@generated-models")
}

} // verus!
