//! Running an edit a second time changes nothing: the laws behind the
//! "Idempotent" promises of the route and module injectors.

use vstd::prelude::*;
use crate::generators::lines::{
    first_from, insert_before_close, lemma_first_from_bounds, passes, with_use, LineTestView,
};
use crate::generators::route_injector::{
    auth_block_line, auth_block_text, drop_routes_import, inject_auth_routes_only_spec, inject_auth_routes_spec,
    inject_resources_spec, only_line, pub_mod_decl, register_auth_mod_spec, register_module_spec,
    resources_line, switch_block, with_controller_use, with_uses, USER_IMPORT, controller_use,
};
use crate::generators::route_injector::{
    action_route, add_action_routes, inject_action_routes_spec,
};
use crate::generators::route_injector::{
    ensure_use_spec, local_line, register_controller_spec, rewire_spec, without_user_import,
    AUTH_MOD_IMPORT,
};
use crate::text::{
    concat_lines, contains, has_char, is_ws, starts_with, lemma_lines_no_newline, lemma_lines_of_concat,
    lemma_lines_one, lemma_lines_split, lines, occurs_at, strip_cr, trim, trim_end, trim_start,
    unlines, replace_first, index_of, lemma_index_of_bounds,
};

verus! {

/// Whether lines `ls` have a routes block opener with a closing brace after
/// it (where injected routes go).
pub open spec fn block_closes(ls: Seq<Seq<char>>) -> bool {
    let o = first_from(ls, 0, LineTestView::RoutesOpen);
    o >= 0 && first_from(ls, o, LineTestView::CloseBrace) >= 0
}

/// The lines of `routes` once the block is switched to the auth-aware one,
/// the old `routes` import dropped and `imports` added.
pub open spec fn prepared_lines(routes: Seq<char>, imports: Seq<Seq<char>>) -> Seq<Seq<char>> {
    with_uses(drop_routes_import(switch_block(lines(routes), routes), routes), imports)
}

proof fn lemma_contains_trans(a: Seq<char>, b: Seq<char>, c: Seq<char>)
    requires
        contains(a, b),
        contains(b, c),
    ensures
        contains(a, c),
{
    let i = choose|i: int| occurs_at(a, b, i);
    let j = choose|j: int| occurs_at(b, c, j);
    assert(a.subrange(i + j, i + j + c.len()) =~= b.subrange(j, j + c.len()));
    assert(occurs_at(a, c, i + j));
}

proof fn lemma_contains_extend(a: Seq<char>, b: Seq<char>, p: Seq<char>)
    requires
        contains(a, p),
    ensures
        contains(a + b, p),
{
    let i = choose|i: int| occurs_at(a, p, i);
    assert((a + b).subrange(i, i + p.len()) =~= a.subrange(i, i + p.len()));
    assert(occurs_at(a + b, p, i));
}

/// Each line is part of the text the lines make.
proof fn lemma_concat_contains(ls: Seq<Seq<char>>, i: int)
    requires
        0 <= i < ls.len(),
    ensures
        contains(concat_lines(ls), ls[i]),
    decreases ls.len(),
{
    let d = ls.drop_last();
    let front = concat_lines(d);
    if i == ls.len() - 1 {
        let whole = front + ls.last() + seq!['\n'];
        assert(whole.subrange(front.len() as int, (front.len() + ls[i].len()) as int) =~= ls[i]);
        assert(occurs_at(whole, ls[i], front.len() as int));
    } else {
        lemma_concat_contains(d, i);
        lemma_contains_extend(front, ls.last() + seq!['\n'], ls[i]);
        assert(front + (ls.last() + seq!['\n']) =~= front + ls.last() + seq!['\n']);
    }
}

/// A line inserted before the block's closing brace is one of the lines.
proof fn lemma_inserted_line(ls: Seq<Seq<char>>, line: Seq<char>) -> (k: int)
    requires
        block_closes(ls),
    ensures
        0 <= k < insert_before_close(ls, line).len(),
        insert_before_close(ls, line)[k] == line,
{
    let o = first_from(ls, 0, LineTestView::RoutesOpen);
    lemma_first_from_bounds(ls, 0, LineTestView::RoutesOpen);
    lemma_first_from_bounds(ls, o, LineTestView::CloseBrace);
    first_from(ls, o, LineTestView::CloseBrace)
}

/// The text of lines that hold `line` contains what `line` contains.
proof fn lemma_text_contains(ls: Seq<Seq<char>>, k: int, p: Seq<char>)
    requires
        0 <= k < ls.len(),
        contains(ls[k], p),
    ensures
        contains(unlines(ls), p),
{
    lemma_concat_contains(ls, k);
    lemma_contains_trans(unlines(ls), ls[k], p);
}

/// An indented line holds what the line starts with.
proof fn lemma_indented_starts(line: Seq<char>, p: Seq<char>)
    requires
        p.len() <= line.len(),
        line.subrange(0, p.len() as int) == p,
    ensures
        contains("        "@ + line, p),
{
    reveal_strlit("        ");
    assert(("        "@ + line).subrange(8, (8 + p.len()) as int) =~= line.subrange(0, p.len() as int));
    assert(occurs_at("        "@ + line, p, 8));
}

/// The text that imports `routes` from `doido::controller`.
pub open spec fn routes_import_text() -> Seq<char> {
    "use doido::controller::{axum, routes}"@
}

/// No line of `s` keeps a carriage return at its end (a lone `\r` before the
/// line break of `\r\r\n`, or a `\r` at the very end, leaves one).
pub open spec fn no_trailing_cr(s: Seq<char>) -> bool {
    forall|i: int| 0 <= i < lines(s).len() ==> strip_cr(#[trigger] lines(s)[i]) == lines(s)[i]
}

/// The routes mention `doido::auth::routes!` only on lines that also import
/// `routes` from `doido::controller`, and hold a plain `routes! {` opener on a
/// line without that import: the first run rewrites those imports, and with
/// them every mention of the auth-aware block, so a second run switches the
/// opener.
pub open spec fn import_hides_auth_block(s: Seq<char>) -> bool {
    &&& contains(s, "doido::auth::routes!"@)
    &&& forall|i: int|
        0 <= i < lines(s).len() && contains(#[trigger] lines(s)[i], "doido::auth::routes!"@) ==> contains(
            lines(s)[i],
            routes_import_text(),
        )
    &&& exists|i: int|
        0 <= i < lines(s).len() && starts_with(trim(#[trigger] lines(s)[i]), "routes! {"@) && !contains(
            lines(s)[i],
            routes_import_text(),
        )
}

/// The line the search finds passes the test.
proof fn lemma_first_from_passes(ls: Seq<Seq<char>>, k: int, t: LineTestView)
    requires
        first_from(ls, k, t) >= 0,
    ensures
        first_from(ls, k, t) < ls.len(),
        passes(t, ls[first_from(ls, k, t)]),
    decreases ls.len() - k,
{
    if 0 <= k < ls.len() && !passes(t, ls[k]) {
        lemma_first_from_passes(ls, k + 1, t);
    }
}

/// Where each line of `with_uses(ls, imps)` comes from: line `r.0` of `ls`
/// (when `r.0 >= 0`) or import `r.1`.
proof fn lemma_with_uses_source(ls: Seq<Seq<char>>, imps: Seq<Seq<char>>, j: int) -> (r: (int, int))
    requires
        0 <= j < with_uses(ls, imps).len(),
    ensures
        r.0 >= 0 ==> r.0 < ls.len() && with_uses(ls, imps)[j] == ls[r.0],
        r.0 < 0 ==> 0 <= r.1 < imps.len() && with_uses(ls, imps)[j] == imps[r.1],
    decreases imps.len(),
{
    if imps.len() == 0 {
        (j, 0)
    } else {
        let w0 = with_use(ls, imps[0]);
        let r1 = lemma_with_uses_source(w0, imps.drop_first(), j);
        if r1.0 < 0 {
            (-1, r1.1 + 1)
        } else {
            let m = lemma_with_use_source(ls, imps[0], r1.0);
            if m < 0 {
                (-1, 0)
            } else {
                (m, 0)
            }
        }
    }
}

/// Adding imports keeps every line.
proof fn lemma_with_uses_keeps(ls: Seq<Seq<char>>, imps: Seq<Seq<char>>, q: int) -> (m: int)
    requires
        0 <= q < ls.len(),
    ensures
        0 <= m < with_uses(ls, imps).len(),
        with_uses(ls, imps)[m] == ls[q],
    decreases imps.len(),
{
    if imps.len() == 0 {
        q
    } else {
        let w0 = with_use(ls, imps[0]);
        let q1 = lemma_with_use_keeps(ls, imps[0], q);
        lemma_with_uses_keeps(w0, imps.drop_first(), q1)
    }
}

/// After adding trimmed imports, each is a line of the result.
proof fn lemma_with_uses_has(ls: Seq<Seq<char>>, imps: Seq<Seq<char>>)
    requires
        forall|k: int| 0 <= k < imps.len() ==> trim(#[trigger] imps[k]) == imps[k],
    ensures
        imps.len() > 0 ==> with_uses(ls, imps).len() > 0,
        forall|k: int| 0 <= k < imps.len() ==> first_from(with_uses(ls, imps), 0, LineTestView::TrimEquals(#[trigger] imps[k])) >= 0,
    decreases imps.len(),
{
    if imps.len() > 0 {
        let w0 = with_use(ls, imps[0]);
        let rest = imps.drop_first();
        assert(trim(imps[0]) == imps[0]);
        lemma_with_use_has(ls, imps[0]);
        assert forall|k: int| 0 <= k < rest.len() implies trim(#[trigger] rest[k]) == rest[k] by {
            assert(rest[k] == imps[k + 1]);
        }
        lemma_with_uses_has(w0, rest);
        let w = with_uses(ls, imps);
        let t0 = LineTestView::TrimEquals(imps[0]);
        lemma_first_from_passes(w0, 0, t0);
        let i0 = first_from(w0, 0, t0);
        let m = lemma_with_uses_keeps(w0, rest, i0);
        lemma_first_from_found(w, 0, m, t0);
        assert forall|k: int| 0 <= k < imps.len() implies first_from(w, 0, LineTestView::TrimEquals(#[trigger] imps[k])) >= 0 by {
            if k > 0 {
                assert(imps[k] == rest[k - 1]);
            }
        }
    }
}

/// Imports already present are not added again.
proof fn lemma_with_uses_stable(ls: Seq<Seq<char>>, imps: Seq<Seq<char>>)
    requires
        forall|k: int| 0 <= k < imps.len() ==> first_from(ls, 0, LineTestView::TrimEquals(#[trigger] imps[k])) >= 0,
    ensures
        with_uses(ls, imps) == ls,
    decreases imps.len(),
{
    if imps.len() > 0 {
        let rest = imps.drop_first();
        assert(first_from(ls, 0, LineTestView::TrimEquals(imps[0])) >= 0);
        assert(with_use(ls, imps[0]) == ls);
        assert forall|k: int| 0 <= k < rest.len() implies first_from(ls, 0, LineTestView::TrimEquals(#[trigger] rest[k])) >= 0 by {
            assert(rest[k] == imps[k + 1]);
        }
        lemma_with_uses_stable(ls, rest);
    }
}

/// Where each line of `with_use(ls, import)` comes from: `import` itself
/// (`-1`) or line `m` of `ls`.
proof fn lemma_with_use_source(ls: Seq<Seq<char>>, import: Seq<char>, j: int) -> (m: int)
    requires
        0 <= j < with_use(ls, import).len(),
    ensures
        m < 0 ==> with_use(ls, import)[j] == import,
        m >= 0 ==> m < ls.len() && with_use(ls, import)[j] == ls[m],
{
    crate::generators::lines::lemma_last_passing_bounds(ls, LineTestView::Contains("use crate::"@));
    crate::generators::lines::lemma_last_passing_bounds(ls, LineTestView::UseStatement);
    if first_from(ls, 0, LineTestView::TrimEquals(import)) >= 0 {
        j
    } else {
        let a = crate::generators::lines::last_passing(ls, LineTestView::Contains("use crate::"@));
        let b = crate::generators::lines::last_passing(ls, LineTestView::UseStatement);
        let pos = if a >= 0 {
            a + 1
        } else if b >= 0 {
            b + 1
        } else {
            0
        };
        if j < pos {
            j
        } else if j == pos {
            -1
        } else {
            j - 1
        }
    }
}

/// `with_use` leaves a line that is `import` once trimmed.
proof fn lemma_with_use_has(ls: Seq<Seq<char>>, import: Seq<char>)
    requires
        trim(import) == import,
    ensures
        with_use(ls, import).len() > 0,
        first_from(with_use(ls, import), 0, LineTestView::TrimEquals(import)) >= 0,
{
    lemma_first_from_bounds(ls, 0, LineTestView::TrimEquals(import));
    crate::generators::lines::lemma_last_passing_bounds(ls, LineTestView::Contains("use crate::"@));
    crate::generators::lines::lemma_last_passing_bounds(ls, LineTestView::UseStatement);
    if first_from(ls, 0, LineTestView::TrimEquals(import)) < 0 {
        let a = crate::generators::lines::last_passing(ls, LineTestView::Contains("use crate::"@));
        let b = crate::generators::lines::last_passing(ls, LineTestView::UseStatement);
        let pos = if a >= 0 {
            a + 1
        } else if b >= 0 {
            b + 1
        } else {
            0
        };
        let w = ls.insert(pos, import);
        assert(passes(LineTestView::TrimEquals(import), w[pos]));
        lemma_first_from_found(w, 0, pos, LineTestView::TrimEquals(import));
    }
}

/// The auth-aware block opener, trimmed, does not start with `routes! {`.
proof fn lemma_auth_block_line_trim()
    ensures
        !starts_with(trim(auth_block_line()), "routes! {"@),
        !has_char(auth_block_line(), '\n'),
        strip_cr(auth_block_line()) == auth_block_line(),
        !contains(auth_block_line(), routes_import_text()),
{
    reveal_strlit("    doido::auth::routes! {");
    reveal_strlit("routes! {");
    reveal_strlit("use doido::controller::{axum, routes}");
    let l = auth_block_line();
    let a = crate::text::lemma_trim_start_within(l);
    assert(a == 4) by {
        if a < 4 {
            assert(l[a] == ' ');
        }
        if a > 4 {
            assert(is_ws(l[4]));
        }
    }
    let b = crate::text::lemma_trim_end_within(trim_start(l));
    if b > 0 {
        assert(trim(l)[0] == 'd');
    }
    assert(!has_char(l, '\n'));
}

/// Each line once the block is switched and the `routes` import dropped holds
/// no newline, no trailing `\r` and no `routes` import, and trims to a
/// `routes! {` opener only where the routes mention `doido::auth::routes!`.
proof fn lemma_dropped_line(routes: Seq<char>, m: int)
    requires
        0 <= m < lines(routes).len(),
        no_trailing_cr(routes),
    ensures
        ({
            let d = drop_routes_import(switch_block(lines(routes), routes), routes)[m];
            &&& drop_routes_import(switch_block(lines(routes), routes), routes).len() == lines(routes).len()
            &&& !has_char(d, '\n')
            &&& strip_cr(d) == d
            &&& !contains(d, routes_import_text())
            &&& (starts_with(trim(d), "routes! {"@) ==> contains(routes, "doido::auth::routes!"@))
            &&& (starts_with(trim(d), "routes! {"@) ==> d == lines(routes)[m])
        }),
{
    let l0 = lines(routes);
    lemma_lines_no_newline(routes);
    lemma_auth_block_line_trim();
    reveal_strlit("use doido::controller::axum;");
    reveal_strlit("use doido::controller::{axum, routes}");
    reveal_strlit("routes! {");
    let drop_line = "use doido::controller::axum;"@;
    assert(!has_char(drop_line, '\n'));
    lemma_trim_fixed(drop_line);
    assert(drop_line.subrange(0, 9)[0] != "routes! {"@[0]);
    assert(!starts_with(trim(drop_line), "routes! {"@));
    assert(!contains(drop_line, routes_import_text()));
    assert(!has_char(l0[m], '\n'));
    if !contains(routes, routes_import_text()) && contains(l0[m], routes_import_text()) {
        crate::text::lemma_line_contains(routes, m, routes_import_text());
    }
    if !contains(routes, "routes! {"@) && starts_with(trim(l0[m]), "routes! {"@) {
        crate::text::lemma_trim_starts_contains(l0[m], "routes! {"@);
        crate::text::lemma_line_contains(routes, m, "routes! {"@);
    }
}

/// The lines the auth line goes into come back out of the text they make,
/// and preparing that text again gives the same lines, for imports that are
/// each one trimmed line.
proof fn lemma_prepared_stable(routes: Seq<char>, imps: Seq<Seq<char>>)
    requires
        no_trailing_cr(routes),
        !import_hides_auth_block(routes),
        imps.len() > 0,
        forall|k: int| 0 <= k < imps.len() ==> plain_import(#[trigger] imps[k]),
    ensures
        lines(unlines(prepared_lines(routes, imps))) == prepared_lines(routes, imps),
        prepared_lines(unlines(prepared_lines(routes, imps)), imps) == prepared_lines(routes, imps),
{
    let l0 = lines(routes);
    let sw = switch_block(l0, routes);
    let dr = drop_routes_import(sw, routes);
    let l1 = with_uses(dr, imps);
    assert(dr.len() == l0.len());
    assert forall|k: int| 0 <= k < imps.len() implies trim(#[trigger] imps[k]) == imps[k] by {
        assert(plain_import(imps[k]));
    }
    lemma_with_uses_has(dr, imps);
    let pat_rb = "routes! {"@;
    let pat_auth = "doido::auth::routes!"@;
    assert forall|j: int| 0 <= j < l1.len() implies {
        &&& !has_char(#[trigger] l1[j], '\n')
        &&& strip_cr(l1[j]) == l1[j]
        &&& !contains(l1[j], routes_import_text())
    } by {
        let r = lemma_with_uses_source(dr, imps, j);
        if r.0 >= 0 {
            lemma_dropped_line(routes, r.0);
        } else {
            assert(plain_import(imps[r.1]));
        }
    }
    let out1 = unlines(l1);
    crate::text::lemma_lines_unlines(l1);
    if exists|j: int| 0 <= j < l1.len() && starts_with(trim(#[trigger] l1[j]), pat_rb) {
        let j = choose|j: int| 0 <= j < l1.len() && starts_with(trim(#[trigger] l1[j]), pat_rb);
        let r = lemma_with_uses_source(dr, imps, j);
        if r.0 < 0 {
            assert(plain_import(imps[r.1]));
        }
        let m = r.0;
        lemma_dropped_line(routes, m);
        assert(l1[j] == l0[m]);
        assert(contains(routes, pat_auth));
        assert(starts_with(trim(l0[m]), pat_rb) && !contains(l0[m], routes_import_text()));
        assert(!(forall|i: int|
            0 <= i < l0.len() && contains(#[trigger] l0[i], pat_auth) ==> contains(l0[i], routes_import_text())));
        let q = choose|q: int| 0 <= q < l0.len() && contains(#[trigger] l0[q], pat_auth) && !contains(
            l0[q],
            routes_import_text(),
        );
        assert(sw == l0);
        assert(dr[q] == l0[q]);
        let k = lemma_with_uses_keeps(dr, imps, q);
        lemma_text_contains(l1, k, pat_auth);
        assert(switch_block(l1, out1) == l1);
    } else {
        assert(switch_block(l1, out1) =~= l1);
    }
    assert(drop_routes_import(l1, out1) =~= l1);
    lemma_with_uses_stable(l1, imps);
}

/// An import line of the usual shape for [`lemma_prepared_stable`].
pub open spec fn plain_import(imp: Seq<char>) -> bool {
    &&& !has_char(imp, '\n')
    &&& strip_cr(imp) == imp
    &&& trim(imp) == imp
    &&& !starts_with(imp, "routes! {"@)
    &&& !contains(imp, routes_import_text())
}

/// The `User` import and the `auth` controllers import are plain lines.
proof fn lemma_imports_plain()
    ensures
        plain_import(USER_IMPORT@),
        plain_import(AUTH_MOD_IMPORT@),
{
    reveal_strlit("use crate::models::user::Model as User;");
    reveal_strlit("use crate::controllers::auth;");
    reveal_strlit("routes! {");
    reveal_strlit("use doido::controller::{axum, routes}");
    let pat = routes_import_text();
    let u = USER_IMPORT@;
    let a = AUTH_MOD_IMPORT@;
    lemma_trim_fixed(u);
    lemma_trim_fixed(a);
    assert(!has_char(u, '\n'));
    assert(!has_char(a, '\n'));
    assert(u.subrange(0, 9)[0] != "routes! {"@[0]);
    assert(a.subrange(0, 9)[0] != "routes! {"@[0]);
    assert(!contains(u, pat)) by {
        if contains(u, pat) {
            let q = choose|q: int| occurs_at(u, pat, q);
            assert(u.subrange(q, q + 37)[0] == pat[0]);
            assert(u.subrange(q, q + 37)[4] == pat[4]);
        }
    }
}

/// Where no routes block closes, the auth line is not put in and the lines
/// stay as they are.
proof fn lemma_no_block(ls: Seq<Seq<char>>, line: Seq<char>)
    requires
        !block_closes(ls),
    ensures
        insert_before_close(ls, line) == ls,
{
}

/// Injecting the built-in auth routes a second time changes nothing. Left out
/// are routes with no routes block to put the line in where a line keeps a
/// trailing `\r` (the first run's line breaks drop it), or where the block is
/// hidden as [`import_hides_auth_block`] says (the second run then switches
/// a plain `routes! {` opener).
pub proof fn inject_auth_routes_idempotent(routes: Seq<char>)
    requires
        contains(routes, "auth_routes!(User"@) || block_closes(prepared_lines(routes, seq![USER_IMPORT@]))
            || (no_trailing_cr(routes) && !import_hides_auth_block(routes)),
    ensures
        inject_auth_routes_spec(inject_auth_routes_spec(routes)) == inject_auth_routes_spec(routes),
{
    if !contains(routes, "auth_routes!(User"@) && !block_closes(prepared_lines(routes, seq![USER_IMPORT@])) {
        let ls = prepared_lines(routes, seq![USER_IMPORT@]);
        let line = "        "@ + "auth_routes!(User);"@;
        lemma_imports_plain();
        lemma_prepared_stable(routes, seq![USER_IMPORT@]);
        lemma_no_block(ls, line);
        assert(inject_auth_routes_spec(routes) == unlines(ls));
    } else if !contains(routes, "auth_routes!(User"@) {
        let ls = prepared_lines(routes, seq![USER_IMPORT@]);
        let line = "        "@ + "auth_routes!(User);"@;
        let k = lemma_inserted_line(ls, line);
        reveal_strlit("auth_routes!(User);");
        reveal_strlit("auth_routes!(User");
        assert("auth_routes!(User);"@.subrange(0, 17) =~= "auth_routes!(User"@);
        lemma_indented_starts("auth_routes!(User);"@, "auth_routes!(User"@);
        lemma_text_contains(insert_before_close(ls, line), k, "auth_routes!(User"@);
    }
}

/// Injecting auth routes restricted to some groups a second time changes
/// nothing, with the same routes left out.
pub proof fn inject_auth_routes_only_idempotent(routes: Seq<char>, groups: Seq<Seq<char>>)
    requires
        contains(routes, "auth_routes!(User"@) || block_closes(prepared_lines(routes, seq![USER_IMPORT@]))
            || (no_trailing_cr(routes) && !import_hides_auth_block(routes)),
    ensures
        inject_auth_routes_only_spec(inject_auth_routes_only_spec(routes, groups), groups)
            == inject_auth_routes_only_spec(routes, groups),
{
    if !contains(routes, "auth_routes!(User"@) && !block_closes(prepared_lines(routes, seq![USER_IMPORT@])) {
        let ls = prepared_lines(routes, seq![USER_IMPORT@]);
        let line = "        "@ + only_line(groups);
        lemma_imports_plain();
        lemma_prepared_stable(routes, seq![USER_IMPORT@]);
        lemma_no_block(ls, line);
        assert(inject_auth_routes_only_spec(routes, groups) == unlines(ls));
    } else if !contains(routes, "auth_routes!(User"@) {
        let ls = prepared_lines(routes, seq![USER_IMPORT@]);
        let line = "        "@ + only_line(groups);
        let k = lemma_inserted_line(ls, line);
        reveal_strlit("auth_routes!(User, only: [");
        reveal_strlit("auth_routes!(User");
        let o = only_line(groups);
        assert(o.subrange(0, 17) =~= "auth_routes!(User"@);
        lemma_indented_starts(o, "auth_routes!(User"@);
        lemma_text_contains(insert_before_close(ls, line), k, "auth_routes!(User"@);
    }
}

/// Injecting a scaffold's `resources!` route a second time changes nothing.
/// Left out are routes with no routes block to put the line in where a line
/// keeps a trailing `\r` (the first run's line breaks drop it), and
/// controller names that hold a newline: the `use` line of such a name is
/// split into lines, and a piece `}` can close a routes block on the second
/// run that the first run did not see (controller `a\n}\nx` after a
/// `use crate::controllers::B;` line inside an unclosed block).
pub proof fn inject_resources_idempotent(routes: Seq<char>, plural: Seq<char>, controller: Seq<char>, api: bool)
    requires
        contains(routes, resources_line(plural, controller, api)) || block_closes(
            with_controller_use(lines(routes), routes, controller),
        ) || (no_trailing_cr(routes) && !has_char(controller, '\n')),
    ensures
        inject_resources_spec(inject_resources_spec(routes, plural, controller, api), plural, controller, api)
            == inject_resources_spec(routes, plural, controller, api),
{
    let res = resources_line(plural, controller, api);
    let ls = with_controller_use(lines(routes), routes, controller);
    let line = "        "@ + res;
    if !contains(routes, res) && block_closes(ls) {
        let k = lemma_inserted_line(ls, line);
        assert(res.subrange(0, res.len() as int) =~= res);
        lemma_indented_starts(res, res);
        lemma_text_contains(insert_before_close(ls, line), k, res);
    } else if !contains(routes, res) {
        let l0 = lines(routes);
        let cu = controller_use(controller);
        reveal_strlit("use crate::controllers::");
        reveal_strlit(";");
        lemma_no_newline3("use crate::controllers::"@, controller, ";"@);
        assert(cu.last() == ';');
        lemma_lines_no_newline(routes);
        lemma_no_block(ls, line);
        let out1 = unlines(ls);
        assert(inject_resources_spec(routes, plural, controller, api) == out1);
        assert(ls.len() > 0);
        assert forall|j: int| 0 <= j < ls.len() implies !has_char(#[trigger] ls[j], '\n') && strip_cr(ls[j])
            == ls[j] by {
            if !contains(routes, cu) {
                let a = crate::generators::lines::last_passing(l0, LineTestView::Contains("use crate::controllers"@));
                crate::generators::lines::lemma_last_passing_bounds(l0, LineTestView::Contains("use crate::controllers"@));
                let pos = if a >= 0 { a + 1 } else { 0 };
                if j > pos {
                    assert(ls[j] == l0[j - 1]);
                } else if j < pos {
                    assert(ls[j] == l0[j]);
                }
            }
        }
        crate::text::lemma_lines_unlines(ls);
        assert(cu.subrange(0, cu.len() as int) =~= cu);
        assert(occurs_at(cu, cu, 0));
        if contains(routes, cu) {
            let q = crate::text::lemma_line_containing(routes, cu);
            lemma_text_contains(ls, q, cu);
        } else {
            let a = crate::generators::lines::last_passing(l0, LineTestView::Contains("use crate::controllers"@));
            crate::generators::lines::lemma_last_passing_bounds(l0, LineTestView::Contains("use crate::controllers"@));
            let pos = if a >= 0 { a + 1 } else { 0 };
            lemma_text_contains(ls, pos, cu);
        }
        assert(with_controller_use(lines(out1), out1, controller) == ls);
    }
}

/// Registering the `auth` controllers module a second time changes nothing.
pub proof fn register_auth_controllers_mod_idempotent(controllers_mod: Seq<char>)
    ensures
        register_auth_mod_spec(register_auth_mod_spec(controllers_mod)) == register_auth_mod_spec(controllers_mod),
{
    if !contains(controllers_mod, "pub mod auth;"@) {
        let head = trim_end(controllers_mod) + "\n"@;
        let out = head + "pub mod auth;"@ + "\n"@;
        assert(out.subrange(head.len() as int, (head.len() + "pub mod auth;"@.len()) as int) =~= "pub mod auth;"@);
        assert(occurs_at(out, "pub mod auth;"@, head.len() as int));
    }
}

/// A line that passes `t` at `j >= k` makes the search from `k` succeed.
proof fn lemma_first_from_found(ls: Seq<Seq<char>>, k: int, j: int, t: LineTestView)
    requires
        0 <= k <= j < ls.len(),
        passes(t, ls[j]),
    ensures
        first_from(ls, k, t) >= 0,
    decreases j - k,
{
    if !passes(t, ls[k]) {
        lemma_first_from_found(ls, k + 1, j, t);
    }
}

/// `<head><name><tail>` where the literals have no newline and `name` none.
proof fn lemma_no_newline3(head: Seq<char>, name: Seq<char>, tail: Seq<char>)
    requires
        !has_char(head, '\n'),
        !has_char(name, '\n'),
        !has_char(tail, '\n'),
    ensures
        !has_char(head + name + tail, '\n'),
{
    let d = head + name + tail;
    assert forall|t: int| 0 <= t < d.len() implies d[t] != '\n' by {
        if t < head.len() {
            assert(d[t] == head[t]);
        } else if t < head.len() + name.len() {
            assert(d[t] == name[t - head.len()]);
        } else {
            assert(d[t] == tail[t - head.len() - name.len()]);
        }
    }
}

/// A declaration that starts and ends with a letter or `;` trims to itself.
proof fn lemma_trim_fixed(d: Seq<char>)
    requires
        d.len() > 0,
        !is_ws(d[0]),
        !is_ws(d.last()),
    ensures
        trim(d) == d,
{
}

/// Registering module `module` a second time changes nothing, when the name
/// holds no newline.
pub proof fn register_module_idempotent(existing: Seq<char>, module: Seq<char>, marker: Seq<char>)
    requires
        !has_char(module, '\n'),
    ensures
        register_module_spec(register_module_spec(existing, module, marker), module, marker)
            == register_module_spec(existing, module, marker),
{
    let decl = pub_mod_decl(module);
    let ls = lines(existing);
    if first_from(ls, 0, LineTestView::TrimEquals(decl)) < 0 {
        reveal_strlit("pub mod ");
        reveal_strlit(";");
        lemma_no_newline3("pub mod "@, module, ";"@);
        let i = first_from(ls, 0, LineTestView::Contains(marker));
        lemma_first_from_bounds(ls, 0, LineTestView::Contains(marker));
        let ls2 = if i >= 0 {
            ls.insert(i, decl)
        } else {
            ls.push(decl)
        };
        let j = if i >= 0 {
            i
        } else {
            ls.len() as int
        };
        assert(ls2[j] == decl);
        lemma_lines_no_newline(existing);
        assert forall|k: int| 0 <= k < ls2.len() implies !has_char(#[trigger] ls2[k], '\n') by {
            if k != j {
                if i >= 0 && k > j {
                    assert(ls2[k] == ls[k - 1]);
                } else {
                    assert(ls2[k] == ls[k]);
                }
            }
        }
        lemma_lines_of_concat(ls2);
        let out = unlines(ls2);
        assert(out == concat_lines(ls2));
        assert(lines(out)[j] == strip_cr(decl));
        assert(decl.last() == ';');
        assert(strip_cr(decl) == decl);
        assert(decl[0] == 'p');
        lemma_trim_fixed(decl);
        lemma_first_from_found(lines(out), 0, j, LineTestView::TrimEquals(decl));
    }
}

/// Registering a controller a second time changes nothing, when the plural
/// name holds no newline.
pub proof fn register_controller_idempotent(controllers_mod: Seq<char>, plural: Seq<char>, controller: Seq<char>)
    requires
        !has_char(plural, '\n'),
    ensures
        register_controller_spec(register_controller_spec(controllers_mod, plural, controller), plural, controller)
            == register_controller_spec(controllers_mod, plural, controller),
{
    let module = plural + "_controller"@;
    let decl = "mod "@ + module + ";"@;
    if first_from(lines(controllers_mod), 0, LineTestView::TrimEquals(decl)) < 0 {
        reveal_strlit("mod ");
        reveal_strlit(";");
        reveal_strlit("_controller");
        reveal_strlit(";\n");
        reveal_strlit("\n");
        lemma_no_newline3(plural, "_controller"@, Seq::<char>::empty());
        assert(module =~= plural + "_controller"@ + Seq::<char>::empty());
        lemma_no_newline3("mod "@, module, ";"@);
        let a = trim_end(controllers_mod);
        let b = "pub use "@ + module + "::"@ + controller + ";\n"@;
        let out = trim_end(controllers_mod) + "\n"@ + "mod "@ + module + ";\n"@ + "pub use "@ + module + "::"@
            + controller + ";\n"@;
        assert(out == register_controller_spec(controllers_mod, plural, controller));
        assert(out =~= a + seq!['\n'] + (decl + seq!['\n'] + b));
        lemma_lines_split(a, decl + seq!['\n'] + b);
        lemma_lines_split(decl, b);
        lemma_lines_one(decl);
        let j = lines(a + seq!['\n']).len() as int;
        assert(lines(out)[j] == strip_cr(decl));
        assert(decl.last() == ';');
        assert(decl[0] == 'm');
        lemma_trim_fixed(decl);
        lemma_first_from_found(lines(out), 0, j, LineTestView::TrimEquals(decl));
    }
}

/// Replacing the first occurrence of `from` puts `to` in the text.
proof fn lemma_replace_first_contains(s: Seq<char>, from: Seq<char>, to: Seq<char>)
    requires
        from.len() > 0,
        contains(s, from),
    ensures
        contains(replace_first(s, from, to), to),
    decreases s.len(),
{
    let i = choose|i: int| occurs_at(s, from, i);
    if s.take(from.len() as int) == from {
        let r = to + s.skip(from.len() as int);
        assert(r.subrange(0, to.len() as int) =~= to);
        assert(occurs_at(r, to, 0));
    } else {
        assert(i != 0) by {
            if i == 0 {
                assert(s.take(from.len() as int) =~= s.subrange(0, from.len() as int));
            }
        }
        let d = s.drop_first();
        assert(d.subrange(i - 1, i - 1 + from.len()) =~= s.subrange(i, i + from.len()));
        assert(occurs_at(d, from, i - 1));
        lemma_replace_first_contains(d, from, to);
        let inner = replace_first(d, from, to);
        let j = choose|j: int| occurs_at(inner, to, j);
        let r = seq![s[0]] + inner;
        assert(r.subrange(j + 1, j + 1 + to.len()) =~= inner.subrange(j, j + to.len()));
        assert(occurs_at(r, to, j + 1));
    }
}

/// Text whose ends are not whitespace survives trimming.
proof fn lemma_trim_keeps(l: Seq<char>, p: Seq<char>)
    requires
        p.len() > 0,
        contains(l, p),
        !is_ws(p[0]),
        !is_ws(p.last()),
    ensures
        contains(trim(l), p),
{
    lemma_trim_start_keeps(l, p);
    lemma_trim_end_keeps(trim_start(l), p);
}

proof fn lemma_trim_start_keeps(l: Seq<char>, p: Seq<char>)
    requires
        p.len() > 0,
        contains(l, p),
        !is_ws(p[0]),
    ensures
        contains(trim_start(l), p),
    decreases l.len(),
{
    if l.len() > 0 && is_ws(l[0]) {
        let i = choose|i: int| occurs_at(l, p, i);
        assert(i != 0) by {
            if i == 0 {
                assert(l.subrange(0, p.len() as int)[0] == l[0]);
            }
        }
        let d = l.drop_first();
        assert(d.subrange(i - 1, i - 1 + p.len()) =~= l.subrange(i, i + p.len()));
        assert(occurs_at(d, p, i - 1));
        lemma_trim_start_keeps(d, p);
    }
}

proof fn lemma_trim_end_keeps(l: Seq<char>, p: Seq<char>)
    requires
        p.len() > 0,
        contains(l, p),
        !is_ws(p.last()),
    ensures
        contains(trim_end(l), p),
    decreases l.len(),
{
    if l.len() > 0 && is_ws(l.last()) {
        let i = choose|i: int| occurs_at(l, p, i);
        assert(i + p.len() < l.len()) by {
            if i + p.len() == l.len() {
                assert(l.subrange(i, i + p.len())[p.len() - 1] == l.last());
            }
        }
        let d = l.drop_last();
        assert(d.subrange(i, i + p.len()) =~= l.subrange(i, i + p.len()));
        assert(occurs_at(d, p, i));
        lemma_trim_end_keeps(d, p);
    }
}

/// Adding an import line keeps every line.
proof fn lemma_with_use_keeps(ls: Seq<Seq<char>>, import: Seq<char>, k: int) -> (m: int)
    requires
        0 <= k < ls.len(),
    ensures
        0 <= m < with_use(ls, import).len(),
        with_use(ls, import)[m] == ls[k],
{
    crate::generators::lines::lemma_last_passing_bounds(ls, LineTestView::Contains("use crate::"@));
    crate::generators::lines::lemma_last_passing_bounds(ls, LineTestView::UseStatement);
    if first_from(ls, 0, LineTestView::TrimEquals(import)) >= 0 {
        k
    } else {
        let w = with_use(ls, import);
        let a = crate::generators::lines::last_passing(ls, LineTestView::Contains("use crate::"@));
        let b = crate::generators::lines::last_passing(ls, LineTestView::UseStatement);
        let pos = if a >= 0 {
            a + 1
        } else if b >= 0 {
            b + 1
        } else {
            0
        };
        if k < pos {
            k
        } else {
            k + 1
        }
    }
}

/// The local-controllers line holds `controllers: {`.
proof fn lemma_local_line_marker(two_factor: bool)
    ensures
        contains(local_line(two_factor), "controllers: {"@),
{
    reveal_strlit("auth_routes!(User, controllers: { ");
    reveal_strlit("controllers: {");
    let l = local_line(two_factor);
    assert(l.subrange(19, 33) =~= "controllers: {"@);
    assert(occurs_at(l, "controllers: {"@, 19));
}

/// Text holding a `(` is not found in a line without one.
proof fn lemma_paren_absent(l: Seq<char>, p: Seq<char>, i: int)
    requires
        0 <= i < p.len(),
        p[i] == '(',
        !has_char(l, '('),
    ensures
        !contains(l, p),
{
    if contains(l, p) {
        let q = choose|q: int| occurs_at(l, p, q);
        assert(l[q + i] == l.subrange(q, q + p.len())[i]);
    }
}

/// Pointing the auth routes at the local controllers a second time changes
/// nothing. Left out are routes with no override, no bare
/// `auth_routes!(User);` and no routes block to put the line in, where a line
/// keeps a trailing `\r` or the block is hidden as
/// [`import_hides_auth_block`] says.
pub proof fn rewire_local_controllers_idempotent(routes: Seq<char>, two_factor: bool)
    requires
        contains(routes, "controllers: {"@) || contains(routes, "auth_routes!(User);"@) || block_closes(
            prepared_lines(routes, seq![USER_IMPORT@, AUTH_MOD_IMPORT@]),
        ) || (no_trailing_cr(routes) && !import_hides_auth_block(routes)),
    ensures
        rewire_spec(rewire_spec(routes, two_factor), two_factor) == rewire_spec(routes, two_factor),
{
    let marker = "controllers: {"@;
    reveal_strlit("controllers: {");
    lemma_local_line_marker(two_factor);
    if contains(routes, marker) {
    } else if contains(routes, "auth_routes!(User);"@) {
        reveal_strlit("auth_routes!(User);");
        let replaced = replace_first(routes, "auth_routes!(User);"@, local_line(two_factor));
        lemma_replace_first_contains(routes, "auth_routes!(User);"@, local_line(two_factor));
        lemma_contains_trans(replaced, local_line(two_factor), marker);
        let ls = lines(replaced);
        let k = crate::text::lemma_line_containing(replaced, marker);
        if first_from(ls, 0, LineTestView::TrimEquals(USER_IMPORT@)) >= 0 {
            let pred = |l: Seq<char>| trim(l) != USER_IMPORT@;
            lemma_trim_keeps(ls[k], marker);
            reveal_strlit("use crate::models::user::Model as User;");
            assert(trim(ls[k]) != USER_IMPORT@) by {
                if trim(ls[k]) == USER_IMPORT@ {
                    let q = choose|q: int| occurs_at(USER_IMPORT@, marker, q);
                    assert(USER_IMPORT@.subrange(q, q + 14)[0] == 'c');
                    assert(USER_IMPORT@.subrange(q, q + 14)[1] == 'o');
                    assert(USER_IMPORT@.subrange(q, q + 14)[11] == ':');
                }
            }
            ls.lemma_filter_contains(pred, k);
            let f = without_user_import(ls);
            let fi = choose|fi: int| 0 <= fi < f.len() && f[fi] == ls[k];
            let m = lemma_with_use_keeps(f, AUTH_MOD_IMPORT@, fi);
            lemma_text_contains(with_use(f, AUTH_MOD_IMPORT@), m, marker);
        } else if !contains(replaced, AUTH_MOD_IMPORT@) {
            let m = lemma_with_use_keeps(ls, AUTH_MOD_IMPORT@, k);
            lemma_text_contains(with_use(ls, AUTH_MOD_IMPORT@), m, marker);
        }
    } else if !block_closes(prepared_lines(routes, seq![USER_IMPORT@, AUTH_MOD_IMPORT@])) {
        let imps = seq![USER_IMPORT@, AUTH_MOD_IMPORT@];
        let l0 = lines(routes);
        let sw = switch_block(l0, routes);
        let dr = drop_routes_import(sw, routes);
        let ls = prepared_lines(routes, imps);
        let line = "        "@ + local_line(two_factor);
        lemma_imports_plain();
        assert forall|k: int| 0 <= k < imps.len() implies plain_import(#[trigger] imps[k]) by {
            if k == 0 {
                assert(imps[k] == USER_IMPORT@);
            } else {
                assert(imps[k] == AUTH_MOD_IMPORT@);
            }
        }
        lemma_prepared_stable(routes, imps);
        lemma_no_block(ls, line);
        assert forall|k: int| 0 <= k < imps.len() implies trim(#[trigger] imps[k]) == imps[k] by {
            assert(plain_import(imps[k]));
        }
        lemma_with_uses_has(dr, imps);
        let out1 = unlines(ls);
        assert(rewire_spec(routes, two_factor) == out1);
        let bare = "auth_routes!(User);"@;
        reveal_strlit("auth_routes!(User);");
        reveal_strlit("use crate::controllers::auth;");
        reveal_strlit("use crate::models::user::Model as User;");
        reveal_strlit("use doido::controller::axum;");
        reveal_strlit("    doido::auth::routes! {");
        assert(bare[12] == '(');
        assert(!contains(out1, bare)) by {
            if contains(out1, bare) {
                let j = crate::text::lemma_concat_line_containing(ls, bare);
                let r = lemma_with_uses_source(dr, imps, j);
                if r.0 < 0 {
                    let im = imps[r.1];
                    assert(im == USER_IMPORT@ || im == AUTH_MOD_IMPORT@);
                    assert(!has_char(im, '('));
                    lemma_paren_absent(im, bare, 12);
                } else {
                    let m = r.0;
                    assert(dr.len() == l0.len());
                    let d = dr[m];
                    if d == l0[m] {
                        crate::text::lemma_line_contains(routes, m, bare);
                    } else if d == auth_block_line() {
                        assert(!has_char(d, '('));
                        lemma_paren_absent(d, bare, 12);
                    } else {
                        assert(d == "use doido::controller::axum;"@);
                        assert(!has_char(d, '('));
                        lemma_paren_absent(d, bare, 12);
                    }
                }
            }
        }
    } else {
        let ls = prepared_lines(routes, seq![USER_IMPORT@, AUTH_MOD_IMPORT@]);
        let line = "        "@ + local_line(two_factor);
        let k = lemma_inserted_line(ls, line);
        reveal_strlit("        ");
        let l = local_line(two_factor);
        let q = choose|q: int| occurs_at(l, marker, q);
        assert(line.subrange(8 + q, 8 + q + 14) =~= l.subrange(q, q + 14));
        assert(occurs_at(line, marker, 8 + q));
        lemma_text_contains(insert_before_close(ls, line), k, marker);
    }
}

/// Text made of two pieces without a newline holds none.
proof fn lemma_no_newline2(a: Seq<char>, b: Seq<char>)
    requires
        !has_char(a, '\n'),
        !has_char(b, '\n'),
    ensures
        !has_char(a + b, '\n'),
{
    let d = a + b;
    assert forall|t: int| 0 <= t < d.len() implies d[t] != '\n' by {
        if t < a.len() {
            assert(d[t] == a[t]);
        } else {
            assert(d[t] == b[t - a.len()]);
        }
    }
}

/// An indented action route holds no newline and ends in `;`.
proof fn lemma_action_line(snake: Seq<char>, controller: Seq<char>, action: Seq<char>)
    requires
        !has_char(snake, '\n'),
        !has_char(controller, '\n'),
        !has_char(action, '\n'),
    ensures
        !has_char(action_route(snake, controller, action), '\n'),
        !has_char("        "@ + action_route(snake, controller, action), '\n'),
        strip_cr("        "@ + action_route(snake, controller, action)) == "        "@ + action_route(
            snake,
            controller,
            action,
        ),
        action_route(snake, controller, action).len() > 0,
        action_route(snake, controller, action).last() == ';',
        contains("        "@ + action_route(snake, controller, action), action_route(snake, controller, action)),
{
    reveal_strlit("get!(\"");
    reveal_strlit("/");
    reveal_strlit("\", ");
    reveal_strlit("::");
    reveal_strlit(");");
    reveal_strlit("        ");
    let r = action_route(snake, controller, action);
    let p1 = "get!(\""@ + "/"@;
    assert(!has_char(p1, '\n'));
    lemma_no_newline2(p1, snake);
    lemma_no_newline2(p1 + snake, "/"@);
    lemma_no_newline2(p1 + snake + "/"@, action);
    lemma_no_newline2(p1 + snake + "/"@ + action, "\", "@);
    lemma_no_newline2(p1 + snake + "/"@ + action + "\", "@, controller);
    lemma_no_newline2(p1 + snake + "/"@ + action + "\", "@ + controller, "::"@);
    lemma_no_newline2(p1 + snake + "/"@ + action + "\", "@ + controller + "::"@, action);
    lemma_no_newline2(p1 + snake + "/"@ + action + "\", "@ + controller + "::"@ + action, ");"@);
    assert(r == p1 + snake + "/"@ + action + "\", "@ + controller + "::"@ + action + ");"@);
    lemma_no_newline2("        "@, r);
    let line = "        "@ + r;
    assert(line.last() == r.last());
    assert(line.subrange(8, (8 + r.len()) as int) =~= r);
    assert(occurs_at(line, r, 8));
}

/// Where each line after adding action routes comes from: line `r.0` of `ls`
/// (when `r.0 >= 0`) or the indented route of action `r.1`.
proof fn lemma_action_lines_source(
    ls: Seq<Seq<char>>,
    close: int,
    routes: Seq<char>,
    snake: Seq<char>,
    controller: Seq<char>,
    actions: Seq<Seq<char>>,
    j: int,
) -> (r: (int, int))
    requires
        0 <= close <= ls.len(),
        0 <= j < add_action_routes(ls, close, routes, snake, controller, actions).len(),
    ensures
        r.0 >= 0 ==> r.0 < ls.len() && add_action_routes(ls, close, routes, snake, controller, actions)[j]
            == ls[r.0],
        r.0 < 0 ==> 0 <= r.1 < actions.len() && add_action_routes(ls, close, routes, snake, controller, actions)[j]
            == "        "@ + action_route(snake, controller, actions[r.1]),
    decreases actions.len(),
{
    if actions.len() == 0 {
        (j, 0)
    } else {
        let route = action_route(snake, controller, actions[0]);
        let next = if !contains(routes, route) {
            ls.insert(close, "        "@ + route)
        } else {
            ls
        };
        let r1 = lemma_action_lines_source(next, close, routes, snake, controller, actions.drop_first(), j);
        if r1.0 < 0 {
            (-1, r1.1 + 1)
        } else if !contains(routes, route) {
            if r1.0 < close {
                (r1.0, 0)
            } else if r1.0 == close {
                (-1, 0)
            } else {
                (r1.0 - 1, 0)
            }
        } else {
            r1
        }
    }
}

/// Adding action routes keeps every line.
proof fn lemma_action_lines_keep(
    ls: Seq<Seq<char>>,
    close: int,
    routes: Seq<char>,
    snake: Seq<char>,
    controller: Seq<char>,
    actions: Seq<Seq<char>>,
    q: int,
) -> (m: int)
    requires
        0 <= close <= ls.len(),
        0 <= q < ls.len(),
    ensures
        0 <= m < add_action_routes(ls, close, routes, snake, controller, actions).len(),
        add_action_routes(ls, close, routes, snake, controller, actions)[m] == ls[q],
    decreases actions.len(),
{
    if actions.len() == 0 {
        q
    } else {
        let route = action_route(snake, controller, actions[0]);
        if !contains(routes, route) {
            let next = ls.insert(close, "        "@ + route);
            let q1 = if q < close { q } else { q + 1 };
            lemma_action_lines_keep(next, close, routes, snake, controller, actions.drop_first(), q1)
        } else {
            lemma_action_lines_keep(ls, close, routes, snake, controller, actions.drop_first(), q)
        }
    }
}

/// The route of an action missing from `routes` is added as a line.
proof fn lemma_action_line_added(
    ls: Seq<Seq<char>>,
    close: int,
    routes: Seq<char>,
    snake: Seq<char>,
    controller: Seq<char>,
    actions: Seq<Seq<char>>,
    k: int,
) -> (m: int)
    requires
        0 <= close <= ls.len(),
        0 <= k < actions.len(),
        !contains(routes, action_route(snake, controller, actions[k])),
    ensures
        0 <= m < add_action_routes(ls, close, routes, snake, controller, actions).len(),
        add_action_routes(ls, close, routes, snake, controller, actions)[m] == "        "@ + action_route(
            snake,
            controller,
            actions[k],
        ),
    decreases actions.len(),
{
    let route = action_route(snake, controller, actions[0]);
    let next = if !contains(routes, route) {
        ls.insert(close, "        "@ + route)
    } else {
        ls
    };
    if k == 0 {
        lemma_action_lines_keep(next, close, routes, snake, controller, actions.drop_first(), close)
    } else {
        assert(actions.drop_first()[k - 1] == actions[k]);
        lemma_action_line_added(next, close, routes, snake, controller, actions.drop_first(), k - 1)
    }
}

/// Nothing is added when `routes` holds every action's route.
proof fn lemma_action_lines_none(
    ls: Seq<Seq<char>>,
    close: int,
    routes: Seq<char>,
    snake: Seq<char>,
    controller: Seq<char>,
    actions: Seq<Seq<char>>,
)
    requires
        forall|k: int| 0 <= k < actions.len() ==> contains(routes, action_route(snake, controller, #[trigger] actions[k])),
    ensures
        add_action_routes(ls, close, routes, snake, controller, actions) == ls,
    decreases actions.len(),
{
    if actions.len() > 0 {
        assert(contains(routes, action_route(snake, controller, actions[0])));
        let rest = actions.drop_first();
        assert forall|k: int| 0 <= k < rest.len() implies contains(routes, action_route(snake, controller, #[trigger] rest[k])) by {
            assert(rest[k] == actions[k + 1]);
        }
        lemma_action_lines_none(ls, close, routes, snake, controller, rest);
    }
}

/// Adding the controller's `use` line keeps every line.
proof fn lemma_controller_use_keeps(ls: Seq<Seq<char>>, routes: Seq<char>, controller: Seq<char>, q: int) -> (m: int)
    requires
        0 <= q < ls.len(),
    ensures
        0 <= m < with_controller_use(ls, routes, controller).len(),
        with_controller_use(ls, routes, controller)[m] == ls[q],
{
    if contains(routes, controller_use(controller)) {
        q
    } else {
        let a = crate::generators::lines::last_passing(ls, LineTestView::Contains("use crate::controllers"@));
        crate::generators::lines::lemma_last_passing_bounds(ls, LineTestView::Contains("use crate::controllers"@));
        let pos = if a >= 0 { a + 1 } else { 0 };
        if q < pos { q } else { q + 1 }
    }
}

/// The lines after adding the controller's `use` line: no newline, no
/// trailing `\r`, at least one, and their text holds the `use` line.
proof fn lemma_controller_use_lines(routes: Seq<char>, controller: Seq<char>)
    requires
        no_trailing_cr(routes),
        !has_char(controller, '\n'),
    ensures
        ({
            let ls = with_controller_use(lines(routes), routes, controller);
            &&& ls.len() > 0
            &&& forall|j: int| 0 <= j < ls.len() ==> !has_char(#[trigger] ls[j], '\n') && strip_cr(ls[j]) == ls[j]
            &&& (exists|j: int| 0 <= j < ls.len() && contains(#[trigger] ls[j], controller_use(controller)))
        }),
{
    let l0 = lines(routes);
    let ls = with_controller_use(l0, routes, controller);
    let cu = controller_use(controller);
    reveal_strlit("use crate::controllers::");
    reveal_strlit(";");
    lemma_no_newline3("use crate::controllers::"@, controller, ";"@);
    assert(cu.last() == ';');
    lemma_lines_no_newline(routes);
    let a = crate::generators::lines::last_passing(l0, LineTestView::Contains("use crate::controllers"@));
    crate::generators::lines::lemma_last_passing_bounds(l0, LineTestView::Contains("use crate::controllers"@));
    let pos = if a >= 0 { a + 1 } else { 0 };
    assert forall|j: int| 0 <= j < ls.len() implies !has_char(#[trigger] ls[j], '\n') && strip_cr(ls[j]) == ls[j] by {
        if !contains(routes, cu) {
            if j > pos {
                assert(ls[j] == l0[j - 1]);
            } else if j < pos {
                assert(ls[j] == l0[j]);
            }
        }
    }
    assert(cu.subrange(0, cu.len() as int) =~= cu);
    assert(occurs_at(cu, cu, 0));
    if contains(routes, cu) {
        let q = crate::text::lemma_line_containing(routes, cu);
        assert(contains(ls[q], cu));
    } else {
        assert(ls[pos] == cu);
        assert(contains(ls[pos], cu));
    }
}

/// Injecting action routes a second time changes nothing. Left out are
/// routes where a line keeps a trailing `\r` (the first run's line breaks drop
/// it), and names that hold a newline (their `use` and `get!` lines split into
/// lines that can close a block or lose a piece to an inserted route).
pub proof fn inject_action_routes_idempotent(
    routes: Seq<char>,
    snake: Seq<char>,
    controller: Seq<char>,
    actions: Seq<Seq<char>>,
)
    requires
        no_trailing_cr(routes),
        !has_char(snake, '\n'),
        !has_char(controller, '\n'),
        forall|k: int| 0 <= k < actions.len() ==> !has_char(#[trigger] actions[k], '\n'),
    ensures
        inject_action_routes_spec(inject_action_routes_spec(routes, snake, controller, actions), snake, controller, actions)
            == inject_action_routes_spec(routes, snake, controller, actions),
{
    let l0 = lines(routes);
    let ls = with_controller_use(l0, routes, controller);
    let cu = controller_use(controller);
    lemma_controller_use_lines(routes, controller);
    let o = first_from(ls, 0, LineTestView::RoutesOpen);
    let c = first_from(ls, o, LineTestView::CloseBrace);
    lemma_first_from_bounds(ls, 0, LineTestView::RoutesOpen);
    lemma_first_from_bounds(ls, o, LineTestView::CloseBrace);
    let jc = choose|j: int| 0 <= j < ls.len() && contains(#[trigger] ls[j], cu);
    if o < 0 || c < 0 {
        let out1 = unlines(ls);
        crate::text::lemma_lines_unlines(ls);
        lemma_text_contains(ls, jc, cu);
        assert(with_controller_use(lines(out1), out1, controller) == ls);
    } else {
        let l2 = add_action_routes(ls, c, routes, snake, controller, actions);
        let out1 = unlines(l2);
        assert forall|j: int| 0 <= j < l2.len() implies !has_char(#[trigger] l2[j], '\n') && strip_cr(l2[j]) == l2[j] by {
            let r = lemma_action_lines_source(ls, c, routes, snake, controller, actions, j);
            if r.0 < 0 {
                lemma_action_line(snake, controller, actions[r.1]);
            }
        }
        let mc = lemma_action_lines_keep(ls, c, routes, snake, controller, actions, jc);
        crate::text::lemma_lines_unlines(l2);
        lemma_text_contains(l2, mc, cu);
        assert(with_controller_use(lines(out1), out1, controller) == l2);
        assert forall|k: int| 0 <= k < actions.len() implies contains(out1, action_route(snake, controller, #[trigger] actions[k])) by {
            let route = action_route(snake, controller, actions[k]);
            lemma_action_line(snake, controller, actions[k]);
            if contains(routes, route) {
                let q = crate::text::lemma_line_containing(routes, route);
                let q1 = lemma_controller_use_keeps(l0, routes, controller, q);
                let q2 = lemma_action_lines_keep(ls, c, routes, snake, controller, actions, q1);
                lemma_text_contains(l2, q2, route);
            } else {
                let m = lemma_action_line_added(ls, c, routes, snake, controller, actions, k);
                lemma_text_contains(l2, m, route);
            }
        }
        let o2 = first_from(l2, 0, LineTestView::RoutesOpen);
        let c2 = first_from(l2, o2, LineTestView::CloseBrace);
        lemma_action_lines_none(l2, c2, out1, snake, controller, actions);
    }
}

/// Putting a line before the block's closing brace keeps every line.
proof fn lemma_insert_before_close_keeps(ls: Seq<Seq<char>>, line: Seq<char>, q: int) -> (m: int)
    requires
        0 <= q < ls.len(),
    ensures
        0 <= m < insert_before_close(ls, line).len(),
        insert_before_close(ls, line)[m] == ls[q],
{
    let o = first_from(ls, 0, LineTestView::RoutesOpen);
    lemma_first_from_bounds(ls, 0, LineTestView::RoutesOpen);
    lemma_first_from_bounds(ls, o, LineTestView::CloseBrace);
    let c = first_from(ls, o, LineTestView::CloseBrace);
    if o < 0 || c < 0 || q < c {
        q
    } else {
        q + 1
    }
}

/// Injecting a scaffold's `resources!` route into routes that lack it leaves
/// the controller's `use` line in the text, and the route itself where a
/// routes block closes to put it in; routes that hold it come back unchanged.
/// Left out are controller names that hold a newline: a `use` line of such a
/// name already in the routes can be split by the inserted route (controller
/// `a\n}\nx` in `routes! {\nuse crate::controllers::a\n}\nx;\n`).
pub proof fn inject_resources_places(routes: Seq<char>, plural: Seq<char>, controller: Seq<char>, api: bool)
    requires
        !has_char(controller, '\n'),
    ensures
        contains(routes, resources_line(plural, controller, api)) ==> inject_resources_spec(
            routes,
            plural,
            controller,
            api,
        ) == routes,
        !contains(routes, resources_line(plural, controller, api)) ==> contains(
            inject_resources_spec(routes, plural, controller, api),
            controller_use(controller),
        ),
        !contains(routes, resources_line(plural, controller, api)) && block_closes(
            with_controller_use(lines(routes), routes, controller),
        ) ==> contains(inject_resources_spec(routes, plural, controller, api), resources_line(plural, controller, api)),
{
    let res = resources_line(plural, controller, api);
    if !contains(routes, res) {
        let l0 = lines(routes);
        let ls = with_controller_use(l0, routes, controller);
        let line = "        "@ + res;
        let out = insert_before_close(ls, line);
        let cu = controller_use(controller);
        reveal_strlit("use crate::controllers::");
        reveal_strlit(";");
        lemma_no_newline3("use crate::controllers::"@, controller, ";"@);
        assert(cu.last() == ';');
        assert(cu.subrange(0, cu.len() as int) =~= cu);
        assert(occurs_at(cu, cu, 0));
        let jc = if contains(routes, cu) {
            crate::text::lemma_line_containing(routes, cu)
        } else {
            let a = crate::generators::lines::last_passing(l0, LineTestView::Contains("use crate::controllers"@));
            crate::generators::lines::lemma_last_passing_bounds(l0, LineTestView::Contains("use crate::controllers"@));
            if a >= 0 { a + 1 } else { 0 }
        };
        assert(contains(ls[jc], cu));
        let m = lemma_insert_before_close_keeps(ls, line, jc);
        lemma_text_contains(out, m, cu);
        if block_closes(ls) {
            let k = lemma_inserted_line(ls, line);
            assert(res.subrange(0, res.len() as int) =~= res);
            lemma_indented_starts(res, res);
            lemma_text_contains(out, k, res);
        }
    }
}

/// Replacing the first occurrence of `from` puts `to` where it stood.
proof fn lemma_replace_first_split(s: Seq<char>, from: Seq<char>, to: Seq<char>) -> (i: int)
    requires
        from.len() > 0,
        contains(s, from),
    ensures
        occurs_at(s, from, i),
        replace_first(s, from, to) == s.take(i) + to + s.skip(i + from.len()),
    decreases s.len(),
{
    let j = choose|j: int| occurs_at(s, from, j);
    if s.take(from.len() as int) == from {
        assert(s.take(0) + to + s.skip(from.len() as int) =~= to + s.skip(from.len() as int));
        assert(s.subrange(0, from.len() as int) =~= s.take(from.len() as int));
        0
    } else {
        assert(j != 0) by {
            if j == 0 {
                assert(s.take(from.len() as int) =~= s.subrange(0, from.len() as int));
            }
        }
        let d = s.drop_first();
        assert(d.subrange(j - 1, j - 1 + from.len()) =~= s.subrange(j, j + from.len()));
        assert(occurs_at(d, from, j - 1));
        let i1 = lemma_replace_first_split(d, from, to);
        assert(s.subrange(i1 + 1, i1 + 1 + from.len()) =~= d.subrange(i1, i1 + from.len()));
        assert(seq![s[0]] + (d.take(i1) + to + d.skip(i1 + from.len())) =~= s.take(i1 + 1) + to + s.skip(
            i1 + 1 + from.len(),
        ));
        i1 + 1
    }
}

/// Where each line of a filtered sequence of lines comes from.
proof fn lemma_filter_source(ls: Seq<Seq<char>>, pred: spec_fn(Seq<char>) -> bool, i: int) -> (q: int)
    requires
        0 <= i < ls.filter(pred).len(),
    ensures
        0 <= q < ls.len(),
        ls[q] == ls.filter(pred)[i],
    decreases ls.len(),
{
    reveal(Seq::filter);
    let d = ls.drop_last();
    let sub = d.filter(pred);
    if ls.len() == 0 {
        0
    } else if pred(ls.last()) && i == sub.len() {
        ls.len() - 1
    } else {
        let q = lemma_filter_source(d, pred, i);
        q
    }
}

/// Text holding a `T` is not found in a line without one.
proof fn lemma_upper_t_absent(l: Seq<char>, p: Seq<char>, i: int)
    requires
        0 <= i < p.len(),
        p[i] == 'T',
        !has_char(l, 'T'),
    ensures
        !contains(l, p),
{
    if contains(l, p) {
        let q = choose|q: int| occurs_at(l, p, q);
        assert(l[q + i] == l.subrange(q, q + p.len())[i]);
    }
}

/// The local-controllers line without two-factor holds no `T`; with it, it
/// holds the two-factor override.
proof fn lemma_local_line_two_factor(two_factor: bool)
    ensures
        !two_factor ==> !has_char(local_line(two_factor), 'T'),
        two_factor ==> contains(local_line(two_factor), "two_factor: auth::TwoFactorController"@),
        local_line(two_factor).len() > 5,
        local_line(two_factor)[0] == 'a',
        local_line(two_factor)[1] == 'u',
{
    reveal_strlit("auth_routes!(User, controllers: { ");
    reveal_strlit(" });");
    reveal_strlit(", ");
    reveal_strlit("sessions: auth::SessionsController");
    reveal_strlit("registrations: auth::RegistrationsController");
    reveal_strlit("passwords: auth::PasswordsController");
    reveal_strlit("oauth: auth::OauthController");
    reveal_strlit("two_factor: auth::TwoFactorController");
    let o = crate::generators::route_injector::overrides(two_factor);
    let j = crate::text::join(o, ", "@);
    let l = local_line(two_factor);
    reveal_with_fuel(crate::text::join, 6);
    if two_factor {
        let p = "two_factor: auth::TwoFactorController"@;
        assert(j == crate::text::join(o.drop_last(), ", "@) + ", "@ + p);
        let pre = "auth_routes!(User, controllers: { "@ + crate::text::join(o.drop_last(), ", "@) + ", "@;
        assert(l =~= pre + p + " });"@);
        assert(l.subrange(pre.len() as int, (pre.len() + p.len()) as int) =~= p);
        assert(occurs_at(l, p, pre.len() as int));
    } else {
        assert(!has_char(j, 'T'));
        lemma_no_t3("auth_routes!(User, controllers: { "@, j, " });"@);
    }
}

/// `<head><mid><tail>` without a `T` in any piece holds none.
proof fn lemma_no_t3(head: Seq<char>, mid: Seq<char>, tail: Seq<char>)
    requires
        !has_char(head, 'T'),
        !has_char(mid, 'T'),
        !has_char(tail, 'T'),
    ensures
        !has_char(head + mid + tail, 'T'),
{
    let d = head + mid + tail;
    assert forall|t: int| 0 <= t < d.len() implies d[t] != 'T' by {
        if t < head.len() {
            assert(d[t] == head[t]);
        } else if t < head.len() + mid.len() {
            assert(d[t] == mid[t - head.len()]);
        } else {
            assert(d[t] == tail[t - head.len() - mid.len()]);
        }
    }
}

/// Replacing the bare `auth_routes!(User);` by a line without a `T` that
/// starts with `au` brings no `TwoFactorController` into routes without one.
proof fn lemma_no_two_factor_after_replace(routes: Seq<char>, line: Seq<char>)
    requires
        contains(routes, "auth_routes!(User);"@),
        !contains(routes, "TwoFactorController"@),
        !has_char(line, 'T'),
        line.len() > 1,
        line[0] == 'a',
        line[1] == 'u',
    ensures
        !contains(replace_first(routes, "auth_routes!(User);"@, line), "TwoFactorController"@),
{
    reveal_strlit("auth_routes!(User);");
    reveal_strlit("TwoFactorController");
    let bare = "auth_routes!(User);"@;
    let q = "TwoFactorController"@;
    let i = lemma_replace_first_split(routes, bare, line);
    let pre = routes.take(i);
    let post = routes.skip(i + bare.len());
    let r = replace_first(routes, bare, line);
    assert(r == pre + line + post);
    if contains(r, q) {
        let j = choose|j: int| occurs_at(r, q, j);
        let w = r.subrange(j, j + q.len());
        if j + q.len() <= pre.len() {
            assert(routes.subrange(j, j + q.len()) =~= w);
            assert(occurs_at(routes, q, j));
        } else if j >= pre.len() + line.len() {
            let j2 = j - pre.len() - line.len() + i + bare.len();
            assert(routes.subrange(j2, j2 + q.len()) =~= w);
            assert(occurs_at(routes, q, j2));
        } else if j >= pre.len() {
            assert(w[0] == line[j - pre.len()]);
        } else {
            let d = pre.len() - j;
            assert(w[d] == line[0]);
            assert(d == 4);
            assert(w[d + 1] == line[1]);
        }
    }
}

/// Rewiring an installed bare `auth_routes!(User);` in routes without an
/// override and without `TwoFactorController` points the two-factor routes at
/// the local controller exactly when `two_factor` is asked for.
pub proof fn rewire_two_factor_override(routes: Seq<char>, two_factor: bool)
    requires
        contains(routes, "auth_routes!(User);"@),
        !contains(routes, "controllers: {"@),
        !contains(routes, "TwoFactorController"@),
    ensures
        contains(rewire_spec(routes, two_factor), "two_factor: auth::TwoFactorController"@) <==> two_factor,
{
    reveal_strlit("auth_routes!(User);");
    reveal_strlit("two_factor: auth::TwoFactorController");
    reveal_strlit("TwoFactorController");
    reveal_strlit("use crate::controllers::auth;");
    reveal_strlit("use crate::models::user::Model as User;");
    let p = "two_factor: auth::TwoFactorController"@;
    let q = "TwoFactorController"@;
    let am = AUTH_MOD_IMPORT@;
    let bare = "auth_routes!(User);"@;
    let line = local_line(two_factor);
    lemma_local_line_two_factor(two_factor);
    let replaced = replace_first(routes, bare, line);
    let ls = lines(replaced);
    let result = rewire_spec(routes, two_factor);
    lemma_imports_plain();
    assert(!has_char(am, 'T'));
    assert(!has_char(USER_IMPORT@, 'T'));
    assert(p.subrange(18, 37) =~= q);
    assert(occurs_at(p, q, 18));
    let pred = |l: Seq<char>| trim(l) != USER_IMPORT@;
    let user_branch = first_from(ls, 0, LineTestView::TrimEquals(USER_IMPORT@)) >= 0;
    let base = if user_branch { without_user_import(ls) } else { ls };
    if two_factor {
        lemma_replace_first_contains(routes, bare, line);
        lemma_contains_trans(replaced, line, p);
        let k = crate::text::lemma_line_containing(replaced, p);
        if user_branch {
            lemma_trim_keeps(ls[k], p);
            assert(trim(ls[k]) != USER_IMPORT@) by {
                if trim(ls[k]) == USER_IMPORT@ {
                    lemma_upper_t_absent(USER_IMPORT@, p, 18);
                }
            }
            ls.lemma_filter_contains(pred, k);
            let f = without_user_import(ls);
            let fi = choose|fi: int| 0 <= fi < f.len() && f[fi] == ls[k];
            let m = lemma_with_use_keeps(f, am, fi);
            lemma_text_contains(with_use(f, am), m, p);
        } else if !contains(replaced, am) {
            let m = lemma_with_use_keeps(ls, am, k);
            lemma_text_contains(with_use(ls, am), m, p);
        }
    } else {
        lemma_no_two_factor_after_replace(routes, line);
        if contains(result, p) {
            lemma_contains_trans(result, p, q);
            if !user_branch && contains(replaced, am) {
                assert(result == replaced);
            } else {
                let w = with_use(base, am);
                lemma_with_use_has(base, am);
                assert(result == unlines(w));
                let j = crate::text::lemma_concat_line_containing(w, q);
                let m = lemma_with_use_source(base, am, j);
                if m < 0 {
                    lemma_upper_t_absent(am, q, 0);
                } else {
                    let k = if user_branch {
                        lemma_filter_source(ls, pred, m)
                    } else {
                        m
                    };
                    assert(ls[k] == base[m]);
                    crate::text::lemma_line_contains(replaced, k, q);
                }
            }
        }
    }
}

/// Injecting action routes leaves the controller's `use` line in the text,
/// and, where a routes block closes, the `get!` route of every action. Left
/// out are names that hold a newline, for the reason given at
/// [`inject_resources_places`].
pub proof fn inject_action_routes_places(
    routes: Seq<char>,
    snake: Seq<char>,
    controller: Seq<char>,
    actions: Seq<Seq<char>>,
)
    requires
        !has_char(snake, '\n'),
        !has_char(controller, '\n'),
        forall|k: int| 0 <= k < actions.len() ==> !has_char(#[trigger] actions[k], '\n'),
    ensures
        contains(inject_action_routes_spec(routes, snake, controller, actions), controller_use(controller)),
        block_closes(with_controller_use(lines(routes), routes, controller)) ==> forall|k: int|
            0 <= k < actions.len() ==> contains(
                inject_action_routes_spec(routes, snake, controller, actions),
                action_route(snake, controller, #[trigger] actions[k]),
            ),
{
    let l0 = lines(routes);
    let ls = with_controller_use(l0, routes, controller);
    let cu = controller_use(controller);
    let result = inject_action_routes_spec(routes, snake, controller, actions);
    reveal_strlit("use crate::controllers::");
    reveal_strlit(";");
    lemma_no_newline3("use crate::controllers::"@, controller, ";"@);
    assert(cu.last() == ';');
    assert(cu.subrange(0, cu.len() as int) =~= cu);
    assert(occurs_at(cu, cu, 0));
    let jc = if contains(routes, cu) {
        crate::text::lemma_line_containing(routes, cu)
    } else {
        let a = crate::generators::lines::last_passing(l0, LineTestView::Contains("use crate::controllers"@));
        crate::generators::lines::lemma_last_passing_bounds(l0, LineTestView::Contains("use crate::controllers"@));
        if a >= 0 { a + 1 } else { 0 }
    };
    assert(contains(ls[jc], cu));
    let o = first_from(ls, 0, LineTestView::RoutesOpen);
    let c = first_from(ls, o, LineTestView::CloseBrace);
    lemma_first_from_bounds(ls, 0, LineTestView::RoutesOpen);
    lemma_first_from_bounds(ls, o, LineTestView::CloseBrace);
    if o < 0 || c < 0 {
        lemma_text_contains(ls, jc, cu);
    } else {
        let l2 = add_action_routes(ls, c, routes, snake, controller, actions);
        let mc = lemma_action_lines_keep(ls, c, routes, snake, controller, actions, jc);
        lemma_text_contains(l2, mc, cu);
        assert forall|k: int| 0 <= k < actions.len() implies contains(result, action_route(snake, controller, #[trigger] actions[k])) by {
            let route = action_route(snake, controller, actions[k]);
            lemma_action_line(snake, controller, actions[k]);
            if contains(routes, route) {
                let q = crate::text::lemma_line_containing(routes, route);
                let q1 = lemma_controller_use_keeps(l0, routes, controller, q);
                let q2 = lemma_action_lines_keep(ls, c, routes, snake, controller, actions, q1);
                lemma_text_contains(l2, q2, route);
            } else {
                let m = lemma_action_line_added(ls, c, routes, snake, controller, actions, k);
                lemma_text_contains(l2, m, route);
            }
        }
    }
}

} // verus!
