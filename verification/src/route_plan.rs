//! The Devise-style auth route table behind `auth_routes!`: which routes exist,
//! which are mounted for given `only:` / `skip:` options, and the `api_only`
//! switch read from `config/application.toml`.

use vstd::prelude::*;
use crate::config::{AuthRoutesConfig, route_path};
use crate::text::{
    chars_of, contains, index_of, line_views, lemma_index_of_bounds, lemma_index_of_is, lines, lines_of,
    push_all, push_str, seq_eq, slice_chars, str_eq, string_of, trim, trim_chars, trim_end_char,
    trim_end_char_exec, trim_start_char, trim_start_char_exec,
};

verus! {

/// `prefix` and `suffix` joined by one slash; slashes at the seam are dropped
/// and an empty suffix leaves the trimmed prefix alone.
pub open spec fn join_path_spec(prefix: Seq<char>, suffix: Seq<char>) -> Seq<char> {
    let p = trim_end_char(prefix, '/');
    let s = trim_start_char(suffix, '/');
    if s.len() == 0 {
        p
    } else {
        p + seq!['/'] + s
    }
}

/// Joins a route prefix and a path suffix.
pub fn join_path(prefix: &str, suffix: &str) -> (r: String)
    ensures
        r@ == join_path_spec(prefix@, suffix@),
{
    let p = trim_end_char_exec(&chars_of(prefix), '/');
    let s = trim_start_char_exec(&chars_of(suffix), '/');
    let mut out = p;
    if s.len() > 0 {
        out.push('/');
        push_all(&mut out, &s);
    }
    string_of(&out)
}

/// The characters of each name in an optional list.
pub open spec fn list_view(list: Option<Vec<String>>) -> Option<Seq<Seq<char>>> {
    match list {
        Some(v) => Some(v@.map_values(|s: String| s@)),
        None => None,
    }
}

/// Whether module `name` is mounted under `only:` / `skip:`: `only` wins and
/// must list it; otherwise `skip` must not list it.
pub open spec fn module_enabled_spec(
    name: Seq<char>,
    only: Option<Seq<Seq<char>>>,
    skip: Option<Seq<Seq<char>>>,
) -> bool {
    match only {
        Some(list) => list.contains(name),
        None => match skip {
            Some(list) => !list.contains(name),
            None => true,
        },
    }
}

/// Whether `list` holds `name`.
fn list_contains(list: &Vec<String>, name: &str) -> (r: bool)
    ensures
        r == list@.map_values(|s: String| s@).contains(name@),
{
    let ghost views = list@.map_values(|s: String| s@);
    let mut i: usize = 0;
    while i < list.len()
        invariant
            i <= list.len(),
            views == list@.map_values(|s: String| s@),
            forall|k: int| 0 <= k < i ==> views[k] != name@,
        decreases list.len() - i,
    {
        if str_eq(list[i].as_str(), name) {
            assert(views[i as int] == name@);
            return true;
        }
        i += 1;
    }
    false
}

/// Whether module `name` is mounted under the `only:` / `skip:` options.
pub fn module_enabled(name: &str, only: &Option<Vec<String>>, skip: &Option<Vec<String>>) -> (r: bool)
    ensures
        r == module_enabled_spec(name@, list_view(*only), list_view(*skip)),
{
    if let Some(list) = only {
        return list_contains(list, name);
    }
    if let Some(list) = skip {
        return !list_contains(list, name);
    }
    true
}

/// One route of the auth route table.
#[derive(Debug, Clone)]
pub struct RouteSpec {
    pub method: &'static str,
    pub path: String,
    pub module: &'static str,
    pub action: &'static str,
    pub html_only: bool,
}

/// The characters of a route's method, path, module and action, and whether it
/// serves HTML only.
pub struct RouteView {
    pub method: Seq<char>,
    pub path: Seq<char>,
    pub module: Seq<char>,
    pub action: Seq<char>,
    pub html_only: bool,
}

impl View for RouteSpec {
    type V = RouteView;

    open spec fn view(&self) -> RouteView {
        RouteView {
            method: self.method@,
            path: self.path@,
            module: self.module@,
            action: self.action@,
            html_only: self.html_only,
        }
    }
}

/// A route entry.
pub open spec fn rv(
    method: Seq<char>,
    path: Seq<char>,
    module: Seq<char>,
    action: Seq<char>,
    html_only: bool,
) -> RouteView {
    RouteView { method, path, module, action, html_only }
}

/// The full auth route table under `prefix`.
pub open spec fn route_table(prefix: Seq<char>) -> Seq<RouteView> {
    seq![
        rv("GET"@, join_path_spec(prefix, "sign_in"@), "sessions"@, "new"@, true),
        rv("POST"@, join_path_spec(prefix, "sign_in"@), "sessions"@, "create"@, false),
        rv("DELETE"@, join_path_spec(prefix, "sign_out"@), "sessions"@, "destroy"@, false),
        rv("GET"@, join_path_spec(prefix, "sign_up"@), "registrations"@, "new"@, true),
        rv("POST"@, join_path_spec(prefix, "sign_up"@), "registrations"@, "create"@, false),
        rv("GET"@, join_path_spec(prefix, "password/new"@), "passwords"@, "new"@, true),
        rv("POST"@, join_path_spec(prefix, "password"@), "passwords"@, "create"@, false),
        rv("PATCH"@, join_path_spec(prefix, "password"@), "passwords"@, "update"@, false),
        rv("GET"@, "/auth/{provider}"@, "oauth"@, "authorize"@, false),
        rv("GET"@, "/auth/{provider}/callback"@, "oauth"@, "callback"@, false),
        rv("GET"@, join_path_spec(prefix, "two_factor/new"@), "two_factor"@, "new"@, true),
        rv("POST"@, join_path_spec(prefix, "two_factor"@), "two_factor"@, "create"@, false),
        rv(
            "POST"@,
            join_path_spec(prefix, "two_factor/challenge"@),
            "two_factor"@,
            "challenge"@,
            false,
        ),
    ]
}

fn spec_entry(
    method: &'static str,
    prefix: &str,
    suffix: &str,
    module: &'static str,
    action: &'static str,
    html_only: bool,
) -> (r: RouteSpec)
    ensures
        r@ == rv(method@, join_path_spec(prefix@, suffix@), module@, action@, html_only),
{
    RouteSpec { method, path: join_path(prefix, suffix), module, action, html_only }
}

/// The full auth route table under `prefix`, in mounting order.
pub fn route_specs(prefix: &str) -> (r: Vec<RouteSpec>)
    ensures
        r@.len() == route_table(prefix@).len(),
        forall|k: int| 0 <= k < r@.len() ==> #[trigger] r@[k]@ == route_table(prefix@)[k],
{
    let mut v: Vec<RouteSpec> = Vec::new();
    v.push(spec_entry("GET", prefix, "sign_in", "sessions", "new", true));
    v.push(spec_entry("POST", prefix, "sign_in", "sessions", "create", false));
    v.push(spec_entry("DELETE", prefix, "sign_out", "sessions", "destroy", false));
    v.push(spec_entry("GET", prefix, "sign_up", "registrations", "new", true));
    v.push(spec_entry("POST", prefix, "sign_up", "registrations", "create", false));
    v.push(spec_entry("GET", prefix, "password/new", "passwords", "new", true));
    v.push(spec_entry("POST", prefix, "password", "passwords", "create", false));
    v.push(spec_entry("PATCH", prefix, "password", "passwords", "update", false));
    v.push(
        RouteSpec {
            method: "GET",
            path: "/auth/{provider}".to_owned(),
            module: "oauth",
            action: "authorize",
            html_only: false,
        },
    );
    v.push(
        RouteSpec {
            method: "GET",
            path: "/auth/{provider}/callback".to_owned(),
            module: "oauth",
            action: "callback",
            html_only: false,
        },
    );
    v.push(spec_entry("GET", prefix, "two_factor/new", "two_factor", "new", true));
    v.push(spec_entry("POST", prefix, "two_factor", "two_factor", "create", false));
    v.push(spec_entry("POST", prefix, "two_factor/challenge", "two_factor", "challenge", false));
    proof {
        let t = route_table(prefix@);
        assert forall|k: int| 0 <= k < v@.len() implies #[trigger] v@[k]@ == t[k] by {
            if k == 8 || k == 9 {
            }
        }
    }
    v
}

/// The routes that the pre-built auth router serves for the configured
/// paths, in mounting order: sign-in, sign-out, sign-up, the password form,
/// reset request and update, and the OAuth redirect and callback.
pub open spec fn mount_table(routes: AuthRoutesConfig) -> Seq<RouteView> {
    let pw = route_path(routes.prefix@, routes.password_reset@);
    seq![
        rv("POST"@, route_path(routes.prefix@, routes.sign_in@), "sessions"@, "create"@, false),
        rv("DELETE"@, route_path(routes.prefix@, routes.sign_out@), "sessions"@, "destroy"@, false),
        rv("POST"@, route_path(routes.prefix@, routes.sign_up@), "registrations"@, "create"@, false),
        rv("GET"@, pw + "/new"@, "passwords"@, "new"@, false),
        rv("POST"@, pw, "passwords"@, "create"@, false),
        rv("PATCH"@, pw, "passwords"@, "update"@, false),
        rv("GET"@, "/auth/{provider}"@, "oauth"@, "authorize"@, false),
        rv("GET"@, "/auth/{provider}/callback"@, "oauth"@, "callback"@, false),
    ]
}

fn mount_entry(method: &'static str, path: String, module: &'static str, action: &'static str) -> (r: RouteSpec)
    ensures
        r@ == rv(method@, path@, module@, action@, false),
{
    RouteSpec { method, path, module, action, html_only: false }
}

/// The routes the pre-built auth router serves for `routes` (paths from the
/// configured prefix and segments).
pub fn mount_routes(routes: &AuthRoutesConfig) -> (r: Vec<RouteSpec>)
    ensures
        r@.len() == mount_table(*routes).len(),
        forall|k: int| 0 <= k < r@.len() ==> #[trigger] r@[k]@ == mount_table(*routes)[k],
{
    let pw = routes.password_path();
    let mut pw_new = chars_of(pw.as_str());
    push_str(&mut pw_new, "/new");
    let mut v: Vec<RouteSpec> = Vec::new();
    v.push(mount_entry("POST", routes.sign_in_path(), "sessions", "create"));
    v.push(mount_entry("DELETE", routes.sign_out_path(), "sessions", "destroy"));
    v.push(mount_entry("POST", routes.sign_up_path(), "registrations", "create"));
    v.push(mount_entry("GET", string_of(&pw_new), "passwords", "new"));
    v.push(mount_entry("POST", routes.password_path(), "passwords", "create"));
    v.push(mount_entry("PATCH", pw, "passwords", "update"));
    v.push(mount_entry("GET", "/auth/{provider}".to_owned(), "oauth", "authorize"));
    v.push(mount_entry("GET", "/auth/{provider}/callback".to_owned(), "oauth", "callback"));
    proof {
        let t = mount_table(*routes);
        assert forall|k: int| 0 <= k < v@.len() implies #[trigger] v@[k]@ == t[k] by {
            if k == 6 || k == 7 {
            }
        }
    }
    v
}

/// Whether a route is mounted for the given options.
pub open spec fn route_mounted(
    r: RouteView,
    only: Option<Seq<Seq<char>>>,
    skip: Option<Seq<Seq<char>>>,
    api_only: bool,
) -> bool {
    module_enabled_spec(r.module, only, skip) && !(api_only && r.html_only)
}

/// The routes of `table` that are mounted, in order.
pub open spec fn mounted_routes(
    table: Seq<RouteView>,
    only: Option<Seq<Seq<char>>>,
    skip: Option<Seq<Seq<char>>>,
    api_only: bool,
) -> Seq<RouteView> {
    table.filter(|r: RouteView| route_mounted(r, only, skip, api_only))
}

/// The auth routes mounted under `prefix` (`/users` when absent) for the
/// `only:` / `skip:` options; `api_only` drops the HTML-form routes. The
/// two-factor routes are part of the table, as this library ships two-factor
/// support.
pub fn plan_auth_routes(
    prefix: Option<&str>,
    only: &Option<Vec<String>>,
    skip: &Option<Vec<String>>,
    api_only: bool,
) -> (r: Vec<RouteSpec>)
    ensures
        r@.map_values(|s: RouteSpec| s@) == mounted_routes(
            route_table(
                match prefix {
                    Some(p) => p@,
                    None => "/users"@,
                },
            ),
            list_view(*only),
            list_view(*skip),
            api_only,
        ),
{
    let p = match prefix {
        Some(p) => p,
        None => "/users",
    };
    let specs = route_specs(p);
    let ghost table = route_table(p@);
    let ghost pred = |r: RouteView| route_mounted(r, list_view(*only), list_view(*skip), api_only);
    let mut out: Vec<RouteSpec> = Vec::new();
    let mut i: usize = 0;
    assert(table.take(0).filter(pred) =~= Seq::<RouteView>::empty());
    while i < specs.len()
        invariant
            i <= specs.len(),
            specs@.len() == table.len(),
            forall|k: int| 0 <= k < specs@.len() ==> #[trigger] specs@[k]@ == table[k],
            pred == (|r: RouteView| route_mounted(r, list_view(*only), list_view(*skip), api_only)),
            out@.map_values(|s: RouteSpec| s@) == table.take(i as int).filter(pred),
        decreases specs.len() - i,
    {
        let spec = &specs[i];
        let keep = module_enabled(spec.module, only, skip) && !(api_only && spec.html_only);
        proof {
            reveal_with_fuel(Seq::<_>::filter, 1);
            assert(table.take(i + 1).drop_last() =~= table.take(i as int));
            assert(specs@[i as int]@ == table[i as int]);
        }
        if keep {
            out.push(
                RouteSpec {
                    method: spec.method,
                    path: spec.path.clone(),
                    module: spec.module,
                    action: spec.action,
                    html_only: spec.html_only,
                },
            );
        }
        i += 1;
        assert(out@.map_values(|s: RouteSpec| s@) =~= table.take(i as int).filter(pred));
    }
    assert(table.take(specs.len() as int) =~= table);
    out
}

/// ASCII lowercase of one character.
pub open spec fn ascii_lower(c: char) -> char {
    if 65 <= (c as u32) <= 90 {
        ((c as u32 + 32) as u8) as char
    } else {
        c
    }
}

/// `str::eq_ignore_ascii_case`.
pub open spec fn eq_ignore_ascii_case(a: Seq<char>, b: Seq<char>) -> bool {
    a.len() == b.len() && forall|i: int| 0 <= i < a.len() ==> ascii_lower(a[i]) == ascii_lower(b[i])
}

/// The part of `l` before its first `#`.
pub open spec fn before_hash(l: Seq<char>) -> Seq<char> {
    let k = index_of(l, '#');
    if k < 0 {
        l
    } else {
        l.take(k)
    }
}

/// A settings line `api_only = true` (comments after `#` ignored, keys and
/// values trimmed, the value compared ignoring ASCII case).
pub open spec fn api_only_line(l: Seq<char>) -> bool {
    let c = trim(before_hash(l));
    let k = index_of(c, '=');
    k >= 0 && trim(c.take(k)) == "api_only"@ && eq_ignore_ascii_case(
        trim(c.skip(k + 1)),
        "true"@,
    )
}

/// Whether some line of `contents` switches `api_only` on.
pub open spec fn has_api_only_spec(contents: Seq<char>) -> bool {
    exists|i: int| 0 <= i < lines(contents).len() && api_only_line(#[trigger] lines(contents)[i])
}

fn ascii_lower_exec(c: char) -> (r: char)
    ensures
        r == ascii_lower(c),
{
    let n = c as u32;
    if 65 <= n && n <= 90 {
        ((n + 32) as u8) as char
    } else {
        c
    }
}

fn eq_ignore_ascii_case_exec(a: &Vec<char>, b: &Vec<char>) -> (r: bool)
    ensures
        r == eq_ignore_ascii_case(a@, b@),
{
    if a.len() != b.len() {
        return false;
    }
    let mut i: usize = 0;
    while i < a.len()
        invariant
            i <= a.len(),
            a.len() == b.len(),
            forall|t: int| 0 <= t < i ==> ascii_lower(a@[t]) == ascii_lower(b@[t]),
        decreases a.len() - i,
    {
        if ascii_lower_exec(a[i]) != ascii_lower_exec(b[i]) {
            return false;
        }
        i += 1;
    }
    true
}

/// Index of the first `c` in `s`, or `s.len()`.
pub fn find_char(s: &Vec<char>, c: char) -> (r: usize)
    ensures
        r <= s.len(),
        index_of(s@, c) == if r < s.len() { r as int } else { -1 },
{
    let mut k: usize = 0;
    while k < s.len() && s[k] != c
        invariant
            k <= s.len(),
            forall|t: int| 0 <= t < k ==> s@[t] != c,
        decreases s.len() - k,
    {
        k += 1;
    }
    proof {
        lemma_index_of_is(s@, c, k as int);
    }
    k
}

fn is_api_only_line(l: &Vec<char>) -> (r: bool)
    ensures
        r == api_only_line(l@),
{
    let h = find_char(l, '#');
    let head = slice_chars(l, 0, h);
    assert(head@ == before_hash(l@));
    let c = trim_chars(&head);
    let k = find_char(&c, '=');
    if k == c.len() {
        return false;
    }
    let key = trim_chars(&slice_chars(&c, 0, k));
    let value = trim_chars(&slice_chars(&c, k + 1, c.len()));
    assert(c@.skip(k + 1) =~= c@.subrange(k + 1, c.len() as int));
    let api = chars_of("api_only");
    let t = chars_of("true");
    seq_eq(&key, &api) && eq_ignore_ascii_case_exec(&value, &t)
}

/// Whether `config/application.toml` contents switch `api_only` on.
pub fn has_api_only(contents: &str) -> (r: bool)
    ensures
        r == has_api_only_spec(contents@),
{
    let ls = lines_of(&chars_of(contents));
    let mut i: usize = 0;
    while i < ls.len()
        invariant
            i <= ls.len(),
            line_views(ls@) == lines(contents@),
            forall|k: int| 0 <= k < i ==> !api_only_line(#[trigger] lines(contents@)[k]),
        decreases ls.len() - i,
    {
        assert(line_views(ls@)[i as int] == ls@[i as int]@);
        if is_api_only_line(&ls[i]) {
            assert(line_views(ls@)[i as int] == lines(contents@)[i as int]);
            return true;
        }
        i += 1;
    }
    false
}

} // verus!
