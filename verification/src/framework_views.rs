//! The built-in auth views: templates the built-in controllers render, which
//! an application overrides by writing `app/views/auth/*.html.tera`.

use vstd::prelude::*;
use crate::generators::files::TemplateSet;

verus! {

/// The view names, as the controllers render them (with the `.html.tera`
/// suffix), in order.
pub open spec fn view_name(i: int) -> Seq<char> {
    if i == 0 {
        "sign_in"@
    } else if i == 1 {
        "sign_up"@
    } else if i == 2 {
        "password_new"@
    } else if i == 3 {
        "password_edit"@
    } else {
        "two_factor"@
    }
}

/// Whether the template of every built-in view is present.
pub open spec fn views_ready(t: TemplateSet) -> bool {
    forall|i: int| 0 <= i < 5 ==> t.has("auth/views/"@ + #[trigger] view_name(i) + ".html.tera"@)
}

/// The `(template name, source)` pairs of the built-in views.
pub open spec fn framework_views_spec(t: TemplateSet) -> Seq<(Seq<char>, Seq<char>)> {
    Seq::new(
        5,
        |i: int|
            (
                "auth/"@ + view_name(i) + ".html.tera"@,
                t.source("auth/views/"@ + view_name(i) + ".html.tera"@)->Some_0,
            ),
    )
}

/// The names and sources of template pairs.
pub open spec fn pair_views(v: Seq<(String, String)>) -> Seq<(Seq<char>, Seq<char>)> {
    v.map_values(|p: (String, String)| (p.0@, p.1@))
}

fn view_name_exec(i: usize) -> (r: &'static str)
    requires
        i < 5,
    ensures
        r@ == view_name(i as int),
{
    if i == 0 {
        "sign_in"
    } else if i == 1 {
        "sign_up"
    } else if i == 2 {
        "password_new"
    } else if i == 3 {
        "password_edit"
    } else {
        "two_factor"
    }
}

fn join3(a: &str, b: &str, c: &str) -> (r: String)
    ensures
        r@ == a@ + b@ + c@,
{
    let mut out = crate::text::chars_of(a);
    crate::text::push_str(&mut out, b);
    crate::text::push_str(&mut out, c);
    crate::text::string_of(&out)
}

/// The built-in views to register with the view layer as framework
/// templates.
pub fn framework_views(templates: &TemplateSet) -> (r: Vec<(String, String)>)
    requires
        views_ready(*templates),
    ensures
        pair_views(r@) == framework_views_spec(*templates),
{
    let ghost all = framework_views_spec(*templates);
    let mut out: Vec<(String, String)> = Vec::new();
    let mut i: usize = 0;
    while i < 5
        invariant
            i <= 5,
            views_ready(*templates),
            all == framework_views_spec(*templates),
            pair_views(out@) == all.take(i as int),
        decreases 5 - i,
    {
        let v = view_name_exec(i);
        let source_name = join3("auth/views/", v, ".html.tera");
        assert(templates.has(source_name@));
        let source = match templates.get(source_name.as_str()) {
            Some(s) => s.clone(),
            None => vstd::pervasive::unreached(),
        };
        let ghost before = out@;
        let name = join3("auth/", v, ".html.tera");
        let ghost entry = (name@, source@);
        assert(entry == all[i as int]);
        out.push((name, source));
        assert(pair_views(out@) =~= pair_views(before).push(entry));
        assert(all.take(i + 1) =~= all.take(i as int).push(all[i as int]));
        i += 1;
    }
    assert(all.take(5) =~= all);
    out
}

} // verus!
