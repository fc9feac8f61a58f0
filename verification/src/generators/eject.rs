//! `auth:controllers`: copies the built-in auth controllers and views into
//! the application so they can be customised, registers the `auth`
//! controllers module and points `auth_routes!` at the local controllers.
//!
//! Flags: `--api` (JSON controllers, no views), `--two-factor` (also the
//! two-factor controller and view), `--controllers-only` (no views),
//! `--views-only` (views alone; routes untouched).

use vstd::prelude::*;
use crate::generators::files::{file_views, has_arg, has_flag, GeneratedFile, TemplateSet};
use crate::generators::route_injector::{
    register_auth_controllers_mod, register_auth_mod_spec, rewire_local_controllers, rewire_spec,
    CONTROLLERS_MOD_PATH, ROUTES_PATH,
};
use crate::text::{chars_of, push_str, replace_all, replace_str, string_of};

verus! {

/// The generator behind `auth:controllers`.
pub struct AuthControllersGenerator;

/// The source of template `name`.
pub open spec fn src_of(templates: TemplateSet, name: Seq<char>) -> Seq<char> {
    templates.source(name)->Some_0
}

/// The name of a controller template for the `html` or `api` flavour.
pub open spec fn flavoured(stem: Seq<char>, suffix: Seq<char>) -> Seq<char> {
    "auth/"@ + stem + "_"@ + suffix + ".rs.template"@
}

/// Whether every template ejection may read is present.
pub open spec fn eject_templates_ready(t: TemplateSet) -> bool {
    &&& t.has("auth/mod.rs.template"@)
    &&& t.has("auth/oauth_controller.rs.template"@)
    &&& forall|suffix: Seq<char>|
        suffix == "html"@ || suffix == "api"@ ==> {
            &&& t.has(#[trigger] flavoured("sessions_controller"@, suffix))
            &&& t.has(flavoured("registrations_controller"@, suffix))
            &&& t.has(flavoured("passwords_controller"@, suffix))
            &&& t.has(flavoured("two_factor_controller"@, suffix))
        }
    &&& t.has("auth/views/sign_in.html.tera"@)
    &&& t.has("auth/views/sign_up.html.tera"@)
    &&& t.has("auth/views/password_new.html.tera"@)
    &&& t.has("auth/views/password_edit.html.tera"@)
    &&& t.has("auth/views/two_factor.html.tera"@)
}

/// The `auth` controllers module: the module template with the OAuth
/// controller, and the two-factor one when asked for.
pub open spec fn auth_mod_text(template: Seq<char>, two_factor: bool) -> Seq<char> {
    let (m, u) = if two_factor {
        ("mod two_factor_controller;\n"@, "pub use two_factor_controller::TwoFactorController;\n"@)
    } else {
        (""@, ""@)
    };
    replace_all(
        replace_all(
            replace_all(
                replace_all(template, "{oauth_module}"@, "mod oauth_controller;\n"@),
                "{oauth_use}"@,
                "pub use oauth_controller::OauthController;\n"@,
            ),
            "{two_factor_module}"@,
            m,
        ),
        "{two_factor_use}"@,
        u,
    )
}

/// The controller files, the controllers module and the rewired routes.
pub open spec fn ejected_controllers(
    t: TemplateSet,
    suffix: Seq<char>,
    two_factor: bool,
    controllers_mod: Seq<char>,
    routes: Seq<char>,
) -> Seq<(Seq<char>, Seq<char>)> {
    let base = seq![
        ("app/controllers/auth/mod.rs"@, auth_mod_text(src_of(t, "auth/mod.rs.template"@), two_factor)),
        ("app/controllers/auth/sessions_controller.rs"@, src_of(t, flavoured("sessions_controller"@, suffix))),
        ("app/controllers/auth/registrations_controller.rs"@, src_of(t, flavoured("registrations_controller"@, suffix))),
        ("app/controllers/auth/passwords_controller.rs"@, src_of(t, flavoured("passwords_controller"@, suffix))),
        ("app/controllers/auth/oauth_controller.rs"@, src_of(t, "auth/oauth_controller.rs.template"@)),
    ];
    let tf = if two_factor {
        seq![("app/controllers/auth/two_factor_controller.rs"@, src_of(t, flavoured("two_factor_controller"@, suffix)))]
    } else {
        seq![]
    };
    base + tf + seq![
        (CONTROLLERS_MOD_PATH@, register_auth_mod_spec(controllers_mod)),
        (ROUTES_PATH@, rewire_spec(routes, two_factor)),
    ]
}

/// The view files.
pub open spec fn ejected_views(t: TemplateSet, two_factor: bool) -> Seq<(Seq<char>, Seq<char>)> {
    let base = seq![
        ("app/views/auth/sign_in.html.tera"@, src_of(t, "auth/views/sign_in.html.tera"@)),
        ("app/views/auth/sign_up.html.tera"@, src_of(t, "auth/views/sign_up.html.tera"@)),
        ("app/views/auth/password_new.html.tera"@, src_of(t, "auth/views/password_new.html.tera"@)),
        ("app/views/auth/password_edit.html.tera"@, src_of(t, "auth/views/password_edit.html.tera"@)),
    ];
    if two_factor {
        base + seq![("app/views/auth/two_factor.html.tera"@, src_of(t, "auth/views/two_factor.html.tera"@))]
    } else {
        base
    }
}

/// Everything `auth:controllers` emits for `args`.
pub open spec fn ejected_files(
    args: Seq<&str>,
    t: TemplateSet,
    controllers_mod: Seq<char>,
    routes: Seq<char>,
) -> Seq<(Seq<char>, Seq<char>)> {
    let api = has_arg(args, "--api"@);
    let two_factor = has_arg(args, "--two-factor"@);
    let controllers = if !has_arg(args, "--views-only"@) {
        ejected_controllers(t, if api { "api"@ } else { "html"@ }, two_factor, controllers_mod, routes)
    } else {
        seq![]
    };
    let views = if !has_arg(args, "--controllers-only"@) && !api {
        ejected_views(t, two_factor)
    } else {
        seq![]
    };
    controllers + views
}

/// The source of template `name`.
fn template_text(templates: &TemplateSet, name: &str) -> (r: String)
    requires
        templates.has(name@),
    ensures
        r@ == src_of(*templates, name@),
{
    match templates.get(name) {
        Some(s) => s.clone(),
        None => vstd::pervasive::unreached(),
    }
}

/// The source of the `suffix` flavour of controller template `stem`.
fn flavoured_text(templates: &TemplateSet, stem: &str, suffix: &str) -> (r: String)
    requires
        templates.has(flavoured(stem@, suffix@)),
    ensures
        r@ == src_of(*templates, flavoured(stem@, suffix@)),
{
    let mut name = chars_of("auth/");
    push_str(&mut name, stem);
    push_str(&mut name, "_");
    push_str(&mut name, suffix);
    push_str(&mut name, ".rs.template");
    let name = string_of(&name);
    template_text(templates, name.as_str())
}

/// The `auth` controllers module source.
fn auth_mod(templates: &TemplateSet, two_factor: bool) -> (r: String)
    requires
        templates.has("auth/mod.rs.template"@),
    ensures
        r@ == auth_mod_text(src_of(*templates, "auth/mod.rs.template"@), two_factor),
{
    let (m, u) = if two_factor {
        ("mod two_factor_controller;\n", "pub use two_factor_controller::TwoFactorController;\n")
    } else {
        ("", "")
    };
    proof {
        reveal_strlit("{oauth_module}");
        reveal_strlit("{oauth_use}");
        reveal_strlit("{two_factor_module}");
        reveal_strlit("{two_factor_use}");
    }
    let src = template_text(templates, "auth/mod.rs.template");
    let s0 = chars_of(src.as_str());
    let s1 = replace_str(&s0, "{oauth_module}", &chars_of("mod oauth_controller;\n"));
    let s2 = replace_str(&s1, "{oauth_use}", &chars_of("pub use oauth_controller::OauthController;\n"));
    let s3 = replace_str(&s2, "{two_factor_module}", &chars_of(m));
    let s4 = replace_str(&s3, "{two_factor_use}", &chars_of(u));
    string_of(&s4)
}

fn file(path: &str, content: String) -> (r: GeneratedFile)
    ensures
        r@ == (path@, content@),
{
    GeneratedFile { path: path.to_owned(), content }
}

impl AuthControllersGenerator {
    /// The files that eject the built-in controllers and views, given the
    /// application's current controllers module and routes.
    pub fn generate(
        &self,
        args: &[&str],
        templates: &TemplateSet,
        controllers_mod: &str,
        routes: &str,
    ) -> (r: Vec<GeneratedFile>)
        requires
            eject_templates_ready(*templates),
        ensures
            file_views(r@) == ejected_files(args@, *templates, controllers_mod@, routes@),
    {
        let api = has_flag(args, "--api");
        let two_factor = has_flag(args, "--two-factor");
        let controllers_only = has_flag(args, "--controllers-only");
        let views_only = has_flag(args, "--views-only");
        let emit_controllers = !views_only;
        let emit_views = !controllers_only && !api;
        let suffix = if api { "api" } else { "html" };
        proof {
            reveal_strlit("api");
            reveal_strlit("html");
            assert(templates.has(flavoured("sessions_controller"@, suffix@)));
        }
        let mut files: Vec<GeneratedFile> = Vec::new();
        if emit_controllers {
            files.push(file("app/controllers/auth/mod.rs", auth_mod(templates, two_factor)));
            files.push(
                file(
                    "app/controllers/auth/sessions_controller.rs",
                    flavoured_text(templates, "sessions_controller", suffix),
                ),
            );
            files.push(
                file(
                    "app/controllers/auth/registrations_controller.rs",
                    flavoured_text(templates, "registrations_controller", suffix),
                ),
            );
            files.push(
                file(
                    "app/controllers/auth/passwords_controller.rs",
                    flavoured_text(templates, "passwords_controller", suffix),
                ),
            );
            files.push(
                file(
                    "app/controllers/auth/oauth_controller.rs",
                    template_text(templates, "auth/oauth_controller.rs.template"),
                ),
            );
            if two_factor {
                files.push(
                    file(
                        "app/controllers/auth/two_factor_controller.rs",
                        flavoured_text(templates, "two_factor_controller", suffix),
                    ),
                );
            }
            files.push(file(CONTROLLERS_MOD_PATH, register_auth_controllers_mod(controllers_mod)));
            files.push(file(ROUTES_PATH, rewire_local_controllers(routes, two_factor)));
        }
        let ghost after_controllers = file_views(files@);
        assert(after_controllers =~= if emit_controllers {
            ejected_controllers(*templates, suffix@, two_factor, controllers_mod@, routes@)
        } else {
            seq![]
        });
        if emit_views {
            files.push(
                file(
                    "app/views/auth/sign_in.html.tera",
                    template_text(templates, "auth/views/sign_in.html.tera"),
                ),
            );
            files.push(
                file(
                    "app/views/auth/sign_up.html.tera",
                    template_text(templates, "auth/views/sign_up.html.tera"),
                ),
            );
            files.push(
                file(
                    "app/views/auth/password_new.html.tera",
                    template_text(templates, "auth/views/password_new.html.tera"),
                ),
            );
            files.push(
                file(
                    "app/views/auth/password_edit.html.tera",
                    template_text(templates, "auth/views/password_edit.html.tera"),
                ),
            );
            if two_factor {
                files.push(
                    file(
                        "app/views/auth/two_factor.html.tera",
                        template_text(templates, "auth/views/two_factor.html.tera"),
                    ),
                );
            }
        }
        assert(file_views(files@) =~= after_controllers + if emit_views {
            ejected_views(*templates, two_factor)
        } else {
            seq![]
        });
        files
    }
}

} // verus!
