//! `auth:install`: the users migration and model, the `auth:` section of the
//! environment configs, and a bare `auth_routes!(User);` served by the
//! built-in controllers. Nothing is copied into `app/controllers/auth` or
//! `app/views/auth` (that is `auth:controllers`).

use vstd::prelude::*;
use crate::generators::files::{file_views, has_arg, has_flag, GeneratedFile, TemplateSet};
use crate::generators::route_injector::{
    inject_auth_routes, inject_auth_routes_spec, register_model_module, register_module_spec,
    MODELS_MOD_PATH, ROUTES_PATH,
};
use crate::text::{
    chars_of, contains, contains_str, push_str, replace_all, replace_str, starts_with,
    starts_with_str, string_of, trim_end, trim_end_chars,
};

verus! {

/// The generator behind `auth:install`.
pub struct AuthInstallGenerator;

/// Where the migration crate's sources live.
pub const MIGRATION_SRC_DIR: &'static str = "db/migration/src";

/// The generated entities module list.
pub const ENTITIES_MOD_PATH: &'static str = "app/models/_entities/mod.rs";

/// The user model; its presence means auth is installed.
pub const USER_MODEL_PATH: &'static str = "app/models/user.rs";

/// The imports of the users migration.
pub const IMPORTS: &'static str = "use doido::model::migration::{create_table, drop_table};";

/// The `down` body of the users migration.
pub const DOWN_BODY: &'static str = "        drop_table(manager, \"users\").await\n";

/// What the install generator takes from the application and from the
/// migration and model tooling: the moment of the run, the files that tooling
/// edits to register the users migration and entity, and the current sources
/// the generator edits itself.
pub struct InstallSources {
    /// The time of the run, as `%Y%m%d_%H%M%S`.
    pub timestamp: String,
    /// The migration crate's `lib.rs` with the users migration registered.
    pub migration_lib: String,
    /// The entities module list with `users` registered.
    pub entities_mod: String,
    /// `app/models/mod.rs` as it stands.
    pub models_mod: String,
    /// `config/routes.rs` as it stands.
    pub routes: String,
    /// `config/development.yml`, if present.
    pub development_yml: Option<String>,
    /// `config/test.yml`, if present.
    pub test_yml: Option<String>,
}

/// The `up` body of the users migration.
pub open spec fn users_up_text(two_factor: bool) -> Seq<char> {
    "        create_table(manager, \"users\", |t| {\n            t.string(\"email\").not_null().unique_key();\n            t.string(\"password_digest\").not_null();\n"@
        + (if two_factor {
        "            t.string(\"two_factor_secret\");\n"@
            + "            t.boolean(\"two_factor_enabled\").not_null();\n"@
    } else {
        Seq::empty()
    })
        + "            t.timestamp(\"created_at\").not_null();\n            t.timestamp(\"updated_at\").not_null();\n        })\n        .await\n"@
}

/// The `auth:` section added to an environment config.
pub open spec fn auth_section_text(two_factor: bool) -> Seq<char> {
    "\nauth:\n  user_model: User\n  strategies:\n    - cookie\n  two_factor:\n    enabled: "@ + (
    if two_factor {
        "true"@
    } else {
        "false"@
    }) + "\n    issuer: MyApp\n  routes:\n    prefix: /users\n"@
}

/// Whether a config already has an `auth:` section.
pub open spec fn has_auth_section(config: Seq<char>) -> bool {
    contains(config, "\nauth:"@) || starts_with(config, "auth:"@)
}

/// The update of config `path`: none when the file is absent or already has
/// an `auth:` section, else the file with the section appended.
pub open spec fn config_update(path: Seq<char>, existing: Option<Seq<char>>, two_factor: bool) -> Option<(Seq<char>, Seq<char>)> {
    match existing {
        None => None,
        Some(c) => if has_auth_section(c) {
            None
        } else {
            Some((path, trim_end(c) + auth_section_text(two_factor)))
        },
    }
}

/// The users entity: its template with the two-factor columns when asked for.
pub open spec fn user_entity_text(template: Seq<char>, two_factor: bool) -> Seq<char> {
    replace_all(
        template,
        "{two_factor_fields}"@,
        if two_factor {
            "    pub two_factor_secret: Option<String>,\n    pub two_factor_enabled: bool,\n"@
        } else {
            ""@
        },
    )
}

/// The module name of the migration creating `table` at `timestamp`.
pub open spec fn migration_module_text(timestamp: Seq<char>, table: Seq<char>) -> Seq<char> {
    "m"@ + timestamp + "_create_"@ + table + "_table"@
}

/// A migration file rendered from its template.
pub open spec fn migration_text(template: Seq<char>, name: Seq<char>, imports: Seq<char>, up: Seq<char>, down: Seq<char>) -> Seq<char> {
    replace_all(
        replace_all(
            replace_all(replace_all(template, "{migration_name}"@, name), "{migration_imports}"@, imports),
            "{up_body}"@,
            up,
        ),
        "{down_body}"@,
        down,
    )
}

/// The templates install reads.
pub open spec fn install_templates_ready(t: TemplateSet) -> bool {
    t.has("user.rs.template"@) && t.has("user_entity.rs.template"@) && t.has("migration.rs.template"@)
}

/// Everything `auth:install` emits.
pub open spec fn installed_files(args: Seq<&str>, t: TemplateSet, s: InstallSources) -> Seq<(Seq<char>, Seq<char>)> {
    let two_factor = has_arg(args, "--two-factor"@);
    let module = migration_module_text(s.timestamp@, "users"@);
    let base = seq![
        (
            MIGRATION_SRC_DIR@ + "/"@ + (module + ".rs"@),
            migration_text(t.source("migration.rs.template"@)->Some_0, module, IMPORTS@, users_up_text(two_factor), DOWN_BODY@),
        ),
        (MIGRATION_SRC_DIR@ + "/"@ + "lib.rs"@, s.migration_lib@),
        ("app/models/_entities/users.rs"@, user_entity_text(t.source("user_entity.rs.template"@)->Some_0, two_factor)),
        (ENTITIES_MOD_PATH@, s.entities_mod@),
        (USER_MODEL_PATH@, t.source("user.rs.template"@)->Some_0),
        (MODELS_MOD_PATH@, register_module_spec(s.models_mod@, "user"@, "@generated-models"@)),
        (ROUTES_PATH@, inject_auth_routes_spec(s.routes@)),
    ];
    let dev = config_update("config/development.yml"@, opt_view(s.development_yml), two_factor);
    let test = config_update("config/test.yml"@, opt_view(s.test_yml), two_factor);
    base + opt_seq(dev) + opt_seq(test)
}

pub open spec fn opt_view(o: Option<String>) -> Option<Seq<char>> {
    match o {
        Some(s) => Some(s@),
        None => None,
    }
}

pub open spec fn str_opt_view(o: Option<&str>) -> Option<Seq<char>> {
    match o {
        Some(s) => Some(s@),
        None => None,
    }
}

pub open spec fn opt_seq<A>(o: Option<A>) -> Seq<A> {
    match o {
        Some(a) => seq![a],
        None => seq![],
    }
}

/// The `up` body of the users migration.
pub fn users_up_body(two_factor: bool) -> (r: String)
    ensures
        r@ == users_up_text(two_factor),
{
    let mut body = chars_of(
        "        create_table(manager, \"users\", |t| {\n            t.string(\"email\").not_null().unique_key();\n            t.string(\"password_digest\").not_null();\n",
    );
    let ghost head = body@;
    if two_factor {
        push_str(&mut body, "            t.string(\"two_factor_secret\");\n");
        push_str(&mut body, "            t.boolean(\"two_factor_enabled\").not_null();\n");
    }
    assert(body@ =~= head + (if two_factor {
        "            t.string(\"two_factor_secret\");\n"@
            + "            t.boolean(\"two_factor_enabled\").not_null();\n"@
    } else {
        Seq::empty()
    }));
    push_str(
        &mut body,
        "            t.timestamp(\"created_at\").not_null();\n            t.timestamp(\"updated_at\").not_null();\n        })\n        .await\n",
    );
    string_of(&body)
}

/// The `auth:` config section.
pub fn auth_section(two_factor: bool) -> (r: String)
    ensures
        r@ == auth_section_text(two_factor),
{
    let mut out = chars_of(
        "\nauth:\n  user_model: User\n  strategies:\n    - cookie\n  two_factor:\n    enabled: ",
    );
    if two_factor {
        push_str(&mut out, "true");
    } else {
        push_str(&mut out, "false");
    }
    push_str(&mut out, "\n    issuer: MyApp\n  routes:\n    prefix: /users\n");
    string_of(&out)
}

/// The updated config at `path`, when it exists and has no `auth:` section.
pub fn config_file(path: &str, existing: Option<&str>, two_factor: bool) -> (r: Option<GeneratedFile>)
    ensures
        match r {
            Some(f) => config_update(path@, str_opt_view(existing), two_factor) == Some(f@),
            None => config_update(path@, str_opt_view(existing), two_factor) is None,
        },
{
    match existing {
        None => None,
        Some(c) => {
            let cs = chars_of(c);
            if contains_str(&cs, "\nauth:") || starts_with_str(&cs, "auth:") {
                None
            } else {
                let mut out = trim_end_chars(&cs);
                let section = auth_section(two_factor);
                push_str(&mut out, section.as_str());
                Some(GeneratedFile { path: path.to_owned(), content: string_of(&out) })
            }
        },
    }
}

/// The users entity source.
pub fn user_entity(template: &str, two_factor: bool) -> (r: String)
    ensures
        r@ == user_entity_text(template@, two_factor),
{
    let fields = if two_factor {
        "    pub two_factor_secret: Option<String>,\n    pub two_factor_enabled: bool,\n"
    } else {
        ""
    };
    proof {
        reveal_strlit("{two_factor_fields}");
    }
    let src = chars_of(template);
    string_of(&replace_str(&src, "{two_factor_fields}", &chars_of(fields)))
}

/// Fills a migration template with its name, imports and bodies.
pub fn render_migration_file(template: &str, name: &str, imports: &str, up: &str, down: &str) -> (r: String)
    ensures
        r@ == migration_text(template@, name@, imports@, up@, down@),
{
    proof {
        reveal_strlit("{migration_name}");
        reveal_strlit("{migration_imports}");
        reveal_strlit("{up_body}");
        reveal_strlit("{down_body}");
    }
    let s = chars_of(template);
    let s = replace_str(&s, "{migration_name}", &chars_of(name));
    let s = replace_str(&s, "{migration_imports}", &chars_of(imports));
    let s = replace_str(&s, "{up_body}", &chars_of(up));
    let s = replace_str(&s, "{down_body}", &chars_of(down));
    string_of(&s)
}

/// `m<timestamp>_create_<table>_table`.
pub fn migration_module_name(timestamp: &str, table: &str) -> (r: String)
    ensures
        r@ == migration_module_text(timestamp@, table@),
{
    let mut out = chars_of("m");
    push_str(&mut out, timestamp);
    push_str(&mut out, "_create_");
    push_str(&mut out, table);
    push_str(&mut out, "_table");
    string_of(&out)
}

/// `<dir>/<file>`.
pub fn in_dir(dir: &str, file: &str) -> (r: String)
    ensures
        r@ == dir@ + "/"@ + file@,
{
    let mut out = chars_of(dir);
    push_str(&mut out, "/");
    push_str(&mut out, file);
    string_of(&out)
}

fn opt_str(o: &Option<String>) -> (r: Option<&str>)
    ensures
        str_opt_view(r) == opt_view(*o),
{
    match o {
        Some(s) => Some(s.as_str()),
        None => None,
    }
}

impl AuthInstallGenerator {
    /// The files of an auth install.
    pub fn generate(&self, args: &[&str], templates: &TemplateSet, sources: &InstallSources) -> (r: Vec<GeneratedFile>)
        requires
            install_templates_ready(*templates),
        ensures
            file_views(r@) == installed_files(args@, *templates, *sources),
    {
        let two_factor = has_flag(args, "--two-factor");
        let module = migration_module_name(sources.timestamp.as_str(), "users");
        let mut migration_file = chars_of(module.as_str());
        push_str(&mut migration_file, ".rs");
        let migration_file = string_of(&migration_file);
        let entity_template = match templates.get("user_entity.rs.template") {
            Some(t) => t,
            None => vstd::pervasive::unreached(),
        };
        let user_template = match templates.get("user.rs.template") {
            Some(t) => t,
            None => vstd::pervasive::unreached(),
        };
        let migration_template = match templates.get("migration.rs.template") {
            Some(t) => t,
            None => vstd::pervasive::unreached(),
        };
        let up = users_up_body(two_factor);
        let migration = render_migration_file(
            migration_template.as_str(),
            module.as_str(),
            IMPORTS,
            up.as_str(),
            DOWN_BODY,
        );
        let mut files: Vec<GeneratedFile> = Vec::new();
        files.push(
            GeneratedFile { path: in_dir(MIGRATION_SRC_DIR, migration_file.as_str()), content: migration },
        );
        files.push(
            GeneratedFile {
                path: in_dir(MIGRATION_SRC_DIR, "lib.rs"),
                content: sources.migration_lib.clone(),
            },
        );
        files.push(
            GeneratedFile {
                path: "app/models/_entities/users.rs".to_owned(),
                content: user_entity(entity_template.as_str(), two_factor),
            },
        );
        files.push(
            GeneratedFile {
                path: ENTITIES_MOD_PATH.to_owned(),
                content: sources.entities_mod.clone(),
            },
        );
        files.push(
            GeneratedFile { path: USER_MODEL_PATH.to_owned(), content: user_template.clone() },
        );
        files.push(
            GeneratedFile {
                path: MODELS_MOD_PATH.to_owned(),
                content: register_model_module(sources.models_mod.as_str(), "user"),
            },
        );
        files.push(
            GeneratedFile {
                path: ROUTES_PATH.to_owned(),
                content: inject_auth_routes(sources.routes.as_str()),
            },
        );
        let ghost base = file_views(files@);
        let dev = config_file("config/development.yml", opt_str(&sources.development_yml), two_factor);
        let ghost dev_seq = opt_seq(
            config_update("config/development.yml"@, opt_view(sources.development_yml), two_factor),
        );
        match dev {
            Some(f) => files.push(f),
            None => {},
        }
        assert(file_views(files@) =~= base + dev_seq);
        let ghost mid = file_views(files@);
        let test = config_file("config/test.yml", opt_str(&sources.test_yml), two_factor);
        match test {
            Some(f) => files.push(f),
            None => {},
        }
        assert(base =~= seq![
            (
                MIGRATION_SRC_DIR@ + "/"@ + (migration_module_text(sources.timestamp@, "users"@) + ".rs"@),
                migration_text(templates.source("migration.rs.template"@)->Some_0, migration_module_text(sources.timestamp@, "users"@), IMPORTS@, users_up_text(two_factor), DOWN_BODY@),
            ),
            (MIGRATION_SRC_DIR@ + "/"@ + "lib.rs"@, sources.migration_lib@),
            ("app/models/_entities/users.rs"@, user_entity_text(templates.source("user_entity.rs.template"@)->Some_0, two_factor)),
            (ENTITIES_MOD_PATH@, sources.entities_mod@),
            (USER_MODEL_PATH@, templates.source("user.rs.template"@)->Some_0),
            (MODELS_MOD_PATH@, register_module_spec(sources.models_mod@, "user"@, "@generated-models"@)),
            (ROUTES_PATH@, inject_auth_routes_spec(sources.routes@)),
        ]);
        assert(file_views(files@) =~= mid + opt_seq(
            config_update("config/test.yml"@, opt_view(sources.test_yml), two_factor),
        ));
        files
    }
}

} // verus!
