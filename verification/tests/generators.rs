use doido_auth::framework_views::framework_views;
use doido_auth::generators::controller::AuthControllerGenerator;
use doido_auth::generators::eject::AuthControllersGenerator;
use doido_auth::generators::field::{ColumnType, Field};
use doido_auth::generators::files::{GeneratedFile, TemplateSet};
use doido_auth::generators::install::{
    auth_section, config_file, migration_module_name, render_migration_file, users_up_body,
    AuthInstallGenerator, InstallSources,
};
use doido_auth::generators::names::{to_pascal, to_snake, to_table_name};
use doido_auth::generators::route_injector::{
    inject_action_routes, inject_auth_routes, inject_auth_routes_only, inject_resources, register_auth_controllers_mod,
    register_controller, register_model_module, register_module, rewire_local_controllers,
    CONTROLLERS_MOD_PATH, ROUTES_PATH,
};
use doido_auth::generators::scaffold::{ensure_user_reference, AuthScaffoldGenerator, ScaffoldSources};

const ROUTES_BASE: &str = "use crate::controllers::HelloController;\nuse doido::controller::{axum, routes};\n\npub fn router() -> axum::Router {\n    routes! {\n        get!(\"/\", HelloController::index);\n    }\n}\n";
const CONTROLLERS_MOD_BASE: &str = "mod hello_controller;\npub use hello_controller::HelloController;\n";
const MODELS_MOD_BASE: &str = "pub mod _entities;\n\n// @generated-models\n";

fn templates() -> TemplateSet {
    let mut t = TemplateSet::new();
    let entries: &[(&str, &str)] = &[
        ("auth_controller.rs.template", "use crate::models::user::Model as User;\nuse doido::auth::{require_user, CurrentUser};\nuse doido::controller::{controller, Context, Response};\n\npub struct {pascal}Controller;\n\n#[controller]\nimpl {pascal}Controller {\n{actions}}\n"),
        ("auth/mod.rs.template", "mod sessions_controller;\nmod registrations_controller;\nmod passwords_controller;\n{oauth_module}{two_factor_module}\npub use sessions_controller::SessionsController;\npub use registrations_controller::RegistrationsController;\npub use passwords_controller::PasswordsController;\n{oauth_use}{two_factor_use}"),
        ("auth/sessions_controller_html.rs.template", "// sessions (html)\n"),
        ("auth/sessions_controller_api.rs.template", "// sessions (api)\n"),
        ("auth/registrations_controller_html.rs.template", "// registrations (html)\n"),
        ("auth/registrations_controller_api.rs.template", "// registrations (api)\n"),
        ("auth/passwords_controller_html.rs.template", "// passwords (html)\n"),
        ("auth/passwords_controller_api.rs.template", "// passwords (api)\n"),
        ("auth/two_factor_controller_html.rs.template", "// two factor (html)\n"),
        ("auth/two_factor_controller_api.rs.template", "// two factor (api)\n"),
        ("auth/oauth_controller.rs.template", "// oauth\n"),
        ("auth/views/sign_in.html.tera", "<form>sign in</form>\n"),
        ("auth/views/sign_up.html.tera", "<form>sign up</form>\n"),
        ("auth/views/password_new.html.tera", "<form>new password</form>\n"),
        ("auth/views/password_edit.html.tera", "<form>edit password</form>\n"),
        ("auth/views/two_factor.html.tera", "<form>two factor</form>\n"),
        ("migration.rs.template", "{migration_imports}\n\npub struct Migration;\n\nimpl MigrationName for Migration {\n    fn name(&self) -> &str {\n        \"{migration_name}\"\n    }\n}\n\nasync fn up(manager: &SchemaManager) -> Result<(), DbErr> {\n{up_body}}\n\nasync fn down(manager: &SchemaManager) -> Result<(), DbErr> {\n{down_body}}\n"),
        ("user.rs.template", "pub use super::_entities::users::*;\n\nimpl AuthUser for Model {}\n"),
        ("user_entity.rs.template", "pub struct Model {\n    pub id: i64,\n    pub email: String,\n    pub password_digest: String,\n{two_factor_fields}}\n"),
        ("scaffold/entity.rs.template", "#[sea_orm(table_name = \"{table_name}\")]\npub struct Model {\n    pub id: i64,\n{fields}}\n"),
        ("scaffold/model.rs.template", "pub use super::_entities::{singular}::*;\n// {Model}\n"),
        ("scaffold/controller_html.rs.template", "pub struct {Controller};\n// require_user guards every action; rows are scoped by Column::UserId\n#[derive(Deserialize)]\npub struct {Model}Params {\n{params_fields}}\n// create: {active_model_sets}\n// update: {active_model_assigns}\n// views: {plural}/{singular}\n"),
        ("scaffold/controller_api.rs.template", "pub struct {Controller}; // api, require_user, Column::UserId\n{params_fields}"),
        ("scaffold/views/index.html.tera", "<table>\n{table_headers}{table_cells}</table>\n"),
        ("scaffold/views/show.html.tera", "{show_fields}"),
        ("scaffold/views/new.html.tera", "<h1>New {Model}</h1>\n"),
        ("scaffold/views/edit.html.tera", "<h1>Edit {Model}</h1>\n"),
        ("scaffold/views/_form.html.tera", "<form action=\"/{plural}\">\n{form_fields}</form>\n"),
    ];
    for (name, src) in entries {
        t.insert(name.to_string(), src.to_string());
    }
    t
}

fn install_sources(routes: &str) -> InstallSources {
    InstallSources {
        timestamp: "20260101_000000".to_string(),
        migration_lib: "mod m20260101_000000_create_users_table;\n".to_string(),
        entities_mod: "pub mod users;\n".to_string(),
        models_mod: MODELS_MOD_BASE.to_string(),
        routes: routes.to_string(),
        development_yml: None,
        test_yml: None,
    }
}

fn find<'a>(files: &'a [GeneratedFile], path: &str) -> Option<&'a GeneratedFile> {
    files.iter().find(|f| f.path == path)
}

#[test]
fn emits_require_user_and_routes() {
    let files = AuthControllerGenerator
        .generate(&["Dashboard", "index", "show"], &templates(), CONTROLLERS_MOD_BASE, ROUTES_BASE)
        .unwrap();
    let controller = find(&files, "app/controllers/dashboard_controller.rs").unwrap();
    assert!(controller.content.contains("require_user"));
    assert!(controller.content.contains("CurrentUser<User>"));

    let routes = find(&files, ROUTES_PATH).unwrap();
    assert!(routes.content.contains("DashboardController::index"));
    assert!(routes.content.contains("DashboardController::show"));
}

#[test]
fn ejects_controllers_views_and_rewires_routes() {
    let files = AuthControllersGenerator.generate(&[], &templates(), CONTROLLERS_MOD_BASE, ROUTES_BASE);
    for path in [
        "app/controllers/auth/mod.rs",
        "app/controllers/auth/sessions_controller.rs",
        "app/controllers/auth/registrations_controller.rs",
        "app/controllers/auth/passwords_controller.rs",
        "app/controllers/auth/oauth_controller.rs",
        "app/views/auth/sign_in.html.tera",
        "app/views/auth/sign_up.html.tera",
    ] {
        assert!(files.iter().any(|f| f.path == path), "expected ejected file {path}");
    }
    let controllers_mod = find(&files, CONTROLLERS_MOD_PATH).unwrap();
    assert!(controllers_mod.content.contains("pub mod auth;"));
}

#[test]
fn rewires_installed_bare_route_to_local_controllers() {
    // An app that already ran `auth:install`: bare route + User import.
    let routes_src = "use doido::controller::axum;\nuse crate::models::user::Model as User;\n\npub fn router() -> axum::Router {\n    doido::auth::routes! {\n        auth_routes!(User);\n    }\n}\n";
    let files = AuthControllersGenerator.generate(&[], &templates(), CONTROLLERS_MOD_BASE, routes_src);
    let routes = find(&files, ROUTES_PATH).unwrap();
    assert!(routes.content.contains("controllers: {"));
    assert!(routes.content.contains("sessions: auth::SessionsController"));
    assert!(routes.content.contains("use crate::controllers::auth;"));
    assert!(!routes.content.contains("auth_routes!(User);"));
    // With every module overridden, `User` is no longer referenced, so its
    // import is dropped.
    assert!(!routes.content.contains("use crate::models::user::Model as User;"));
}

#[test]
fn api_flag_skips_views() {
    let files = AuthControllersGenerator.generate(&["--api"], &templates(), CONTROLLERS_MOD_BASE, ROUTES_BASE);
    assert!(!files.iter().any(|f| f.path.starts_with("app/views/auth/")));
    assert!(files.iter().any(|f| f.path == "app/controllers/auth/sessions_controller.rs"));
    let sessions = find(&files, "app/controllers/auth/sessions_controller.rs").unwrap();
    assert_eq!(sessions.content, "// sessions (api)\n");
}

#[test]
fn views_only_skips_controllers_and_routes() {
    let files = AuthControllersGenerator.generate(&["--views-only"], &templates(), CONTROLLERS_MOD_BASE, ROUTES_BASE);
    assert!(!files.iter().any(|f| f.path.starts_with("app/controllers/auth/")));
    assert!(!files.iter().any(|f| f.path == ROUTES_PATH));
    assert!(files.iter().any(|f| f.path == "app/views/auth/sign_in.html.tera"));
}

#[test]
fn eject_two_factor_adds_controller_view_and_module() {
    let files = AuthControllersGenerator.generate(&["--two-factor"], &templates(), CONTROLLERS_MOD_BASE, ROUTES_BASE);
    assert!(files.iter().any(|f| f.path == "app/controllers/auth/two_factor_controller.rs"));
    assert!(files.iter().any(|f| f.path == "app/views/auth/two_factor.html.tera"));
    let m = find(&files, "app/controllers/auth/mod.rs").unwrap();
    assert!(m.content.contains("mod two_factor_controller;\n"));
    assert!(m.content.contains("pub use two_factor_controller::TwoFactorController;\n"));
    assert!(m.content.contains("mod oauth_controller;\n"));
    assert!(!m.content.contains("{two_factor_use}"));
    assert_eq!(files.len(), 13);
}

#[test]
fn emits_users_migration_and_bare_builtin_routes() {
    let files = AuthInstallGenerator.generate(&[], &templates(), &install_sources(ROUTES_BASE));
    let migration = files
        .iter()
        .find(|f| f.path.contains("create_users_table"))
        .expect("users migration");
    assert!(migration.content.contains("password_digest"));
    assert!(migration.content.contains("impl MigrationName for Migration"));

    let routes = find(&files, ROUTES_PATH).expect("routes.rs");
    assert!(routes.content.contains("auth_routes!(User);"));
    assert!(routes.content.contains("doido::auth::routes!"));
    assert!(routes.content.contains("use crate::models::user::Model as User;"));
    assert!(!routes.content.contains("controllers: {"));
    assert!(!routes.content.contains("use crate::controllers::auth;"));

    let user = find(&files, "app/models/user.rs").expect("user model");
    assert!(user.content.contains("impl AuthUser for Model"));
}

#[test]
fn install_does_not_copy_controllers_or_views() {
    for args in [&[][..], &["--api"][..], &["--two-factor"][..]] {
        let files = AuthInstallGenerator.generate(args, &templates(), &install_sources(ROUTES_BASE));
        assert!(
            !files.iter().any(|f| f.path.contains("app/controllers/auth/")),
            "auth:install must not copy controllers (args {args:?})"
        );
        assert!(
            !files.iter().any(|f| f.path.contains("app/views/auth/")),
            "auth:install must not copy views (args {args:?})"
        );
    }
}

#[test]
fn two_factor_adds_migration_columns() {
    let files = AuthInstallGenerator.generate(&["--two-factor"], &templates(), &install_sources(ROUTES_BASE));
    let migration = files.iter().find(|f| f.path.contains("create_users_table")).unwrap();
    assert!(migration.content.contains("two_factor_secret"));
    assert!(migration.content.contains("two_factor_enabled"));
    let entity = find(&files, "app/models/_entities/users.rs").unwrap();
    assert!(entity.content.contains("pub two_factor_enabled: bool,"));
}

#[test]
fn install_paths_and_config_sections() {
    let mut sources = install_sources(ROUTES_BASE);
    sources.development_yml = Some("server:\n  port: 3000\n\n".to_string());
    sources.test_yml = Some("auth:\n  strategies: [cookie]\n".to_string());
    let files = AuthInstallGenerator.generate(&[], &templates(), &sources);
    assert_eq!(files[0].path, "db/migration/src/m20260101_000000_create_users_table.rs");
    assert_eq!(files[1].path, "db/migration/src/lib.rs");
    assert_eq!(files.len(), 8);
    let dev = find(&files, "config/development.yml").unwrap();
    assert_eq!(
        dev.content,
        "server:\n  port: 3000\nauth:\n  user_model: User\n  strategies:\n    - cookie\n  two_factor:\n    enabled: false\n    issuer: MyApp\n  routes:\n    prefix: /users\n"
    );
    assert!(find(&files, "config/test.yml").is_none());
    let models = find(&files, "app/models/mod.rs").unwrap();
    assert_eq!(models.content, "pub mod _entities;\n\npub mod user;\n// @generated-models\n");
}

#[test]
fn users_up_body_exact() {
    assert_eq!(
        users_up_body(false),
        "        create_table(manager, \"users\", |t| {\n            t.string(\"email\").not_null().unique_key();\n            t.string(\"password_digest\").not_null();\n            t.timestamp(\"created_at\").not_null();\n            t.timestamp(\"updated_at\").not_null();\n        })\n        .await\n"
    );
    assert!(users_up_body(true).contains("            t.boolean(\"two_factor_enabled\").not_null();\n"));
    assert!(auth_section(true).contains("enabled: true"));
    assert_eq!(migration_module_name("20250102_030405", "posts"), "m20250102_030405_create_posts_table");
    assert_eq!(
        render_migration_file("{migration_name}|{migration_imports}|{up_body}|{down_body}", "m", "i", "u", "d"),
        "m|i|u|d"
    );
    assert!(config_file("x.yml", None, false).is_none());
    assert!(config_file("x.yml", Some("a: 1\nauth:\n"), false).is_none());
}

fn scaffold_sources(user_model_exists: bool) -> ScaffoldSources {
    ScaffoldSources {
        install: install_sources(ROUTES_BASE),
        user_model_exists,
        migration_imports: "use doido::model::migration::{create_table, drop_table};".to_string(),
        up_body: "        create_table(manager, \"posts\", |t| {\n            t.references(\"user\");\n            t.string(\"title\");\n        })\n        .await\n".to_string(),
        down_body: "        drop_table(manager, \"posts\").await\n".to_string(),
        migration_lib: "mod m20260101_000000_create_posts_table;\n".to_string(),
        entities_mod: "pub mod posts;\n".to_string(),
        controllers_mod: CONTROLLERS_MOD_BASE.to_string(),
    }
}

#[test]
fn adds_user_id_and_require_user() {
    let files = AuthScaffoldGenerator
        .generate(&["Post", "title:string"], &templates(), &scaffold_sources(false))
        .unwrap();

    let migration = files
        .iter()
        .find(|f| f.path.contains("create_posts_table"))
        .expect("posts migration");
    assert!(migration.content.contains("references(\"user\")"));

    let controller = files.iter().find(|f| f.path.ends_with("posts_controller.rs")).unwrap();
    assert!(controller.content.contains("require_user"));
    assert!(controller.content.contains("Column::UserId"));
}

#[test]
fn scaffold_renders_fields_and_routes() {
    let files = AuthScaffoldGenerator
        .generate(&["BlogPost", "title:string:not_null", "body:text", "published:bool"], &templates(), &scaffold_sources(true))
        .unwrap();
    // no install when the user model exists: 9 core files + 5 views
    assert_eq!(files.len(), 14);
    let entity = find(&files, "app/models/_entities/blog_post.rs").unwrap();
    assert_eq!(
        entity.content,
        "#[sea_orm(table_name = \"blog_posts\")]\npub struct Model {\n    pub id: i64,\n    pub user_id: i64,\n    pub title: String,\n    pub body: Option<String>,\n    pub published: Option<bool>,\n}\n"
    );
    let controller = find(&files, "app/controllers/blog_posts_controller.rs").unwrap();
    assert!(controller.content.starts_with("pub struct BlogPostsController;\n"));
    assert!(controller.content.contains("    pub title: String,\n"));
    assert!(!controller.content.contains("user_id"));
    assert!(controller.content.contains("            title: Set(form.title),\n"));
    assert!(controller.content.contains("            record.body = Set(form.body);\n"));
    assert!(controller.content.contains("// views: blog_posts/blog_post\n"));
    let form = find(&files, "app/views/blog_posts/_form.html.tera").unwrap();
    assert!(form.content.contains("  <label>body<br><textarea name=\"body\"></textarea></label>\n"));
    assert!(form.content.contains("  <label>published <input type=\"checkbox\" name=\"published\"></label>\n"));
    assert!(form.content.contains("  <label>title<br><input type=\"text\" name=\"title\"></label>\n"));
    let index = find(&files, "app/views/blog_posts/index.html.tera").unwrap();
    assert!(index.content.contains("      <th>title</th>\n"));
    assert!(index.content.contains("      <td>{{ blog_post.title }}</td>\n"));
    let routes = find(&files, ROUTES_PATH).unwrap();
    assert!(routes.content.contains("        resources!(blog_posts, BlogPostsController);\n"));
    assert!(routes.content.contains("use crate::controllers::BlogPostsController;\n"));
    let cm = find(&files, CONTROLLERS_MOD_PATH).unwrap();
    assert!(cm.content.ends_with("mod blog_posts_controller;\npub use blog_posts_controller::BlogPostsController;\n"));
}

#[test]
fn scaffold_with_install_upserts_shared_files() {
    let files = AuthScaffoldGenerator
        .generate(&["Post", "title", "--api"], &templates(), &scaffold_sources(false))
        .unwrap();
    // 7 install files; entities mod, lib.rs, models mod and routes replaced
    // in place; 5 new scaffold files; no views in API mode.
    assert_eq!(files.len(), 12);
    let routes: Vec<&GeneratedFile> = files.iter().filter(|f| f.path == ROUTES_PATH).collect();
    assert_eq!(routes.len(), 1);
    assert!(routes[0].content.contains("auth_routes!(User);"));
    assert!(routes[0].content.contains("resources!(posts, PostsController, except: [new, edit]);"));
    let models = find(&files, "app/models/mod.rs").unwrap();
    assert!(models.content.contains("pub mod user;\npub mod post;\n// @generated-models\n"));
}

#[test]
fn scaffold_errors() {
    let e = AuthScaffoldGenerator.generate(&["--api"], &templates(), &scaffold_sources(true)).unwrap_err();
    assert_eq!(e.message, "auth:scaffold generator requires a name argument");
    let e = AuthScaffoldGenerator
        .generate(&["Post", "title:string", "count:nonsense"], &templates(), &scaffold_sources(true))
        .unwrap_err();
    assert_eq!(e.message, "unknown column type `nonsense`");
    let e = AuthControllerGenerator.generate(&[], &templates(), "", "").unwrap_err();
    assert_eq!(e.message, "auth:controller requires a name argument");
}

#[test]
fn controller_default_action_is_index() {
    let files = AuthControllerGenerator
        .generate(&["admin_panel", "--force"], &templates(), CONTROLLERS_MOD_BASE, ROUTES_BASE)
        .unwrap();
    assert_eq!(files[0].path, "app/controllers/admin_panel_controller.rs");
    assert!(files[0].content.contains("pub struct AdminPanelController;"));
    assert!(files[0].content.contains("    /// GET /admin_panel\n    pub async fn index(ctx: Context, _user: CurrentUser<User>)"));
    assert!(files[2].content.contains("get!(\"/admin_panel/index\", AdminPanelController::index);"));
    let custom = AuthControllerGenerator
        .generate(&["Reports", "export"], &templates(), CONTROLLERS_MOD_BASE, ROUTES_BASE)
        .unwrap();
    assert!(custom[0].content.contains("Ok(ctx.json(json!({\"action\": \"export\"})))"));
}

#[test]
fn inflection() {
    assert_eq!(to_snake("BlogPost"), "blog_post");
    assert_eq!(to_snake("blog-post"), "blog_post");
    assert_eq!(to_snake("HTTPServer"), "http_server");
    assert_eq!(to_snake("Post2Tag"), "post2_tag");
    assert_eq!(to_pascal("blog_post"), "BlogPost");
    assert_eq!(to_pascal("blog-post"), "BlogPost");
    assert_eq!(to_pascal("BlogPost"), "BlogPost");
    assert_eq!(to_table_name("BlogPost"), "blog_posts");
    assert_eq!(to_table_name("Category"), "categories");
    assert_eq!(to_table_name("Day"), "days");
    assert_eq!(to_table_name("Box"), "boxes");
    assert_eq!(to_table_name("Match"), "matches");
    // snake-casing is idempotent
    assert_eq!(to_snake(&to_snake("HTTPServerError")), to_snake("HTTPServerError"));
}

#[test]
fn field_parsing() {
    let f = Field::parse("AuthorName:String:required:unique:index").unwrap();
    assert_eq!(f.column_name(), "author_name");
    assert!(f.is_required());
    assert!(f.wants_index());
    assert_eq!(f.migration_line(), "t.string(\"author_name\").not_null().unique_key();");
    let r = Field::parse("user:references").unwrap();
    assert!(r.is_user_reference());
    assert_eq!(r.column_name(), "user_id");
    assert_eq!(Field::parse("").unwrap_err().message, "empty field spec");
    assert_eq!(
        Field::parse("a:string:bogus").unwrap_err().message,
        "unknown modifier `bogus` in field `a:string:bogus`"
    );
    assert_eq!(ColumnType::parse("BOOL").unwrap(), ColumnType::Boolean);
    let all = Field::parse_all(&["a", "b:int", "c:what", "d:nope"]);
    assert_eq!(all.unwrap_err().message, "unknown column type `what`");
    assert_eq!(Field::parse_all(&["a", "b:int"]).unwrap().len(), 2);
}

#[test]
fn injections_are_idempotent() {
    let once = inject_auth_routes(ROUTES_BASE);
    assert_eq!(inject_auth_routes(&once), once);
    let only = inject_auth_routes_only(ROUTES_BASE, &["sessions", "registrations"]);
    assert!(only.contains("        auth_routes!(User, only: [sessions, registrations]);\n"));
    assert_eq!(inject_auth_routes_only(&only, &["sessions"]), only);
    let res = inject_resources(ROUTES_BASE, "posts", "PostsController", false);
    assert_eq!(inject_resources(&res, "posts", "PostsController", false), res);
    let rewired = rewire_local_controllers(&once, true);
    assert!(rewired.contains("two_factor: auth::TwoFactorController"));
    assert_eq!(rewire_local_controllers(&rewired, true), rewired);
    let m = register_auth_controllers_mod(CONTROLLERS_MOD_BASE);
    assert_eq!(register_auth_controllers_mod(&m), m);
    let c = register_controller(CONTROLLERS_MOD_BASE, "posts", "PostsController");
    assert_eq!(register_controller(&c, "posts", "PostsController"), c);
    let md = register_module(MODELS_MOD_BASE, "post", "@generated-models");
    assert_eq!(register_module(&md, "post", "@generated-models"), md);
    assert_eq!(register_model_module(MODELS_MOD_BASE, "post"), md);
    let appended = register_module("pub mod a;", "b", "@nowhere");
    assert_eq!(appended, "pub mod a;\npub mod b;\n");
}

#[test]
fn injections_without_a_routes_block_are_idempotent() {
    let bare = "use crate::controllers::HomeController;\n";
    let once = inject_auth_routes(bare);
    assert_eq!(
        once,
        "use crate::controllers::HomeController;\nuse crate::models::user::Model as User;\n"
    );
    assert_eq!(inject_auth_routes(&once), once);
    let empty = inject_auth_routes("");
    assert_eq!(empty, "use crate::models::user::Model as User;\n");
    assert_eq!(inject_auth_routes(&empty), empty);
    let res = inject_resources("// routes\n", "posts", "PostsController", true);
    assert_eq!(res, "use crate::controllers::PostsController;\n// routes\n");
    assert_eq!(inject_resources(&res, "posts", "PostsController", true), res);
    let rewired = rewire_local_controllers(bare, false);
    assert_eq!(rewire_local_controllers(&rewired, false), rewired);
    // a trailing carriage return is lost by the first run's line breaks
    let cr = inject_auth_routes("x\r");
    assert_eq!(cr, "use crate::models::user::Model as User;\nx\r\n");
    assert_ne!(inject_auth_routes(&cr), cr);
}

#[test]
fn registers_core_auth_views() {
    let views = framework_views(&templates());
    for name in [
        "auth/sign_in.html.tera",
        "auth/sign_up.html.tera",
        "auth/password_new.html.tera",
        "auth/password_edit.html.tera",
    ] {
        assert!(
            views.iter().any(|(n, _)| n == name),
            "expected framework view {name} to be registered"
        );
    }
    assert_eq!(views[0].1, "<form>sign in</form>\n");
    assert_eq!(views.len(), 5);
}

#[test]
fn user_reference_goes_first_once() {
    let mut fields = vec![Field::parse("title:string").unwrap(), Field::parse("body:text").unwrap()];
    ensure_user_reference(&mut fields);
    assert_eq!(fields.len(), 3);
    assert!(fields[0].is_user_reference());
    assert_eq!(fields[0].column_name(), "user_id");
    assert_eq!(fields[0].migration_line(), "t.references(\"user\");");
    assert_eq!(fields[1].column_name(), "title");
    let mut again = fields.clone();
    ensure_user_reference(&mut again);
    assert_eq!(again.len(), 3);
    let mut owned = vec![Field::parse("title:string").unwrap(), Field::parse("user:references").unwrap()];
    ensure_user_reference(&mut owned);
    assert_eq!(owned.len(), 2);
    assert_eq!(owned[0].column_name(), "title");
}

#[test]
fn action_routes_are_idempotent() {
    let once = inject_action_routes(ROUTES_BASE, "dashboard", "DashboardController", &["index", "stats"]);
    assert!(once.contains("get!(\"/dashboard/index\", DashboardController::index);"));
    assert!(once.contains("get!(\"/dashboard/stats\", DashboardController::stats);"));
    assert!(once.contains("use crate::controllers::DashboardController;"));
    assert_eq!(inject_action_routes(&once, "dashboard", "DashboardController", &["index", "stats"]), once);
    let bare = inject_action_routes("// none\n", "d", "DController", &["a"]);
    assert_eq!(inject_action_routes(&bare, "d", "DController", &["a"]), bare);
}

#[test]
fn resources_route_and_use_are_placed() {
    let res = inject_resources(ROUTES_BASE, "posts", "PostsController", true);
    assert!(res.contains("use crate::controllers::PostsController;"));
    assert!(res.contains("        resources!(posts, PostsController, except: [new, edit]);"));
    assert_eq!(inject_resources(&res, "posts", "PostsController", true), res);
}

#[test]
fn rewiring_two_factor_and_imports() {
    let installed = inject_auth_routes(ROUTES_BASE);
    assert!(rewire_local_controllers(&installed, true).contains("two_factor: auth::TwoFactorController"));
    assert!(!rewire_local_controllers(&installed, false).contains("TwoFactorController"));
    // without an installed bare route the block gets both imports
    let fresh = rewire_local_controllers(ROUTES_BASE, false);
    assert!(fresh.contains("use crate::models::user::Model as User;\n"));
    assert!(fresh.contains("use crate::controllers::auth;\n"));
    assert!(fresh.contains("auth_routes!(User, controllers: {"));
    assert_eq!(rewire_local_controllers(&fresh, false), fresh);
}

#[test]
fn controller_names_with_newlines_break_the_laws() {
    // an inserted route splits the existing `use` line of the name `a\n}\nx`
    let routes = "routes! {\nuse crate::controllers::a\n}\nx;\n";
    let out = inject_resources(routes, "p", "a\n}\nx", false);
    assert!(!out.contains("use crate::controllers::a\n}\nx;"));
    let acts = inject_action_routes(routes, "s", "a\n}\nx", &["i"]);
    assert!(!acts.contains("use crate::controllers::a\n}\nx;"));
    // the split `use` line closes the block on the second run
    let open = "routes! {\nuse crate::controllers::B;\n";
    let once = inject_resources(open, "p", "a\n}\nx", false);
    assert_ne!(inject_resources(&once, "p", "a\n}\nx", false), once);
}

#[test]
fn action_routes_are_placed() {
    let out = inject_action_routes(ROUTES_BASE, "dashboard", "DashboardController", &["index"]);
    assert!(out.contains("use crate::controllers::DashboardController;"));
    assert!(out.contains("        get!(\"/dashboard/index\", DashboardController::index);\n    }"));
}
