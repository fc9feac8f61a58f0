//! `auth:controller`: a controller whose actions require a signed-in user,
//! registered in the controllers module and routed.

use vstd::prelude::*;
use crate::generators::field::GenError;
use crate::generators::files::{file_views, positional, positional_args, GeneratedFile, TemplateSet};
use crate::generators::names::{pascal_of, snake_of, to_pascal, to_snake};
use crate::generators::route_injector::{
    inject_action_routes, inject_action_routes_spec, register_controller, register_controller_spec,
    CONTROLLERS_MOD_PATH, ROUTES_PATH,
};
use crate::text::{chars_of, concat_all, push_str, replace_all, replace_str, str_views, string_of};

verus! {

/// The generator behind `auth:controller`.
pub struct AuthControllerGenerator;

/// The template the controller is rendered from.
pub open spec fn controller_template_name() -> Seq<char> {
    "auth_controller.rs.template"@
}

/// The source of one action of a controller whose routes live under `/snake`.
pub open spec fn action_text(action: Seq<char>, snake: Seq<char>) -> Seq<char> {
    if action == "index"@ {
        "    /// GET /"@ + snake
            + "\n    pub async fn index(ctx: Context, _user: CurrentUser<User>) -> doido::Result<Response> {\n        Ok(ctx.render(\""@
            + snake + "/index\", json!({})))\n    }\n\n"@
    } else if action == "show"@ {
        "    /// GET /"@ + snake
            + "/{id}\n    pub async fn show(ctx: Context, _user: CurrentUser<User>) -> doido::Result<Response> {\n        let _id = parse_id(&ctx);\n        Ok(ctx.render(\""@
            + snake + "/show\", json!({})))\n    }\n\n"@
    } else {
        "    /// GET /"@ + snake + "/"@ + action + "\n    pub async fn "@ + action
            + "(ctx: Context, _user: CurrentUser<User>) -> doido::Result<Response> {\n        Ok(ctx.json(json!({\"action\": \""@
            + action + "\"})))\n    }\n\n"@
    }
}

/// The sources of `actions`, one after another.
pub open spec fn actions_body(actions: Seq<Seq<char>>, snake: Seq<char>) -> Seq<char> {
    concat_all(actions.map_values(|a: Seq<char>| action_text(a, snake)))
}

/// The actions a run asks for: the positional arguments after the name, or
/// `index` alone.
pub open spec fn requested_actions(pos: Seq<&str>) -> Seq<Seq<char>> {
    if pos.len() > 1 {
        str_views(pos.skip(1))
    } else {
        seq!["index"@]
    }
}

/// The files `auth:controller` emits for controller `name`.
pub open spec fn controller_files(
    name: Seq<char>,
    actions: Seq<Seq<char>>,
    template: Seq<char>,
    controllers_mod: Seq<char>,
    routes: Seq<char>,
) -> Seq<(Seq<char>, Seq<char>)> {
    let snake = snake_of(name);
    let pascal = pascal_of(name);
    let controller = pascal + "Controller"@;
    let content = replace_all(
        replace_all(template, "{pascal}"@, pascal),
        "{actions}"@,
        actions_body(actions, snake_of(pascal)),
    );
    seq![
        ("app/controllers/"@ + snake + "_controller.rs"@, content),
        (CONTROLLERS_MOD_PATH@, register_controller_spec(controllers_mod, snake, controller)),
        (ROUTES_PATH@, inject_action_routes_spec(routes, snake, controller, actions)),
    ]
}

/// The source of `action` for a controller named `pascal`.
fn render_action(action: &str, pascal: &str) -> (r: String)
    ensures
        r@ == action_text(action@, snake_of(pascal@)),
{
    let snake = to_snake(pascal);
    let s = snake.as_str();
    let mut out = chars_of("    /// GET /");
    push_str(&mut out, s);
    if crate::text::str_eq(action, "index") {
        push_str(
            &mut out,
            "\n    pub async fn index(ctx: Context, _user: CurrentUser<User>) -> doido::Result<Response> {\n        Ok(ctx.render(\"",
        );
        push_str(&mut out, s);
        push_str(&mut out, "/index\", json!({})))\n    }\n\n");
    } else if crate::text::str_eq(action, "show") {
        push_str(
            &mut out,
            "/{id}\n    pub async fn show(ctx: Context, _user: CurrentUser<User>) -> doido::Result<Response> {\n        let _id = parse_id(&ctx);\n        Ok(ctx.render(\"",
        );
        push_str(&mut out, s);
        push_str(&mut out, "/show\", json!({})))\n    }\n\n");
    } else {
        push_str(&mut out, "/");
        push_str(&mut out, action);
        push_str(&mut out, "\n    pub async fn ");
        push_str(&mut out, action);
        push_str(
            &mut out,
            "(ctx: Context, _user: CurrentUser<User>) -> doido::Result<Response> {\n        Ok(ctx.json(json!({\"action\": \"",
        );
        push_str(&mut out, action);
        push_str(&mut out, "\"})))\n    }\n\n");
    }
    string_of(&out)
}

/// The sources of every action in turn.
fn render_actions(actions: &[&str], pascal: &str) -> (r: Vec<char>)
    ensures
        r@ == actions_body(str_views(actions@), snake_of(pascal@)),
{
    let ghost snake = snake_of(pascal@);
    let ghost f = |a: Seq<char>| action_text(a, snake);
    let mut out: Vec<char> = Vec::new();
    let mut i: usize = 0;
    while i < actions.len()
        invariant
            i <= actions@.len(),
            snake == snake_of(pascal@),
            f == (|a: Seq<char>| action_text(a, snake)),
            out@ == concat_all(str_views(actions@.take(i as int)).map_values(f)),
        decreases actions@.len() - i,
    {
        let piece = render_action(actions[i], pascal);
        push_str(&mut out, piece.as_str());
        proof {
            let m = str_views(actions@.take(i + 1)).map_values(f);
            assert(m.drop_last() =~= str_views(actions@.take(i as int)).map_values(f));
            assert(m.last() == action_text(actions@[i as int]@, snake));
        }
        i += 1;
    }
    assert(actions@.take(actions@.len() as int) =~= actions@);
    out
}

impl AuthControllerGenerator {
    /// Renders controller `args[0]` (the first positional argument) with the
    /// actions named after it (default `index`), registers it in
    /// `controllers_mod` and routes each action in `routes`.
    pub fn generate(
        &self,
        args: &[&str],
        templates: &TemplateSet,
        controllers_mod: &str,
        routes: &str,
    ) -> (r: Result<Vec<GeneratedFile>, GenError>)
        requires
            templates.has(controller_template_name()),
        ensures
            match r {
                Ok(files) => positional(args@).len() > 0 && file_views(files@) == controller_files(
                    positional(args@)[0]@,
                    requested_actions(positional(args@)),
                    templates.source(controller_template_name())->Some_0,
                    controllers_mod@,
                    routes@,
                ),
                Err(e) => positional(args@).len() == 0 && e.message@
                    == "auth:controller requires a name argument"@,
            },
    {
        let pos = positional_args(args);
        if pos.len() == 0 {
            return Err(GenError { message: "auth:controller requires a name argument".to_owned() });
        }
        let name = pos[0];
        let mut actions: Vec<&str> = Vec::new();
        if pos.len() > 1 {
            let mut i: usize = 1;
            while i < pos.len()
                invariant
                    1 <= i <= pos@.len(),
                    actions@ == pos@.subrange(1, i as int),
                decreases pos@.len() - i,
            {
                actions.push(pos[i]);
                i += 1;
            }
            assert(actions@ =~= pos@.skip(1));
        } else {
            actions.push("index");
        }
        assert(str_views(actions@) =~= requested_actions(pos@));
        let snake = to_snake(name);
        let pascal = to_pascal(name);
        let mut controller = chars_of(pascal.as_str());
        push_str(&mut controller, "Controller");
        let controller = string_of(&controller);
        let body = render_actions(actions.as_slice(), pascal.as_str());
        let tpl = match templates.get("auth_controller.rs.template") {
            Some(t) => t,
            None => vstd::pervasive::unreached(),
        };
        proof {
            reveal_strlit("{pascal}");
            reveal_strlit("{actions}");
        }
        let src = chars_of(tpl.as_str());
        let pv = chars_of(pascal.as_str());
        let step = replace_str(&src, "{pascal}", &pv);
        let content = string_of(&replace_str(&step, "{actions}", &body));
        let mut path = chars_of("app/controllers/");
        push_str(&mut path, snake.as_str());
        push_str(&mut path, "_controller.rs");
        let mut files: Vec<GeneratedFile> = Vec::new();
        files.push(GeneratedFile { path: string_of(&path), content });
        files.push(
            GeneratedFile {
                path: CONTROLLERS_MOD_PATH.to_owned(),
                content: register_controller(controllers_mod, snake.as_str(), controller.as_str()),
            },
        );
        files.push(
            GeneratedFile {
                path: ROUTES_PATH.to_owned(),
                content: inject_action_routes(
                    routes,
                    snake.as_str(),
                    controller.as_str(),
                    actions.as_slice(),
                ),
            },
        );
        assert(file_views(files@) =~= controller_files(
            name@,
            requested_actions(pos@),
            templates.source(controller_template_name())->Some_0,
            controllers_mod@,
            routes@,
        ));
        Ok(files)
    }
}

} // verus!
