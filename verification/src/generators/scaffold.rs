//! `auth:scaffold`: auth install when the app has no user model yet, then a
//! scaffold whose records belong to a user.

use vstd::prelude::*;
use crate::generators::field::{
    parse_spec_result, spec_field, user_ref_view, ColumnType, Field, GenError, ParsedFieldView,
};
use crate::generators::files::{
    file_views, has_arg, has_flag, positional, positional_args, upsert, upsert_file, GeneratedFile,
    TemplateSet,
};
use crate::generators::install::{
    in_dir, install_templates_ready, installed_files, migration_module_name, migration_module_text,
    migration_text, render_migration_file,
    AuthInstallGenerator, InstallSources, ENTITIES_MOD_PATH, MIGRATION_SRC_DIR,
};
use crate::generators::names::{pascal_of, snake_of, table_of, to_pascal, to_snake, to_table_name};
use crate::generators::route_injector::{
    inject_auth_routes, inject_auth_routes_spec, inject_resources, inject_resources_spec,
    register_controller, register_controller_spec, register_model_module, register_module_spec,
    CONTROLLERS_MOD_PATH, MODELS_MOD_PATH, ROUTES_PATH,
};
use crate::text::{chars_of, concat_all, push_all, push_str, replace_all, replace_str, string_of};

verus! {

/// The generator behind `auth:scaffold`.
pub struct AuthScaffoldGenerator;

/// The pieces of source a field contributes to a scaffold.
#[derive(Clone, Copy, PartialEq, Eq, Structural)]
pub enum Fragment {
    /// An entity struct field.
    ModelField,
    /// A form-params struct field.
    ParamsField,
    /// An `ActiveModel` initialiser.
    ActiveModelSet,
    /// An `ActiveModel` assignment.
    ActiveModelAssign,
    /// An index-table header cell.
    TableHeader,
    /// An index-table cell.
    TableCell,
    /// A line of the show page.
    ShowField,
    /// A labelled form control.
    FormField,
}

/// The plain form control of a field.
pub open spec fn form_field_text(f: ParsedFieldView) -> Seq<char> {
    let col = f.column();
    let input = f.input_type();
    if input == "textarea"@ {
        "  <label>"@ + col + "<br><textarea name=\""@ + col + "\"></textarea></label>\n"@
    } else if input == "checkbox"@ {
        "  <label>"@ + col + " <input type=\"checkbox\" name=\""@ + col + "\"></label>\n"@
    } else {
        "  <label>"@ + col + "<br><input type=\""@ + input + "\" name=\""@ + col + "\"></label>\n"@
    }
}

/// The line field `f` contributes as fragment `k`.
pub open spec fn fragment_text(k: Fragment, f: ParsedFieldView, singular: Seq<char>) -> Seq<char> {
    match k {
        Fragment::ModelField => "    "@ + f.model_text() + "\n"@,
        Fragment::ParamsField => "    "@ + f.params_text() + "\n"@,
        Fragment::ActiveModelSet => "            "@ + f.set_text() + "\n"@,
        Fragment::ActiveModelAssign => "            "@ + f.assign_text() + "\n"@,
        Fragment::TableHeader => "      <th>"@ + f.column() + "</th>\n"@,
        Fragment::TableCell => "      <td>{{ "@ + singular + "."@ + f.column() + " }}</td>\n"@,
        Fragment::ShowField => "<p><strong>"@ + f.column() + ":</strong> {{ "@ + singular + "."@
            + f.column() + " }}</p>\n"@,
        Fragment::FormField => form_field_text(f),
    }
}

/// The fields other than the owning user.
pub open spec fn visible(fs: Seq<ParsedFieldView>) -> Seq<ParsedFieldView> {
    fs.filter(|f: ParsedFieldView| !f.is_user_ref())
}

/// Fragment `k` of each field in turn.
pub open spec fn fragments_text(k: Fragment, fs: Seq<ParsedFieldView>, singular: Seq<char>) -> Seq<char> {
    concat_all(fs.map_values(|f: ParsedFieldView| fragment_text(k, f, singular)))
}

/// The views of fields.
pub open spec fn field_views(fs: Seq<Field>) -> Seq<ParsedFieldView> {
    fs.map_values(|f: Field| f@)
}

/// A scaffold controller rendered from its template.
pub open spec fn controller_text(
    template: Seq<char>,
    singular: Seq<char>,
    plural: Seq<char>,
    model: Seq<char>,
    controller: Seq<char>,
    fs: Seq<ParsedFieldView>,
) -> Seq<char> {
    let v = visible(fs);
    replace_all(
        replace_all(
            replace_all(
                replace_all(
                    replace_all(
                        replace_all(
                            replace_all(template, "{params_fields}"@, fragments_text(Fragment::ParamsField, v, singular)),
                            "{active_model_sets}"@,
                            fragments_text(Fragment::ActiveModelSet, v, singular),
                        ),
                        "{active_model_assigns}"@,
                        fragments_text(Fragment::ActiveModelAssign, v, singular),
                    ),
                    "{Controller}"@,
                    controller,
                ),
                "{Model}"@,
                model,
            ),
            "{singular}"@,
            singular,
        ),
        "{plural}"@,
        plural,
    )
}

/// A scaffold view rendered from its template.
pub open spec fn view_text(
    template: Seq<char>,
    singular: Seq<char>,
    plural: Seq<char>,
    model: Seq<char>,
    fs: Seq<ParsedFieldView>,
) -> Seq<char> {
    let v = visible(fs);
    replace_all(
        replace_all(
            replace_all(
                replace_all(
                    replace_all(
                        replace_all(
                            replace_all(template, "{table_headers}"@, fragments_text(Fragment::TableHeader, v, singular)),
                            "{table_cells}"@,
                            fragments_text(Fragment::TableCell, v, singular),
                        ),
                        "{show_fields}"@,
                        fragments_text(Fragment::ShowField, v, singular),
                    ),
                    "{form_fields}"@,
                    fragments_text(Fragment::FormField, v, singular),
                ),
                "{Model}"@,
                model,
            ),
            "{singular}"@,
            singular,
        ),
        "{plural}"@,
        plural,
    )
}

/// The field the spec at each position parses to.
pub open spec fn spec_fields(specs: Seq<&str>) -> Seq<ParsedFieldView> {
    specs.map_values(|s: &str| spec_field(s@))
}

/// `fs` with the owning `user` reference first, unless one is there.
pub open spec fn with_user_ref(fs: Seq<ParsedFieldView>) -> Seq<ParsedFieldView> {
    if exists|i: int| 0 <= i < fs.len() && (#[trigger] fs[i]).is_user_ref() {
        fs
    } else {
        seq![user_ref_view()] + fs
    }
}

/// What a scaffold reads from the application and from the migration and
/// model tooling.
pub struct ScaffoldSources {
    /// What an install, if one runs, reads; its time and its routes and
    /// models module are those of the scaffold too.
    pub install: InstallSources,
    /// Whether `app/models/user.rs` exists.
    pub user_model_exists: bool,
    /// The imports of the create-table migration.
    pub migration_imports: String,
    /// Its `up` body.
    pub up_body: String,
    /// Its `down` body.
    pub down_body: String,
    /// The migration crate's `lib.rs` with the create-table migration
    /// registered.
    pub migration_lib: String,
    /// The entities module list with the scaffold's entity registered.
    pub entities_mod: String,
    /// `app/controllers/mod.rs` as it stands.
    pub controllers_mod: String,
}

/// The templates a scaffold reads.
pub open spec fn scaffold_templates_ready(t: TemplateSet) -> bool {
    &&& install_templates_ready(t)
    &&& t.has("scaffold/entity.rs.template"@)
    &&& t.has("scaffold/model.rs.template"@)
    &&& t.has("scaffold/controller_html.rs.template"@)
    &&& t.has("scaffold/controller_api.rs.template"@)
    &&& forall|i: int| 0 <= i < 5 ==> t.has("scaffold/views/"@ + #[trigger] view_file(i) + ".html.tera"@)
}

pub open spec fn tpl(t: TemplateSet, name: Seq<char>) -> Seq<char> {
    t.source(name)->Some_0
}

/// Upserts each of `news` in turn.
pub open spec fn upsert_all(files: Seq<(Seq<char>, Seq<char>)>, news: Seq<(Seq<char>, Seq<char>)>) -> Seq<(Seq<char>, Seq<char>)>
    decreases news.len(),
{
    if news.len() == 0 {
        files
    } else {
        upsert_all(upsert(files, news[0]), news.drop_first())
    }
}

/// The scaffold's own files, before the views.
pub open spec fn scaffold_core(
    name: Seq<char>,
    fs: Seq<ParsedFieldView>,
    api: bool,
    t: TemplateSet,
    s: ScaffoldSources,
) -> Seq<(Seq<char>, Seq<char>)> {
    let singular = snake_of(name);
    let plural = table_of(name);
    let model = pascal_of(name);
    let controller = pascal_of(plural) + "Controller"@;
    let module = migration_module_text(s.install.timestamp@, plural);
    let routes_base = if s.user_model_exists {
        s.install.routes@
    } else {
        inject_auth_routes_spec(s.install.routes@)
    };
    let models_base = if s.user_model_exists {
        s.install.models_mod@
    } else {
        register_module_spec(s.install.models_mod@, "user"@, "@generated-models"@)
    };
    let entity = replace_all(
        replace_all(tpl(t, "scaffold/entity.rs.template"@), "{table_name}"@, plural),
        "{fields}"@,
        fragments_text(Fragment::ModelField, fs, singular),
    );
    let extension = replace_all(
        replace_all(tpl(t, "scaffold/model.rs.template"@), "{Model}"@, model),
        "{singular}"@,
        singular,
    );
    let ctl_template = if api {
        tpl(t, "scaffold/controller_api.rs.template"@)
    } else {
        tpl(t, "scaffold/controller_html.rs.template"@)
    };
    seq![
        ("app/models/_entities/"@ + singular + ".rs"@, entity),
        (ENTITIES_MOD_PATH@, s.entities_mod@),
        ("app/models/"@ + singular + ".rs"@, extension),
        (
            MIGRATION_SRC_DIR@ + "/"@ + (module + ".rs"@),
            migration_text(tpl(t, "migration.rs.template"@), module, s.migration_imports@, s.up_body@, s.down_body@),
        ),
        (MIGRATION_SRC_DIR@ + "/"@ + "lib.rs"@, s.migration_lib@),
        (MODELS_MOD_PATH@, register_module_spec(models_base, singular, "@generated-models"@)),
        ("app/controllers/"@ + plural + "_controller.rs"@, controller_text(ctl_template, singular, plural, model, controller, fs)),
        (CONTROLLERS_MOD_PATH@, register_controller_spec(s.controllers_mod@, plural, controller)),
        (ROUTES_PATH@, inject_resources_spec(routes_base, plural, controller, api)),
    ]
}

/// The scaffold views.
pub open spec fn scaffold_views(name: Seq<char>, fs: Seq<ParsedFieldView>, t: TemplateSet) -> Seq<(Seq<char>, Seq<char>)> {
    let singular = snake_of(name);
    let plural = table_of(name);
    let model = pascal_of(name);
    Seq::new(
        5,
        |i: int|
            {
                let file = view_file(i);
                (
                    "app/views/"@ + plural + "/"@ + file + ".html.tera"@,
                    view_text(tpl(t, "scaffold/views/"@ + file + ".html.tera"@), singular, plural, model, fs),
                )
            },
    )
}

/// The view files, in order.
pub open spec fn view_file(i: int) -> Seq<char> {
    if i == 0 {
        "index"@
    } else if i == 1 {
        "show"@
    } else if i == 2 {
        "new"@
    } else if i == 3 {
        "edit"@
    } else {
        "_form"@
    }
}

/// Everything `auth:scaffold` emits for model `name` with fields `fs`.
pub open spec fn scaffold_files(
    args: Seq<&str>,
    name: Seq<char>,
    fs: Seq<ParsedFieldView>,
    t: TemplateSet,
    s: ScaffoldSources,
) -> Seq<(Seq<char>, Seq<char>)> {
    let api = has_arg(args, "--api"@);
    let installed = if s.user_model_exists {
        seq![]
    } else {
        installed_files(seq![], t, s.install)
    };
    let core = upsert_all(installed, scaffold_core(name, fs, api, t, s));
    if api {
        core
    } else {
        core + scaffold_views(name, fs, t)
    }
}

/// The field specs of a run: the positional arguments after the name.
pub open spec fn field_specs(args: Seq<&str>) -> Seq<&str> {
    positional(args).skip(1)
}

/// Fragment `k` of one field.
fn fragment(k: Fragment, f: &Field, singular: &str) -> (r: Vec<char>)
    ensures
        r@ == fragment_text(k, f@, singular@),
{
    let col = f.column_name();
    let c = col.as_str();
    match k {
        Fragment::ModelField => {
            let mut out = chars_of("    ");
            push_str(&mut out, f.model_field().as_str());
            push_str(&mut out, "\n");
            out
        },
        Fragment::ParamsField => {
            let mut out = chars_of("    ");
            push_str(&mut out, f.params_struct_field().as_str());
            push_str(&mut out, "\n");
            out
        },
        Fragment::ActiveModelSet => {
            let mut out = chars_of("            ");
            push_str(&mut out, f.active_model_set().as_str());
            push_str(&mut out, "\n");
            out
        },
        Fragment::ActiveModelAssign => {
            let mut out = chars_of("            ");
            push_str(&mut out, f.active_model_assign().as_str());
            push_str(&mut out, "\n");
            out
        },
        Fragment::TableHeader => {
            let mut out = chars_of("      <th>");
            push_str(&mut out, c);
            push_str(&mut out, "</th>\n");
            out
        },
        Fragment::TableCell => {
            let mut out = chars_of("      <td>{{ ");
            push_str(&mut out, singular);
            push_str(&mut out, ".");
            push_str(&mut out, c);
            push_str(&mut out, " }}</td>\n");
            out
        },
        Fragment::ShowField => {
            let mut out = chars_of("<p><strong>");
            push_str(&mut out, c);
            push_str(&mut out, ":</strong> {{ ");
            push_str(&mut out, singular);
            push_str(&mut out, ".");
            push_str(&mut out, c);
            push_str(&mut out, " }}</p>\n");
            out
        },
        Fragment::FormField => {
            let input = f.html_input_type();
            let mut out = chars_of("  <label>");
            push_str(&mut out, c);
            if crate::text::str_eq(input, "textarea") {
                push_str(&mut out, "<br><textarea name=\"");
                push_str(&mut out, c);
                push_str(&mut out, "\"></textarea></label>\n");
            } else if crate::text::str_eq(input, "checkbox") {
                push_str(&mut out, " <input type=\"checkbox\" name=\"");
                push_str(&mut out, c);
                push_str(&mut out, "\"></label>\n");
            } else {
                push_str(&mut out, "<br><input type=\"");
                push_str(&mut out, input);
                push_str(&mut out, "\" name=\"");
                push_str(&mut out, c);
                push_str(&mut out, "\"></label>\n");
            }
            out
        },
    }
}

/// Fragment `k` of each field (of the visible ones when `visible_only`).
fn fragments(k: Fragment, fields: &Vec<Field>, visible_only: bool, singular: &str) -> (r: Vec<char>)
    ensures
        r@ == fragments_text(
            k,
            if visible_only {
                visible(field_views(fields@))
            } else {
                field_views(fields@)
            },
            singular@,
        ),
{
    let ghost g = |f: ParsedFieldView| fragment_text(k, f, singular@);
    let ghost p = |f: ParsedFieldView| !f.is_user_ref();
    let mut out: Vec<char> = Vec::new();
    let mut i: usize = 0;
    while i < fields.len()
        invariant
            i <= fields@.len(),
            g == (|f: ParsedFieldView| fragment_text(k, f, singular@)),
            p == (|f: ParsedFieldView| !f.is_user_ref()),
            out@ == concat_all(
                (if visible_only {
                    field_views(fields@.take(i as int)).filter(p)
                } else {
                    field_views(fields@.take(i as int))
                }).map_values(g),
            ),
        decreases fields@.len() - i,
    {
        let ghost before = if visible_only {
            field_views(fields@.take(i as int)).filter(p)
        } else {
            field_views(fields@.take(i as int))
        };
        let ghost fv = fields@[i as int]@;
        assert(field_views(fields@.take(i + 1)) =~= field_views(fields@.take(i as int)).push(fv));
        let keep = !visible_only || !fields[i].is_user_reference();
        if keep {
            let piece = fragment(k, &fields[i], singular);
            push_all(&mut out, &piece);
        }
        proof {
            reveal_with_fuel(Seq::<_>::filter, 1);
            let after = if visible_only {
                field_views(fields@.take(i + 1)).filter(p)
            } else {
                field_views(fields@.take(i + 1))
            };
            assert(field_views(fields@.take(i + 1)).drop_last() =~= field_views(fields@.take(i as int)));
            if keep {
                assert(after =~= before.push(fv));
                assert(after.map_values(g) =~= before.map_values(g).push(g(fv)));
                assert(after.map_values(g).drop_last() =~= before.map_values(g));
            } else {
                assert(after =~= before);
            }
        }
        i += 1;
    }
    assert(fields@.take(fields@.len() as int) =~= fields@);
    out
}

/// Replaces every `{key}` of `src` with `value`.
fn fill(src: Vec<char>, key: &str, value: &Vec<char>) -> (r: Vec<char>)
    requires
        key@.len() > 0,
    ensures
        r@ == replace_all(src@, key@, value@),
{
    replace_str(&src, key, value)
}

fn render_controller(
    template: &str,
    singular: &str,
    plural: &str,
    model: &str,
    controller: &str,
    fields: &Vec<Field>,
) -> (r: String)
    ensures
        r@ == controller_text(template@, singular@, plural@, model@, controller@, field_views(fields@)),
{
    let params = fragments(Fragment::ParamsField, fields, true, singular);
    let sets = fragments(Fragment::ActiveModelSet, fields, true, singular);
    let assigns = fragments(Fragment::ActiveModelAssign, fields, true, singular);
    proof {
        reveal_strlit("{params_fields}");
        reveal_strlit("{active_model_sets}");
        reveal_strlit("{active_model_assigns}");
        reveal_strlit("{Controller}");
        reveal_strlit("{Model}");
        reveal_strlit("{singular}");
        reveal_strlit("{plural}");
    }
    let s = fill(chars_of(template), "{params_fields}", &params);
    let s = fill(s, "{active_model_sets}", &sets);
    let s = fill(s, "{active_model_assigns}", &assigns);
    let s = fill(s, "{Controller}", &chars_of(controller));
    let s = fill(s, "{Model}", &chars_of(model));
    let s = fill(s, "{singular}", &chars_of(singular));
    let s = fill(s, "{plural}", &chars_of(plural));
    string_of(&s)
}

fn render_view(template: &str, singular: &str, plural: &str, model: &str, fields: &Vec<Field>) -> (r: String)
    ensures
        r@ == view_text(template@, singular@, plural@, model@, field_views(fields@)),
{
    let headers = fragments(Fragment::TableHeader, fields, true, singular);
    let cells = fragments(Fragment::TableCell, fields, true, singular);
    let shows = fragments(Fragment::ShowField, fields, true, singular);
    let forms = fragments(Fragment::FormField, fields, true, singular);
    proof {
        reveal_strlit("{table_headers}");
        reveal_strlit("{table_cells}");
        reveal_strlit("{show_fields}");
        reveal_strlit("{form_fields}");
        reveal_strlit("{Model}");
        reveal_strlit("{singular}");
        reveal_strlit("{plural}");
    }
    let s = fill(chars_of(template), "{table_headers}", &headers);
    let s = fill(s, "{table_cells}", &cells);
    let s = fill(s, "{show_fields}", &shows);
    let s = fill(s, "{form_fields}", &forms);
    let s = fill(s, "{Model}", &chars_of(model));
    let s = fill(s, "{singular}", &chars_of(singular));
    let s = fill(s, "{plural}", &chars_of(plural));
    string_of(&s)
}

/// Puts the owning `user` reference first unless a field is one already.
pub fn ensure_user_reference(fields: &mut Vec<Field>)
    ensures
        field_views(final(fields)@) == with_user_ref(field_views(old(fields)@)),
{
    let ghost fs = field_views(fields@);
    let mut i: usize = 0;
    while i < fields.len()
        invariant
            i <= fields@.len(),
            fs == field_views(fields@),
            forall|j: int| 0 <= j < i ==> !(#[trigger] fs[j]).is_user_ref(),
        decreases fields@.len() - i,
    {
        if fields[i].is_user_reference() {
            assert(fs[i as int].is_user_ref());
            return;
        }
        i += 1;
    }
    fields.insert(0, Field::user_reference());
    assert(field_views(fields@) =~= seq![user_ref_view()] + fs);
}

fn template_text<'a>(templates: &'a TemplateSet, name: &str) -> (r: &'a String)
    requires
        templates.has(name@),
    ensures
        r@ == tpl(*templates, name@),
{
    match templates.get(name) {
        Some(s) => s,
        None => vstd::pervasive::unreached(),
    }
}

/// Upserts each of `news` into `files` in turn.
fn upsert_each(files: &mut Vec<GeneratedFile>, news: Vec<GeneratedFile>)
    ensures
        file_views(final(files)@) == upsert_all(file_views(old(files)@), file_views(news@)),
{
    let ghost all = file_views(news@);
    let ghost start = file_views(files@);
    let mut rest = news;
    assert(all.skip(0) =~= all);
    while rest.len() > 0
        invariant
            upsert_all(start, all) == upsert_all(file_views(files@), file_views(rest@)),
        decreases rest@.len(),
    {
        let ghost before = file_views(rest@);
        let f = rest.remove(0);
        assert(file_views(rest@) =~= before.drop_first());
        upsert_file(files, f);
    }
    assert(file_views(rest@) =~= Seq::<(Seq<char>, Seq<char>)>::empty());
}

/// `app/views/<plural>/` file `i`.
fn view_name(i: usize) -> (r: &'static str)
    requires
        i < 5,
    ensures
        r@ == view_file(i as int),
{
    if i == 0 {
        "index"
    } else if i == 1 {
        "show"
    } else if i == 2 {
        "new"
    } else if i == 3 {
        "edit"
    } else {
        "_form"
    }
}

/// Appends the five scaffold views.
fn push_views(
    files: &mut Vec<GeneratedFile>,
    name: &str,
    singular: &str,
    plural: &str,
    model: &str,
    fields: &Vec<Field>,
    templates: &TemplateSet,
)
    requires
        scaffold_templates_ready(*templates),
        singular@ == snake_of(name@),
        plural@ == table_of(name@),
        model@ == pascal_of(name@),
    ensures
        file_views(final(files)@) == file_views(old(files)@) + scaffold_views(name@, field_views(fields@), *templates),
{
    let ghost fs = field_views(fields@);
    let ghost all = scaffold_views(name@, fs, *templates);
    let ghost start = file_views(files@);
    let mut v: usize = 0;
    while v < 5
        invariant
            v <= 5,
            fs == field_views(fields@),
            all == scaffold_views(name@, fs, *templates),
            scaffold_templates_ready(*templates),
            singular@ == snake_of(name@),
            plural@ == table_of(name@),
            model@ == pascal_of(name@),
            file_views(files@) == start + all.take(v as int),
        decreases 5 - v,
    {
        let file = view_name(v);
        let mut rel = chars_of("scaffold/views/");
        push_str(&mut rel, file);
        push_str(&mut rel, ".html.tera");
        let rel = string_of(&rel);
        let mut path = chars_of("app/views/");
        push_str(&mut path, plural);
        push_str(&mut path, "/");
        push_str(&mut path, file);
        push_str(&mut path, ".html.tera");
        assert(templates.has(rel@));
        let content = render_view(template_text(templates, rel.as_str()).as_str(), singular, plural, model, fields);
        let ghost before = file_views(files@);
        let entry = GeneratedFile { path: string_of(&path), content };
        assert(entry@ == all[v as int]);
        files.push(entry);
        assert(file_views(files@) =~= before.push(all[v as int]));
        assert(all.take(v + 1) =~= all.take(v as int).push(all[v as int]));
        assert(file_views(files@) =~= start + all.take(v + 1));
        v += 1;
    }
    assert(all.take(5) =~= all);
}

/// The scaffold's own files, before the views.
fn core_files(
    name: &str,
    api: bool,
    fields: &Vec<Field>,
    templates: &TemplateSet,
    sources: &ScaffoldSources,
) -> (r: Vec<GeneratedFile>)
    requires
        scaffold_templates_ready(*templates),
    ensures
        file_views(r@) == scaffold_core(name@, field_views(fields@), api, *templates, *sources),
{
    let singular = to_snake(name);
    let plural = to_table_name(name);
    let model = to_pascal(name);
    let mut controller = chars_of(to_pascal(plural.as_str()).as_str());
    push_str(&mut controller, "Controller");
    let controller = string_of(&controller);
    // With an install in the same run, the routes and models module the
    // scaffold edits are the install's edits of them.
    let routes_base = if sources.user_model_exists {
        sources.install.routes.clone()
    } else {
        inject_auth_routes(sources.install.routes.as_str())
    };
    let models_base = if sources.user_model_exists {
        sources.install.models_mod.clone()
    } else {
        register_model_module(sources.install.models_mod.as_str(), "user")
    };
    let module = migration_module_name(sources.install.timestamp.as_str(), plural.as_str());
    let mut migration_file = chars_of(module.as_str());
    push_str(&mut migration_file, ".rs");
    let migration_file = string_of(&migration_file);
    proof {
        reveal_strlit("{table_name}");
        reveal_strlit("{fields}");
        reveal_strlit("{Model}");
        reveal_strlit("{singular}");
    }
    let model_fields = fragments(Fragment::ModelField, fields, false, singular.as_str());
    let entity = fill(
        fill(
            chars_of(template_text(templates, "scaffold/entity.rs.template").as_str()),
            "{table_name}",
            &chars_of(plural.as_str()),
        ),
        "{fields}",
        &model_fields,
    );
    let extension = fill(
        fill(
            chars_of(template_text(templates, "scaffold/model.rs.template").as_str()),
            "{Model}",
            &chars_of(model.as_str()),
        ),
        "{singular}",
        &chars_of(singular.as_str()),
    );
    let ctl_template = if api {
        template_text(templates, "scaffold/controller_api.rs.template")
    } else {
        template_text(templates, "scaffold/controller_html.rs.template")
    };
    let mut news: Vec<GeneratedFile> = Vec::new();
    let mut p = chars_of("app/models/_entities/");
    push_str(&mut p, singular.as_str());
    push_str(&mut p, ".rs");
    news.push(GeneratedFile { path: string_of(&p), content: string_of(&entity) });
    news.push(GeneratedFile { path: ENTITIES_MOD_PATH.to_owned(), content: sources.entities_mod.clone() });
    let mut p = chars_of("app/models/");
    push_str(&mut p, singular.as_str());
    push_str(&mut p, ".rs");
    news.push(GeneratedFile { path: string_of(&p), content: string_of(&extension) });
    let migration = render_migration_file(
        template_text(templates, "migration.rs.template").as_str(),
        module.as_str(),
        sources.migration_imports.as_str(),
        sources.up_body.as_str(),
        sources.down_body.as_str(),
    );
    news.push(GeneratedFile { path: in_dir(MIGRATION_SRC_DIR, migration_file.as_str()), content: migration });
    news.push(GeneratedFile { path: in_dir(MIGRATION_SRC_DIR, "lib.rs"), content: sources.migration_lib.clone() });
    news.push(
        GeneratedFile {
            path: MODELS_MOD_PATH.to_owned(),
            content: register_model_module(models_base.as_str(), singular.as_str()),
        },
    );
    let mut p = chars_of("app/controllers/");
    push_str(&mut p, plural.as_str());
    push_str(&mut p, "_controller.rs");
    news.push(
        GeneratedFile {
            path: string_of(&p),
            content: render_controller(
                ctl_template.as_str(),
                singular.as_str(),
                plural.as_str(),
                model.as_str(),
                controller.as_str(),
                fields,
            ),
        },
    );
    news.push(
        GeneratedFile {
            path: CONTROLLERS_MOD_PATH.to_owned(),
            content: register_controller(sources.controllers_mod.as_str(), plural.as_str(), controller.as_str()),
        },
    );
    news.push(
        GeneratedFile {
            path: ROUTES_PATH.to_owned(),
            content: inject_resources(routes_base.as_str(), plural.as_str(), controller.as_str(), api),
        },
    );
    assert(file_views(news@) =~= scaffold_core(name@, field_views(fields@), api, *templates, *sources));
    news
}

impl AuthScaffoldGenerator {
    /// The files of scaffold `args[0]` with the field specs after it (and
    /// those of an auth install when the app has no user model).
    pub fn generate(
        &self,
        args: &[&str],
        templates: &TemplateSet,
        sources: &ScaffoldSources,
    ) -> (r: Result<Vec<GeneratedFile>, GenError>)
        requires
            scaffold_templates_ready(*templates),
        ensures
            match r {
                Ok(files) => {
                    &&& positional(args@).len() > 0
                    &&& forall|i: int|
                        0 <= i < field_specs(args@).len() ==> parse_spec_result(
                            (#[trigger] field_specs(args@)[i])@,
                        ) is Ok
                    &&& file_views(files@) == scaffold_files(
                        args@,
                        positional(args@)[0]@,
                        with_user_ref(spec_fields(field_specs(args@))),
                        *templates,
                        *sources,
                    )
                },
                Err(e) => if positional(args@).len() == 0 {
                    e.message@ == "auth:scaffold generator requires a name argument"@
                } else {
                    exists|k: int|
                        0 <= k < field_specs(args@).len() && (forall|j: int|
                            0 <= j < k ==> parse_spec_result(
                                (#[trigger] field_specs(args@)[j])@,
                            ) is Ok) && parse_spec_result((#[trigger] field_specs(args@)[k])@)
                            == Err::<ParsedFieldView, Seq<char>>(e.message@)
                },
            },
    {
        let api = has_flag(args, "--api");
        let pos = positional_args(args);
        if pos.len() == 0 {
            return Err(GenError { message: "auth:scaffold generator requires a name argument".to_owned() });
        }
        let name = pos[0];
        let mut specs: Vec<&str> = Vec::new();
        let mut i: usize = 1;
        while i < pos.len()
            invariant
                1 <= i <= pos@.len(),
                specs@ == pos@.subrange(1, i as int),
            decreases pos@.len() - i,
        {
            specs.push(pos[i]);
            i += 1;
        }
        assert(specs@ =~= field_specs(args@));
        let mut fields = match Field::parse_all(specs.as_slice()) {
            Ok(v) => v,
            Err(e) => {
                return Err(e);
            },
        };
        assert(field_views(fields@) =~= spec_fields(specs@));
        assert(forall|i: int|
            0 <= i < field_specs(args@).len() ==> parse_spec_result(
                (#[trigger] field_specs(args@)[i])@,
            ) is Ok) by {
            assert forall|i: int| 0 <= i < field_specs(args@).len() implies parse_spec_result(
                (#[trigger] field_specs(args@)[i])@,
            ) is Ok by {
                assert(specs@[i] == field_specs(args@)[i]);
            }
        }
        ensure_user_reference(&mut fields);
        let mut files: Vec<GeneratedFile> = Vec::new();
        assert(file_views(files@) =~= Seq::<(Seq<char>, Seq<char>)>::empty());
        if !sources.user_model_exists {
            let empty: Vec<&str> = Vec::new();
            assert(empty@ =~= Seq::<&str>::empty());
            files = AuthInstallGenerator.generate(empty.as_slice(), templates, &sources.install);
        }
        assert(file_views(files@) == if sources.user_model_exists {
            Seq::<(Seq<char>, Seq<char>)>::empty()
        } else {
            installed_files(seq![], *templates, sources.install)
        });
        let news = core_files(name, api, &fields, templates, sources);
        upsert_each(&mut files, news);
        assert(name@ == positional(args@)[0]@);
        assert(field_views(fields@) == with_user_ref(spec_fields(field_specs(args@))));
        if !api {
            let singular = to_snake(name);
            let plural = to_table_name(name);
            let model = to_pascal(name);
            push_views(&mut files, name, singular.as_str(), plural.as_str(), model.as_str(), &fields, templates);
        }
        Ok(files)
    }
}

} // verus!
