//! Generating the files of a template pack for a spec: the context handed to
//! the templates, the environment holding the pack, and which templates are
//! rendered into which files.
use vstd::prelude::*;

use crate::config::{GeneratorConfig, OutputLayout};
use crate::context::template::{build_context, template_context_is, TemplateContext};
use crate::context::to_json::{render_context_json, render_context_value};
use crate::engine::{planned_file_is, 
    condition_held, condition_holds, condition_template, condition_template_text, file_path_text, group_file_text,
    group_op_names, normalized_path, plan_bundled, plan_modular, plan_scaffold, plan_split_shared, planned_files_are,
    split_group_files, split_index_text, bundled_view, opt_bundled_view, BundledOutput, GenerateOutput, GeneratedFile, OperationGroup, PlannedFile,
};
use crate::ir::IrSpec;
use crate::json::{json_text, to_json_text};
use crate::named_map::entries_map;
use crate::pack::{BundledSection, FilterConfig, LayoutFile, TemplatePack};
use crate::render::{
    add_filter, add_template, env_filters, env_templates, env_trim_blocks, new_environment, render_source,
    render_template, rendered_source, rendered_template, set_trim_blocks, template_error,
};
use crate::text::owned;

verus! {

/// The templates of a pack as the environment holds them: name to (source,
/// compiled with block trimming on).
pub open spec fn pack_templates(pack: TemplatePack) -> Map<Seq<char>, (Seq<char>, bool)> {
    pack.templates@.map_values(|t: String| (t@, true))
}

/// The filters of a pack: name to (text replaced, replacement).
pub open spec fn pack_filters(pack: TemplatePack) -> Map<Seq<char>, (Seq<char>, Seq<char>)> {
    pack.manifest.filters@.map_values(|f: FilterConfig| (f.replace@, f.with@))
}

/// The (path, content) pairs of generated files.
pub open spec fn file_views(v: Seq<GeneratedFile>) -> Seq<(Seq<char>, Seq<char>)> {
    v.map_values(|f: GeneratedFile| (f.path@, f.content@))
}

/// What a layout file yields: nothing when its `when` condition does not hold
/// (the condition template does not render `true`); else its template
/// rendered (or empty content when the pack lacks the template), at its path;
/// or the template's error, prefixed with the template name.
pub open spec fn file_outcome(
    f: LayoutFile,
    source_dir: Seq<char>,
    has_templates: Map<Seq<char>, String>,
    templates: Map<Seq<char>, (Seq<char>, bool)>,
    filters: Map<Seq<char>, (Seq<char>, Seq<char>)>,
    ctx: Seq<char>,
) -> Option<Result<(Seq<char>, Seq<char>), Seq<char>>> {
    let held = match f.when {
        Some(w) => condition_held(
            match rendered_source(true, templates, filters, "__condition__"@, condition_template_text(w@), ctx) {
                Ok(t) => Some(t),
                Err(_) => None,
            },
        ),
        None => true,
    };
    if !held {
        None
    } else if has_templates.contains_key(f.template@) {
        match rendered_template(true, templates, filters, f.template@, ctx) {
            Ok(c) => Some(Ok((file_path_text(f.path@, source_dir), c))),
            Err(e) => Some(Err(f.template@ + ": "@ + e)),
        }
    } else {
        Some(Ok((file_path_text(f.path@, source_dir), Seq::empty())))
    }
}

/// What layout files yield, in order; the first error stops the pass.
pub open spec fn files_outcome(
    fs: Seq<LayoutFile>,
    source_dir: Seq<char>,
    has_templates: Map<Seq<char>, String>,
    templates: Map<Seq<char>, (Seq<char>, bool)>,
    filters: Map<Seq<char>, (Seq<char>, Seq<char>)>,
    ctx: Seq<char>,
) -> Result<Seq<(Seq<char>, Seq<char>)>, Seq<char>>
    decreases fs.len(),
{
    if fs.len() == 0 {
        Ok(Seq::empty())
    } else {
        match files_outcome(fs.drop_last(), source_dir, has_templates, templates, filters, ctx) {
            Err(e) => Err(e),
            Ok(done) => match file_outcome(fs.last(), source_dir, has_templates, templates, filters, ctx) {
                None => Ok(done),
                Some(Err(e)) => Err(e),
                Some(Ok(f)) => Ok(done.push(f)),
            },
        }
    }
}

/// What shared files of the split layout yield, in order: every template
/// rendered at its path (a missing template is an error); the first error stops the pass.
pub open spec fn shared_outcome(
    fs: Seq<LayoutFile>,
    source_dir: Seq<char>,
    templates: Map<Seq<char>, (Seq<char>, bool)>,
    filters: Map<Seq<char>, (Seq<char>, Seq<char>)>,
    ctx: Seq<char>,
) -> Result<Seq<(Seq<char>, Seq<char>)>, Seq<char>>
    decreases fs.len(),
{
    if fs.len() == 0 {
        Ok(Seq::empty())
    } else {
        match shared_outcome(fs.drop_last(), source_dir, templates, filters, ctx) {
            Err(e) => Err(e),
            Ok(done) => match rendered_template(true, templates, filters, fs.last().template@, ctx) {
                Ok(c) => Ok(done.push((file_path_text(fs.last().path@, source_dir), c))),
                Err(e) => Err(fs.last().template@ + ": "@ + e),
            },
        }
    }
}

/// The files of a rendering result as (path, content), or its error.
pub open spec fn files_result(r: Result<Vec<GeneratedFile>, String>) -> Result<Seq<(Seq<char>, Seq<char>)>, Seq<char>> {
    match r {
        Ok(v) => Ok(file_views(v@)),
        Err(e) => Err(e@),
    }
}

/// `env` holds exactly the pack's templates and filters, and trims blocks.
pub open spec fn holds_pack(env: minijinja::Environment<'static>, pack: TemplatePack) -> bool {
    &&& env_trim_blocks(env)
    &&& env_templates(env) == pack_templates(pack)
    &&& env_filters(env) == pack_filters(pack)
}

/// Whether a `when` condition holds: it is rendered as
/// `{% if <condition> %}true{% endif %}` against the context and holds when
/// that renders `true`, white space around it aside; a rendering error means
/// it does not hold.
pub fn eval_condition(env: &minijinja::Environment<'static>, condition: &str, ctx: &str) -> (r: bool)
    ensures
        r == condition_held(
            match rendered_source(env_trim_blocks(*env), env_templates(*env), env_filters(*env), "__condition__"@, condition_template_text(condition@), ctx@) {
                Ok(t) => Some(t),
                Err(_) => None,
            },
        ),
{
    let cond = condition_template(condition);
    let rendered = render_source(env, "__condition__", cond.as_str(), ctx);
    proof {
        reveal_strlit("__condition__");
    }
    match &rendered {
        Ok(t) => condition_holds(Some(t.as_str())),
        Err(_) => condition_holds(None),
    }
}

/// The file a rendering gives: the rendered content at `path`, or the
/// rendering error prefixed with the template's name.
pub fn rendered_file(path: &String, template: &str, rendered: Result<String, String>) -> (r: Result<GeneratedFile, String>)
    ensures
        match rendered {
            Ok(c) => r matches Ok(f) && f.path@ == path@ && f.content == c,
            Err(e) => r matches Err(m) && m@ == template@ + ": "@ + e@,
        },
{
    match rendered {
        Ok(content) => Ok(GeneratedFile { path: path.clone(), content }),
        Err(e) => Err(owned(template).concat(": ").concat(e.as_str())),
    }
}

/// The error of a pack template that does not compile: `template '<name>': <error>`.
pub fn template_compile_error(name: &str, error: &str) -> (r: String)
    ensures
        r@ == "template '"@ + name@ + "': "@ + error@,
{
    owned("template '").concat(name).concat("': ").concat(error)
}

/// Renders planned layout files in order: a file whose condition does not
/// hold is skipped, one without a template is written empty; the first
/// rendering error ends the pass.
fn render_files(
    env: &minijinja::Environment<'static>,
    files: &Vec<PlannedFile>,
    ctx: &str,
    Ghost(fs): Ghost<Seq<LayoutFile>>,
    Ghost(has_templates): Ghost<Map<Seq<char>, String>>,
    Ghost(source_dir): Ghost<Seq<char>>,
) -> (r: Result<Vec<GeneratedFile>, String>)
    requires
        env_trim_blocks(*env),
        planned_files_are(files@, fs, has_templates, source_dir),
    ensures
        files_result(r) == files_outcome(fs, source_dir, has_templates, env_templates(*env), env_filters(*env), ctx@),
{
    let ghost tm = env_templates(*env);
    let ghost fl = env_filters(*env);
    let mut out: Vec<GeneratedFile> = Vec::new();
    let mut i: usize = 0;
    assert(fs.take(0) =~= Seq::<LayoutFile>::empty());
    assert(file_views(out@) =~= Seq::<(Seq<char>, Seq<char>)>::empty());
    while i < files.len()
        invariant
            env_trim_blocks(*env),
            tm == env_templates(*env),
            fl == env_filters(*env),
            planned_files_are(files@, fs, has_templates, source_dir),
            i <= files@.len(),
            files_outcome(fs.take(i as int), source_dir, has_templates, tm, fl, ctx@) == Ok::<Seq<(Seq<char>, Seq<char>)>, Seq<char>>(file_views(out@)),
        decreases files@.len() - i,
    {
        let f = &files[i];
        let ghost lf = fs[i as int];
        assert(planned_file_is(*f, lf, has_templates, source_dir));
        assert(fs.take(i + 1).drop_last() =~= fs.take(i as int));
        assert(fs.take(i + 1).last() == lf);
        let ghost before = file_views(out@);
        let held = match &f.when {
            Some(w) => eval_condition(env, w.as_str(), ctx),
            None => true,
        };
        if held {
            if f.has_template {
                match rendered_file(&f.path, f.template.as_str(), render_template(env, f.template.as_str(), ctx)) {
                    Ok(file) => {
                        out.push(file);
                        assert(file_views(out@) =~= before.push((f.path@, file.content@)));
                    },
                    Err(msg) => {
                        proof {
                            assert(files_outcome(fs.take(i + 1), source_dir, has_templates, tm, fl, ctx@) is Err);
                            lemma_outcome_err_stays(fs, i + 1, source_dir, has_templates, tm, fl, ctx@);
                        }
                        return Err(msg);
                    },
                }
            } else {
                let file = GeneratedFile { path: f.path.clone(), content: String::new() };
                out.push(file);
                assert(file_views(out@) =~= before.push((f.path@, Seq::<char>::empty())));
            }
        }
        i = i + 1;
    }
    assert(fs.take(files@.len() as int) =~= fs);
    Ok(out)
}

proof fn lemma_outcome_err_stays(
    fs: Seq<LayoutFile>,
    k: int,
    source_dir: Seq<char>,
    has_templates: Map<Seq<char>, String>,
    templates: Map<Seq<char>, (Seq<char>, bool)>,
    filters: Map<Seq<char>, (Seq<char>, Seq<char>)>,
    ctx: Seq<char>,
)
    requires
        0 <= k <= fs.len(),
        files_outcome(fs.take(k), source_dir, has_templates, templates, filters, ctx) is Err,
    ensures
        files_outcome(fs, source_dir, has_templates, templates, filters, ctx) == files_outcome(
            fs.take(k),
            source_dir,
            has_templates,
            templates,
            filters,
            ctx,
        ),
    decreases fs.len() - k,
{
    if k < fs.len() {
        assert(fs.take(k + 1).drop_last() =~= fs.take(k));
        lemma_outcome_err_stays(fs, k + 1, source_dir, has_templates, templates, filters, ctx);
    } else {
        assert(fs.take(k) =~= fs);
    }
}

/// Renders the shared files of the split layout in order; a missing
/// template is an error, and the first error ends the pass.
fn render_shared(
    env: &minijinja::Environment<'static>,
    files: &Vec<PlannedFile>,
    ctx: &str,
    Ghost(fs): Ghost<Seq<LayoutFile>>,
    Ghost(has_templates): Ghost<Map<Seq<char>, String>>,
    Ghost(source_dir): Ghost<Seq<char>>,
) -> (r: Result<Vec<GeneratedFile>, String>)
    requires
        env_trim_blocks(*env),
        planned_files_are(files@, fs, has_templates, source_dir),
    ensures
        files_result(r) == shared_outcome(fs, source_dir, env_templates(*env), env_filters(*env), ctx@),
{
    let ghost tm = env_templates(*env);
    let ghost fl = env_filters(*env);
    let mut out: Vec<GeneratedFile> = Vec::new();
    let mut i: usize = 0;
    assert(fs.take(0) =~= Seq::<LayoutFile>::empty());
    assert(file_views(out@) =~= Seq::<(Seq<char>, Seq<char>)>::empty());
    while i < files.len()
        invariant
            env_trim_blocks(*env),
            tm == env_templates(*env),
            fl == env_filters(*env),
            planned_files_are(files@, fs, has_templates, source_dir),
            i <= files@.len(),
            shared_outcome(fs.take(i as int), source_dir, tm, fl, ctx@) == Ok::<Seq<(Seq<char>, Seq<char>)>, Seq<char>>(file_views(out@)),
        decreases files@.len() - i,
    {
        let f = &files[i];
        let ghost lf = fs[i as int];
        assert(planned_file_is(*f, lf, has_templates, source_dir));
        assert(fs.take(i + 1).drop_last() =~= fs.take(i as int));
        assert(fs.take(i + 1).last() == lf);
        let ghost before = file_views(out@);
        match rendered_file(&f.path, f.template.as_str(), render_template(env, f.template.as_str(), ctx)) {
            Ok(file) => {
                out.push(file);
                assert(file_views(out@) =~= before.push((f.path@, file.content@)));
            },
            Err(msg) => {
                proof {
                    lemma_shared_err_stays(fs, i + 1, source_dir, tm, fl, ctx@);
                }
                return Err(msg);
            },
        }
        i = i + 1;
    }
    assert(fs.take(files@.len() as int) =~= fs);
    Ok(out)
}

proof fn lemma_shared_err_stays(
    fs: Seq<LayoutFile>,
    k: int,
    source_dir: Seq<char>,
    templates: Map<Seq<char>, (Seq<char>, bool)>,
    filters: Map<Seq<char>, (Seq<char>, Seq<char>)>,
    ctx: Seq<char>,
)
    requires
        0 <= k <= fs.len(),
        shared_outcome(fs.take(k), source_dir, templates, filters, ctx) is Err,
    ensures
        shared_outcome(fs, source_dir, templates, filters, ctx) == shared_outcome(fs.take(k), source_dir, templates, filters, ctx),
    decreases fs.len() - k,
{
    if k < fs.len() {
        assert(fs.take(k + 1).drop_last() =~= fs.take(k));
        lemma_shared_err_stays(fs, k + 1, source_dir, templates, filters, ctx);
    } else {
        assert(fs.take(k) =~= fs);
    }
}

/// What rendering section templates in order gives: each section's
/// (label, rendered content), or the first error as `<template>: <error>`.
pub open spec fn sections_outcome(
    sections: Seq<BundledSection>,
    templates: Map<Seq<char>, (Seq<char>, bool)>,
    filters: Map<Seq<char>, (Seq<char>, Seq<char>)>,
    ctx: Seq<char>,
) -> Result<Seq<(Seq<char>, Seq<char>)>, Seq<char>>
    decreases sections.len(),
{
    if sections.len() == 0 {
        Ok(Seq::empty())
    } else {
        match sections_outcome(sections.drop_last(), templates, filters, ctx) {
            Err(e) => Err(e),
            Ok(done) => match rendered_template(true, templates, filters, sections.last().template@, ctx) {
                Ok(c) => Ok(done.push((sections.last().label@, c))),
                Err(e) => Err(sections.last().template@ + ": "@ + e),
            },
        }
    }
}

proof fn lemma_sections_err_stays(
    ss: Seq<BundledSection>,
    k: int,
    templates: Map<Seq<char>, (Seq<char>, bool)>,
    filters: Map<Seq<char>, (Seq<char>, Seq<char>)>,
    ctx: Seq<char>,
)
    requires
        0 <= k <= ss.len(),
        sections_outcome(ss.take(k), templates, filters, ctx) is Err,
    ensures
        sections_outcome(ss, templates, filters, ctx) == sections_outcome(ss.take(k), templates, filters, ctx),
    decreases ss.len() - k,
{
    if k < ss.len() {
        assert(ss.take(k + 1).drop_last() =~= ss.take(k));
        lemma_sections_err_stays(ss, k + 1, templates, filters, ctx);
    } else {
        assert(ss.take(k) =~= ss);
    }
}

/// The modular layout: each of its files, rendered in order.
pub fn render_modular(env: &minijinja::Environment<'static>, pack: &TemplatePack, ctx: &str, source_dir: &str) -> (r: Result<Vec<GeneratedFile>, String>)
    requires
        holds_pack(*env, *pack),
    ensures
        files_result(r) == modular_outcome(*pack, source_dir@, ctx@),
{
    let plan = match plan_modular(pack, source_dir) {
        Ok(plan) => plan,
        Err(e) => {
            return Err(e);
        },
    };
    let ghost files = pack.manifest.layouts.modular.unwrap().files@;
    render_files(env, &plan, ctx, Ghost(files), Ghost(pack.templates@), Ghost(source_dir@))
}

/// The bundled layout: its sections rendered in order, each with its label,
/// and the path of the one file they make up; the first rendering error
/// stops the pass. Joining the sections is left to the caller.
pub fn render_bundled(env: &minijinja::Environment<'static>, pack: &TemplatePack, ctx: &str, source_dir: &str) -> (r: Result<BundledOutput, String>)
    requires
        holds_pack(*env, *pack),
    ensures
        match bundled_outcome(*pack, source_dir@, ctx@) {
            Ok(b) => r matches Ok(o) && bundled_view(o) == b,
            Err(e) => r matches Err(x) && x@ == e,
        },
{
    let plan = match plan_bundled(pack, source_dir) {
        Ok(plan) => plan,
        Err(e) => {
            return Err(e);
        },
    };
    let ghost ss = pack.manifest.layouts.bundled.unwrap().sections@;
    let ghost tm = env_templates(*env);
    let ghost fl = env_filters(*env);
    let mut out: Vec<(String, String)> = Vec::new();
    let mut i: usize = 0;
    assert(ss.take(0) =~= Seq::<BundledSection>::empty());
    assert(out@.map_values(|p: (String, String)| (p.0@, p.1@)) =~= Seq::<(Seq<char>, Seq<char>)>::empty());
    while i < plan.sections.len()
        invariant
            holds_pack(*env, *pack),
            tm == env_templates(*env),
            fl == env_filters(*env),
            pack.manifest.layouts.bundled is Some,
            ss == pack.manifest.layouts.bundled.unwrap().sections@,
            plan.sections@.len() == ss.len(),
            forall|k: int| 0 <= k < plan.sections@.len() ==> (#[trigger] plan.sections@[k]).1 == ss[k].template
                && plan.sections@[k].0 == ss[k].label,
            i <= ss.len(),
            sections_outcome(ss.take(i as int), tm, fl, ctx@) == Ok::<Seq<(Seq<char>, Seq<char>)>, Seq<char>>(
                out@.map_values(|p: (String, String)| (p.0@, p.1@))),
        decreases ss.len() - i,
    {
        let label = &plan.sections[i].0;
        let template = &plan.sections[i].1;
        assert(ss.take(i + 1).drop_last() =~= ss.take(i as int));
        assert(ss.take(i + 1).last() == ss[i as int]);
        let ghost before = out@.map_values(|p: (String, String)| (p.0@, p.1@));
        match render_template(env, template.as_str(), ctx) {
            Ok(content) => {
                out.push((label.clone(), content));
                assert(out@.map_values(|p: (String, String)| (p.0@, p.1@)) =~= before.push((label@, content@)));
            },
            Err(e) => {
                let msg = template.clone().concat(": ").concat(e.as_str());
                proof {
                    assert(template@ == ss[i as int].template@);
                    assert(sections_outcome(ss.take(i + 1), tm, fl, ctx@) == Err::<Seq<(Seq<char>, Seq<char>)>, Seq<char>>(msg@));
                    lemma_sections_err_stays(ss, i + 1, tm, fl, ctx@);
                }
                return Err(msg);
            },
        }
        i = i + 1;
    }
    assert(ss.take(ss.len() as int) =~= ss);
    Ok(BundledOutput { path: plan.path, sections: out })
}

/// The split layout: its shared files rendered in order, then one
/// re-export file per operation group, then the index.
pub fn render_split(
    env: &minijinja::Environment<'static>,
    pack: &TemplatePack,
    ctx: &str,
    source_dir: &str,
    ir: &IrSpec,
    groups: &Vec<OperationGroup>,
) -> (r: Result<Vec<GeneratedFile>, String>)
    requires
        holds_pack(*env, *pack),
        forall|g: int, k: int| 0 <= g < groups@.len() && 0 <= k < groups@[g].operation_indices@.len()
            ==> #[trigger] groups@[g].operation_indices@[k] < ir.operations@.len(),
    ensures
        files_result(r) == split_outcome(*ir, *pack, groups@, source_dir@, ctx@),
{
    let plan = match plan_split_shared(pack, source_dir) {
        Ok(plan) => plan,
        Err(e) => {
            return Err(e);
        },
    };
    let ghost shared_files = pack.manifest.layouts.split.unwrap().shared_files@;
    let mut files = match render_shared(env, &plan, ctx, Ghost(shared_files), Ghost(pack.templates@), Ghost(source_dir@)) {
        Ok(files) => files,
        Err(e) => {
            return Err(e);
        },
    };
    let ghost shared = file_views(files@);
    let mut extra = split_group_files(ir, groups, source_dir);
    let ghost ex = extra@;
    files.append(&mut extra);
    proof {
        assert(file_views(ex) =~= split_files_text(*ir, groups@, source_dir@));
        assert(file_views(files@) =~= shared + file_views(ex));
    }
    Ok(files)
}

/// The scaffold files: none without scaffold options; else the pack's
/// scaffold files and then its scaffold test files, rendered in order.
pub fn render_scaffold(
    env: &minijinja::Environment<'static>,
    pack: &TemplatePack,
    config: &GeneratorConfig,
    ctx: &str,
) -> (r: Result<Vec<GeneratedFile>, String>)
    requires
        holds_pack(*env, *pack),
    ensures
        files_result(r) == scaffold_outcome(*config, *pack, ctx@),
{
    if crate::engine::scaffold_enabled(config) {
        let plan = plan_scaffold(pack, config.source_dir.as_str());
        render_files(
            env,
            &plan,
            ctx,
            Ghost(pack.manifest.scaffold.files@ + pack.manifest.scaffold.test_files@),
            Ghost(pack.templates@),
            Ghost(config.source_dir@),
        )
    } else {
        let v: Vec<GeneratedFile> = Vec::new();
        assert(file_views(v@) =~= Seq::<(Seq<char>, Seq<char>)>::empty());
        Ok(v)
    }
}

/// Some template of the pack does not compile.
pub open spec fn some_template_fails(pack: TemplatePack) -> bool {
    exists|k: Seq<char>| #[trigger] pack_templates(pack).contains_key(k) && template_error(true, k, pack_templates(pack)[k].0) is Some
}

/// `e` reports a template of the pack that does not compile: `template '<name>': <error>`.
pub open spec fn template_failure(pack: TemplatePack, e: Seq<char>) -> bool {
    exists|k: Seq<char>| #[trigger] pack_templates(pack).contains_key(k) && (template_error(true, k, pack_templates(pack)[k].0)
        matches Some(err) && e == "template '"@ + k + "': "@ + err)
}

/// The environment of a pack: block trimming on, then every template of the
/// pack added (the first that fails to compile is the error), then its filters.
pub fn pack_environment(pack: &TemplatePack) -> (r: Result<minijinja::Environment<'static>, String>)
    ensures
        match r {
            Ok(env) => !some_template_fails(*pack) && holds_pack(env, *pack),
            Err(e) => some_template_fails(*pack) && template_failure(*pack, e@),
        },
{
    let mut env = new_environment();
    set_trim_blocks(&mut env, true);
    let entries = pack.templates.entries();
    let ghost es = entries@;
    let mut i: usize = 0;
    proof {
        assert(es.take(0) =~= Seq::<(String, String)>::empty());
        assert(env_templates(env) =~= entries_map(es.take(0)).map_values(|t: String| (t@, true)));
    }
    while i < entries.len()
        invariant
            es == entries@,
            crate::named_map::keys_distinct(es),
            entries_map(es) == pack.templates@,
            i <= es.len(),
            env_trim_blocks(env),
            env_filters(env).dom() == Set::<Seq<char>>::empty(),
            env_templates(env) == entries_map(es.take(i as int)).map_values(|t: String| (t@, true)),
            forall|j: int| 0 <= j < i ==> template_error(true, (#[trigger] es[j]).0@, es[j].1@) is None,
        decreases es.len() - i,
    {
        let (name, content) = &entries[i];
        let ghost before = env_templates(env);
        proof {
            crate::named_map::lemma_entries_map(es);
            assert(es.take(i + 1).drop_last() =~= es.take(i as int));
        }
        match add_template(&mut env, name.clone(), content.clone()) {
            Ok(()) => {
                proof {
                    assert(entries_map(es.take(i + 1)) == entries_map(es.take(i as int)).insert(name@, *content));
                    assert(env_templates(env) =~= entries_map(es.take(i + 1)).map_values(|t: String| (t@, true)));
                }
            },
            Err(e) => {
                proof {
                    crate::named_map::lemma_entries_map(es);
                    assert(pack.templates@[es[i as int].0@] == es[i as int].1);
                    assert(pack_templates(*pack).contains_key(name@));
                    assert(pack_templates(*pack)[name@].0 == content@);
                }
                return Err(template_compile_error(name.as_str(), e.as_str()));
            },
        }
        i = i + 1;
    }
    proof {
        assert(es.take(es.len() as int) =~= es);
        assert(env_templates(env) =~= pack_templates(*pack));
        crate::named_map::lemma_entries_map(es);
        assert forall|k: Seq<char>| #[trigger] pack_templates(*pack).contains_key(k) implies template_error(true, k, pack_templates(*pack)[k].0) is None by {
            let j = choose|j: int| 0 <= j < es.len() && es[j].0@ == k;
            assert(template_error(true, es[j].0@, es[j].1@) is None);
            assert(pack.templates@[es[j].0@] == es[j].1);
        }
    }
    let filters = pack.manifest.filters.entries();
    let ghost fs = filters@;
    let mut j: usize = 0;
    proof {
        assert(fs.take(0) =~= Seq::<(String, FilterConfig)>::empty());
        assert(env_filters(env) =~= entries_map(fs.take(0)).map_values(|f: FilterConfig| (f.replace@, f.with@)));
    }
    while j < filters.len()
        invariant
            fs == filters@,
            entries_map(fs) == pack.manifest.filters@,
            j <= fs.len(),
            env_trim_blocks(env),
            env_templates(env) == pack_templates(*pack),
            env_filters(env) == entries_map(fs.take(j as int)).map_values(|f: FilterConfig| (f.replace@, f.with@)),
        decreases fs.len() - j,
    {
        let (name, f) = &filters[j];
        assert(fs.take(j + 1).drop_last() =~= fs.take(j as int));
        add_filter(&mut env, name.clone(), FilterConfig { replace: f.replace.clone(), with: f.with.clone() });
        assert(env_filters(env) =~= entries_map(fs.take(j + 1)).map_values(|f: FilterConfig| (f.replace@, f.with@)));
        j = j + 1;
    }
    assert(fs.take(fs.len() as int) =~= fs);
    Ok(env)
}

/// The files of the split layout that need no template, as (path, content):
/// one re-export file per group, then the index.
pub open spec fn split_files_text(ir: IrSpec, groups: Seq<OperationGroup>, source_dir: Seq<char>) -> Seq<(Seq<char>, Seq<char>)> {
    Seq::new(
        groups.len(),
        |g: int|
            (
                normalized_path(source_dir + "/"@ + groups[g].name.snake_case@ + ".ts"@),
                group_file_text(groups[g].name.original@, group_op_names(ir, groups[g])),
            ),
    ).push(
        (
            normalized_path(source_dir + "/index.ts"@),
            split_index_text(groups.map_values(|g: OperationGroup| g.name.snake_case@)),
        ),
    )
}

/// What the modular layout yields: its files, in order.
pub open spec fn modular_outcome(pack: TemplatePack, source_dir: Seq<char>, ctx: Seq<char>) -> Result<Seq<(Seq<char>, Seq<char>)>, Seq<char>> {
    match pack.manifest.layouts.modular {
        Some(l) => files_outcome(l.files@, source_dir, pack.templates@, pack_templates(pack), pack_filters(pack), ctx),
        None => Err("pack has no modular layout defined"@),
    }
}

/// What the bundled layout yields: the path of its one file and its
/// sections rendered in order, or the first error.
pub open spec fn bundled_outcome(pack: TemplatePack, source_dir: Seq<char>, ctx: Seq<char>) -> Result<(Seq<char>, Seq<(Seq<char>, Seq<char>)>), Seq<char>> {
    match pack.manifest.layouts.bundled {
        Some(l) => match sections_outcome(l.sections@, pack_templates(pack), pack_filters(pack), ctx) {
            Ok(ss) => Ok((file_path_text(l.output_path@, source_dir), ss)),
            Err(e) => Err(e),
        },
        None => Err("pack has no bundled layout defined"@),
    }
}

/// What the split layout yields: its shared files, then the group files and the index.
pub open spec fn split_outcome(
    ir: IrSpec,
    pack: TemplatePack,
    groups: Seq<OperationGroup>,
    source_dir: Seq<char>,
    ctx: Seq<char>,
) -> Result<Seq<(Seq<char>, Seq<char>)>, Seq<char>> {
    match pack.manifest.layouts.split {
        Some(l) => match shared_outcome(l.shared_files@, source_dir, pack_templates(pack), pack_filters(pack), ctx) {
            Ok(shared) => Ok(shared + split_files_text(ir, groups, source_dir)),
            Err(e) => Err(e),
        },
        None => Err("pack has no split layout defined"@),
    }
}

/// What the layout of a generation yields, with the context text `ctx`:
/// source files, and for the bundled layout its rendered sections. The
/// modular layout gives its files; the split layout its shared files, then
/// the group files and the index; the bundled layout no source files and its
/// sections.
pub open spec fn source_outcome(
    ir: IrSpec,
    config: GeneratorConfig,
    pack: TemplatePack,
    groups: Seq<OperationGroup>,
    ctx: Seq<char>,
) -> Result<(Seq<(Seq<char>, Seq<char>)>, Option<(Seq<char>, Seq<(Seq<char>, Seq<char>)>)>), Seq<char>> {
    match config.layout {
        OutputLayout::Modular => match modular_outcome(pack, config.source_dir@, ctx) {
            Ok(fs) => Ok((fs, None)),
            Err(e) => Err(e),
        },
        OutputLayout::Bundled => match bundled_outcome(pack, config.source_dir@, ctx) {
            Ok(b) => Ok((Seq::empty(), Some(b))),
            Err(e) => Err(e),
        },
        OutputLayout::Split => match split_outcome(ir, pack, groups, config.source_dir@, ctx) {
            Ok(fs) => Ok((fs, None)),
            Err(e) => Err(e),
        },
    }
}

/// What the scaffold files of a generation come to: none without scaffold
/// options, else the pack's scaffold files and then its scaffold test files.
pub open spec fn scaffold_outcome(config: GeneratorConfig, pack: TemplatePack, ctx: Seq<char>) -> Result<Seq<(Seq<char>, Seq<char>)>, Seq<char>> {
    if config.scaffold is Some {
        files_outcome(
            pack.manifest.scaffold.files@ + pack.manifest.scaffold.test_files@,
            config.source_dir@,
            pack.templates@,
            pack_templates(pack),
            pack_filters(pack),
            ctx,
        )
    } else {
        Ok(Seq::empty())
    }
}

/// `r` is what generating with context `c` gives: when some template of the
/// pack does not compile, that error; else the source files (for the bundled
/// layout, its rendered sections instead) and then the scaffold files,
/// rendered against the JSON of the context and the generator's options, or
/// the first error.
pub open spec fn generated_from(
    r: Result<GenerateOutput, String>,
    ir: IrSpec,
    c: TemplateContext,
    config: GeneratorConfig,
    pack: TemplatePack,
    groups: Seq<OperationGroup>,
) -> bool {
    let ctx = json_text(render_context_json(c, config));
    if some_template_fails(pack) {
        r matches Err(e) && template_failure(pack, e@)
    } else {
        match source_outcome(ir, config, pack, groups, ctx) {
            Err(e) => r matches Err(x) && x@ == e,
            Ok((sources, bundled)) => match scaffold_outcome(config, pack, ctx) {
                Err(e) => r matches Err(x) && x@ == e,
                Ok(scaffold) => r matches Ok(out) && file_views(out.source_files@) == sources
                    && file_views(out.scaffold_files@) == scaffold && opt_bundled_view(out.bundled) == bundled,
            },
        }
    }
}

/// Generates the files of a pack from a template context. `groups` are the
/// operation groups of the split layout (other layouts ignore them). The
/// rendered text is kept as it is, with no whitespace normalisation.
pub fn generate_from_context(
    ir: &IrSpec,
    c: &TemplateContext,
    config: &GeneratorConfig,
    pack: &TemplatePack,
    groups: &Vec<OperationGroup>,
) -> (r: Result<GenerateOutput, String>)
    requires
        forall|g: int, k: int| 0 <= g < groups@.len() && 0 <= k < groups@[g].operation_indices@.len()
            ==> #[trigger] groups@[g].operation_indices@[k] < ir.operations@.len(),
    ensures
        generated_from(r, *ir, *c, *config, *pack, groups@),
{
    let env = match pack_environment(pack) {
        Ok(env) => env,
        Err(e) => {
            return Err(e);
        },
    };
    let ctx_value = render_context_value(c, config);
    let ctx = to_json_text(&ctx_value);
    let sd = config.source_dir.as_str();
    let rendered = match config.layout {
        OutputLayout::Modular => match render_modular(&env, pack, ctx.as_str(), sd) {
            Ok(files) => Ok((files, None)),
            Err(e) => Err(e),
        },
        OutputLayout::Bundled => match render_bundled(&env, pack, ctx.as_str(), sd) {
            Ok(b) => {
                let none: Vec<GeneratedFile> = Vec::new();
                assert(file_views(none@) =~= Seq::<(Seq<char>, Seq<char>)>::empty());
                Ok((none, Some(b)))
            },
            Err(e) => Err(e),
        },
        OutputLayout::Split => match render_split(&env, pack, ctx.as_str(), sd, ir, groups) {
            Ok(files) => Ok((files, None)),
            Err(e) => Err(e),
        },
    };
    let (source_files, bundled) = match rendered {
        Ok(x) => x,
        Err(e) => {
            return Err(e);
        },
    };
    let scaffold_files = match render_scaffold(&env, pack, config, ctx.as_str()) {
        Ok(files) => files,
        Err(e) => {
            return Err(e);
        },
    };
    assert(ctx@ == json_text(render_context_json(*c, *config)));
    Ok(GenerateOutput { source_files, scaffold_files, bundled })
}

/// Generates the files of a pack for a spec: builds the template context
/// with the pack's type map and casings, then renders the pack's layout and,
/// with scaffold options, its scaffold files. `groups` are the operation
/// groups of the split layout. The files hold the rendered text as it is:
/// no whitespace normalisation is applied to them afterwards.
pub fn generate(
    ir: &IrSpec,
    config: &GeneratorConfig,
    pack: &TemplatePack,
    groups: &Vec<OperationGroup>,
) -> (r: Result<GenerateOutput, String>)
    requires
        forall|g: int, k: int| 0 <= g < groups@.len() && 0 <= k < groups@[g].operation_indices@.len()
            ==> #[trigger] groups@[g].operation_indices@[k] < ir.operations@.len(),
    ensures
        exists|c: TemplateContext|
            #[trigger] template_context_is(
                c,
                *ir,
                pack.manifest.type_map,
                pack.manifest.pack.field_casing@,
                pack.manifest.pack.operation_casing@,
            ) && generated_from(r, *ir, c, *config, *pack, groups@),
{
    let c = build_context(
        ir,
        &pack.manifest.type_map,
        pack.manifest.pack.field_casing.as_str(),
        pack.manifest.pack.operation_casing.as_str(),
    );
    let r = generate_from_context(ir, &c, config, pack, groups);
    assert(template_context_is(c, *ir, pack.manifest.type_map, pack.manifest.pack.field_casing@, pack.manifest.pack.operation_casing@));
    r
}

} // verus!
