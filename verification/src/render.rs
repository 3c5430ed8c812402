//! The template engine (minijinja): an environment holding a pack's templates
//! and filters, and the rendering of templates against a JSON context.
use vstd::prelude::*;

use crate::engine::apply_filter;
use crate::pack::FilterConfig;

verus! {

#[verifier::external_type_specification]
#[verifier::external_body]
pub struct ExEnvironment<'a>(minijinja::Environment<'a>);

/// The templates an environment holds: name to (source, whether block
/// trimming was on when the template was added and compiled).
pub uninterp spec fn env_templates(env: minijinja::Environment<'static>) -> Map<Seq<char>, (Seq<char>, bool)>;

/// The filters an environment holds: name to (text replaced, replacement).
pub uninterp spec fn env_filters(env: minijinja::Environment<'static>) -> Map<Seq<char>, (Seq<char>, Seq<char>)>;

/// Whether an environment removes the first newline after a block tag.
pub uninterp spec fn env_trim_blocks(env: minijinja::Environment<'static>) -> bool;

/// What compiling a template source gives: `None` when it compiles, else the error.
pub uninterp spec fn template_error(trim_blocks: bool, name: Seq<char>, source: Seq<char>) -> Option<Seq<char>>;

/// What rendering the registered template `name` against the JSON context
/// gives; each template is compiled under its own trimming flag, and
/// `trim_blocks` is the environment's current flag.
pub uninterp spec fn rendered_template(
    trim_blocks: bool,
    templates: Map<Seq<char>, (Seq<char>, bool)>,
    filters: Map<Seq<char>, (Seq<char>, Seq<char>)>,
    name: Seq<char>,
    context: Seq<char>,
) -> Result<Seq<char>, Seq<char>>;

/// What rendering a one-off template source (named `name`) against the JSON
/// context gives; the source is compiled under `trim_blocks`, the
/// environment's current flag, and registered templates under their own.
pub uninterp spec fn rendered_source(
    trim_blocks: bool,
    templates: Map<Seq<char>, (Seq<char>, bool)>,
    filters: Map<Seq<char>, (Seq<char>, Seq<char>)>,
    name: Seq<char>,
    source: Seq<char>,
    context: Seq<char>,
) -> Result<Seq<char>, Seq<char>>;

/// The view of a rendering result.
pub open spec fn result_view(r: Result<String, String>) -> Result<Seq<char>, Seq<char>> {
    match r {
        Ok(t) => Ok(t@),
        Err(e) => Err(e@),
    }
}

/// `minijinja::Environment::new()`: an environment without templates or
/// filters of its own, that keeps the newline after block tags.
#[verifier::external_body]
pub(crate) fn new_environment() -> (r: minijinja::Environment<'static>)
    ensures
        env_templates(r).dom() == Set::<Seq<char>>::empty(),
        env_filters(r).dom() == Set::<Seq<char>>::empty(),
        !env_trim_blocks(r),
{
    minijinja::Environment::new()
}

/// `Environment::set_trim_blocks`: sets the flag for templates compiled from
/// now on; templates already added keep the flag they were compiled with.
#[verifier::external_body]
pub(crate) fn set_trim_blocks(env: &mut minijinja::Environment<'static>, yes: bool)
    ensures
        env_trim_blocks(*final(env)) == yes,
        env_templates(*final(env)) == env_templates(*old(env)),
        env_filters(*final(env)) == env_filters(*old(env)),
{
    env.set_trim_blocks(yes);
}

/// `Environment::add_template_owned`: compiles the source under the current
/// trimming flag and registers it under the name (with that flag), or gives
/// the compile error (the message of `minijinja::Error`). After an error,
/// what the environment holds is not stated.
#[verifier::external_body]
pub(crate) fn add_template(env: &mut minijinja::Environment<'static>, name: String, source: String) -> (r: Result<(), String>)
    ensures
        match template_error(env_trim_blocks(*old(env)), name@, source@) {
            None => r is Ok && env_templates(*final(env)) == env_templates(*old(env)).insert(name@, (source@, env_trim_blocks(*old(env)))),
            Some(e) => r matches Err(x) && x@ == e,
        },
        env_filters(*final(env)) == env_filters(*old(env)),
        env_trim_blocks(*final(env)) == env_trim_blocks(*old(env)),
{
    env.add_template_owned(name, source).map_err(|e| e.to_string())
}

/// `Environment::add_filter`: registers a filter that replaces `filter.replace`
/// with `filter.with` (through `apply_filter`).
#[verifier::external_body]
pub(crate) fn add_filter(env: &mut minijinja::Environment<'static>, name: String, filter: FilterConfig)
    ensures
        env_filters(*final(env)) == env_filters(*old(env)).insert(name@, (filter.replace@, filter.with@)),
        env_templates(*final(env)) == env_templates(*old(env)),
        env_trim_blocks(*final(env)) == env_trim_blocks(*old(env)),
{
    env.add_filter(name, move |value: String| -> String { apply_filter(&filter, &value) });
}

/// `Environment::get_template` then `Template::render`, with the context
/// parsed from JSON text: the named result of rendering the registered
/// template, errors as their messages.
#[verifier::external_body]
pub(crate) fn render_template(env: &minijinja::Environment<'static>, name: &str, context: &str) -> (r: Result<String, String>)
    ensures
        result_view(r) == rendered_template(env_trim_blocks(*env), env_templates(*env), env_filters(*env), name@, context@),
{
    let ctx: serde_json::Value = serde_json::from_str(context).map_err(|e| e.to_string())?;
    env.get_template(name).and_then(|t| t.render(ctx)).map_err(|e| e.to_string())
}

/// `Environment::render_named_str`, with the context parsed from JSON text:
/// the named result of rendering the source, errors as their messages.
#[verifier::external_body]
pub(crate) fn render_source(env: &minijinja::Environment<'static>, name: &str, source: &str, context: &str) -> (r: Result<String, String>)
    ensures
        result_view(r) == rendered_source(env_trim_blocks(*env), env_templates(*env), env_filters(*env), name@, source@, context@),
{
    let ctx: serde_json::Value = serde_json::from_str(context).map_err(|e| e.to_string())?;
    env.render_named_str(name, source, ctx).map_err(|e| e.to_string())
}

} // verus!
