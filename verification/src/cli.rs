//! The decisions of the command-line tool: where packs come from, how tool
//! commands split into words, how validator runs are reported, and what a
//! generation run summarises.
use vstd::prelude::*;

use crate::github::{pack_spec_parts, parse_pack_specifier};
use crate::ir::{method_text, schema_name, HttpMethod, IrReturnType, IrSchema, IrSpec};
use crate::resolve::{cache_dir_text, pack_cache_dir};
use crate::text::{contains_char, contains_str, is_white_space, nat_text, owned, push_char, seq_join, str_eq, u64_text, views, white_space, join_strings};

verus! {

/// The README written into every output directory.
pub const README: &'static str = "# Generated Code \u{2014} Do Not Edit

This directory is **auto-generated** by [oag](https://github.com/urmzd/oag).
Any manual changes will be overwritten the next time `oag generate` is run.

To regenerate, run:
```
oag generate
```

To customize the generated output, edit your `oag.yaml` configuration file.
";

/// The \"do not edit\" README of generated output.
pub fn readme_content() -> (r: &'static str)
    ensures
        r@ == README@,
{
    README
}

/// Where a pack is loaded from.
#[derive(Debug)]
pub enum PackSource {
    /// A pack installed locally, at this directory.
    Installed(String),
    /// A pack fetched from GitHub at a ref, cached in `cache_dir`.
    Fetched { pack_id: String, git_ref: String, cache_dir: String },
}

/// A specifier pins a ref when it holds an `@`.
pub open spec fn pinned(specifier: Seq<char>) -> bool {
    specifier.contains('@')
}

/// Where a pack specifier is loaded from: an installed pack when the specifier
/// pins no ref and the pack is installed (`installed` is its directory), else
/// GitHub at the specifier's ref, cached by pack and ref.
pub open spec fn pack_source_is(r: PackSource, specifier: Seq<char>, installed: Option<Seq<char>>) -> bool {
    let (id, git_ref) = pack_spec_parts(specifier);
    if !pinned(specifier) && installed is Some {
        r matches PackSource::Installed(d) && d@ == installed.unwrap()
    } else {
        r matches PackSource::Fetched { pack_id, git_ref: rf, cache_dir } && pack_id@ == id && rf@ == git_ref
            && cache_dir@ == cache_dir_text(id, git_ref)
    }
}

/// Decides where a pack specifier is loaded from; `installed` is the directory
/// of the installed pack of that id, if one is installed.
pub fn resolve_pack_source(specifier: &str, installed: Option<String>) -> (r: PackSource)
    ensures
        pack_source_is(r, specifier@, match installed {
            Some(d) => Some(d@),
            None => None,
        }),
{
    let is_pinned = contains_char(specifier, '@');
    if !is_pinned {
        match installed {
            Some(dir) => {
                return PackSource::Installed(dir);
            },
            None => {},
        }
    }
    let (pack_id, git_ref) = parse_pack_specifier(specifier);
    PackSource::Fetched {
        pack_id: owned(pack_id),
        git_ref: owned(git_ref),
        cache_dir: pack_cache_dir(pack_id, git_ref),
    }
}

/// The whitespace-separated words of `s` (`str::split_whitespace`).
pub open spec fn words(s: Seq<char>) -> Seq<Seq<char>>
    decreases s.len(),
{
    if s.len() == 0 {
        Seq::empty()
    } else {
        let w = words(s.drop_last());
        let c = s.last();
        if is_white_space(c) {
            w
        } else if s.len() >= 2 && !is_white_space(s[s.len() - 2]) {
            w.update(w.len() - 1, w.last().push(c))
        } else {
            w.push(seq![c])
        }
    }
}

/// Splits a tool command into its words: the program, then its arguments.
pub fn command_parts(command: &str) -> (r: Vec<String>)
    ensures
        views(r@) == words(command@),
{
    let n = command.unicode_len();
    let mut out: Vec<String> = Vec::new();
    let mut cur = String::new();
    let mut i: usize = 0;
    assert(command@.take(0) =~= Seq::<char>::empty());
    while i < n
        invariant
            n == command@.len(),
            i <= n,
            cur@.len() > 0 <==> (i > 0 && !is_white_space(command@[i - 1])),
            words(command@.take(i as int)) == views(out@) + if cur@.len() > 0 { seq![cur@] } else { Seq::empty() },
        decreases n - i,
    {
        let c = command.get_char(i);
        let ghost t = command@.take(i + 1);
        assert(t.drop_last() =~= command@.take(i as int));
        assert(t.last() == c);
        if white_space(c) {
            if cur.as_str().unicode_len() > 0 {
                let ghost before = views(out@);
                let word = cur;
                out.push(word);
                cur = String::new();
                assert(views(out@) =~= before + seq![word@]);
            }
            assert(words(t) == words(command@.take(i as int)));
            assert(views(out@) + Seq::<Seq<char>>::empty() =~= views(out@));
        } else {
            let ghost old_cur = cur@;
            let ghost w = words(command@.take(i as int));
            let had_word = cur.as_str().unicode_len() > 0;
            push_char(&mut cur, c);
            if had_word {
                assert(t[t.len() - 2] == command@[i - 1]);
                assert(w =~= views(out@) + seq![old_cur]);
                assert(words(t) == w.update(w.len() - 1, w.last().push(c)));
                assert(w.update(w.len() - 1, w.last().push(c)) =~= views(out@) + seq![cur@]);
            } else {
                assert(w =~= views(out@) + Seq::<Seq<char>>::empty());
                assert(old_cur.len() == 0);
                assert(cur@ =~= seq![c]);
                if i > 0 {
                    assert(t[t.len() - 2] == command@[i - 1]);
                }
                assert(words(t) == w.push(seq![c]));
                assert(w.push(seq![c]) =~= views(out@) + seq![cur@]);
            }
        }
        i = i + 1;
    }
    assert(command@.take(n as int) =~= command@);
    if cur.as_str().unicode_len() > 0 {
        let ghost before = views(out@);
        let word = cur;
        out.push(word);
        assert(views(out@) =~= before.push(word@));
    } else {
        assert(views(out@) + Seq::<Seq<char>>::empty() =~= views(out@));
    }
    out
}

/// How one validator of `oag check` ended.
#[derive(Debug, Clone, Copy, PartialEq, Eq, Structural)]
pub enum ValidatorOutcome {
    /// It ran and succeeded.
    Passed,
    /// Its setup command failed or could not be started.
    SetupFailed,
    /// It ran and failed, or could not be started.
    Failed,
}

/// The failure recorded for a validator, if any: `<gen>: <name> (setup)` for a
/// failed setup, `<gen>: <name>` for a failed run.
pub open spec fn failure_label(gen_id: Seq<char>, name: Seq<char>, outcome: ValidatorOutcome) -> Option<Seq<char>> {
    match outcome {
        ValidatorOutcome::Passed => None,
        ValidatorOutcome::SetupFailed => Some(gen_id + ": "@ + name + " (setup)"@),
        ValidatorOutcome::Failed => Some(gen_id + ": "@ + name),
    }
}

/// Records the outcome of a validator among the failures.
pub fn record_validator_outcome(failures: &mut Vec<String>, gen_id: &str, name: &str, outcome: ValidatorOutcome)
    ensures
        views(final(failures)@) == match failure_label(gen_id@, name@, outcome) {
            Some(l) => views(old(failures)@).push(l),
            None => views(old(failures)@),
        },
{
    let ghost before = views(failures@);
    match outcome {
        ValidatorOutcome::Passed => {},
        ValidatorOutcome::SetupFailed => {
            let l = owned(gen_id).concat(": ").concat(name).concat(" (setup)");
            failures.push(l);
            assert(views(failures@) =~= before.push(l@));
        },
        ValidatorOutcome::Failed => {
            let l = owned(gen_id).concat(": ").concat(name);
            failures.push(l);
            assert(views(failures@) =~= before.push(l@));
        },
    }
}

/// The result of `oag check`: success without failures, else the failures listed.
pub fn check_verdict(failures: &Vec<String>) -> (r: Result<(), String>)
    ensures
        match r {
            Ok(()) => failures@.len() == 0,
            Err(e) => failures@.len() > 0 && e@ == "validation failed for: "@ + seq_join(views(failures@), ", "@),
        },
{
    if failures.len() == 0 {
        Ok(())
    } else {
        Err(owned("validation failed for: ").concat(join_strings(failures, ", ").as_str()))
    }
}

/// Whether a scaffold file is written: always when forced, else only when it
/// does not exist yet.
pub fn writes_scaffold_file(force: bool, exists: bool) -> (r: bool)
    ensures
        r == (force || !exists),
{
    force || !exists
}

/// The summary line of a generation: every source and scaffold file plus the
/// README, and how many scaffold files were kept.
pub open spec fn generated_summary_text(sources: nat, scaffold: nat, skipped: nat) -> Seq<char> {
    "generated "@ + nat_text(sources + scaffold + 1) + " files"@ + if skipped > 0 {
        ", "@ + nat_text(skipped) + " scaffold skipped"@
    } else {
        Seq::empty()
    }
}

/// The summary line of a generation.
pub fn generated_summary(sources: u32, scaffold: u32, skipped: u32) -> (r: String)
    ensures
        r@ == generated_summary_text(sources as nat, scaffold as nat, skipped as nat),
{
    let total: u64 = (sources as u64) + (scaffold as u64) + 1;
    let mut s = owned("generated ").concat(u64_text(total).as_str()).concat(" files");
    if skipped > 0 {
        s = s.concat(", ").concat(u64_text(skipped as u64).as_str()).concat(" scaffold skipped");
    }
    s
}

/// The marker after a known pack in `oag templates list`.
pub fn pack_marker(installed_ids: &Vec<String>, pack_id: &str) -> (r: &'static str)
    ensures
        r@ == if views(installed_ids@).contains(pack_id@) { " (installed)"@ } else { ""@ },
{
    if contains_str(installed_ids, pack_id) {
        " (installed)"
    } else {
        ""
    }
}

/// What `oag templates install` installs from.
#[derive(Debug)]
pub enum InstallSource {
    /// A pack id to download from GitHub.
    GitHub(String),
    /// A local pack directory.
    Directory(String),
}

/// Picks the install source: the pack id when given, else the directory, else the error.
pub fn install_source(source: Option<String>, id: Option<String>) -> (r: Result<InstallSource, String>)
    ensures
        match id {
            Some(i) => r matches Ok(InstallSource::GitHub(x)) && x == i,
            None => match source {
                Some(s) => r matches Ok(InstallSource::Directory(x)) && x == s,
                None => r matches Err(e) && e@ == "provide a source path or use --id <pack_id>"@,
            },
        },
{
    match id {
        Some(i) => Ok(InstallSource::GitHub(i)),
        None => match source {
            Some(s) => Ok(InstallSource::Directory(s)),
            None => Err(owned("provide a source path or use --id <pack_id>")),
        },
    }
}

/// A schema as `oag inspect` lists it.
#[derive(Debug)]
pub struct SchemaSummary {
    pub name: String,
    pub kind: String,
}

/// An operation as `oag inspect` lists it.
#[derive(Debug)]
pub struct OperationSummary {
    pub name: String,
    pub method: String,
    pub path: String,
    pub return_kind: String,
    pub tags: Vec<String>,
}

/// What `oag inspect` prints.
#[derive(Debug)]
pub struct InspectSummary {
    pub title: String,
    pub version: String,
    pub schemas: Vec<SchemaSummary>,
    pub operations: Vec<OperationSummary>,
    pub modules: Vec<String>,
}

/// The kind of a schema as `oag inspect` names it.
pub open spec fn schema_kind_name(s: IrSchema) -> Seq<char> {
    match s {
        IrSchema::Object(_) => "object"@,
        IrSchema::Enum(_) => "enum"@,
        IrSchema::Alias(_) => "alias"@,
        IrSchema::Union(_) => "union"@,
    }
}

/// The kind of a return type as `oag inspect` names it.
pub open spec fn return_kind_name(r: IrReturnType) -> Seq<char> {
    match r {
        IrReturnType::Standard(_) => "standard"@,
        IrReturnType::Sse(_) => "sse"@,
        IrReturnType::Void => "void"@,
    }
}

/// `s` summarises `ir`: its title and version, each schema's name and kind,
/// each operation's name, method, path, return kind and tags, and each
/// module's original name, all in order.
pub open spec fn inspect_summary_is(s: InspectSummary, ir: IrSpec) -> bool {
    &&& s.title@ == ir.info.title@
    &&& s.version@ == ir.info.version@
    &&& s.schemas@.len() == ir.schemas@.len()
    &&& forall|k: int| 0 <= k < s.schemas@.len() ==> (#[trigger] s.schemas@[k]).name@ == schema_name(ir.schemas@[k]).pascal_case@
        && s.schemas@[k].kind@ == schema_kind_name(ir.schemas@[k])
    &&& s.operations@.len() == ir.operations@.len()
    &&& forall|k: int| 0 <= k < s.operations@.len() ==> {
        let o = #[trigger] s.operations@[k];
        let op = ir.operations@[k];
        &&& o.name@ == op.name.camel_case@
        &&& o.method@ == method_text(op.method)
        &&& o.path@ == op.path@
        &&& o.return_kind@ == return_kind_name(op.return_type)
        &&& views(o.tags@) == views(op.tags@)
    }
    &&& views(s.modules@) == ir.modules@.map_values(|m: crate::ir::IrModule| m.name.original@)
}

/// Builds what `oag inspect` prints for a spec.
pub fn build_inspect_summary(ir: &IrSpec) -> (r: InspectSummary)
    ensures
        inspect_summary_is(r, *ir),
{
    let mut schemas: Vec<SchemaSummary> = Vec::new();
    let mut i: usize = 0;
    while i < ir.schemas.len()
        invariant
            i <= ir.schemas@.len(),
            schemas@.len() == i,
            forall|k: int| 0 <= k < i ==> (#[trigger] schemas@[k]).name@ == schema_name(ir.schemas@[k]).pascal_case@
                && schemas@[k].kind@ == schema_kind_name(ir.schemas@[k]),
        decreases ir.schemas@.len() - i,
    {
        let s = &ir.schemas[i];
        let kind = match s {
            IrSchema::Object(_) => "object",
            IrSchema::Enum(_) => "enum",
            IrSchema::Alias(_) => "alias",
            IrSchema::Union(_) => "union",
        };
        schemas.push(SchemaSummary { name: s.name().pascal_case.clone(), kind: owned(kind) });
        i = i + 1;
    }
    let mut operations: Vec<OperationSummary> = Vec::new();
    let mut j: usize = 0;
    while j < ir.operations.len()
        invariant
            j <= ir.operations@.len(),
            operations@.len() == j,
            forall|k: int| 0 <= k < j ==> {
                let o = #[trigger] operations@[k];
                let op = ir.operations@[k];
                &&& o.name@ == op.name.camel_case@
                &&& o.method@ == method_text(op.method)
                &&& o.path@ == op.path@
                &&& o.return_kind@ == return_kind_name(op.return_type)
                &&& views(o.tags@) == views(op.tags@)
            },
        decreases ir.operations@.len() - j,
    {
        let op = &ir.operations[j];
        let return_kind = match &op.return_type {
            IrReturnType::Standard(_) => "standard",
            IrReturnType::Sse(_) => "sse",
            IrReturnType::Void => "void",
        };
        operations.push(OperationSummary {
            name: op.name.camel_case.clone(),
            method: owned(op.method.as_str()),
            path: op.path.clone(),
            return_kind: owned(return_kind),
            tags: crate::pack::dup_vec(&op.tags),
        });
        j = j + 1;
    }
    let mut modules: Vec<String> = Vec::new();
    let mut m: usize = 0;
    while m < ir.modules.len()
        invariant
            m <= ir.modules@.len(),
            views(modules@) == ir.modules@.take(m as int).map_values(|x: crate::ir::IrModule| x.name.original@),
        decreases ir.modules@.len() - m,
    {
        let ghost before = views(modules@);
        modules.push(ir.modules[m].name.original.clone());
        proof {
            let f = |x: crate::ir::IrModule| x.name.original@;
            assert(views(modules@) =~= before.push(ir.modules@[m as int].name.original@));
            assert(ir.modules@.take(m + 1) =~= ir.modules@.take(m as int).push(ir.modules@[m as int]));
            assert(ir.modules@.take(m + 1).map_values(f) =~= ir.modules@.take(m as int).map_values(f).push(f(ir.modules@[m as int])));
        }
        m = m + 1;
    }
    assert(ir.modules@.take(ir.modules@.len() as int) =~= ir.modules@);
    InspectSummary {
        title: ir.info.title.clone(),
        version: ir.info.version.clone(),
        schemas,
        operations,
        modules,
    }
}

} // verus!
