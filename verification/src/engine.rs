//! Code generation: which files a pack's layout yields, where they go, and the
//! files that are written without templates.
use vstd::prelude::*;

use crate::config::{GeneratorConfig, OutputLayout, SplitBy};
use crate::ir::{IrSpec, NormalizedName};
use crate::named_map::NamedMap;
use crate::pack::{FilterConfig, LayoutFile, TemplatePack};
use crate::text::{has_prefix, is_white_space, join_strings, owned, push_char, replace_all, replace_str, seq_join, starts_with, views, white_space};

verus! {

/// A generated file: path relative to the output directory, and content.
#[derive(Debug)]
pub struct GeneratedFile {
    pub path: String,
    pub content: String,
}

/// The rendered sections of the bundled layout, in order, for the caller to
/// join into the one file at `path`.
#[derive(Debug)]
pub struct BundledOutput {
    pub path: String,
    /// (label, rendered content) of each section.
    pub sections: Vec<(String, String)>,
}

/// The path and the (label, content) pairs of bundled sections.
pub open spec fn bundled_view(b: BundledOutput) -> (Seq<char>, Seq<(Seq<char>, Seq<char>)>) {
    (b.path@, b.sections@.map_values(|p: (String, String)| (p.0@, p.1@)))
}

/// The view of an optional bundled output.
pub open spec fn opt_bundled_view(b: Option<BundledOutput>) -> Option<(Seq<char>, Seq<(Seq<char>, Seq<char>)>)> {
    match b {
        Some(x) => Some(bundled_view(x)),
        None => None,
    }
}

/// The files of one generation: sources (always written) and scaffold files
/// (written once unless forced); for the bundled layout, instead of source
/// files, its rendered sections.
#[derive(Debug)]
pub struct GenerateOutput {
    pub source_files: Vec<GeneratedFile>,
    pub scaffold_files: Vec<GeneratedFile>,
    pub bundled: Option<BundledOutput>,
}

/// `s` with every run of `/` collapsed to a single `/`.
pub open spec fn collapse_slashes(s: Seq<char>) -> Seq<char>
    decreases s.len(),
{
    if s.len() == 0 {
        s
    } else {
        let r = collapse_slashes(s.drop_last());
        if s.last() == '/' && r.len() > 0 && r.last() == '/' {
            r
        } else {
            r.push(s.last())
        }
    }
}

/// `s` starts with `./` or with `/`.
pub open spec fn has_dot_or_slash_prefix(s: Seq<char>) -> bool {
    (s.len() >= 2 && s[0] == '.' && s[1] == '/') || (s.len() >= 1 && s[0] == '/')
}

/// `s` with leading `./` and `/` removed for as long as there are any.
pub open spec fn strip_leading(s: Seq<char>) -> Seq<char>
    decreases s.len(),
{
    if s.len() >= 2 && s[0] == '.' && s[1] == '/' {
        strip_leading(s.skip(2))
    } else if s.len() >= 1 && s[0] == '/' {
        strip_leading(s.skip(1))
    } else {
        s
    }
}

/// No two `/` follow each other in `s`.
pub open spec fn no_double_slash(s: Seq<char>) -> bool {
    forall|i: int| 0 <= i < s.len() - 1 ==> !(#[trigger] s[i] == '/' && s[i + 1] == '/')
}

/// `path` normalised: runs of `/` collapsed, then leading `./` and `/` removed.
pub open spec fn normalized_path(path: Seq<char>) -> Seq<char> {
    strip_leading(collapse_slashes(path))
}

proof fn lemma_collapse_no_double(s: Seq<char>)
    ensures
        no_double_slash(collapse_slashes(s)),
    decreases s.len(),
{
    if s.len() > 0 {
        lemma_collapse_no_double(s.drop_last());
        let r = collapse_slashes(s.drop_last());
        if !(s.last() == '/' && r.len() > 0 && r.last() == '/') {
            let t = r.push(s.last());
            assert forall|i: int| 0 <= i < t.len() - 1 implies !(#[trigger] t[i] == '/' && t[i + 1] == '/') by {
                if i < r.len() - 1 {
                    assert(t[i] == r[i] && t[i + 1] == r[i + 1]);
                }
            }
        }
    }
}

proof fn lemma_strip_leading(s: Seq<char>)
    requires
        no_double_slash(s),
    ensures
        no_double_slash(strip_leading(s)),
        !has_dot_or_slash_prefix(strip_leading(s)),
    decreases s.len(),
{
    if s.len() >= 2 && s[0] == '.' && s[1] == '/' {
        let t = s.skip(2);
        assert forall|i: int| 0 <= i < t.len() - 1 implies !(#[trigger] t[i] == '/' && t[i + 1] == '/') by {
            assert(t[i] == s[i + 2] && t[i + 1] == s[i + 3]);
        }
        lemma_strip_leading(t);
    } else if s.len() >= 1 && s[0] == '/' {
        let t = s.skip(1);
        assert forall|i: int| 0 <= i < t.len() - 1 implies !(#[trigger] t[i] == '/' && t[i + 1] == '/') by {
            assert(t[i] == s[i + 1] && t[i + 1] == s[i + 2]);
        }
        lemma_strip_leading(t);
    }
}

/// A normalised path holds no `//` and starts with neither `./` nor `/`.
pub proof fn lemma_normalized_path(path: Seq<char>)
    ensures
        no_double_slash(normalized_path(path)),
        !has_dot_or_slash_prefix(normalized_path(path)),
{
    lemma_collapse_no_double(path);
    lemma_strip_leading(collapse_slashes(path));
}

/// Normalises a file path: collapses every run of `/` into one, then removes
/// leading `./` and `/` until none is left.
pub fn normalize_path(path: &str) -> (r: String)
    ensures
        r@ == normalized_path(path@),
        no_double_slash(r@),
        !has_dot_or_slash_prefix(r@),
{
    proof {
        lemma_normalized_path(path@);
    }
    let n = path.unicode_len();
    let mut c = String::new();
    let mut i: usize = 0;
    assert(path@.take(0) =~= Seq::<char>::empty());
    while i < n
        invariant
            n == path@.len(),
            i <= n,
            c@ == collapse_slashes(path@.take(i as int)),
        decreases n - i,
    {
        let ch = path.get_char(i);
        assert(path@.take(i + 1).drop_last() =~= path@.take(i as int));
        assert(path@.take(i + 1).last() == ch);
        let m = c.as_str().unicode_len();
        let prev_slash = m > 0 && c.as_str().get_char(m - 1) == '/';
        if !(ch == '/' && prev_slash) {
            push_char(&mut c, ch);
        }
        i = i + 1;
    }
    assert(path@.take(n as int) =~= path@);
    let m = c.as_str().unicode_len();
    let mut start: usize = 0;
    assert(c@.skip(0) =~= c@);
    loop
        invariant
            m == c@.len(),
            start <= m,
            strip_leading(c@) == strip_leading(c@.skip(start as int)),
        ensures
            start <= m,
            strip_leading(c@) == c@.skip(start as int),
        decreases m - start,
    {
        let ghost t = c@.skip(start as int);
        assert(t.len() == m - start);
        if m - start >= 2 && c.as_str().get_char(start) == '.' && c.as_str().get_char(start + 1) == '/' {
            assert(t.skip(2) =~= c@.skip(start + 2));
            start = start + 2;
        } else if m - start >= 1 && c.as_str().get_char(start) == '/' {
            assert(t.skip(1) =~= c@.skip(start + 1));
            start = start + 1;
        } else {
            break;
        }
    }
    owned(c.as_str().substring_char(start, m))
}

/// Where a layout file goes: its path with `{source_dir}` filled in, normalised.
pub open spec fn file_path_text(template: Seq<char>, source_dir: Seq<char>) -> Seq<char> {
    normalized_path(replace_all(template, "{source_dir}"@, source_dir))
}

/// Where a layout file goes.
pub fn output_file_path(template: &str, source_dir: &str) -> (r: String)
    ensures
        r@ == file_path_text(template@, source_dir@),
{
    proof {
        reveal_strlit("{source_dir}");
    }
    let filled = replace_str(template, "{source_dir}", source_dir);
    normalize_path(filled.as_str())
}

/// A file that a layout asks for.
#[derive(Debug)]
pub struct PlannedFile {
    pub path: String,
    pub template: String,
    /// Condition expression; the file is skipped when it does not hold.
    pub when: Option<String>,
    /// Whether the pack has the template; without it the file is written empty.
    pub has_template: bool,
}

/// `p` is the file that layout entry `f` asks for.
pub open spec fn planned_file_is(p: PlannedFile, f: LayoutFile, templates: Map<Seq<char>, String>, source_dir: Seq<char>) -> bool {
    &&& p.path@ == file_path_text(f.path@, source_dir)
    &&& p.template == f.template
    &&& p.when == f.when
    &&& p.has_template == templates.contains_key(f.template@)
}

/// The files that layout entries ask for, in order.
pub open spec fn planned_files_are(
    ps: Seq<PlannedFile>,
    fs: Seq<LayoutFile>,
    templates: Map<Seq<char>, String>,
    source_dir: Seq<char>,
) -> bool {
    &&& ps.len() == fs.len()
    &&& forall|k: int| 0 <= k < ps.len() ==> planned_file_is(#[trigger] ps[k], fs[k], templates, source_dir)
}

fn plan_files(files: &Vec<LayoutFile>, templates: &NamedMap<String>, source_dir: &str) -> (r: Vec<PlannedFile>)
    ensures
        planned_files_are(r@, files@, templates@, source_dir@),
{
    let mut out: Vec<PlannedFile> = Vec::new();
    let mut i: usize = 0;
    while i < files.len()
        invariant
            i <= files@.len(),
            out@.len() == i,
            forall|k: int| 0 <= k < i ==> planned_file_is(#[trigger] out@[k], files@[k], templates@, source_dir@),
        decreases files@.len() - i,
    {
        let f = &files[i];
        let has_template = templates.get(f.template.as_str()).is_some();
        out.push(PlannedFile {
            path: output_file_path(f.path.as_str(), source_dir),
            template: f.template.clone(),
            when: match &f.when {
                Some(w) => Some(w.clone()),
                None => None,
            },
            has_template,
        });
        i = i + 1;
    }
    out
}

/// The files of the modular layout, or the error when the pack has none.
pub fn plan_modular(pack: &TemplatePack, source_dir: &str) -> (r: Result<Vec<PlannedFile>, String>)
    ensures
        match pack.manifest.layouts.modular {
            Some(layout) => r matches Ok(ps) && planned_files_are(ps@, layout.files@, pack.templates@, source_dir@),
            None => r matches Err(e) && e@ == "pack has no modular layout defined"@,
        },
{
    match &pack.manifest.layouts.modular {
        Some(layout) => {
            Ok(plan_files(&layout.files, &pack.templates, source_dir))
        },
        None => Err(owned("pack has no modular layout defined")),
    }
}

/// The scaffold files and then the scaffold test files of a pack.
pub fn plan_scaffold(pack: &TemplatePack, source_dir: &str) -> (r: Vec<PlannedFile>)
    ensures
        planned_files_are(r@, pack.manifest.scaffold.files@ + pack.manifest.scaffold.test_files@, pack.templates@, source_dir@),
{
    let mut out = plan_files(&pack.manifest.scaffold.files, &pack.templates, source_dir);
    let mut tests = plan_files(&pack.manifest.scaffold.test_files, &pack.templates, source_dir);
    let ghost a = out@;
    let ghost b = tests@;
    out.append(&mut tests);
    proof {
        let fs = pack.manifest.scaffold.files@;
        let ts = pack.manifest.scaffold.test_files@;
        assert forall|k: int| 0 <= k < out@.len() implies planned_file_is(#[trigger] out@[k], (fs + ts)[k], pack.templates@, source_dir@) by {
            if k < fs.len() {
                assert(out@[k] == a[k]);
                assert(planned_file_is(a[k], fs[k], pack.templates@, source_dir@));
            } else {
                assert(out@[k] == b[k - fs.len()]);
                assert(planned_file_is(b[k - fs.len()], ts[k - fs.len()], pack.templates@, source_dir@));
            }
        }
    }
    out
}

/// The bundled output: its path and the (label, template) of each section in order.
#[derive(Debug)]
pub struct BundledPlan {
    pub path: String,
    pub sections: Vec<(String, String)>,
}

/// The bundled output of a pack, or the error when the pack has no bundled layout.
pub fn plan_bundled(pack: &TemplatePack, source_dir: &str) -> (r: Result<BundledPlan, String>)
    ensures
        match pack.manifest.layouts.bundled {
            Some(layout) => r matches Ok(p) && p.path@ == file_path_text(layout.output_path@, source_dir@)
                && p.sections@.len() == layout.sections@.len()
                && forall|k: int| 0 <= k < p.sections@.len() ==> (#[trigger] p.sections@[k]).0 == layout.sections@[k].label
                    && p.sections@[k].1 == layout.sections@[k].template,
            None => r matches Err(e) && e@ == "pack has no bundled layout defined"@,
        },
{
    match &pack.manifest.layouts.bundled {
        Some(layout) => {
            let mut sections: Vec<(String, String)> = Vec::new();
            let mut i: usize = 0;
            while i < layout.sections.len()
                invariant
                    i <= layout.sections@.len(),
                    sections@.len() == i,
                    forall|k: int| 0 <= k < i ==> (#[trigger] sections@[k]).0 == layout.sections@[k].label
                        && sections@[k].1 == layout.sections@[k].template,
                decreases layout.sections@.len() - i,
            {
                sections.push((layout.sections[i].label.clone(), layout.sections[i].template.clone()));
                i = i + 1;
            }
            Ok(BundledPlan { path: output_file_path(layout.output_path.as_str(), source_dir), sections })
        },
        None => Err(owned("pack has no bundled layout defined")),
    }
}

/// The shared files of the split layout, or the error when the pack has none.
pub fn plan_split_shared(pack: &TemplatePack, source_dir: &str) -> (r: Result<Vec<PlannedFile>, String>)
    ensures
        match pack.manifest.layouts.split {
            Some(layout) => r matches Ok(ps) && planned_files_are(ps@, layout.shared_files@, pack.templates@, source_dir@),
            None => r matches Err(e) && e@ == "pack has no split layout defined"@,
        },
{
    match &pack.manifest.layouts.split {
        Some(layout) => {
            Ok(plan_files(&layout.shared_files, &pack.templates, source_dir))
        },
        None => Err(owned("pack has no split layout defined")),
    }
}

/// A group of operations of the split layout.
#[derive(Debug)]
pub struct OperationGroup {
    pub name: NormalizedName,
    /// Indices into the spec's operations.
    pub operation_indices: Vec<usize>,
}

/// The re-export file of a group: a header naming the group and listing its
/// operations, then the re-exports of the client and the types.
pub open spec fn group_file_text(group_original: Seq<char>, op_names: Seq<Seq<char>>) -> Seq<char> {
    let lines = seq!["// Auto-generated by oag \u{2014} do not edit"@, "// Operations group: "@ + group_original, Seq::empty(),
        "// This group contains the following operations:"@]
        + op_names.map_values(|n: Seq<char>| "//   - "@ + n)
        + seq![Seq::empty(), "// Import the client and call the relevant methods:"@,
        "// import { ApiClient } from \"./client\";"@, Seq::empty(),
        "export { ApiClient } from \"./client\";"@, "export * from \"./types\";"@];
    seq_join(lines, "\n"@) + "\n"@
}

/// The index file of the split layout: the shared re-exports, then one per group.
pub open spec fn split_index_text(group_names: Seq<Seq<char>>) -> Seq<char> {
    let lines = seq!["// Auto-generated by oag \u{2014} do not edit"@, "export * from \"./types\";"@,
        "export * from \"./guards\";"@,
        "export { ApiClient, type ClientConfig, type RequestOptions } from \"./client\";"@,
        "export { streamSse, SSEError, type SSEOptions } from \"./sse\";"@]
        + group_names.map_values(|n: Seq<char>| "export * from \"./"@ + n + "\";"@);
    seq_join(lines, "\n"@) + "\n"@
}

/// The camel-case names of the operations of a group, in the group's order.
pub open spec fn group_op_names(ir: IrSpec, g: OperationGroup) -> Seq<Seq<char>> {
    g.operation_indices@.map_values(|i: usize| ir.operations@[i as int].name.camel_case@)
}

/// Builds the re-export file of a group.
pub fn group_file(ir: &IrSpec, group: &OperationGroup, source_dir: &str) -> (r: GeneratedFile)
    requires
        forall|k: int| 0 <= k < group.operation_indices@.len() ==> #[trigger] group.operation_indices@[k] < ir.operations@.len(),
    ensures
        r.path@ == normalized_path(source_dir@ + "/"@ + group.name.snake_case@ + ".ts"@),
        r.content@ == group_file_text(group.name.original@, group_op_names(*ir, *group)),
{
    let mut lines: Vec<String> = Vec::new();
    lines.push(owned("// Auto-generated by oag \u{2014} do not edit"));
    lines.push(owned("// Operations group: ").concat(group.name.original.as_str()));
    lines.push(String::new());
    lines.push(owned("// This group contains the following operations:"));
    let ghost head = views(lines@);
    let mut i: usize = 0;
    while i < group.operation_indices.len()
        invariant
            forall|k: int| 0 <= k < group.operation_indices@.len() ==> #[trigger] group.operation_indices@[k] < ir.operations@.len(),
            i <= group.operation_indices@.len(),
            views(lines@) == head + group_op_names(*ir, *group).take(i as int).map_values(|n: Seq<char>| "//   - "@ + n),
        decreases group.operation_indices@.len() - i,
    {
        let idx = group.operation_indices[i];
        let ghost before = views(lines@);
        let line = owned("//   - ").concat(ir.operations[idx].name.camel_case.as_str());
        lines.push(line);
        proof {
            let names = group_op_names(*ir, *group);
            let f = |n: Seq<char>| "//   - "@ + n;
            assert(names[i as int] == ir.operations@[idx as int].name.camel_case@);
            assert(views(lines@) =~= before.push(line@));
            assert(names.take(i + 1) =~= names.take(i as int).push(names[i as int]));
            assert(names.take(i + 1).map_values(f) =~= names.take(i as int).map_values(f).push(f(names[i as int])));
            assert(views(lines@) =~= head + names.take(i + 1).map_values(f));
        }
        i = i + 1;
    }
    let ghost mid = views(lines@);
    let mut tail: Vec<String> = Vec::new();
    tail.push(String::new());
    tail.push(owned("// Import the client and call the relevant methods:"));
    tail.push(owned("// import { ApiClient } from \"./client\";"));
    tail.push(String::new());
    tail.push(owned("export { ApiClient } from \"./client\";"));
    tail.push(owned("export * from \"./types\";"));
    let ghost tv = views(tail@);
    assert(tv =~= seq![Seq::empty(), "// Import the client and call the relevant methods:"@,
            "// import { ApiClient } from \"./client\";"@, Seq::empty(),
            "export { ApiClient } from \"./client\";"@, "export * from \"./types\";"@]);
    lines.append(&mut tail);
    proof {
        let names = group_op_names(*ir, *group);
        assert(names.take(names.len() as int) =~= names);
        assert(views(lines@) =~= mid + tv);
        assert(head =~= seq!["// Auto-generated by oag \u{2014} do not edit"@, "// Operations group: "@ + group.name.original@, Seq::empty(),
            "// This group contains the following operations:"@]);
        assert(views(lines@) =~= seq!["// Auto-generated by oag \u{2014} do not edit"@, "// Operations group: "@ + group.name.original@, Seq::empty(),
            "// This group contains the following operations:"@]
            + names.map_values(|n: Seq<char>| "//   - "@ + n)
            + seq![Seq::empty(), "// Import the client and call the relevant methods:"@,
            "// import { ApiClient } from \"./client\";"@, Seq::empty(),
            "export { ApiClient } from \"./client\";"@, "export * from \"./types\";"@]);
    }
    let content = join_strings(&lines, "\n").concat("\n");
    let raw_path = owned(source_dir).concat("/").concat(group.name.snake_case.as_str()).concat(".ts");
    GeneratedFile { path: normalize_path(raw_path.as_str()), content }
}

/// Builds the index file of the split layout.
pub fn split_index_file(group_names: &Vec<String>, source_dir: &str) -> (r: GeneratedFile)
    ensures
        r.path@ == normalized_path(source_dir@ + "/index.ts"@),
        r.content@ == split_index_text(views(group_names@)),
{
    let mut lines: Vec<String> = Vec::new();
    lines.push(owned("// Auto-generated by oag \u{2014} do not edit"));
    lines.push(owned("export * from \"./types\";"));
    lines.push(owned("export * from \"./guards\";"));
    lines.push(owned("export { ApiClient, type ClientConfig, type RequestOptions } from \"./client\";"));
    lines.push(owned("export { streamSse, SSEError, type SSEOptions } from \"./sse\";"));
    let ghost head = views(lines@);
    let ghost names = views(group_names@);
    let mut i: usize = 0;
    while i < group_names.len()
        invariant
            names == views(group_names@),
            i <= names.len(),
            views(lines@) == head + names.take(i as int).map_values(|n: Seq<char>| "export * from \"./"@ + n + "\";"@),
        decreases names.len() - i,
    {
        let ghost before = views(lines@);
        let line = owned("export * from \"./").concat(group_names[i].as_str()).concat("\";");
        lines.push(line);
        proof {
            let f = |n: Seq<char>| "export * from \"./"@ + n + "\";"@;
            assert(views(lines@) =~= before.push(line@));
            assert(names.take(i + 1) =~= names.take(i as int).push(names[i as int]));
            assert(names.take(i + 1).map_values(f) =~= names.take(i as int).map_values(f).push(f(names[i as int])));
            assert(views(lines@) =~= head + names.take(i + 1).map_values(f));
        }
        i = i + 1;
    }
    assert(names.take(names.len() as int) =~= names);
    assert(head =~= seq!["// Auto-generated by oag \u{2014} do not edit"@, "export * from \"./types\";"@,
        "export * from \"./guards\";"@,
        "export { ApiClient, type ClientConfig, type RequestOptions } from \"./client\";"@,
        "export { streamSse, SSEError, type SSEOptions } from \"./sse\";"@]);
    let content = join_strings(&lines, "\n").concat("\n");
    let raw_path = owned(source_dir).concat("/index.ts");
    GeneratedFile { path: normalize_path(raw_path.as_str()), content }
}

/// The files of the split layout that need no template: one re-export file per
/// group, in group order, then the index re-exporting every group.
pub fn split_group_files(ir: &IrSpec, groups: &Vec<OperationGroup>, source_dir: &str) -> (r: Vec<GeneratedFile>)
    requires
        forall|g: int, k: int| 0 <= g < groups@.len() && 0 <= k < groups@[g].operation_indices@.len()
            ==> #[trigger] groups@[g].operation_indices@[k] < ir.operations@.len(),
    ensures
        r@.len() == groups@.len() + 1,
        forall|g: int| 0 <= g < groups@.len() ==> (#[trigger] r@[g]).path@ == normalized_path(
            source_dir@ + "/"@ + groups@[g].name.snake_case@ + ".ts"@,
        ) && r@[g].content@ == group_file_text(groups@[g].name.original@, group_op_names(*ir, groups@[g])),
        r@[groups@.len() as int].path@ == normalized_path(source_dir@ + "/index.ts"@),
        r@[groups@.len() as int].content@ == split_index_text(
            groups@.map_values(|g: OperationGroup| g.name.snake_case@),
        ),
{
    let mut files: Vec<GeneratedFile> = Vec::new();
    let mut names: Vec<String> = Vec::new();
    let mut i: usize = 0;
    while i < groups.len()
        invariant
            forall|g: int, k: int| 0 <= g < groups@.len() && 0 <= k < groups@[g].operation_indices@.len()
                ==> #[trigger] groups@[g].operation_indices@[k] < ir.operations@.len(),
            i <= groups@.len(),
            files@.len() == i,
            views(names@) == groups@.take(i as int).map_values(|g: OperationGroup| g.name.snake_case@),
            forall|g: int| 0 <= g < i ==> (#[trigger] files@[g]).path@ == normalized_path(
                source_dir@ + "/"@ + groups@[g].name.snake_case@ + ".ts"@,
            ) && files@[g].content@ == group_file_text(groups@[g].name.original@, group_op_names(*ir, groups@[g])),
        decreases groups@.len() - i,
    {
        let group = &groups[i];
        proof {
            assert forall|k: int| 0 <= k < group.operation_indices@.len() implies #[trigger] group.operation_indices@[k] < ir.operations@.len() by {
                assert(groups@[i as int].operation_indices@[k] < ir.operations@.len());
            }
        }
        files.push(group_file(ir, group, source_dir));
        let ghost before = views(names@);
        names.push(group.name.snake_case.clone());
        proof {
            let f = |g: OperationGroup| g.name.snake_case@;
            assert(views(names@) =~= before.push(group.name.snake_case@));
            assert(groups@.take(i + 1) =~= groups@.take(i as int).push(groups@[i as int]));
            assert(groups@.take(i + 1).map_values(f) =~= groups@.take(i as int).map_values(f).push(f(groups@[i as int])));
            assert(views(names@) =~= groups@.take(i + 1).map_values(f));
        }
        i = i + 1;
    }
    assert(groups@.take(groups@.len() as int) =~= groups@);
    files.push(split_index_file(&names, source_dir));
    files
}

/// The template text that evaluates a `when` condition: `true` where it holds.
pub open spec fn condition_template_text(condition: Seq<char>) -> Seq<char> {
    "{% if "@ + condition + " %}true{% endif %}"@
}

/// Wraps a condition expression into a template that renders `true` where it holds.
pub fn condition_template(condition: &str) -> (r: String)
    ensures
        r@ == condition_template_text(condition@),
{
    owned("{% if ").concat(condition).concat(" %}true{% endif %}")
}

/// `s` without leading whitespace.
pub open spec fn trim_start_text(s: Seq<char>) -> Seq<char>
    decreases s.len(),
{
    if s.len() > 0 && is_white_space(s[0]) { trim_start_text(s.skip(1)) } else { s }
}

/// `s` without trailing whitespace.
pub open spec fn trim_end_text(s: Seq<char>) -> Seq<char>
    decreases s.len(),
{
    if s.len() > 0 && is_white_space(s.last()) { trim_end_text(s.drop_last()) } else { s }
}

/// `s` without leading and trailing whitespace (`str::trim`).
pub open spec fn trim_text(s: Seq<char>) -> Seq<char> {
    trim_end_text(trim_start_text(s))
}

/// `s.trim()`.
pub fn trim(s: &str) -> (r: String)
    ensures
        r@ == trim_text(s@),
{
    let n = s.unicode_len();
    let mut start: usize = 0;
    assert(s@.skip(0) =~= s@);
    while start < n && white_space(s.get_char(start))
        invariant
            n == s@.len(),
            start <= n,
            trim_start_text(s@) == trim_start_text(s@.skip(start as int)),
        decreases n - start,
    {
        assert(s@.skip(start as int).skip(1) =~= s@.skip(start + 1));
        start = start + 1;
    }
    let mut end: usize = n;
    let ghost t = s@.skip(start as int);
    assert(trim_start_text(t) == t) by {
        if t.len() > 0 {
            assert(t[0] == s@[start as int]);
        }
    }
    while end > start && white_space(s.get_char(end - 1))
        invariant
            n == s@.len(),
            start <= end <= n,
            t == s@.skip(start as int),
            trim_end_text(t) == trim_end_text(s@.subrange(start as int, end as int)),
        decreases end - start,
    {
        let ghost u = s@.subrange(start as int, end as int);
        assert(u.last() == s@[end - 1]);
        assert(u.drop_last() =~= s@.subrange(start as int, end - 1));
        end = end - 1;
    }
    let ghost u = s@.subrange(start as int, end as int);
    assert(trim_end_text(u) == u) by {
        if u.len() > 0 {
            assert(u.last() == s@[end - 1]);
        }
    }
    proof {
        assert(s@.subrange(start as int, n as int) =~= t);
    }
    owned(s.substring_char(start, end))
}

/// Whether a rendered condition template says the condition holds: it
/// rendered, and reads `true` once trimmed.
pub open spec fn condition_held(rendered: Option<Seq<char>>) -> bool {
    match rendered {
        Some(s) => trim_text(s) == "true"@,
        None => false,
    }
}

/// Reads the result of a rendered condition template (`None` when it failed to render).
pub fn condition_holds(rendered: Option<&str>) -> (r: bool)
    ensures
        r == condition_held(match rendered {
            Some(s) => Some(s@),
            None => None,
        }),
{
    match rendered {
        Some(s) => {
            let t = trim(s);
            crate::text::str_eq(t.as_str(), "true")
        },
        None => false,
    }
}

/// `s` with `rep` before, between and after its characters (what `str::replace`
/// does with an empty pattern).
pub open spec fn interleaved(s: Seq<char>, rep: Seq<char>) -> Seq<char>
    decreases s.len(),
{
    if s.len() == 0 {
        rep
    } else {
        interleaved(s.drop_last(), rep) + seq![s.last()] + rep
    }
}

/// `s.replace(pat, rep)`, for any pattern.
pub open spec fn replaced(s: Seq<char>, pat: Seq<char>, rep: Seq<char>) -> Seq<char> {
    if pat.len() == 0 { interleaved(s, rep) } else { replace_all(s, pat, rep) }
}

/// What a pack filter does to a value: replaces `replace` with `with` throughout.
pub fn apply_filter(filter: &FilterConfig, value: &str) -> (r: String)
    ensures
        r@ == replaced(value@, filter.replace@, filter.with@),
{
    if filter.replace.as_str().unicode_len() > 0 {
        replace_str(value, filter.replace.as_str(), filter.with.as_str())
    } else {
        let n = value.unicode_len();
        let mut out = filter.with.clone();
        let mut i: usize = 0;
        assert(value@.take(0).len() == 0);
        while i < n
            invariant
                n == value@.len(),
                i <= n,
                out@ == interleaved(value@.take(i as int), filter.with@),
            decreases n - i,
        {
            let c = value.get_char(i);
            push_char(&mut out, c);
            out.append(filter.with.as_str());
            assert(value@.take(i + 1).drop_last() =~= value@.take(i as int));
            i = i + 1;
        }
        assert(value@.take(n as int) =~= value@);
        out
    }
}

/// Whether scaffold files are rendered: only when the generator has scaffold options.
pub fn scaffold_enabled(config: &GeneratorConfig) -> (r: bool)
    ensures
        r == (config.scaffold is Some),
{
    config.scaffold.is_some()
}

/// The grouping of the split layout: the configured one, else by tag.
pub fn effective_split_by(config: &GeneratorConfig) -> (r: SplitBy)
    ensures
        r == match config.split_by {
            Some(s) => s,
            None => SplitBy::Tag,
        },
{
    match config.split_by {
        Some(s) => s,
        None => SplitBy::Tag,
    }
}

/// Whether JSDoc comments are left out: off unless configured.
pub fn no_jsdoc(config: &GeneratorConfig) -> (r: bool)
    ensures
        r == match config.no_jsdoc {
            Some(b) => b,
            None => false,
        },
{
    match config.no_jsdoc {
        Some(b) => b,
        None => false,
    }
}

} // verus!
