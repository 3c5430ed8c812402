//! Template packs: the manifest (`oag.pack.toml`) and the loaded templates.
use vstd::prelude::*;

use crate::named_map::{Duplicate, NamedMap};

verus! {

/// Declarative type mapping from IR types to language type strings.
#[derive(Debug)]
pub struct TypeMapConfig {
    pub string: String,
    pub number: String,
    pub integer: String,
    pub boolean: String,
    pub null: String,
    pub datetime: String,
    pub binary: String,
    pub any: String,
    pub void: String,
    pub string_literal: String,
    pub integer_literal: String,
    pub ref_type: String,
    pub array: String,
    /// Used when the inner type is a union; `array` is used when absent.
    pub array_union: Option<String>,
    pub map: String,
    pub object: String,
    pub object_empty: String,
    pub object_field_required: String,
    pub object_field_optional: String,
    pub object_field_separator: String,
    pub union_separator: String,
    pub intersection_separator: String,
    /// Suffix for optional fields (e.g. `" | None = None"` for Python).
    pub optional_suffix: String,
}

fn dup_opt(o: &Option<String>) -> (r: Option<String>)
    ensures
        r == *o,
{
    match o {
        Some(s) => Some(s.clone()),
        None => None,
    }
}

impl Duplicate for TypeMapConfig {
    fn duplicate(&self) -> (r: TypeMapConfig) {
        TypeMapConfig {
            string: self.string.clone(),
            number: self.number.clone(),
            integer: self.integer.clone(),
            boolean: self.boolean.clone(),
            null: self.null.clone(),
            datetime: self.datetime.clone(),
            binary: self.binary.clone(),
            any: self.any.clone(),
            void: self.void.clone(),
            string_literal: self.string_literal.clone(),
            integer_literal: self.integer_literal.clone(),
            ref_type: self.ref_type.clone(),
            array: self.array.clone(),
            array_union: dup_opt(&self.array_union),
            map: self.map.clone(),
            object: self.object.clone(),
            object_empty: self.object_empty.clone(),
            object_field_required: self.object_field_required.clone(),
            object_field_optional: self.object_field_optional.clone(),
            object_field_separator: self.object_field_separator.clone(),
            union_separator: self.union_separator.clone(),
            intersection_separator: self.intersection_separator.clone(),
            optional_suffix: self.optional_suffix.clone(),
        }
    }
}

impl Default for TypeMapConfig {
    /// The type map of a manifest without a `[type_map]` table: every entry empty.
    fn default() -> (r: TypeMapConfig)
        ensures
            r.string@.len() == 0,
            r.number@.len() == 0,
            r.integer@.len() == 0,
            r.boolean@.len() == 0,
            r.null@.len() == 0,
            r.datetime@.len() == 0,
            r.binary@.len() == 0,
            r.any@.len() == 0,
            r.void@.len() == 0,
            r.string_literal@.len() == 0,
            r.integer_literal@.len() == 0,
            r.ref_type@.len() == 0,
            r.array@.len() == 0,
            r.array_union is None,
            r.map@.len() == 0,
            r.object@.len() == 0,
            r.object_empty@.len() == 0,
            r.object_field_required@.len() == 0,
            r.object_field_optional@.len() == 0,
            r.object_field_separator@.len() == 0,
            r.union_separator@.len() == 0,
            r.intersection_separator@.len() == 0,
            r.optional_suffix@.len() == 0,
    {
        TypeMapConfig {
            string: String::new(),
            number: String::new(),
            integer: String::new(),
            boolean: String::new(),
            null: String::new(),
            datetime: String::new(),
            binary: String::new(),
            any: String::new(),
            void: String::new(),
            string_literal: String::new(),
            integer_literal: String::new(),
            ref_type: String::new(),
            array: String::new(),
            array_union: None,
            map: String::new(),
            object: String::new(),
            object_empty: String::new(),
            object_field_required: String::new(),
            object_field_optional: String::new(),
            object_field_separator: String::new(),
            union_separator: String::new(),
            intersection_separator: String::new(),
            optional_suffix: String::new(),
        }
    }
}

/// `"camel"`.
pub open spec fn default_camel_text() -> Seq<char> {
    seq!['c', 'a', 'm', 'e', 'l']
}

/// `"; "`.
pub open spec fn default_semicolon_sep_text() -> Seq<char> {
    seq![';', ' ']
}

/// `" | "`.
pub open spec fn default_pipe_sep_text() -> Seq<char> {
    seq![' ', '|', ' ']
}

/// `" & "`.
pub open spec fn default_ampersand_sep_text() -> Seq<char> {
    seq![' ', '&', ' ']
}

/// The casing used for field and operation names when the manifest names none.
pub fn default_camel() -> (r: String)
    ensures
        r@ == default_camel_text(),
{
    let r = crate::text::owned("camel");
    proof {
        reveal_strlit("camel");
    }
    r
}

/// Default separator between object fields.
pub fn default_semicolon_sep() -> (r: String)
    ensures
        r@ == default_semicolon_sep_text(),
{
    let r = crate::text::owned("; ");
    proof {
        reveal_strlit("; ");
    }
    r
}

/// Default separator between union variants.
pub fn default_pipe_sep() -> (r: String)
    ensures
        r@ == default_pipe_sep_text(),
{
    let r = crate::text::owned(" | ");
    proof {
        reveal_strlit(" | ");
    }
    r
}

/// Default separator between intersection parts.
pub fn default_ampersand_sep() -> (r: String)
    ensures
        r@ == default_ampersand_sep_text(),
{
    let r = crate::text::owned(" & ");
    proof {
        reveal_strlit(" & ");
    }
    r
}

/// The `[pack]` table of a manifest.
#[derive(Debug)]
pub struct PackMeta {
    pub id: String,
    pub name: String,
    pub version: String,
    pub description: String,
    /// Inherit templates, type_map, filters, layouts from another pack.
    pub extends: Option<String>,
    /// Field name casing: "camel", "snake", "original".
    pub field_casing: String,
    /// Operation name casing: "camel", "snake", "pascal".
    pub operation_casing: String,
}

impl Duplicate for PackMeta {
    fn duplicate(&self) -> (r: PackMeta) {
        PackMeta {
            id: self.id.clone(),
            name: self.name.clone(),
            version: self.version.clone(),
            description: self.description.clone(),
            extends: dup_opt(&self.extends),
            field_casing: self.field_casing.clone(),
            operation_casing: self.operation_casing.clone(),
        }
    }
}

/// A string replacement registered as a template filter.
#[derive(Debug)]
pub struct FilterConfig {
    pub replace: String,
    pub with: String,
}

impl Duplicate for FilterConfig {
    fn duplicate(&self) -> (r: FilterConfig) {
        FilterConfig { replace: self.replace.clone(), with: self.with.clone() }
    }
}

/// One output file of a layout.
#[derive(Debug)]
pub struct LayoutFile {
    pub path: String,
    pub template: String,
    /// Optional condition expression.
    pub when: Option<String>,
}

impl Duplicate for LayoutFile {
    fn duplicate(&self) -> (r: LayoutFile) {
        LayoutFile {
            path: self.path.clone(),
            template: self.template.clone(),
            when: dup_opt(&self.when),
        }
    }
}

/// A vector whose elements equal those of `v`.
pub fn dup_vec<T: Duplicate>(v: &Vec<T>) -> (r: Vec<T>)
    ensures
        r@ == v@,
{
    let mut out: Vec<T> = Vec::new();
    let mut i: usize = 0;
    while i < v.len()
        invariant
            i <= v@.len(),
            out@ == v@.take(i as int),
        decreases v@.len() - i,
    {
        out.push(v[i].duplicate());
        assert(out@ =~= v@.take(i + 1));
        i = i + 1;
    }
    assert(v@.take(v@.len() as int) =~= v@);
    out
}

/// Modular layout: one file per concern.
#[derive(Debug)]
pub struct ModularLayout {
    pub files: Vec<LayoutFile>,
    /// Additional files appended when a pack extends another.
    pub extra_files: Vec<LayoutFile>,
}

impl ModularLayout {
    /// A copy of this layout.
    pub fn duplicate(&self) -> (r: ModularLayout)
        ensures
            r.files@ == self.files@,
            r.extra_files@ == self.extra_files@,
    {
        ModularLayout { files: dup_vec(&self.files), extra_files: dup_vec(&self.extra_files) }
    }
}

/// One section of a bundled output file.
#[derive(Debug)]
pub struct BundledSection {
    pub label: String,
    pub template: String,
}

impl Duplicate for BundledSection {
    fn duplicate(&self) -> (r: BundledSection) {
        BundledSection { label: self.label.clone(), template: self.template.clone() }
    }
}

/// Bundled layout: everything in a single file.
#[derive(Debug)]
pub struct BundledLayout {
    pub output_path: String,
    pub sections: Vec<BundledSection>,
    pub strip_patterns: Vec<String>,
    pub strip_import_patterns: Vec<String>,
}

/// Two bundled layouts hold the same data.
pub open spec fn same_bundled(a: BundledLayout, b: BundledLayout) -> bool {
    &&& a.output_path == b.output_path
    &&& a.sections@ == b.sections@
    &&& a.strip_patterns@ == b.strip_patterns@
    &&& a.strip_import_patterns@ == b.strip_import_patterns@
}

impl BundledLayout {
    /// A copy of this layout.
    pub fn duplicate(&self) -> (r: BundledLayout)
        ensures
            same_bundled(r, *self),
    {
        BundledLayout {
            output_path: self.output_path.clone(),
            sections: dup_vec(&self.sections),
            strip_patterns: dup_vec(&self.strip_patterns),
            strip_import_patterns: dup_vec(&self.strip_import_patterns),
        }
    }
}

/// Split layout: one file per operation group.
#[derive(Debug)]
pub struct SplitLayout {
    pub shared_files: Vec<LayoutFile>,
    pub group_template: Option<String>,
    pub index_template: Option<String>,
}

/// Two split layouts hold the same data.
pub open spec fn same_split(a: SplitLayout, b: SplitLayout) -> bool {
    &&& a.shared_files@ == b.shared_files@
    &&& a.group_template == b.group_template
    &&& a.index_template == b.index_template
}

impl SplitLayout {
    /// A copy of this layout.
    pub fn duplicate(&self) -> (r: SplitLayout)
        ensures
            same_split(r, *self),
    {
        SplitLayout {
            shared_files: dup_vec(&self.shared_files),
            group_template: dup_opt(&self.group_template),
            index_template: dup_opt(&self.index_template),
        }
    }
}

/// The layouts a pack offers.
#[derive(Debug)]
pub struct LayoutsConfig {
    pub modular: Option<ModularLayout>,
    pub bundled: Option<BundledLayout>,
    pub split: Option<SplitLayout>,
}

/// Files written once, on the first generation.
#[derive(Debug)]
pub struct ScaffoldConfig {
    pub files: Vec<LayoutFile>,
    pub test_files: Vec<LayoutFile>,
}

impl ScaffoldConfig {
    /// A copy of this scaffold configuration.
    pub fn duplicate(&self) -> (r: ScaffoldConfig)
        ensures
            r.files@ == self.files@,
            r.test_files@ == self.test_files@,
    {
        ScaffoldConfig { files: dup_vec(&self.files), test_files: dup_vec(&self.test_files) }
    }
}

/// A formatter run on generated output when `detect` exists there.
#[derive(Debug)]
pub struct FormatterConfig {
    pub detect: String,
    pub command: String,
}

impl Duplicate for FormatterConfig {
    fn duplicate(&self) -> (r: FormatterConfig) {
        FormatterConfig { detect: self.detect.clone(), command: self.command.clone() }
    }
}

/// A validator run by `oag check` when `detect` exists in the output.
#[derive(Debug)]
pub struct ValidatorConfig {
    pub detect: String,
    pub command: String,
    /// Optional setup command run before validation.
    pub setup: Option<String>,
}

impl Duplicate for ValidatorConfig {
    fn duplicate(&self) -> (r: ValidatorConfig) {
        ValidatorConfig {
            detect: self.detect.clone(),
            command: self.command.clone(),
            setup: dup_opt(&self.setup),
        }
    }
}

/// The `oag.pack.toml` manifest.
pub struct PackManifest {
    pub pack: PackMeta,
    pub type_map: TypeMapConfig,
    pub filters: NamedMap<FilterConfig>,
    pub layouts: LayoutsConfig,
    pub scaffold: ScaffoldConfig,
    pub formatters: NamedMap<FormatterConfig>,
    pub validators: NamedMap<ValidatorConfig>,
}

/// A loaded template pack ready for code generation.
pub struct TemplatePack {
    pub manifest: PackManifest,
    /// Template name to template content.
    pub templates: NamedMap<String>,
}

/// The modular layout after a pack with `ext` as its modular layout is merged
/// into one with `base`: the extending pack's extra files and then its own
/// files are appended to the base's files; with no base layout the
/// extending layout is taken.
pub open spec fn merged_modular(base: Option<ModularLayout>, ext: Option<ModularLayout>, result: Option<ModularLayout>) -> bool {
    match ext {
        None => match (base, result) {
            (None, None) => true,
            (Some(b), Some(r)) => r.files@ == b.files@ && r.extra_files@ == b.extra_files@,
            _ => false,
        },
        Some(e) => match (base, result) {
            (None, Some(r)) => r.files@ == e.files@ && r.extra_files@ == e.extra_files@,
            (Some(b), Some(r)) => r.files@ == b.files@ + e.extra_files@ + e.files@
                && r.extra_files@ == b.extra_files@,
            _ => false,
        },
    }
}

/// `result` holds the same bundled layout as `ext` when that is present, else as `base`.
pub open spec fn overridden_bundled(base: Option<BundledLayout>, ext: Option<BundledLayout>, result: Option<BundledLayout>) -> bool {
    let chosen = if ext is Some { ext } else { base };
    match (chosen, result) {
        (None, None) => true,
        (Some(c), Some(r)) => same_bundled(r, c),
        _ => false,
    }
}

/// `result` holds the same split layout as `ext` when that is present, else as `base`.
pub open spec fn overridden_split(base: Option<SplitLayout>, ext: Option<SplitLayout>, result: Option<SplitLayout>) -> bool {
    let chosen = if ext is Some { ext } else { base };
    match (chosen, result) {
        (None, None) => true,
        (Some(c), Some(r)) => same_split(r, c),
        _ => false,
    }
}

impl TemplatePack {
    /// Merges an extending pack into this one (for `extends` support); the
    /// extending pack's entries override the base.
    pub fn merge_from(&mut self, extending: &TemplatePack)
        ensures
            final(self).templates@ == old(self).templates@.union_prefer_right(extending.templates@),
            final(self).manifest.type_map == (if extending.manifest.type_map.string@.len() != 0 {
                extending.manifest.type_map
            } else {
                old(self).manifest.type_map
            }),
            final(self).manifest.filters@ == old(self).manifest.filters@.union_prefer_right(
                extending.manifest.filters@,
            ),
            merged_modular(
                old(self).manifest.layouts.modular,
                extending.manifest.layouts.modular,
                final(self).manifest.layouts.modular,
            ),
            overridden_bundled(
                old(self).manifest.layouts.bundled,
                extending.manifest.layouts.bundled,
                final(self).manifest.layouts.bundled,
            ),
            overridden_split(
                old(self).manifest.layouts.split,
                extending.manifest.layouts.split,
                final(self).manifest.layouts.split,
            ),
            extending.manifest.scaffold.files@.len() != 0 ==> final(self).manifest.scaffold.files@
                == extending.manifest.scaffold.files@ && final(self).manifest.scaffold.test_files@
                == extending.manifest.scaffold.test_files@,
            extending.manifest.scaffold.files@.len() == 0 ==> final(self).manifest.scaffold
                == old(self).manifest.scaffold,
            final(self).manifest.formatters@ == old(self).manifest.formatters@.union_prefer_right(
                extending.manifest.formatters@,
            ),
            final(self).manifest.validators@ == old(self).manifest.validators@.union_prefer_right(
                extending.manifest.validators@,
            ),
            final(self).manifest.pack == extending.manifest.pack,
    {
        let ext = &extending.manifest;
        self.templates.extend_from(&extending.templates);

        if ext.type_map.string.as_str().unicode_len() != 0 {
            self.manifest.type_map = ext.type_map.duplicate();
        }

        self.manifest.filters.extend_from(&ext.filters);

        match &ext.layouts.modular {
            Some(ext_modular) => {
                let merged = match &self.manifest.layouts.modular {
                    Some(base_modular) => {
                        let mut files = dup_vec(&base_modular.files);
                        let mut extra = dup_vec(&ext_modular.extra_files);
                        let mut own = dup_vec(&ext_modular.files);
                        files.append(&mut extra);
                        files.append(&mut own);
                        ModularLayout { files, extra_files: dup_vec(&base_modular.extra_files) }
                    },
                    None => ext_modular.duplicate(),
                };
                self.manifest.layouts.modular = Some(merged);
            },
            None => {},
        }

        match &ext.layouts.bundled {
            Some(b) => {
                self.manifest.layouts.bundled = Some(b.duplicate());
            },
            None => {},
        }
        match &ext.layouts.split {
            Some(s) => {
                self.manifest.layouts.split = Some(s.duplicate());
            },
            None => {},
        }

        if ext.scaffold.files.len() != 0 {
            self.manifest.scaffold = ext.scaffold.duplicate();
        }

        self.manifest.formatters.extend_from(&ext.formatters);
        self.manifest.validators.extend_from(&ext.validators);

        self.manifest.pack = ext.pack.duplicate();
    }
}

} // verus!
