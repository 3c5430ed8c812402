//! Project configuration: generators, layouts, naming and tool settings.
use vstd::prelude::*;

use crate::text::owned;

verus! {

/// A tool setting that names a tool or disables it.
///
/// `"biome"` reads as `Named("biome")`, `false` as `Disabled`; leaving the
/// setting out means "use the default" (`None` at the `Option` level).
#[derive(Debug, PartialEq, Eq)]
pub enum ToolSetting {
    Named(String),
    Disabled,
}

/// The tool a setting resolves to: the default when absent, the named tool, or none when disabled.
pub open spec fn resolved_tool(setting: Option<ToolSetting>, default: Seq<char>) -> Option<Seq<char>> {
    match setting {
        None => Some(default),
        Some(ToolSetting::Named(s)) => Some(s@),
        Some(ToolSetting::Disabled) => None,
    }
}

/// The view of an optional string slice.
pub open spec fn opt_str_view(o: Option<&str>) -> Option<Seq<char>> {
    match o {
        Some(s) => Some(s@),
        None => None,
    }
}

/// The spec-level value of an optional reference.
pub open spec fn opt_deref<T>(o: Option<&T>) -> Option<T> {
    match o {
        Some(t) => Some(*t),
        None => None,
    }
}

impl ToolSetting {
    /// Resolves with a default: `None` gives the default, `Named(s)` gives `s`,
    /// `Disabled` gives nothing.
    pub fn resolve<'a>(setting: Option<&'a Self>, default: &'a str) -> (r: Option<&'a str>)
        ensures
            opt_str_view(r) == resolved_tool(opt_deref(setting), default@),
    {
        match setting {
            None => Some(default),
            Some(ToolSetting::Named(s)) => Some(s.as_str()),
            Some(ToolSetting::Disabled) => None,
        }
    }
}

/// A generator plugin identifier.
#[derive(Debug, Clone, Copy, PartialEq, Eq, Hash, Structural)]
pub enum GeneratorId {
    /// TypeScript/Node.js API client using native `fetch`.
    NodeClient,
    /// React hooks built on SWR for queries, mutations, and SSE streaming.
    ReactSwrClient,
    /// Python FastAPI server with Pydantic v2 models and route stubs.
    FastapiServer,
}

/// The identifier of a generator as written in the config file.
pub open spec fn generator_id_text(g: GeneratorId) -> Seq<char> {
    match g {
        GeneratorId::NodeClient => seq!['n', 'o', 'd', 'e', '-', 'c', 'l', 'i', 'e', 'n', 't'],
        GeneratorId::ReactSwrClient => seq![
            'r', 'e', 'a', 'c', 't', '-', 's', 'w', 'r', '-', 'c', 'l', 'i', 'e', 'n', 't'
        ],
        GeneratorId::FastapiServer => seq![
            'f', 'a', 's', 't', 'a', 'p', 'i', '-', 's', 'e', 'r', 'v', 'e', 'r'
        ],
    }
}

impl GeneratorId {
    /// The identifier as written in the config file (and the built-in pack id).
    pub fn as_str(&self) -> (r: &'static str)
        ensures
            r@ == generator_id_text(*self),
    {
        match self {
            GeneratorId::NodeClient => {
                proof { reveal_strlit("node-client"); }
                "node-client"
            },
            GeneratorId::ReactSwrClient => {
                proof { reveal_strlit("react-swr-client"); }
                "react-swr-client"
            },
            GeneratorId::FastapiServer => {
                proof { reveal_strlit("fastapi-server"); }
                "fastapi-server"
            },
        }
    }

    /// The generator that a config identifier names, if any.
    pub fn from_name(name: &str) -> (r: Option<GeneratorId>)
        ensures
            match r {
                Some(g) => generator_id_text(g) == name@,
                None => forall|g: GeneratorId| generator_id_text(g) != name@,
            },
    {
        if crate::text::str_eq(name, GeneratorId::NodeClient.as_str()) {
            Some(GeneratorId::NodeClient)
        } else if crate::text::str_eq(name, GeneratorId::ReactSwrClient.as_str()) {
            Some(GeneratorId::ReactSwrClient)
        } else if crate::text::str_eq(name, GeneratorId::FastapiServer.as_str()) {
            Some(GeneratorId::FastapiServer)
        } else {
            assert forall|g: GeneratorId| generator_id_text(g) != name@ by {
                match g {
                    GeneratorId::NodeClient => {},
                    GeneratorId::ReactSwrClient => {},
                    GeneratorId::FastapiServer => {},
                }
            }
            None
        }
    }
}

/// How generated files are laid out on disk.
#[derive(Debug, Clone, Copy, PartialEq, Eq, Structural)]
pub enum OutputLayout {
    /// Everything concatenated into one output file.
    Bundled,
    /// Separate files per concern (the default).
    Modular,
    /// Separate files per operation group, determined by `SplitBy`.
    Split,
}

/// How operations are grouped with `OutputLayout::Split`.
#[derive(Debug, Clone, Copy, PartialEq, Eq, Structural)]
pub enum SplitBy {
    Operation,
    Tag,
    Route,
}

/// How operation names are derived from the spec.
#[derive(Debug, Clone, Copy, PartialEq, Eq, Structural)]
pub enum NamingStrategy {
    /// Use the `operationId` field as-is (the default).
    UseOperationId,
    /// Derive the name from the HTTP method and path.
    UseRouteBased,
}

/// `"openapi.yaml"`.
pub open spec fn default_input_text() -> Seq<char> {
    seq!['o', 'p', 'e', 'n', 'a', 'p', 'i', '.', 'y', 'a', 'm', 'l']
}

/// `"src/generated"`.
pub open spec fn default_output_text() -> Seq<char> {
    seq!['s', 'r', 'c', '/', 'g', 'e', 'n', 'e', 'r', 'a', 't', 'e', 'd']
}

/// The spec file read when the config names none.
pub fn default_input() -> (r: String)
    ensures
        r@ == default_input_text(),
{
    let r = owned("openapi.yaml");
    proof {
        reveal_strlit("openapi.yaml");
    }
    r
}

/// The output directory used when a legacy config names none.
pub fn default_output() -> (r: String)
    ensures
        r@ == default_output_text(),
{
    let r = owned("src/generated");
    proof {
        reveal_strlit("src/generated");
    }
    r
}

/// Default config file name.
pub const CONFIG_FILE_NAME: &'static str = ".urmzd.oag.yaml";

/// The config file written by `oag init` (new format).
pub open spec fn default_config_text() -> Seq<char> {
    DEFAULT_CONFIG@
}

/// The text of the default config file.
pub const DEFAULT_CONFIG: &'static str = "# oag configuration \u{2014} https://github.com/urmzd/oag
#
# Loaded automatically when running `oag generate`.
# Override the spec with: oag generate other-spec.yaml

input: openapi.yaml

generators:
  node-client:
    output: src/generated

  # react-swr-client:
  #   output: src/generated/react

  # fastapi-server:
  #   output: src/generated/server

# --- Standalone package (pnpm workspace, publishable client) ---
#
# To generate a standalone package instead of drop-in files, add scaffold
# and set source_dir so the package has its own src/ with build tooling:
#
#   node-client:
#     output: packages/api-client
#     source_dir: src
#     scaffold:
#       package_name: \"@myorg/api-client\"
#       formatter: biome        # biome | false
#       test_runner: vitest     # vitest | false
#       bundler: tsdown         # tsdown | false

# --- Other options ---
#
# naming:
#   strategy: use_operation_id  # or use_route_based
#   aliases:
#     createChatCompletion: chat
#
# Generator options:
#   layout: modular             # bundled | modular | split
#   split_by: tag               # tag | operation | route (only with layout: split)
#   base_url: https://api.example.com
#   no_jsdoc: false
";

/// The default config file content (new format).
pub fn default_config_content() -> (r: &'static str)
    ensures
        r@ == default_config_text(),
{
    DEFAULT_CONFIG
}

/// The scaffold options of a generator, forwarded to its templates.
#[derive(Debug)]
pub enum ScaffoldValue {
    /// An object given in the config file, as JSON text.
    Json(String),
    /// The scaffold that a legacy config implies.
    Legacy(LegacyScaffold),
}

/// The scaffold options that a legacy config implies.
#[derive(Debug)]
pub struct LegacyScaffold {
    pub package_name: Option<String>,
    pub repository: Option<String>,
    pub index: bool,
    /// `biome`, or disabled.
    pub formatter: ToolSetting,
    /// `tsdown`, or disabled.
    pub bundler: ToolSetting,
    pub test_runner: String,
}

/// Configuration of one generator.
#[derive(Debug)]
pub struct GeneratorConfig {
    /// Output directory for generated files.
    pub output: String,
    pub layout: OutputLayout,
    /// Only used with the split layout.
    pub split_by: Option<SplitBy>,
    pub base_url: Option<String>,
    pub no_jsdoc: Option<bool>,
    /// Subdirectory of `output` for generated source files.
    pub source_dir: String,
    /// Scaffold options; absent (or `false` in the file) disables scaffolding.
    pub scaffold: Option<ScaffoldValue>,
}

impl Default for GeneratorConfig {
    /// The defaults: output `src/generated`, modular layout, sources straight
    /// into the output directory (empty `source_dir`), no scaffold.
    fn default() -> (r: GeneratorConfig)
        ensures
            r.output@ == default_output_text(),
            r.layout == OutputLayout::Modular,
            r.split_by is None,
            r.base_url is None,
            r.no_jsdoc is None,
            r.source_dir@.len() == 0,
            r.scaffold is None,
    {
        GeneratorConfig {
            output: default_output(),
            layout: OutputLayout::Modular,
            split_by: None,
            base_url: None,
            no_jsdoc: None,
            source_dir: String::new(),
            scaffold: None,
        }
    }
}

/// No generator occurs twice among the entries.
pub open spec fn ids_distinct(s: Seq<(GeneratorId, GeneratorConfig)>) -> bool {
    forall|i: int, j: int| 0 <= i < j < s.len() ==> s[i].0 != s[j].0
}

/// The entries after inserting `(id, cfg)`: an entry for `id` is replaced in
/// place, else the pair is appended.
pub open spec fn inserted_generator(
    s: Seq<(GeneratorId, GeneratorConfig)>,
    id: GeneratorId,
    cfg: GeneratorConfig,
) -> Seq<(GeneratorId, GeneratorConfig)> {
    if exists|i: int| 0 <= i < s.len() && s[i].0 == id {
        let i = choose|i: int| 0 <= i < s.len() && s[i].0 == id;
        s.update(i, (id, cfg))
    } else {
        s.push((id, cfg))
    }
}

#[verifier::external_type_specification]
#[verifier::external_body]
#[verifier::reject_recursive_types(K)]
#[verifier::reject_recursive_types(V)]
#[verifier::reject_recursive_types(S)]
pub struct ExIndexMap<K, V, S>(indexmap::IndexMap<K, V, S>);

/// The generators a map holds, in its order: (id, configuration).
pub uninterp spec fn generator_entries(m: indexmap::IndexMap<GeneratorId, GeneratorConfig>) -> Seq<(GeneratorId, GeneratorConfig)>;

/// The aliases a map holds, in its order: (operation name, alias).
pub uninterp spec fn alias_entries(m: indexmap::IndexMap<String, String>) -> Seq<(Seq<char>, Seq<char>)>;

/// `IndexMap::new` for generators: a map that holds nothing.
#[verifier::external_body]
fn new_generator_map() -> (r: indexmap::IndexMap<GeneratorId, GeneratorConfig>)
    ensures
        generator_entries(r).len() == 0,
{
    indexmap::IndexMap::new()
}

/// `IndexMap::new` for aliases: a map that holds nothing.
#[verifier::external_body]
fn new_alias_map() -> (r: indexmap::IndexMap<String, String>)
    ensures
        alias_entries(r).len() == 0,
{
    indexmap::IndexMap::new()
}

/// `IndexMap::insert` for generators: an id already held keeps its place and
/// takes the new configuration; a new id is appended last; no id is held
/// twice. Ids are compared by their derived `Eq`, which for this fieldless
/// enum compares variants. The old configuration that the call returns is dropped.
#[verifier::external_body]
fn insert_generator(m: &mut indexmap::IndexMap<GeneratorId, GeneratorConfig>, id: GeneratorId, cfg: GeneratorConfig)
    ensures
        generator_entries(*final(m)) == inserted_generator(generator_entries(*old(m)), id, cfg),
        ids_distinct(generator_entries(*final(m))),
{
    m.insert(id, cfg);
}

/// Naming strategy and operation aliases.
pub struct NamingConfig {
    pub strategy: NamingStrategy,
    /// Resolved operation name to alias.
    pub aliases: indexmap::IndexMap<String, String>,
}

impl Default for NamingConfig {
    /// Operation ids as they are, no aliases.
    fn default() -> (r: NamingConfig)
        ensures
            r.strategy == NamingStrategy::UseOperationId,
            alias_entries(r.aliases).len() == 0,
    {
        NamingConfig { strategy: NamingStrategy::UseOperationId, aliases: new_alias_map() }
    }
}

/// Top-level project configuration.
pub struct OagConfig {
    /// Path to the OpenAPI spec file.
    pub input: String,
    pub naming: NamingConfig,
    /// Generators to run, in order.
    pub generators: indexmap::IndexMap<GeneratorId, GeneratorConfig>,
}

impl Default for OagConfig {
    /// The defaults: input `openapi.yaml`, default naming, no generators.
    fn default() -> (r: OagConfig)
        ensures
            r.input@ == default_input_text(),
            r.naming.strategy == NamingStrategy::UseOperationId,
            alias_entries(r.naming.aliases).len() == 0,
            generator_entries(r.generators).len() == 0,
    {
        OagConfig { input: default_input(), naming: NamingConfig::default(), generators: new_generator_map() }
    }
}

/// The `target` of a legacy config.
#[derive(Debug, Clone, Copy, PartialEq, Eq, Structural)]
pub enum LegacyTargetKind {
    Typescript,
    React,
    All,
}

/// The `output_options.layout` of a legacy config.
#[derive(Debug, Clone, Copy, PartialEq, Eq, Structural)]
pub enum LegacyOutputLayout {
    Single,
    Split,
}

/// The `output_options` of a legacy config.
#[derive(Debug)]
pub struct LegacyOutputOptions {
    pub layout: LegacyOutputLayout,
    pub index: bool,
    pub biome: bool,
    pub tsdown: bool,
    pub package_name: Option<String>,
    pub repository: Option<String>,
}

impl Default for LegacyOutputOptions {
    /// The defaults: single layout, index, biome and tsdown on.
    fn default() -> (r: LegacyOutputOptions)
        ensures
            r.layout == LegacyOutputLayout::Single,
            r.index && r.biome && r.tsdown,
            r.package_name is None,
            r.repository is None,
    {
        LegacyOutputOptions {
            layout: LegacyOutputLayout::Single,
            index: true,
            biome: true,
            tsdown: true,
            package_name: None,
            repository: None,
        }
    }
}

/// The `client` table of a legacy config.
#[derive(Debug)]
pub struct LegacyClientConfig {
    pub base_url: Option<String>,
    pub no_jsdoc: bool,
}

/// A config in the legacy format (`target`, `output`, `output_options`, `client`).
pub struct LegacyConfig {
    pub input: String,
    pub output: String,
    pub target: LegacyTargetKind,
    pub naming: NamingConfig,
    pub output_options: LegacyOutputOptions,
    pub client: LegacyClientConfig,
}

/// `t` names the tool `name` when `on`, else disables it.
pub open spec fn tool_is(t: ToolSetting, on: bool, name: Seq<char>) -> bool {
    if on {
        t matches ToolSetting::Named(n) && n@ == name
    } else {
        t == ToolSetting::Disabled
    }
}

/// The scaffold a legacy config implies: its package name, repository and
/// index flag, biome and tsdown unless switched off, and vitest.
pub open spec fn legacy_scaffold_is(s: LegacyScaffold, o: LegacyOutputOptions) -> bool {
    &&& s.package_name == o.package_name
    &&& s.repository == o.repository
    &&& s.index == o.index
    &&& tool_is(s.formatter, o.biome, "biome"@)
    &&& tool_is(s.bundler, o.tsdown, "tsdown"@)
    &&& s.test_runner@ == "vitest"@
}

/// The generator a legacy config implies, writing to `output`.
pub open spec fn legacy_generator_is(c: GeneratorConfig, legacy: LegacyConfig, output: Seq<char>) -> bool {
    &&& c.output@ == output
    &&& c.layout == OutputLayout::Modular
    &&& c.split_by is None
    &&& c.base_url == legacy.client.base_url
    &&& c.no_jsdoc == Some(legacy.client.no_jsdoc)
    &&& c.source_dir@ == "src"@
    &&& c.scaffold matches Some(ScaffoldValue::Legacy(s)) && legacy_scaffold_is(s, legacy.output_options)
}

/// The generators a legacy config implies: node-client for `typescript`,
/// react-swr-client for `react` and for `all` with a single layout, and both,
/// under `<output>/typescript` and `<output>/react`, for `all` with a split layout.
pub open spec fn legacy_generators_are(g: Seq<(GeneratorId, GeneratorConfig)>, legacy: LegacyConfig) -> bool {
    match (legacy.target, legacy.output_options.layout) {
        (LegacyTargetKind::Typescript, _) => g.len() == 1 && g[0].0 == GeneratorId::NodeClient
            && legacy_generator_is(g[0].1, legacy, legacy.output@),
        (LegacyTargetKind::React, _) => g.len() == 1 && g[0].0 == GeneratorId::ReactSwrClient
            && legacy_generator_is(g[0].1, legacy, legacy.output@),
        (LegacyTargetKind::All, LegacyOutputLayout::Single) => g.len() == 1 && g[0].0 == GeneratorId::ReactSwrClient
            && legacy_generator_is(g[0].1, legacy, legacy.output@),
        (LegacyTargetKind::All, LegacyOutputLayout::Split) => {
            &&& g.len() == 2
            &&& g[0].0 == GeneratorId::NodeClient
            &&& legacy_generator_is(g[0].1, legacy, legacy.output@ + "/typescript"@)
            &&& g[1].0 == GeneratorId::ReactSwrClient
            &&& legacy_generator_is(g[1].1, legacy, legacy.output@ + "/react"@)
        },
    }
}

fn legacy_scaffold(o: &LegacyOutputOptions) -> (r: LegacyScaffold)
    ensures
        legacy_scaffold_is(r, *o),
{
    LegacyScaffold {
        package_name: match &o.package_name {
            Some(s) => Some(s.clone()),
            None => None,
        },
        repository: match &o.repository {
            Some(s) => Some(s.clone()),
            None => None,
        },
        index: o.index,
        formatter: if o.biome { ToolSetting::Named(owned("biome")) } else { ToolSetting::Disabled },
        bundler: if o.tsdown { ToolSetting::Named(owned("tsdown")) } else { ToolSetting::Disabled },
        test_runner: owned("vitest"),
    }
}

fn legacy_generator(legacy: &LegacyConfig, output: String) -> (r: GeneratorConfig)
    ensures
        legacy_generator_is(r, *legacy, output@),
{
    GeneratorConfig {
        output,
        layout: OutputLayout::Modular,
        split_by: None,
        base_url: match &legacy.client.base_url {
            Some(s) => Some(s.clone()),
            None => None,
        },
        no_jsdoc: Some(legacy.client.no_jsdoc),
        source_dir: owned("src"),
        scaffold: Some(ScaffoldValue::Legacy(legacy_scaffold(&legacy.output_options))),
    }
}

/// Converts a legacy config to the current format.
pub fn convert_legacy(legacy: LegacyConfig) -> (r: OagConfig)
    ensures
        r.input == legacy.input,
        r.naming == legacy.naming,
        legacy_generators_are(generator_entries(r.generators), legacy),
{
    let mut generators = new_generator_map();
    match (legacy.target, legacy.output_options.layout) {
        (LegacyTargetKind::Typescript, _) => {
            insert_generator(&mut generators, GeneratorId::NodeClient, legacy_generator(&legacy, legacy.output.clone()));
        },
        (LegacyTargetKind::React, _) | (LegacyTargetKind::All, LegacyOutputLayout::Single) => {
            insert_generator(&mut generators, GeneratorId::ReactSwrClient, legacy_generator(&legacy, legacy.output.clone()));
        },
        (LegacyTargetKind::All, LegacyOutputLayout::Split) => {
            let ts_output = legacy.output.clone().concat("/typescript");
            let react_output = legacy.output.clone().concat("/react");
            insert_generator(&mut generators, GeneratorId::NodeClient, legacy_generator(&legacy, ts_output));
            insert_generator(&mut generators, GeneratorId::ReactSwrClient, legacy_generator(&legacy, react_output));
        },
    }
    OagConfig { input: legacy.input, naming: legacy.naming, generators }
}

} // verus!
