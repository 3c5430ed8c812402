use oag::named_map::NamedMap;
use oag::pack::{
    default_ampersand_sep, default_camel, default_pipe_sep, default_semicolon_sep, FilterConfig, LayoutFile,
    LayoutsConfig, ModularLayout, PackManifest, PackMeta, ScaffoldConfig, TemplatePack, TypeMapConfig,
};

fn meta(id: &str, extends: Option<&str>) -> PackMeta {
    PackMeta {
        id: id.into(),
        name: id.into(),
        version: "1".into(),
        description: String::new(),
        extends: extends.map(|e| e.to_string()),
        field_casing: "camel".into(),
        operation_casing: "camel".into(),
    }
}

fn lf(path: &str) -> LayoutFile {
    LayoutFile { path: path.into(), template: format!("{path}.j2"), when: None }
}

fn pack(id: &str, extends: Option<&str>, templates: &[(&str, &str)], files: Vec<LayoutFile>, extra: Vec<LayoutFile>) -> TemplatePack {
    let mut t = NamedMap::new();
    for (k, v) in templates {
        t.insert(k.to_string(), v.to_string());
    }
    let mut filters = NamedMap::new();
    filters.insert(format!("{id}_filter"), FilterConfig { replace: "a".into(), with: "b".into() });
    TemplatePack {
        manifest: PackManifest {
            pack: meta(id, extends),
            type_map: TypeMapConfig::default(),
            filters,
            layouts: LayoutsConfig { modular: Some(ModularLayout { files, extra_files: extra }), bundled: None, split: None },
            scaffold: ScaffoldConfig { files: vec![], test_files: vec![] },
            formatters: NamedMap::new(),
            validators: NamedMap::new(),
        },
        templates: t,
    }
}

#[test]
fn extending_pack_overrides_and_adds() {
    let mut base = pack("node-client", None, &[("client.ts.j2", "base client"), ("types.ts.j2", "base types")], vec![lf("types.ts")], vec![]);
    let ext = pack(
        "react-swr-client",
        Some("node-client"),
        &[("client.ts.j2", "react client"), ("hooks.ts.j2", "hooks")],
        vec![lf("provider.tsx")],
        vec![lf("hooks.ts")],
    );
    base.merge_from(&ext);
    assert_eq!(base.templates.get("client.ts.j2").map(|s| s.as_str()), Some("react client"));
    assert_eq!(base.templates.get("types.ts.j2").map(|s| s.as_str()), Some("base types"));
    assert_eq!(base.templates.get("hooks.ts.j2").map(|s| s.as_str()), Some("hooks"));
    assert_eq!(base.templates.len(), 3);
    let paths: Vec<&str> = base.manifest.layouts.modular.as_ref().unwrap().files.iter().map(|f| f.path.as_str()).collect();
    assert_eq!(paths, vec!["types.ts", "hooks.ts", "provider.tsx"]);
    assert_eq!(base.manifest.pack.id, "react-swr-client");
    assert_eq!(base.manifest.filters.len(), 2);
    // An empty type map in the extending pack keeps the base's.
    assert_eq!(base.manifest.type_map.string, "");
}

#[test]
fn extending_type_map_replaces_base() {
    let mut base = pack("a", None, &[], vec![], vec![]);
    let mut ext = pack("b", Some("a"), &[], vec![], vec![]);
    ext.manifest.type_map.string = "str".into();
    ext.manifest.scaffold.files.push(lf("pyproject.toml"));
    base.merge_from(&ext);
    assert_eq!(base.manifest.type_map.string, "str");
    assert_eq!(base.manifest.scaffold.files.len(), 1);
}

#[test]
fn manifest_defaults() {
    assert_eq!(default_camel(), "camel");
    assert_eq!(default_semicolon_sep(), "; ");
    assert_eq!(default_pipe_sep(), " | ");
    assert_eq!(default_ampersand_sep(), " & ");
    let tm = TypeMapConfig::default();
    assert_eq!(tm.union_separator, "");
    assert!(tm.array_union.is_none());
}
