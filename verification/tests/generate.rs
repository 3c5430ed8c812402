use oag::config::{GeneratorConfig, OutputLayout, ScaffoldValue};
use oag::engine::OperationGroup;
use oag::generate::{generate, pack_environment, render_scaffold, rendered_file, template_compile_error};
use oag::ir::{HttpMethod, IrInfo, IrOperation, IrReturnType, IrSpec, NormalizedName};
use oag::named_map::NamedMap;
use oag::pack::{
    BundledLayout, BundledSection, FilterConfig, LayoutFile, LayoutsConfig, ModularLayout, PackManifest, PackMeta, ScaffoldConfig, SplitLayout,
    TemplatePack, TypeMapConfig,
};

fn nn(s: &str) -> NormalizedName {
    NormalizedName {
        original: s.into(),
        pascal_case: s.into(),
        snake_case: s.to_lowercase(),
        camel_case: s.into(),
        screaming_snake: s.to_uppercase(),
    }
}

fn spec() -> IrSpec {
    IrSpec {
        info: IrInfo { title: "Pet \"Store\"".into(), version: "1".into(), description: None },
        schemas: vec![],
        operations: vec![IrOperation {
            name: nn("listPets"),
            method: HttpMethod::Get,
            path: "/pets".into(),
            summary: None,
            description: None,
            tags: vec![],
            parameters: vec![],
            request_body: None,
            return_type: IrReturnType::Void,
            deprecated: false,
        }],
        modules: vec![],
    }
}

fn lf(path: &str, template: &str, when: Option<&str>) -> LayoutFile {
    LayoutFile { path: path.into(), template: template.into(), when: when.map(|w| w.to_string()) }
}

fn pack(templates: &[(&str, &str)]) -> TemplatePack {
    let mut t = NamedMap::new();
    for (k, v) in templates {
        t.insert(k.to_string(), v.to_string());
    }
    let mut filters = NamedMap::new();
    filters.insert("dashed".to_string(), FilterConfig { replace: " ".into(), with: "-".into() });
    TemplatePack {
        manifest: PackManifest {
            pack: PackMeta {
                id: "test".into(),
                name: String::new(),
                version: String::new(),
                description: String::new(),
                extends: None,
                field_casing: "camel".into(),
                operation_casing: "camel".into(),
            },
            type_map: TypeMapConfig::default(),
            filters,
            layouts: LayoutsConfig {
                modular: Some(ModularLayout {
                    files: vec![
                        lf("{source_dir}/client.ts", "client.ts.j2", None),
                        lf("{source_dir}/sse.ts", "sse.ts.j2", Some("has_sse")),
                        lf("{source_dir}/static.txt", "missing.j2", None),
                    ],
                    extra_files: vec![],
                }),
                bundled: None,
                split: Some(SplitLayout { shared_files: vec![lf("{source_dir}/client.ts", "client.ts.j2", None)], group_template: None, index_template: None }),
            },
            scaffold: ScaffoldConfig {
                files: vec![lf("package.json", "package.json.j2", Some("scaffold.package_name"))],
                test_files: vec![],
            },
            formatters: NamedMap::new(),
            validators: NamedMap::new(),
        },
        templates: t,
    }
}

#[test]
fn renders_modular_layout() {
    let p = pack(&[
        ("client.ts.j2", "// {{ title | dashed }}\n{% for op in operations %}{{ op.method_name }} {{ op.http_method }}\n{% endfor %}"),
        ("sse.ts.j2", "sse"),
        ("package.json.j2", "{{ scaffold.package_name }} {{ source_dir }}"),
    ]);
    let mut config = GeneratorConfig::default();
    config.scaffold = Some(ScaffoldValue::Json("{\"package_name\":\"@org/pets\"}".to_string()));
    let out = generate(&spec(), &config, &p, &Vec::new()).unwrap();
    let files: Vec<(&str, &str)> = out.source_files.iter().map(|f| (f.path.as_str(), f.content.as_str())).collect();
    assert_eq!(files, vec![("client.ts", "// Pet-\"Store\"\nlistPets GET\n"), ("static.txt", "")]);
    assert_eq!(out.scaffold_files.len(), 1);
    assert_eq!(out.scaffold_files[0].path, "package.json");
    assert_eq!(out.scaffold_files[0].content, "@org/pets ");
    assert!(out.bundled.is_none());
    config.source_dir = "src".to_string();
    let out = generate(&spec(), &config, &p, &Vec::new()).unwrap();
    assert_eq!(out.source_files[0].path, "src/client.ts");
    assert_eq!(out.scaffold_files[0].content, "@org/pets src");
}

#[test]
fn scaffold_needs_options_and_conditions() {
    let p = pack(&[("client.ts.j2", "x"), ("sse.ts.j2", "sse"), ("package.json.j2", "pkg")]);
    let config = GeneratorConfig::default();
    let out = generate(&spec(), &config, &p, &Vec::new()).unwrap();
    assert!(out.scaffold_files.is_empty());
    let mut config = GeneratorConfig::default();
    config.scaffold = Some(ScaffoldValue::Json("{}".to_string()));
    let out = generate(&spec(), &config, &p, &Vec::new()).unwrap();
    assert!(out.scaffold_files.is_empty(), "the package_name condition does not hold");
}

#[test]
fn reports_template_errors() {
    let p = pack(&[("client.ts.j2", "{% for %}"), ("sse.ts.j2", "sse"), ("package.json.j2", "pkg")]);
    let err = generate(&spec(), &GeneratorConfig::default(), &p, &Vec::new()).err().unwrap();
    assert!(err.starts_with("template 'client.ts.j2': "), "{err}");
    let p = pack(&[("client.ts.j2", "{{ title - 1 }}"), ("sse.ts.j2", "sse"), ("package.json.j2", "pkg")]);
    let err = generate(&spec(), &GeneratorConfig::default(), &p, &Vec::new()).err().unwrap();
    assert!(err.starts_with("client.ts.j2: "), "{err}");
}

#[test]
fn renders_split_layout_with_groups() {
    let p = pack(&[("client.ts.j2", "client"), ("sse.ts.j2", "sse"), ("package.json.j2", "pkg")]);
    let mut config = GeneratorConfig::default();
    config.layout = OutputLayout::Split;
    let groups = vec![OperationGroup { name: nn("Pets"), operation_indices: vec![0] }];
    let out = generate(&spec(), &config, &p, &groups).unwrap();
    let paths: Vec<&str> = out.source_files.iter().map(|f| f.path.as_str()).collect();
    assert_eq!(paths, vec!["client.ts", "pets.ts", "index.ts"]);
    assert_eq!(out.source_files[0].content, "client");
    config.layout = OutputLayout::Bundled;
    assert_eq!(
        generate(&spec(), &config, &p, &groups).err(),
        Some("pack has no bundled layout defined".to_string())
    );
}

#[test]
fn bundled_layout_renders_sections_in_order() {
    let mut p = pack(&[("client.ts.j2", "client"), ("types.ts.j2", "{{ title - 1 }}"), ("sse.ts.j2", "{% if has_sse %}sse{% endif %}"), ("package.json.j2", "pkg")]);
    p.manifest.layouts.bundled = Some(BundledLayout {
        output_path: "{source_dir}/index.ts".into(),
        sections: vec![
            BundledSection { label: "client".into(), template: "client.ts.j2".into() },
            BundledSection { label: "types".into(), template: "types.ts.j2".into() },
        ],
        strip_patterns: vec![],
        strip_import_patterns: vec![],
    });
    let mut config = GeneratorConfig::default();
    config.layout = OutputLayout::Bundled;
    let err = generate(&spec(), &config, &p, &Vec::new()).err().unwrap();
    assert!(err.starts_with("types.ts.j2: "), "{err}");
    p.manifest.layouts.bundled.as_mut().unwrap().sections.pop();
    p.manifest.layouts.bundled.as_mut().unwrap().sections.push(BundledSection { label: "sse".into(), template: "sse.ts.j2".into() });
    let out = generate(&spec(), &config, &p, &Vec::new()).unwrap();
    assert!(out.source_files.is_empty());
    let b = out.bundled.unwrap();
    assert_eq!(b.path, "index.ts");
    assert_eq!(b.sections, vec![("client".to_string(), "client".to_string()), ("sse".to_string(), "".to_string())]);
}

#[test]
fn rendering_results_become_files_or_errors() {
    let path = "src/client.ts".to_string();
    let f = rendered_file(&path, "client.ts.j2", Ok("export {}".to_string())).unwrap();
    assert_eq!(f.path, "src/client.ts");
    assert_eq!(f.content, "export {}");
    assert_eq!(
        rendered_file(&path, "client.ts.j2", Err("undefined value".to_string())).err(),
        Some("client.ts.j2: undefined value".to_string())
    );
    assert_eq!(template_compile_error("types.ts.j2", "syntax error"), "template 'types.ts.j2': syntax error");
}

#[test]
fn scaffold_files_render_in_order_when_enabled() {
    let mut p = pack(&[("client.ts.j2", "x"), ("package.json.j2", "{{ scaffold.package_name }}"), ("test.ts.j2", "t")]);
    p.manifest.scaffold.test_files = vec![lf("{source_dir}/client.test.ts", "test.ts.j2", None), lf("README.md", "absent.j2", None)];
    let env = pack_environment(&p).unwrap();
    let ctx = "{\"scaffold\":{\"package_name\":\"@org/pets\"}}";
    let mut config = GeneratorConfig::default();
    assert!(render_scaffold(&env, &p, &config, ctx).unwrap().is_empty());
    config.scaffold = Some(ScaffoldValue::Json("{\"package_name\":\"@org/pets\"}".to_string()));
    config.source_dir = "src".to_string();
    let files = render_scaffold(&env, &p, &config, ctx).unwrap();
    let got: Vec<(&str, &str)> = files.iter().map(|f| (f.path.as_str(), f.content.as_str())).collect();
    assert_eq!(got, vec![("package.json", "@org/pets"), ("src/client.test.ts", "t"), ("README.md", "")]);
    let files = render_scaffold(&env, &p, &config, "{\"scaffold\":{}}").unwrap();
    let got: Vec<&str> = files.iter().map(|f| f.path.as_str()).collect();
    assert_eq!(got, vec!["src/client.test.ts", "README.md"], "the package_name condition does not hold");
}
