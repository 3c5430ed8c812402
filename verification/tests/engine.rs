use oag::config::{GeneratorConfig, SplitBy};
use oag::engine::{
    apply_filter, condition_holds, condition_template, effective_split_by, no_jsdoc, normalize_path, output_file_path,
    plan_bundled, plan_modular, plan_scaffold, plan_split_shared, scaffold_enabled, split_group_files, trim,
    OperationGroup,
};
use oag::ir::{HttpMethod, IrInfo, IrOperation, IrReturnType, IrSpec, NormalizedName};
use oag::named_map::NamedMap;
use oag::pack::{
    FilterConfig, LayoutFile, LayoutsConfig, ModularLayout, PackManifest, PackMeta, ScaffoldConfig, TemplatePack,
    TypeMapConfig,
};

fn nn(s: &str) -> NormalizedName {
    NormalizedName {
        original: s.into(),
        pascal_case: s.into(),
        snake_case: s.to_lowercase(),
        camel_case: s.into(),
        screaming_snake: s.to_uppercase(),
    }
}

fn file(path: &str, template: &str, when: Option<&str>) -> LayoutFile {
    LayoutFile { path: path.into(), template: template.into(), when: when.map(|w| w.to_string()) }
}

fn pack(modular: Option<ModularLayout>, scaffold: ScaffoldConfig) -> TemplatePack {
    let mut templates = NamedMap::new();
    templates.insert("types.ts.j2".to_string(), "{{ title }}".to_string());
    TemplatePack {
        manifest: PackManifest {
            pack: PackMeta {
                id: "p".into(),
                name: String::new(),
                version: String::new(),
                description: String::new(),
                extends: None,
                field_casing: "camel".into(),
                operation_casing: "camel".into(),
            },
            type_map: TypeMapConfig::default(),
            filters: NamedMap::new(),
            layouts: LayoutsConfig { modular, bundled: None, split: None },
            scaffold,
            formatters: NamedMap::new(),
            validators: NamedMap::new(),
        },
        templates,
    }
}

#[test]
fn normalizes_paths() {
    assert_eq!(normalize_path("./src//types.ts"), "src/types.ts");
    assert_eq!(normalize_path("/types.ts"), "types.ts");
    assert_eq!(normalize_path("src/index.ts"), "src/index.ts");
    assert_eq!(normalize_path("//a"), "a");
    assert_eq!(normalize_path("a///b"), "a/b");
    assert_eq!(normalize_path("././x"), "x");
    assert_eq!(normalize_path("/./x"), "x");
    assert_eq!(normalize_path(".//x//"), "x/");
    assert_eq!(normalize_path("./"), "");
    assert_eq!(normalize_path("../a"), "../a");
    assert_eq!(output_file_path("{source_dir}/types.ts", "src"), "src/types.ts");
    assert_eq!(output_file_path("{source_dir}/types.ts", ""), "types.ts");
    assert_eq!(output_file_path("./{source_dir}/x.ts", "lib"), "lib/x.ts");
}

#[test]
fn plans_modular_layout() {
    let layout = ModularLayout {
        files: vec![file("{source_dir}/types.ts", "types.ts.j2", None), file("{source_dir}/extra.ts", "missing.j2", Some("has_sse"))],
        extra_files: vec![],
    };
    let p = pack(Some(layout), ScaffoldConfig { files: vec![], test_files: vec![] });
    let plan = plan_modular(&p, "src").unwrap();
    assert_eq!(plan.len(), 2);
    assert_eq!(plan[0].path, "src/types.ts");
    assert!(plan[0].has_template);
    assert_eq!(plan[1].when.as_deref(), Some("has_sse"));
    assert!(!plan[1].has_template);
    let empty = pack(None, ScaffoldConfig { files: vec![], test_files: vec![] });
    assert_eq!(plan_modular(&empty, "src").err(), Some("pack has no modular layout defined".to_string()));
    assert_eq!(plan_bundled(&empty, "src").err(), Some("pack has no bundled layout defined".to_string()));
    assert_eq!(plan_split_shared(&empty, "src").err(), Some("pack has no split layout defined".to_string()));
}

#[test]
fn plans_scaffold_files_then_tests() {
    let p = pack(
        None,
        ScaffoldConfig {
            files: vec![file("package.json", "package.json.j2", None)],
            test_files: vec![file("{source_dir}/client.test.ts", "types.ts.j2", None)],
        },
    );
    let plan = plan_scaffold(&p, "src");
    let paths: Vec<&str> = plan.iter().map(|f| f.path.as_str()).collect();
    assert_eq!(paths, vec!["package.json", "src/client.test.ts"]);
}

#[test]
fn split_files_list_groups() {
    let mut ops = Vec::new();
    for n in ["listPets", "getPet"] {
        ops.push(IrOperation {
            name: nn(n),
            method: HttpMethod::Get,
            path: "/pets".into(),
            summary: None,
            description: None,
            tags: vec![],
            parameters: vec![],
            request_body: None,
            return_type: IrReturnType::Void,
            deprecated: false,
        });
    }
    let ir = IrSpec {
        info: IrInfo { title: "t".into(), version: "1".into(), description: None },
        schemas: vec![],
        operations: ops,
        modules: vec![],
    };
    let groups = vec![OperationGroup { name: nn("Pets"), operation_indices: vec![1, 0] }];
    let files = split_group_files(&ir, &groups, "src");
    assert_eq!(files.len(), 2);
    assert_eq!(files[0].path, "src/pets.ts");
    assert_eq!(
        files[0].content,
        "// Auto-generated by oag \u{2014} do not edit\n// Operations group: Pets\n\n// This group contains the following operations:\n//   - getPet\n//   - listPets\n\n// Import the client and call the relevant methods:\n// import { ApiClient } from \"./client\";\n\nexport { ApiClient } from \"./client\";\nexport * from \"./types\";\n"
    );
    assert_eq!(files[1].path, "src/index.ts");
    assert!(files[1].content.ends_with("export { streamSse, SSEError, type SSEOptions } from \"./sse\";\nexport * from \"./pets\";\n"));
}

#[test]
fn conditions_and_filters() {
    assert_eq!(condition_template("has_sse"), "{% if has_sse %}true{% endif %}");
    assert!(condition_holds(Some("  true\n")));
    assert!(!condition_holds(Some("")));
    assert!(!condition_holds(Some("truer")));
    assert!(!condition_holds(None));
    assert_eq!(trim("\u{3000} a b \t"), "a b");
    let f = FilterConfig { replace: "-".into(), with: "_".into() };
    assert_eq!(apply_filter(&f, "a-b-c"), "a_b_c");
    let g = FilterConfig { replace: String::new(), with: "x".into() };
    assert_eq!(apply_filter(&g, "ab"), "xaxbx");
    assert_eq!(apply_filter(&g, ""), "x");
}

#[test]
fn generator_options() {
    let mut c = GeneratorConfig::default();
    assert!(!scaffold_enabled(&c));
    assert_eq!(effective_split_by(&c), SplitBy::Tag);
    assert!(!no_jsdoc(&c));
    c.split_by = Some(SplitBy::Route);
    c.no_jsdoc = Some(true);
    assert_eq!(effective_split_by(&c), SplitBy::Route);
    assert!(no_jsdoc(&c));
    assert_eq!(c.output, "src/generated");
    assert_eq!(c.source_dir, "");
}
