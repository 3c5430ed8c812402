use oag::cli::{
    build_inspect_summary, check_verdict, command_parts, generated_summary, install_source, pack_marker, readme_content,
    record_validator_outcome, resolve_pack_source, writes_scaffold_file, InstallSource, PackSource, ValidatorOutcome,
};
use oag::ir::{
    HttpMethod, IrAliasSchema, IrInfo, IrModule, IrOperation, IrReturnType, IrSchema, IrSpec, IrType, NormalizedName,
};

fn nn(s: &str) -> NormalizedName {
    NormalizedName {
        original: s.into(),
        pascal_case: s.into(),
        snake_case: s.to_lowercase(),
        camel_case: s.into(),
        screaming_snake: s.to_uppercase(),
    }
}

#[test]
fn splits_commands_into_words() {
    assert_eq!(command_parts("  npx  biome check . "), vec!["npx", "biome", "check", "."]);
    assert_eq!(command_parts("ruff\tformat\n"), vec!["ruff", "format"]);
    assert!(command_parts("   ").is_empty());
    assert!(command_parts("").is_empty());
    assert_eq!(command_parts("tsc"), vec!["tsc"]);
}

#[test]
fn records_validator_failures() {
    let mut failures = Vec::new();
    record_validator_outcome(&mut failures, "node-client", "lint", ValidatorOutcome::Passed);
    assert!(check_verdict(&failures).is_ok());
    record_validator_outcome(&mut failures, "node-client", "lint", ValidatorOutcome::SetupFailed);
    record_validator_outcome(&mut failures, "fastapi-server", "types", ValidatorOutcome::Failed);
    assert_eq!(failures, vec!["node-client: lint (setup)", "fastapi-server: types"]);
    assert_eq!(
        check_verdict(&failures),
        Err("validation failed for: node-client: lint (setup), fastapi-server: types".to_string())
    );
}

#[test]
fn scaffold_files_are_write_once() {
    assert!(writes_scaffold_file(false, false));
    assert!(!writes_scaffold_file(false, true));
    assert!(writes_scaffold_file(true, true));
}

#[test]
fn summarises_generation() {
    assert_eq!(generated_summary(3, 2, 1), "generated 6 files, 1 scaffold skipped");
    assert_eq!(generated_summary(0, 0, 0), "generated 1 files");
    assert_eq!(generated_summary(10, 0, 0), "generated 11 files");
}

#[test]
fn marks_installed_packs() {
    let installed = vec!["node-client".to_string()];
    assert_eq!(pack_marker(&installed, "node-client"), " (installed)");
    assert_eq!(pack_marker(&installed, "fastapi-server"), "");
}

#[test]
fn picks_install_source() {
    assert!(matches!(install_source(Some("dir".into()), Some("id".into())), Ok(InstallSource::GitHub(ref i)) if i == "id"));
    assert!(matches!(install_source(Some("dir".into()), None), Ok(InstallSource::Directory(ref d)) if d == "dir"));
    assert_eq!(
        install_source(None, None).err(),
        Some("provide a source path or use --id <pack_id>".to_string())
    );
}

#[test]
fn picks_pack_source() {
    match resolve_pack_source("node-client", Some(".oag/packs/node-client".into())) {
        PackSource::Installed(d) => assert_eq!(d, ".oag/packs/node-client"),
        _ => panic!("an installed pack is used when not pinned"),
    }
    match resolve_pack_source("node-client@v1", Some(".oag/packs/node-client".into())) {
        PackSource::Fetched { pack_id, git_ref, cache_dir } => {
            assert_eq!(pack_id, "node-client");
            assert_eq!(git_ref, "v1");
            assert_eq!(cache_dir, ".oag/packs/.cache/node-client/v1");
        }
        _ => panic!("a pinned pack is fetched"),
    }
    match resolve_pack_source("node-client", None) {
        PackSource::Fetched { git_ref, .. } => assert_eq!(git_ref, "main"),
        _ => panic!("a missing pack is fetched"),
    }
}

#[test]
fn readme_says_do_not_edit() {
    assert!(readme_content().starts_with("# Generated Code \u{2014} Do Not Edit\n"));
    assert!(readme_content().contains("oag generate"));
}

#[test]
fn inspect_summary() {
    let ir = IrSpec {
        info: IrInfo { title: "API".into(), version: "2.0".into(), description: None },
        schemas: vec![IrSchema::Alias(IrAliasSchema { name: nn("Id"), description: None, target: IrType::String })],
        operations: vec![IrOperation {
            name: nn("ping"),
            method: HttpMethod::Patch,
            path: "/ping".into(),
            summary: None,
            description: None,
            tags: vec!["health".into()],
            parameters: vec![],
            request_body: None,
            return_type: IrReturnType::Void,
            deprecated: false,
        }],
        modules: vec![IrModule { name: nn("health") }],
    };
    let s = build_inspect_summary(&ir);
    assert_eq!(s.title, "API");
    assert_eq!(s.version, "2.0");
    assert_eq!((s.schemas[0].name.as_str(), s.schemas[0].kind.as_str()), ("Id", "alias"));
    assert_eq!(s.operations[0].method, "PATCH");
    assert_eq!(s.operations[0].return_kind, "void");
    assert_eq!(s.operations[0].tags, vec!["health"]);
    assert_eq!(s.modules, vec!["health"]);
}
