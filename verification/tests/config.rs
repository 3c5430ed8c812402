use oag::config::{
    convert_legacy, default_config_content, GeneratorId, LegacyClientConfig, LegacyConfig, LegacyOutputLayout,
    LegacyOutputOptions, LegacyTargetKind, NamingConfig, NamingStrategy, OagConfig, OutputLayout, ScaffoldValue,
    ToolSetting,
};

fn legacy(target: LegacyTargetKind, layout: LegacyOutputLayout) -> LegacyConfig {
    let mut output_options = LegacyOutputOptions::default();
    output_options.layout = layout;
    LegacyConfig {
        input: "spec.yaml".to_string(),
        output: "out".to_string(),
        target,
        naming: NamingConfig::default(),
        output_options,
        client: LegacyClientConfig { base_url: None, no_jsdoc: false },
    }
}

#[test]
fn test_default_config() {
    let config = OagConfig::default();
    assert_eq!(config.input, "openapi.yaml");
    assert_eq!(config.naming.strategy, NamingStrategy::UseOperationId);
    assert_eq!(config.naming.aliases.len(), 0);
    assert_eq!(config.generators.len(), 0);
}

#[test]
fn test_parse_legacy_typescript() {
    let mut cfg = legacy(LegacyTargetKind::Typescript, LegacyOutputLayout::Single);
    cfg.client = LegacyClientConfig { base_url: Some("https://api.example.com".to_string()), no_jsdoc: true };
    let config = convert_legacy(cfg);
    assert_eq!(config.input, "spec.yaml");
    assert_eq!(config.generators.len(), 1);
    let node_gen = &config.generators[&GeneratorId::NodeClient];
    assert_eq!(node_gen.output, "out");
    assert_eq!(node_gen.base_url, Some("https://api.example.com".to_string()));
    assert_eq!(node_gen.no_jsdoc, Some(true));
}

#[test]
fn test_parse_legacy_react() {
    let config = convert_legacy(legacy(LegacyTargetKind::React, LegacyOutputLayout::Single));
    assert_eq!(config.generators.len(), 1);
    assert!(config.generators.contains_key(&GeneratorId::ReactSwrClient));
}

#[test]
fn test_parse_legacy_all_single() {
    let config = convert_legacy(legacy(LegacyTargetKind::All, LegacyOutputLayout::Single));
    assert_eq!(config.generators.len(), 1);
    assert!(config.generators.contains_key(&GeneratorId::ReactSwrClient));
}

#[test]
fn test_parse_legacy_all_split() {
    let config = convert_legacy(legacy(LegacyTargetKind::All, LegacyOutputLayout::Split));
    assert_eq!(config.generators.len(), 2);
    assert!(config.generators.contains_key(&GeneratorId::NodeClient));
    assert!(config.generators.contains_key(&GeneratorId::ReactSwrClient));
    assert_eq!(config.generators[&GeneratorId::NodeClient].output, "out/typescript");
    assert_eq!(config.generators[&GeneratorId::ReactSwrClient].output, "out/react");
    let ids: Vec<&str> = config.generators.keys().map(|id| id.as_str()).collect();
    assert_eq!(ids, vec!["node-client", "react-swr-client"]);
}

#[test]
fn test_parse_minimal_config() {
    // `input: api.yaml` alone: a legacy config with every default.
    let mut cfg = legacy(LegacyTargetKind::All, LegacyOutputLayout::Single);
    cfg.input = "api.yaml".to_string();
    cfg.output = "src/generated".to_string();
    let config = convert_legacy(cfg);
    assert_eq!(config.input, "api.yaml");
    assert_eq!(config.generators.len(), 1);
}

#[test]
fn legacy_scaffold_follows_output_options() {
    let mut cfg = legacy(LegacyTargetKind::Typescript, LegacyOutputLayout::Single);
    cfg.output_options.biome = false;
    cfg.output_options.package_name = Some("@org/client".to_string());
    let config = convert_legacy(cfg);
    let g = &config.generators[&GeneratorId::NodeClient];
    assert_eq!(g.layout, OutputLayout::Modular);
    assert_eq!(g.source_dir, "src");
    match &g.scaffold {
        Some(ScaffoldValue::Legacy(s)) => {
            assert_eq!(s.formatter, ToolSetting::Disabled);
            assert_eq!(s.bundler, ToolSetting::Named("tsdown".to_string()));
            assert_eq!(s.test_runner, "vitest");
            assert_eq!(s.package_name, Some("@org/client".to_string()));
            assert!(s.index);
        }
        _ => panic!("legacy config should imply a scaffold"),
    }
}

#[test]
fn test_tool_setting_resolve() {
    assert_eq!(ToolSetting::resolve(None, "biome"), Some("biome"));
    assert_eq!(ToolSetting::resolve(Some(&ToolSetting::Named("ruff".into())), "biome"), Some("ruff"));
    assert_eq!(ToolSetting::resolve(Some(&ToolSetting::Disabled), "biome"), None);
}

#[test]
fn generator_ids_round_trip() {
    for id in [GeneratorId::NodeClient, GeneratorId::ReactSwrClient, GeneratorId::FastapiServer] {
        assert_eq!(GeneratorId::from_name(id.as_str()), Some(id));
    }
    assert_eq!(GeneratorId::from_name("go-client"), None);
}

#[test]
fn default_config_names_node_client() {
    let text = default_config_content();
    assert!(text.contains("input: openapi.yaml"));
    assert!(text.contains("  node-client:\n    output: src/generated"));
}
