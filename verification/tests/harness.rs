use curio::harness::{
    discover_skills, find_repo_root, path_join, plugin_catalog_checks, resolve_provider_args,
    EnvMap, HarnessPaths, MarketplacePlugin, PluginProbe, RootError, RootProbe, SkillInfo,
};

fn probe(dir: &str, has_crate_dir: bool, has_cargo_toml: bool) -> RootProbe {
    RootProbe { dir: dir.into(), has_crate_dir, has_cargo_toml }
}

fn skill(name: &str) -> SkillInfo {
    SkillInfo { name: name.into(), path: format!("skills/{name}") }
}

#[test]
fn discovers_repo_root_from_crate_root() {
    let chain = vec![probe("/work/curio", true, false)];
    let root = HarnessPaths::discover_from(&chain).unwrap();
    assert!(root.crate_root.ends_with("curio-rs"));
    assert_eq!(path_join(&root.repo_root, "curio-rs"), root.crate_root);
}

#[test]
fn repo_root_search_walks_upward() {
    let chain = vec![probe("/work/curio/curio-rs/src", false, false), probe("/work/curio/curio-rs", false, true)];
    assert_eq!(find_repo_root(&chain), Ok("/work/curio".to_string()));
    let chain = vec![probe("/a", false, false), probe("/", false, true)];
    assert_eq!(find_repo_root(&chain), Err(RootError::NotFound));
    assert!(RootError::NotFound.message().contains("CURIO_REPO_ROOT"));
    let paths = HarnessPaths::from_repo_root("/r");
    assert_eq!(paths.marketplace_path, "/r/.agents/plugins/marketplace.json");
    assert_eq!(paths.agents_skills_dir, "/r/.agents/skills");
}

#[test]
fn discovers_skills_from_repo_root() {
    let authored = vec![skill("zeta"), skill("curio-workspace-bootstrap")];
    let plugin = vec![vec![skill("alpha")]];
    let skills = discover_skills(authored, plugin);
    assert!(skills.iter().any(|skill| skill.name == "curio-workspace-bootstrap"));
    let names: Vec<&str> = skills.iter().map(|s| s.name.as_str()).collect();
    assert_eq!(names, vec!["alpha", "curio-workspace-bootstrap", "zeta"]);
}

#[test]
fn enabled_plugins_have_valid_paths() {
    let paths = HarnessPaths::from_repo_root("/r");
    let plugin = MarketplacePlugin {
        name: "curio-core-harness".into(),
        path: "plugins/core".into(),
        description: String::new(),
        enabled: true,
    };
    let disabled = MarketplacePlugin { name: "off".into(), path: "p".into(), description: String::new(), enabled: false };
    let probes = vec![
        PluginProbe { plugin, dir_exists: true, skills_dir_exists: true, skill_count: Ok(2) },
        PluginProbe { plugin: disabled, dir_exists: false, skills_dir_exists: false, skill_count: Ok(0) },
    ];
    let checks = plugin_catalog_checks(&paths, &Ok(probes));
    assert!(!checks.is_empty());
    assert!(checks.iter().all(|check| check.ok), "{checks:#?}");
    assert_eq!(checks.len(), 2);
    assert_eq!(checks[0].label, "plugin:curio-core-harness:path");
    assert_eq!(checks[1].detail, "2 skill(s) in /r/plugins/core/skills");
    let failed = plugin_catalog_checks(&paths, &Err("bad json".into()));
    assert_eq!(failed.len(), 1);
    assert!(!failed[0].ok);
}

#[test]
fn env_map_keeps_the_last_value_per_key() {
    let mut env = EnvMap::new();
    env.insert("B".into(), "1".into());
    env.insert("A".into(), "2".into());
    env.insert("B".into(), "3".into());
    assert_eq!(env.get("B"), Some("3"));
    assert_eq!(env.get("A"), Some("2"));
    assert_eq!(env.get("C"), None);
}

#[test]
fn provider_args_split_on_whitespace() {
    assert_eq!(resolve_provider_args(Some("  --fast  -v ")), vec!["--fast", "-v"]);
    assert!(resolve_provider_args(None).is_empty());
}

#[test]
fn providers_map_to_their_entry_points() {
    let codex = curio::harness::provider_spec("codex");
    assert_eq!(codex.entrypoint_file, "AGENTS.md");
    assert_eq!(codex.command_env_key, "CURIO_CODEX_CMD");
    assert_eq!(codex.candidates, vec!["codex".to_string()]);
    let gemini = curio::harness::provider_spec("gemini");
    assert_eq!(gemini.entrypoint_file, "GEMINI.md");
    assert_eq!(gemini.args_env_key, "CURIO_GEMINI_ARGS");
    assert_eq!(gemini.candidates, vec!["gemini".to_string(), "adk".to_string()]);
    let other = curio::harness::provider_spec("acme");
    assert_eq!(other.entrypoint_file, "ACME.md");
    assert_eq!(other.setup_hint, "Install the Acme CLI or set CURIO_ACME_CMD.");
}
