use curio::commands::init::{
    default_northstar, default_readme, init_guard, init_tree_slugs_exec, seeded_config_yaml,
    should_seed, trees_to_create,
};

#[test]
fn reset_needs_confirmation() {
    assert_eq!(
        init_guard(true, false),
        Err("Refusing destructive init reset without --confirm-nuke. Re-run with `curio init --reset --confirm-nuke`.".to_string())
    );
    assert_eq!(init_guard(true, true), Ok(()));
    assert_eq!(init_guard(false, false), Ok(()));
    assert!(should_seed(false, false));
    assert!(should_seed(true, true));
    assert!(!should_seed(true, false));
}

#[test]
fn scaffold_texts_and_trees() {
    assert!(default_northstar().starts_with("# NORTHSTAR\n\n## Name\n\nCurio Workspace\n"));
    assert_eq!(default_readme(), "# CURIO Readme\n\nCurio is a Git-native enterprise intelligence workspace.\n");
    let y = seeded_config_yaml("schema_version: 2\nnodes: []\n");
    assert!(y.starts_with("# Curio Workspace Configuration\n\nschema_version: 2\nnodes: []\nheal:\n  confidence_threshold: 0.85\n"));
    assert!(y.ends_with("  require_confirmation_for_actions: true\n"));
    assert_eq!(init_tree_slugs_exec(&[]), vec!["account-tree", "product-tree", "topic-tree"]);
    let slugs = init_tree_slugs_exec(&["ops".to_string(), "db".to_string()]);
    assert_eq!(trees_to_create(&slugs, &[true, false]), vec!["db".to_string()]);
}

fn facts() -> curio::commands::init::InitFacts {
    curio::commands::init::InitFacts {
        northstar_exists: false,
        repo_northstar_exists: true,
        legacy_northstar_exists: true,
        config_yaml_exists: true,
        taxonomy_slugs: vec!["ops".into(), "db".into()],
        published_dirs: vec!["ops".into()],
        readme_exists: true,
        repo_readme_exists: false,
        legacy_settings_exists: true,
        intake_gitkeep: true,
        staged_gitkeep: false,
        review_gitkeep: true,
    }
}

#[test]
fn init_plan_orders_the_scaffold() {
    use_plan();
}

fn use_plan() {
    let f = facts();
    assert!(curio::commands::init::init_plan(&f, true, false, false).is_err());
    assert!(curio::commands::init::init_plan(&f, false, false, true).unwrap().is_empty());
    let plan = curio::commands::init::init_plan(&f, false, false, false).unwrap();
    let steps: Vec<(curio::commands::init::InitOp, &str)> = plan.iter().map(|a| (a.op, a.path.as_str())).collect();
    use_steps(&steps);
    let reset = curio::commands::init::init_plan(&f, true, true, false).unwrap();
    let paths: Vec<&str> = reset.iter().map(|a| a.path.as_str()).collect();
    assert!(paths.contains(&"_config/northstar.md"));
    assert!(paths.contains(&"_admin/config.yaml"));
    assert!(paths.contains(&"published/account-tree"));
    assert!(reset.iter().any(|a| a.path == "_admin/readme.md" && a.text.starts_with("# CURIO Readme")));
}

fn use_steps(steps: &[(curio::commands::init::InitOp, &str)]) {
    let ops: Vec<&str> = steps.iter().map(|s| s.1).collect();
    assert_eq!(
        ops,
        vec!["_admin", "intake", "staged", "review", "published", "NORTHSTAR.md", "published/db", "", "staged/.gitkeep", ""]
    );
}
