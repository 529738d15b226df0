use curio::config::{
    apply_env_overrides, merge_config_file, upsert_env_lines, Config, ConfigError,
    ConnectionConfig, EnvOverrides, LlmConfig,
};

#[test]
fn test_require_confluence_fails_without_creds() {
    let conn = ConnectionConfig::default();
    assert!(conn.require_confluence().is_err());
}

#[test]
fn test_require_confluence_passes_with_creds() {
    let conn = ConnectionConfig {
        confluence_url: "https://test.atlassian.net".to_string(),
        confluence_email: "user@test.com".to_string(),
    };
    assert!(conn.require_confluence().is_ok());
}

#[test]
fn require_confluence_names_the_missing_setting() {
    let conn = ConnectionConfig { confluence_url: "https://x".into(), confluence_email: String::new() };
    assert_eq!(conn.require_confluence(), Err(ConfigError::MissingConfluenceEmail));
    let conn = ConnectionConfig::default();
    assert_eq!(conn.require_confluence(), Err(ConfigError::MissingConfluenceUrl));
    assert_eq!(
        ConfigError::MissingConfluenceUrl.message(),
        "Confluence URL is not configured. Set CURIO_CONFLUENCE_URL or add to .curio.yaml."
    );
}

#[test]
fn llm_key_and_model_resolution() {
    let llm = LlmConfig::default();
    assert_eq!(llm.effective_model(), "gpt-4o");
    assert_eq!(llm.require_api_key(None), Err(ConfigError::MissingApiKey));
    assert_eq!(llm.require_api_key(Some("env-key".into())), Ok("env-key".to_string()));
    let llm = LlmConfig { api_key: "cfg".into(), model: String::new() };
    assert_eq!(llm.effective_api_key(Some("env-key".into())), "cfg");
    assert_eq!(llm.effective_model(), "gpt-4o");
}

#[test]
fn merge_then_env_overrides() {
    let mut config = Config::default();
    let mut loaded = Config::default();
    loaded.connection.confluence_url = "http://file".into();
    loaded.wiki.auto_commit = false;
    loaded.wiki.wiki_dir = "kb".into();
    merge_config_file(&mut config, loaded);
    assert_eq!(config.connection.confluence_url, "http://file");
    assert!(!config.wiki.auto_commit);
    assert_eq!(config.wiki.wiki_dir, "kb");
    assert_eq!(config.content_model.label_namespace, "curio");

    let env = EnvOverrides {
        confluence_url: Some("http://test.confluence.com".into()),
        confluence_email: Some("test@example.com".into()),
        space_key: Some("TEST".into()),
        temp_dir: Some("   ".into()),
        log_level: None,
        wiki_dir: Some("".into()),
        confluence_parent_page_id: Some("42".into()),
    };
    apply_env_overrides(&mut config, env);
    assert_eq!(config.connection.confluence_url, "http://test.confluence.com");
    assert_eq!(config.connection.confluence_email, "test@example.com");
    assert_eq!(config.content_model.space_key, "TEST");
    assert_eq!(config.runtime.temp_dir, None);
    assert_eq!(config.wiki.wiki_dir, "kb");
    assert_eq!(config.wiki.sync.confluence_parent_page_id, Some("42".to_string()));
}

fn lines(v: &[&str]) -> Vec<Vec<char>> {
    v.iter().map(|l| l.chars().collect()).collect()
}

#[test]
fn upsert_env_replaces_first_assignment() {
    let text = upsert_env_lines(lines(&["# c", " KEY =old", "KEY=again"]), "KEY", "new");
    assert_eq!(text, "# c\nKEY=new\nKEY=again\n");
}

#[test]
fn upsert_env_appends_after_blank_line() {
    assert_eq!(upsert_env_lines(lines(&["# Curio harness config"]), "A", "1"), "# Curio harness config\n\nA=1\n");
    assert_eq!(upsert_env_lines(lines(&["X=1", ""]), "A", "1"), "X=1\n\nA=1\n");
    assert_eq!(upsert_env_lines(vec![], "A", "1"), "A=1\n");
}

#[test]
fn loading_finishes_with_temp_and_wiki_dirs() {
    let mut c = curio::config::Config::default();
    curio::config::finish_config(&mut c, "/repo", "/tmp");
    assert_eq!(c.runtime.temp_dir.as_deref(), Some("/tmp/curio"));
    assert_eq!(c.wiki.wiki_dir, "/repo/wiki");
    let mut c = curio::config::Config::default();
    c.runtime.temp_dir = Some("/mine".into());
    c.wiki.wiki_dir = "/abs/wiki".into();
    curio::config::finish_config(&mut c, "/repo", "/tmp/");
    assert_eq!(c.runtime.temp_dir.as_deref(), Some("/mine"));
    assert_eq!(c.wiki.wiki_dir, "/abs/wiki");
}
