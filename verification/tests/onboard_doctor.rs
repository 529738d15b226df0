use curio::commands::doctor::{
    branch_slug, choose_kb_dir, orphan_detail, orphaned_xrefs, overlap_review_file,
    reports_overlap_pair, run_infra_checks, sanitize_segment, summarize, thin_branch_detail,
    thin_branch_words, collect_findings, finding_kinds, AuthOutcome, BranchFacts, FindingKind,
    InfraFacts, OverlapPeer, PageFacts, Severity,
};
use curio::commands::onboard::{
    accepts_install, build_onboard_config, curio_env_keys, env_file_text, key_parity,
    load_onboard_state, missing_core_fields, normalize_path, onboard_check_status, parse_env_file,
    render_value, resolve_env_value, shim_content, shim_file_name, strip_quotes, CheckStatus,
    ValueSource,
};
use curio::config::Config;
use curio::harness::{EnvMap, HarnessPaths};

#[test]
fn env_values_resolve_from_process_then_file_then_default() {
    let keys = curio_env_keys();
    assert_eq!(keys.len(), 7);
    assert_eq!(keys[0], "CURIO_CONFLUENCE_URL");
    let file = parse_env_file("# c\nCURIO_SPACE_KEY = \"DOCS\"\n\nBROKEN\nCURIO_CONFLUENCE_URL=  \n");
    assert_eq!(file.get("CURIO_SPACE_KEY"), Some("DOCS"));
    assert_eq!(file.get("BROKEN"), None);
    let (v, s) = resolve_env_value("CURIO_SPACE_KEY", Some("ENV"), &file);
    assert_eq!((v.as_str(), s), ("ENV", ValueSource::ProcessEnv));
    let (v, s) = resolve_env_value("CURIO_SPACE_KEY", Some("  "), &file);
    assert_eq!((v.as_str(), s), ("DOCS", ValueSource::EnvFile));
    let (v, s) = resolve_env_value("CURIO_CONFLUENCE_URL", None, &file);
    assert_eq!((v.as_str(), s), ("", ValueSource::Missing));
    let (v, s) = resolve_env_value("CURIO_AUDIT_DIR", None, &EnvMap::new());
    assert_eq!((v.as_str(), s), ("${REPO_ROOT}/wiki/_config", ValueSource::Default));
    assert_eq!(ValueSource::EnvFile.label(), "file");
    assert_eq!(strip_quotes("'x'"), "x");
    assert_eq!(strip_quotes("\"x"), "\"x");
}

#[test]
fn onboarding_state_and_env_file() {
    let paths = HarnessPaths::from_repo_root("/r");
    let process: Vec<Option<String>> = vec![
        Some("https://x.net".into()),
        None,
        Some("tok".into()),
        None,
        None,
        Some("/tmp/t".into()),
        None,
    ];
    let state = load_onboard_state(&paths, Some("CURIO_CONFLUENCE_EMAIL=a@b\n"), None, &process);
    assert_eq!(state.env_path, "/r/.env");
    assert_eq!(state.example_path, "/r/.env.example");
    assert_eq!(state.resolved[1].1.value, "a@b");
    assert_eq!(state.resolved[1].1.source, ValueSource::EnvFile);
    assert_eq!(
        env_file_text(&state),
        "# Curio harness config\nCURIO_CONFLUENCE_URL=https://x.net\nCURIO_CONFLUENCE_EMAIL=a@b\nCURIO_CONFLUENCE_TOKEN=tok\nCURIO_SPACE_KEY=CURIO\nCURIO_CONFLUENCE_PARENT_PAGE_ID=\nCURIO_TEMP_DIR=\nCURIO_AUDIT_DIR=${REPO_ROOT}/wiki/_config\n"
    );
    let config = build_onboard_config(&state, "/default/tmp");
    assert_eq!(config.connection.confluence_url, "https://x.net");
    assert_eq!(config.content_model.space_key, "CURIO");
    assert_eq!(config.runtime.temp_dir, Some("/tmp/t".to_string()));
    assert_eq!(missing_core_fields(&config, "tok"), Vec::<&str>::new());
    let blank = Config::default();
    assert_eq!(
        missing_core_fields(&blank, " "),
        vec!["CURIO_CONFLUENCE_URL", "CURIO_CONFLUENCE_EMAIL", "CURIO_CONFLUENCE_TOKEN", "CURIO_SPACE_KEY"]
    );
}

#[test]
fn secrets_are_masked() {
    assert_eq!(render_value("CURIO_CONFLUENCE_TOKEN", "abcdefgh"), "abcd*** (8 chars)");
    assert_eq!(render_value("MY_SECRET", "ab"), "ab*** (2 chars)");
    assert_eq!(render_value("CURIO_SPACE_KEY", "DOCS"), "DOCS");
    assert_eq!(render_value("CURIO_SPACE_KEY", ""), "<empty>");
}

#[test]
fn env_key_parity_lists_both_sides() {
    let env = parse_env_file("A=1\nB=2\n");
    let example = parse_env_file("B=\nC=3\n");
    let (missing_in_env, extra_in_env) = key_parity(&env, &example);
    assert_eq!(missing_in_env, vec!["C"]);
    assert_eq!(extra_in_env, vec!["A"]);
}

#[test]
fn shims_and_prompts() {
    assert_eq!(normalize_path("C:/Users/me/"), "C:\\Users\\me");
    assert_eq!(shim_file_name(true), "curio.cmd");
    assert_eq!(shim_file_name(false), "curio");
    assert_eq!(
        shim_content("/r", "/r/curio-rs/Cargo.toml", false),
        "#!/usr/bin/env sh\nexport CURIO_REPO_ROOT=\"/r\"\nexec cargo run --manifest-path \"/r/curio-rs/Cargo.toml\" -- \"$@\"\n"
    );
    assert!(shim_content("C:\\r", "m", true).starts_with("@echo off\r\n"));
    assert!(accepts_install(""));
    assert!(accepts_install(" YES "));
    assert!(accepts_install("y"));
    assert!(!accepts_install("no"));
    let optional = vec!["repo:codex_plugin_manifest".to_string()];
    assert_eq!(onboard_check_status("x", true, &optional), CheckStatus::Passed);
    assert_eq!(onboard_check_status("gemini:launcher", false, &optional), CheckStatus::Warn);
    assert_eq!(onboard_check_status("repo:codex_plugin_manifest", false, &optional), CheckStatus::Warn);
    assert_eq!(onboard_check_status("repo:root", false, &optional), CheckStatus::Fail);
    assert_eq!(CheckStatus::Fail.as_str(), "FAIL");
}

#[test]
fn doctor_summary_counts_each_finding_once() {
    let findings = vec![
        (FindingKind::LowQuality, Severity::Warn),
        (FindingKind::OrphanedXref, Severity::Error),
        (FindingKind::LowQuality, Severity::Error),
    ];
    let s = summarize(&findings);
    assert_eq!((s.errors, s.warnings), (2, 1));
    assert_eq!(s.errors + s.warnings, findings.len());
    assert_eq!(s.low_quality, 2);
    assert_eq!(s.orphaned_xrefs, 1);
    assert_eq!(s.stale, 0);
}

#[test]
fn doctor_structural_helpers() {
    let slugs = vec!["a".to_string(), "b".to_string()];
    let xrefs = vec!["b".to_string(), "zz".to_string(), "a".to_string(), "q".to_string()];
    assert_eq!(orphaned_xrefs(&xrefs, &slugs), vec!["zz", "q"]);
    assert_eq!(orphan_detail("zz"), "broken cross_ref → zz");
    assert_eq!(thin_branch_words("one two three", 5), Some(3));
    assert_eq!(thin_branch_words("one two three", 3), None);
    assert_eq!(thin_branch_detail(3), "branch index has only 3 words");
    assert_eq!(branch_slug("ops\\db"), "ops/db");
    assert!(reports_overlap_pair("a", "b"));
    assert!(!reports_overlap_pair("b", "a"));
    assert!(!reports_overlap_pair("a", "a"));
    assert_eq!(sanitize_segment("ops/db x"), "ops-db-x");
    assert_eq!(overlap_review_file("a/b", "c"), "a-b--c.md");
    assert_eq!(choose_kb_dir("/kb/wiki", false), "/kb");
    assert_eq!(choose_kb_dir("/kb/wiki", true), "/kb/wiki");
}

fn facts() -> InfraFacts {
    InfraFacts {
        dot_config_exists: true,
        config_exists: false,
        config_parse: Ok(()),
        wiki_northstar_exists: false,
        kb_northstar_exists: true,
        northstar_bytes: 120,
        git_status: Ok(" M a.md\n?? b.md\n".into()),
        token_env: "CURIO_CONFLUENCE_TOKEN".into(),
        token: Ok(()),
        auth: Some(AuthOutcome::ApiError("HTTP 403 FORBIDDEN".into())),
    }
}

#[test]
fn infra_checks_report_each_layer() {
    let mut config = Config::default();
    config.wiki.wiki_dir = "/kb/wiki".into();
    config.connection.confluence_url = "https://x.net".into();
    config.connection.confluence_email = "a@b".into();
    let checks = run_infra_checks(&config, "/kb", &facts());
    let labels: Vec<&str> = checks.iter().map(|c| c.label.as_str()).collect();
    assert_eq!(
        labels,
        vec![
            "kb.config",
            "kb.northstar",
            "kb.git",
            "kb.confluence.url",
            "kb.confluence.email",
            "kb.confluence.token",
            "kb.confluence.space_key",
            "kb.confluence.auth",
        ]
    );
    assert_eq!(checks[0].detail, "/kb/.curio.yaml parses cleanly");
    assert_eq!(checks[1].detail, "/kb/NORTHSTAR.md (120 bytes)");
    assert_eq!(checks[2].detail, "git working tree has 2 uncommitted change(s)");
    assert!(!checks[6].ok);
    assert!(!checks[7].ok);
    assert_eq!(
        checks[7].fix_hint.as_deref(),
        Some("403 usually means the email/token mismatch or the account lacks Confluence access.")
    );
    let mut f = facts();
    f.token = Err("CURIO_CONFLUENCE_TOKEN is not set".into());
    let checks = run_infra_checks(&config, "/kb", &f);
    assert_eq!(checks.len(), 8);
    assert_eq!(checks[5].detail, "CURIO_CONFLUENCE_TOKEN is not set");
    assert_eq!(checks[7].label, "kb.confluence.auth");
    assert_eq!(checks[7].detail, "skipped — url, email, or token not set");
    let checks = run_infra_checks(&Config::default(), "/kb", &facts());
    assert_eq!(checks[7].detail, "skipped — url, email, or token not set");
}

#[test]
fn doctor_findings_follow_page_order_then_branches() {
    let pages = vec![
        PageFacts {
            slug: "a".into(),
            path: "p/a.md".into(),
            low_quality: Some("quality flags".into()),
            stale: None,
            has_keywords: false,
            cross_refs: vec!["b".into(), "ghost".into()],
            overlaps: vec![
                OverlapPeer { peer_slug: "b".into(), detail: "overlap 0.90 with b".into() },
            ],
        },
        PageFacts {
            slug: "b".into(),
            path: "p/b.md".into(),
            low_quality: None,
            stale: Some("freshness 0.20".into()),
            has_keywords: true,
            cross_refs: vec![],
            overlaps: vec![
                OverlapPeer { peer_slug: "a".into(), detail: "overlap 0.90 with a".into() },
            ],
        },
    ];
    let slugs = vec!["a".to_string(), "b".to_string()];
    let branches = vec![
        BranchFacts { relative: "ops\\db".into(), index_path: "p/ops/db/index.md".into(), index_body: "two words".into() },
        BranchFacts { relative: "big".into(), index_path: "p/big/index.md".into(), index_body: "one two three".into() },
    ];
    let findings = collect_findings(&pages, &slugs, &branches, 3);
    let kinds: Vec<FindingKind> = findings.iter().map(|f| f.kind).collect();
    assert_eq!(
        kinds,
        vec![
            FindingKind::LowQuality,
            FindingKind::MissingKeywords,
            FindingKind::OrphanedXref,
            FindingKind::HighOverlap,
            FindingKind::Stale,
            FindingKind::ThinBranch,
        ]
    );
    assert_eq!(findings[2].detail, "broken cross_ref → ghost");
    assert_eq!(findings[3].overlap_peer, Some("b".to_string()));
    assert_eq!(findings[5].slug, "ops/db");
    assert_eq!(findings[5].detail, "branch index has only 2 words");
    let s = summarize(&finding_kinds(&findings));
    assert_eq!((s.errors, s.warnings, s.high_overlap, s.thin_branches), (1, 5, 1, 1));
}
