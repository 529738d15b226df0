use curio::audit_store::{
    audit_dir, audit_log_path, compact_entries, is_sync_entry, last_sync, legacy_audit_log_path,
    new_entry, parse_kind, read_last_sync, should_migrate_legacy, sync_marker_path, AuditEntry,
    RETAIN_AUDIT_LINES,
};
use curio::commands::intake::{extract_confluence_page_id, is_confluence_url};
use curio::commands::reject::detect_lane;
use curio::commands::slack::{authorize, job_contract, process_output, slack_job_type, SlackPayload};
use curio::commands::tree::{collect_expected_paths, prune_action, PruneAction, TaxonomyNode};
use curio::confluence::{
    create_failure, create_page_v1_payload, effective_parent, http_timeout_seconds,
    is_retryable_status, is_stale_update, keep_existing_page, page_web_url, retry_delay_ms,
    update_page_body_v1_payload, update_page_v2_payload, PageWriteError,
};
use curio::embeddings::{
    character_ngrams, feature_index, hash_text, normalize_text, normalize_token, tokenize,
    LocalCachedEmbeddings,
};
use curio::llm::{extract_json, json_object_span, JsonExtractError};
use curio::git_ops::{add_args, commit_args, commit_with_identity_args, should_commit};
use curio::order::{sorted_titles, text_le};

fn entry(ts: &str, kind: &str, text: &str) -> AuditEntry {
    AuditEntry { ts: ts.into(), kind: kind.into(), entry: text.into() }
}

#[test]
fn audit_paths_follow_the_environment() {
    assert_eq!(audit_dir("/kb/wiki", None, None), "/kb/wiki/_config");
    assert_eq!(audit_dir("/kb/wiki", Some("  "), None), "/kb/wiki/_config");
    assert_eq!(audit_dir("/kb/wiki", Some("${REPO_ROOT}/audit"), Some("/repo")), "/repo/audit");
    assert_eq!(audit_dir("/kb/wiki", Some("logs"), None), "/kb/logs");
    assert_eq!(audit_dir("/kb/wiki", Some("/abs/dir"), Some("/repo")), "/abs/dir");
    assert_eq!(audit_log_path("wiki", None, None), "wiki/_config/audit.jsonl");
    assert_eq!(sync_marker_path("wiki"), "wiki/_config/last-sync.txt");
    assert_eq!(legacy_audit_log_path("wiki"), "wiki/.curio/audit.jsonl");
}

#[test]
fn audit_entry_kinds() {
    assert_eq!(parse_kind("Sync: pushed 3 pages"), "sync");
    assert_eq!(parse_kind("  PUBLISH  : x"), "publish");
    assert_eq!(parse_kind("no colon here"), "event");
    assert_eq!(parse_kind(" : empty head"), "event");
    let e = new_entry("t1", "Heal: fixed");
    assert_eq!((e.ts.as_str(), e.kind.as_str(), e.entry.as_str()), ("t1", "heal", "Heal: fixed"));
    assert!(is_sync_entry(&entry("t", "sync", "sync: x")));
    assert!(!is_sync_entry(&entry("t", "heal", "sync: x")));
}

#[test]
fn last_sync_reads_the_marker_then_the_log() {
    let log = vec![entry("t1", "sync", "a"), entry("t2", "heal", "b"), entry("t3", "sync", "c"), entry("t4", "x", "d")];
    assert_eq!(last_sync(&log), Some("t3".to_string()));
    assert_eq!(read_last_sync(Some(" 2026-01-02 \n"), &log), Some("2026-01-02".to_string()));
    assert_eq!(read_last_sync(Some("   "), &log), Some("t3".to_string()));
    assert_eq!(read_last_sync(None, &vec![]), None);
    assert!(should_migrate_legacy(false, true));
    assert!(!should_migrate_legacy(true, true));
    assert!(!should_migrate_legacy(false, false));
}

#[test]
fn compaction_keeps_the_latest_entries_behind_a_checkpoint() {
    let small = vec![entry("t", "sync", "s")];
    assert!(compact_entries(&small, 10, "now").is_none());
    let mut log: Vec<AuditEntry> = Vec::new();
    for i in 0..1001 {
        let kind = if i == 10 { "sync" } else { "event" };
        log.push(entry(&format!("t{i}"), kind, &format!("e{i}")));
    }
    let out = compact_entries(&log, 10, "now").unwrap();
    assert_eq!(out.len(), RETAIN_AUDIT_LINES + 1);
    assert_eq!(out[0].ts, "now");
    assert_eq!(out[0].kind, "checkpoint");
    assert_eq!(
        out[0].entry,
        "checkpoint: compacted audit log; retained 250 recent entries; previous entries=751; last_sync=t10"
    );
    assert_eq!(out[1].entry, "e751");
    assert_eq!(out[250].entry, "e1000");
    let big = compact_entries(&small, 600_000, "now").unwrap();
    assert_eq!(big.len(), 2);
    assert_eq!(big[0].entry, "checkpoint: compacted audit log; retained 1 recent entries; previous entries=0; last_sync=t");
}

#[test]
fn embedding_features_are_hashed_tokens_and_trigrams() {
    assert_eq!(hash_text(""), "e3b0c44298fc1c149afbf4c8996fb92427ae41e4649b934ca495991b7852b855");
    assert_eq!(hash_text("abc"), "ba7816bf8f01cfea414140de5dae2223b00361a396177a9cb410ff61f20015ad");
    assert_eq!(feature_index("abc", 128), 58);
    assert_eq!(feature_index("abc", 10), 4);
    assert_eq!(normalize_text("Hello, World-42!"), "hello  world 42 ");
    assert_eq!(normalize_token("stories"), "story");
    assert_eq!(normalize_token("walking"), "walk");
    assert_eq!(normalize_token("going"), "going");
    assert_eq!(normalize_token("tests"), "test");
    assert_eq!(normalize_token("is"), "is");
    assert_eq!(tokenize("the big cats ran an errand"), vec!["the", "big", "cats", "ran", "errand"]);
    assert_eq!(character_ngrams("data", 3), vec!["dat", "ata"]);
    assert_eq!(character_ngrams("ab", 3), vec!["ab"]);
    let cache = LocalCachedEmbeddings::new("/tmp/cache".to_string());
    assert_eq!(cache.dimensions, 128);
    let f = cache.features("Data");
    let idx: Vec<(usize, bool)> = f.iter().map(|x| (x.index, x.whole_token)).collect();
    assert_eq!(idx, vec![(58, true), (20, false), (23, false)]);
    assert_eq!(
        cache.cache_path("key"),
        "/tmp/cache/2c70e12b7a0646f92279f427c7b38e7334d8e5389cff167a1dc30e73f826b683.json"
    );
    assert!(cache.cache_matches("ba7816bf8f01cfea414140de5dae2223b00361a396177a9cb410ff61f20015ad", 128, "abc"));
    assert!(!cache.cache_matches("ba7816bf8f01cfea414140de5dae2223b00361a396177a9cb410ff61f20015ad", 64, "abc"));
    assert!(!cache.cache_matches("00", 128, "abc"));
}

#[test]
fn confluence_request_policies() {
    assert_eq!(http_timeout_seconds(None), 45);
    assert_eq!(http_timeout_seconds(Some(" 90 ")), 90);
    assert_eq!(http_timeout_seconds(Some("0")), 45);
    assert_eq!(http_timeout_seconds(Some("abc")), 45);
    assert!(is_retryable_status(429));
    assert!(is_retryable_status(503));
    assert!(!is_retryable_status(500));
    assert_eq!(retry_delay_ms(1), 500);
    assert_eq!(retry_delay_ms(3), 1500);
    assert_eq!(page_web_url("https://x.net/wiki//", "42"), "https://x.net/wiki/pages/viewpage.action?pageId=42");
}

#[test]
fn confluence_links_and_page_ids() {
    assert!(is_confluence_url("https://x.net/wiki/spaces/A", "https://x.net/wiki/"));
    assert!(!is_confluence_url("https://y.net/wiki", "https://x.net/wiki"));
    assert!(!is_confluence_url("https://x.net", ""));
    assert_eq!(
        extract_confluence_page_id("https://x.net/wiki/spaces/A/pages/12345/Title"),
        Some("12345".to_string())
    );
    assert_eq!(extract_confluence_page_id("https://x.net/viewpage.action?pageId=987&x=1"), Some("987".to_string()));
    assert_eq!(extract_confluence_page_id("https://x.net/wiki/home"), None);
}

#[test]
fn git_command_arguments() {
    assert_eq!(add_args("wiki/a.md"), vec!["add", "--", "wiki/a.md"]);
    assert_eq!(commit_args("msg"), vec!["commit", "-m", "msg"]);
    assert_eq!(
        commit_with_identity_args("m", "Curio", "c@x"),
        vec!["-c", "user.name=Curio", "-c", "user.email=c@x", "commit", "-m", "m"]
    );
    assert!(should_commit(true, true));
    assert!(!should_commit(true, false));
    assert!(!should_commit(false, true));
}

#[test]
fn reject_lanes() {
    assert_eq!(detect_lane(Some("review")), "review");
    assert_eq!(detect_lane(Some("published")), "published");
    assert_eq!(detect_lane(Some("other")), "unknown");
    assert_eq!(detect_lane(None), "unknown");
}

fn payload(text: Option<&str>, action: &str) -> SlackPayload {
    SlackPayload {
        workspace_id: None,
        channel_id: "C1".into(),
        channel_name: Some("kb".into()),
        message_ts: "111.2".into(),
        thread_ts: None,
        user_id: Some("U9".into()),
        user_name: None,
        text: text.map(|t| t.to_string()),
        permalink: Some("https://slack/p".into()),
        action: action.into(),
        request_id: None,
    }
}

#[test]
fn slack_jobs_and_admins() {
    assert_eq!(slack_job_type("ask"), "question");
    assert_eq!(slack_job_type("sync"), "sync");
    assert_eq!(slack_job_type("dance"), "unknown");
    let out = process_output(&payload(Some("  First line \nsecond"), "intake"), "2026-01-01");
    assert!(out.ok);
    assert_eq!(out.job_type, "intake");
    assert_eq!(out.source_ref.kind, "slack_message");
    assert_eq!(out.source_ref.id, "slack:C1:111.2");
    assert_eq!(out.title, "First line");
    assert_eq!(out.summary, "  First line \nsecond");
    assert_eq!(out.requested_by, Some("U9".to_string()));
    assert_eq!(out.queued_at, "2026-01-01");
    let long = "x".repeat(300);
    let out = process_output(&payload(Some(&long), "ask"), "t");
    assert_eq!(out.summary.chars().count(), 280);
    let out = process_output(&payload(None, "ask"), "t");
    assert_eq!(out.title, "Slack intake");
    assert_eq!(out.summary, "");
    let admins = vec!["U1".to_string(), "U9".to_string()];
    let ok = authorize(&admins, "U9".into(), None);
    assert!(ok.allowed);
    assert_eq!(ok.reason, "allowed by admin allowlist");
    let no = authorize(&admins, "U2".into(), Some("C".into()));
    assert!(!no.allowed);
    assert_eq!(no.reason, "user not in admin allowlist");
    let contract = job_contract("codex");
    assert_eq!(contract.default_provider, "codex");
    assert!(contract.async_only);
}

fn node(slug: &str, children: Vec<TaxonomyNode>) -> TaxonomyNode {
    TaxonomyNode {
        title: slug.to_uppercase(),
        slug: slug.into(),
        description_markdown: String::new(),
        icon: None,
        children,
    }
}

#[test]
fn tree_paths_and_pruning() {
    let tree = vec![node("ops", vec![node("db", vec![]), node("net", vec![])]), node("eng", vec![])];
    let mut paths = collect_expected_paths(&tree);
    paths.sort();
    assert_eq!(paths, vec!["eng", "ops", "ops/db", "ops/net"]);
    assert_eq!(prune_action("_assets", false, true), PruneAction::Keep);
    assert_eq!(prune_action("ops", true, false), PruneAction::Keep);
    assert_eq!(prune_action("old", false, true), PruneAction::Remove);
    assert_eq!(prune_action("old", false, false), PruneAction::Skip);
}

#[test]
fn text_order_is_by_characters() {
    assert!(text_le("abc", "abd"));
    assert!(text_le("ab", "abc"));
    assert!(text_le("", ""));
    assert!(!text_le("b", "a"));
    let titles = vec!["b".to_string(), "a".to_string(), "c".to_string(), "a".to_string()];
    assert_eq!(sorted_titles(&titles), vec!["a", "a", "b", "c"]);
}

#[test]
fn json_object_is_cut_from_prose() {
    let v = extract_json("Sure! {\"route\": \"ops\", \"n\": 2} Hope that helps.").unwrap();
    assert_eq!(v["route"], "ops");
    assert_eq!(v["n"], 2);
    assert_eq!(json_object_span("ab{c}d}e"), Ok((2, 7)));
    assert_eq!(extract_json("no object here").unwrap_err(), JsonExtractError::NoObject);
    assert_eq!(extract_json("{ never closed").unwrap_err(), JsonExtractError::NoClosingBrace);
    match extract_json("x {not json} y").unwrap_err() {
        JsonExtractError::Parse { span, message } => {
            assert_eq!(span, "{not json}");
            assert_eq!(
                message,
                serde_json::from_str::<serde_json::Value>("{not json}").unwrap_err().to_string()
            );
        }
        other => panic!("unexpected {other:?}"),
    }
    assert_eq!(JsonExtractError::NoObject.message(), "No JSON object found in response");
}

#[test]
fn confluence_page_write_payloads() {
    assert_eq!(effective_parent(None, Some("root")), Some("root"));
    assert_eq!(effective_parent(Some("p"), Some("root")), Some("p"));
    assert!(keep_existing_page(false, false));
    assert!(!keep_existing_page(true, false));
    let v2 = update_page_v2_payload("12", "T \"x\"", "storage", "<p>b</p>", 4, Some("S1"), None);
    assert_eq!(
        v2,
        "{\"body\":{\"representation\":\"storage\",\"value\":\"<p>b</p>\"},\"id\":\"12\",\"spaceId\":\"S1\",\"status\":\"current\",\"title\":\"T \\\"x\\\"\",\"version\":{\"number\":5}}"
    );
    let parsed: serde_json::Value = serde_json::from_str(&v2).unwrap();
    assert_eq!(serde_json::to_string(&parsed).unwrap(), v2);
    let created = create_page_v1_payload("KB", Some("7"), "New", "body\n");
    let parsed: serde_json::Value = serde_json::from_str(&created).unwrap();
    assert_eq!(serde_json::to_string(&parsed).unwrap(), created);
    assert_eq!(parsed["ancestors"][0]["id"], "7");
    assert_eq!(parsed["body"]["storage"]["value"], "body\n");
    assert_eq!(parsed["space"]["key"], "KB");
    let v1 = update_page_body_v1_payload("9", "T", "KB", "atlas_doc_format", "{}", -3, None);
    let parsed: serde_json::Value = serde_json::from_str(&v1).unwrap();
    assert_eq!(serde_json::to_string(&parsed).unwrap(), v1);
    assert_eq!(parsed["body"]["atlas_doc_format"]["representation"], "atlas_doc_format");
    assert_eq!(parsed["version"]["number"], -2);
    assert!(matches!(
        create_failure("T", 400, "error: A page already exists with the same TITLE in this space"),
        PageWriteError::TitleCollision { .. }
    ));
    assert_eq!(
        create_failure("T", 500, "boom"),
        PageWriteError::Failed { status: 500, response: "boom".into() }
    );
    assert!(is_stale_update(409, ""));
    assert!(is_stale_update(400, "StaleStateException: x"));
    assert!(!is_stale_update(400, "other"));
}
