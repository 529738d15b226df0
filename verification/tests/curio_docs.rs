use curio::curio_docs::{
    build_capture_intake_adf, build_reference_card_adf,
    audit_bucket_path, build_audit_entry_body, build_branch_index_body, build_lifecycle_page,
    build_readme_body, build_registry_record_body, build_tree_branch_body,
    extract_summary_from_html, extract_summary_from_text, infer_route_plan, sanitize_segment,
    title_emoji_values, truncate_summary, AuditEntry, BranchChildEntry, RegistryRecord, RouteHints,
};

#[test]
fn extract_summary_from_html_takes_first_paragraph() {
    let html = "<p>Hello world this is a long enough paragraph.</p><p>Second paragraph.</p>";
    let result = extract_summary_from_html(html, 300);
    assert!(result.is_some());
    let s = result.unwrap();
    assert!(s.contains("Hello world"));
}

#[test]
fn extract_summary_from_html_ignores_short_fragments() {
    let html = "<p>Hi</p><p>This one is long enough to be a summary candidate yes.</p>";
    let result = extract_summary_from_html(html, 300);
    assert!(result.is_some());
    assert!(result.unwrap().contains("This one is long enough"));
}

#[test]
fn extract_summary_from_html_returns_none_when_empty() {
    let result = extract_summary_from_html("<p></p><p>   </p>", 300);
    assert!(result.is_none());
}

#[test]
fn extract_summary_from_html_truncates_at_max_chars() {
    let long = "a".repeat(500);
    let html = format!("<p>{}</p>", long);
    let result = extract_summary_from_html(&html, 100);
    assert!(result.is_some());
    let s = result.unwrap();
    assert!(s.len() <= 105); // max_chars + "…" (multi-byte)
}

#[test]
fn extract_summary_from_text_takes_first_long_line() {
    let text = "short\n\nThis line is definitely long enough to qualify as a summary candidate.\n\nAnother line.";
    let result = extract_summary_from_text(text, 300);
    assert!(result.is_some());
    assert!(result.unwrap().contains("This line is definitely"));
}

#[test]
fn extract_summary_from_text_returns_none_when_no_long_lines() {
    let text = "hi\nok\nyes";
    assert!(extract_summary_from_text(text, 300).is_none());
}

#[test]
fn truncate_summary_respects_word_boundary() {
    let s = "hello world foo bar baz";
    // max_chars=11 → cut="hello world", rfind(' ')=5 → "hello…"
    let result = truncate_summary(s, 11);
    assert!(result.starts_with("hello"));
    assert!(result.ends_with('…'));
}

#[test]
fn truncate_summary_handles_unicode() {
    // "café" is 4 chars but 5 bytes — truncating at 3 chars should not panic
    let s = "café is a nice place to sit and work";
    let result = truncate_summary(s, 3);
    assert!(!result.is_empty());
}

// ─── Further cases ─────────────────────────────────────────────────────────

#[test]
fn truncate_summary_exact_values() {
    assert_eq!(truncate_summary("hello world foo bar baz", 11), "hello…");
    assert_eq!(truncate_summary("short", 11), "short");
    assert_eq!(truncate_summary("abcdefgh", 3), "abc…");
}

#[test]
fn text_summary_is_trimmed_and_truncated() {
    let text = "   This line is definitely long enough to qualify   \nnext";
    assert_eq!(
        extract_summary_from_text(text, 300),
        Some("This line is definitely long enough to qualify".to_string())
    );
}

#[test]
fn html_summary_counts_characters_not_bytes() {
    assert_eq!(extract_summary_from_html("<p>ééééééééééééééé</p>", 300), None);
    assert_eq!(
        extract_summary_from_html("<p>éééééééééééééééééééé</p>", 300),
        Some("éééééééééééééééééééé".to_string())
    );
}

#[test]
fn text_summary_counts_only_visible_characters() {
    assert_eq!(extract_summary_from_text("a b c d e f g h i j k", 300), None);
    assert_eq!(
        extract_summary_from_text("a b c d e f g h i j k\nabcdefghij klmnopqrst", 300),
        Some("abcdefghij klmnopqrst".to_string())
    );
}

#[test]
fn readme_body_places_hero_image() {
    let with = build_readme_body(Some("<img/>"));
    assert!(with.starts_with("<h1>README</h1><p><strong>Start here.</strong>"));
    assert!(with.contains("</p><p><img/></p><h2>How To Use Curio</h2>"));
    let without = build_readme_body(None);
    assert!(!without.contains("<img/>"));
    assert!(without.ends_with("<li>Make the next action obvious to a non-technical user.</li></ul>"));
}

#[test]
fn lifecycle_page_layout() {
    let html = build_lifecycle_page("Intake", "Raw.", "Purpose", "Capture.", &["a"], &[], &["n"]);
    assert_eq!(
        html,
        "<h1>Intake</h1><p>Raw.</p><h2>Purpose</h2><p>Capture.</p><h2>Use This For</h2><ul><li>a</li></ul><h2>Do Not Use This For</h2><h2>Operating Notes</h2><ul><li>n</li></ul>"
    );
}

#[test]
fn branch_index_lists_children() {
    let child = BranchChildEntry {
        page_id: "7".into(),
        title: "Child".into(),
        child_type: "leaf".into(),
        summary: "S".into(),
        child_count: 12,
        status: "published".into(),
        labels: vec![],
        updated_at: "t".into(),
    };
    let html = build_branch_index_body("B", &["x".to_string(), "y".to_string()], "Root", &[child], 13);
    assert!(html.contains("Path: Root &gt; x &gt; y.</p><p>1 direct children. 13 total descendants.</p>"));
    assert!(html.contains("<tr><td><ac:link><ri:content-entity ri:content-id=\"7\"/><ac:plain-text-link-body><![CDATA[Child]]></ac:plain-text-link-body></ac:link></td><td>leaf</td><td>S</td><td>12</td><td>published</td></tr>"));
    let empty = build_branch_index_body("B", &[], "Root", &[], 0);
    assert!(empty.contains("Path: Root.</p><p>0 direct children. 0 total descendants.</p><p><em>No children yet.</em></p>"));
}

#[test]
fn tree_branch_and_record_bodies() {
    let html = build_tree_branch_body("_registry", &["Index".to_string()], "Index");
    assert!(html.starts_with("<h1>Index</h1><p>This branch lives under <strong>_registry</strong>.</p><h2>Path</h2>"));
    let rec = RegistryRecord {
        key: "k".into(),
        item_type: "page".into(),
        title: "T".into(),
        page_id: "1".into(),
        parent_id: "2".into(),
        status: "s".into(),
        source_id: "src".into(),
        summary: "sum".into(),
        updated_at: "u".into(),
    };
    let body = build_registry_record_body(&rec);
    assert!(body.contains("<tr><th>Registry Path</th><td></td></tr>"));
    assert!(body.starts_with("<h1>Record - k</h1>"));
}

#[test]
fn audit_entry_body_details_only_when_present() {
    let mut e = AuditEntry {
        actor: "a".into(),
        command: "sync".into(),
        subject: "s".into(),
        action: "x".into(),
        rationale: "r".into(),
        source: "src".into(),
        result: "ok".into(),
        detail_lines: vec![],
    };
    assert!(build_audit_entry_body(&e, "20260101").ends_with("</table>"));
    e.detail_lines.push("d1".into());
    assert!(build_audit_entry_body(&e, "20260101").ends_with("</table><h2>Details</h2><ul><li>d1</li></ul>"));
}

#[test]
fn audit_bucket_path_values() {
    assert_eq!(audit_bucket_path("20260411T100000"), vec!["2026".to_string(), "04".to_string()]);
    assert_eq!(audit_bucket_path("2026"), vec!["unknown".to_string(), "unknown".to_string()]);
}

#[test]
fn emoji_values() {
    assert_eq!(title_emoji_values("Admin"), (Some("2699"), Some("2699")));
    assert_eq!(title_emoji_values("README"), (Some("atlassian-info"), None));
    assert_eq!(title_emoji_values("Other"), (None, None));
}

#[test]
fn sanitize_segment_values() {
    assert_eq!(sanitize_segment("  Sales / [EMEA]  (Q3) "), "Sales EMEA Q3");
    assert_eq!(sanitize_segment("--Topic--"), "Topic");
    assert_eq!(sanitize_segment("- a -"), "a");
}

#[test]
fn route_plan_by_account_and_topic() {
    let hints = RouteHints {
        strings: vec![("customer".into(), "Acme Corp".into()), ("use_case".into(), "Onboarding flow".into())],
        target_path: None,
    };
    let plan = infer_route_plan(Some("Kickoff"), Some(&hints));
    assert_eq!(plan.target_path, vec!["By Account", "Acme Corp", "Onboarding flow"]);
    assert_eq!(plan.confidence_pct, 90);
    assert_eq!(plan.rationale, "Route inferred from account metadata/title.");
    assert_eq!(plan.sibling_context, vec!["basis=account", "confidence=0.90"]);

    let plan = infer_route_plan(Some("Weekly sync notes 20260411 extra words here"), None);
    assert_eq!(plan.target_path, vec!["By Topic", "Weekly sync notes extra"]);
    assert_eq!(plan.confidence_pct, 58);

    let plan = infer_route_plan(None, None);
    assert_eq!(plan.target_path, vec!["By Topic", "General"]);
}

#[test]
fn route_plan_explicit_target_wins() {
    let hints = RouteHints {
        strings: vec![("product".into(), "Widget".into())],
        target_path: Some(vec!["Ops/".into(), "  ".into(), "Runbooks".into()]),
    };
    let plan = infer_route_plan(Some("x"), Some(&hints));
    assert_eq!(plan.target_path, vec!["Ops", "Runbooks"]);
    assert_eq!(plan.registry_path, vec!["Ops", "Runbooks"]);
    assert_eq!(plan.confidence_pct, 98);
    assert_eq!(plan.sibling_context, vec!["explicit_target_path"]);
}

#[test]
fn reference_card_adf_is_valid_json() {
    let body = build_reference_card_adf(
        "Test Page",
        "confluence-page:1:page:2",
        Some("https://example.com/wiki/pages/2"),
        Some("A useful summary of the page."),
        "Intake",
        "2026-04-11T10:00:00Z",
        &[("subject_key", "test"), ("content_type", "confluence_page")],
        &[],
    );
    let parsed: serde_json::Value = serde_json::from_str(&body).expect("must be valid JSON");
    assert_eq!(parsed["type"], "doc");
    assert_eq!(parsed["version"], 1);
}

#[test]
fn reference_card_adf_includes_source_link_and_summary() {
    let body = build_reference_card_adf(
        "My Page",
        "url:https://example.com",
        Some("https://example.com"),
        Some("Great summary here."),
        "Staged",
        "2026-04-11T10:00:00Z",
        &[],
        &["curio review approve <id>"],
    );
    assert!(body.contains("https://example.com"));
    assert!(body.contains("Great summary here."));
    assert!(body.contains("curio review approve"));
}

#[test]
fn capture_intake_adf_is_valid_json() {
    let body = build_capture_intake_adf(
        "My Notes",
        "file:/tmp/notes.txt",
        "Intake",
        "2026-04-11T10:00:00Z",
        "Line one\nLine two\nLine three",
        "text/plain",
    );
    let parsed: serde_json::Value = serde_json::from_str(&body).expect("must be valid JSON");
    assert_eq!(parsed["type"], "doc");
}

#[test]
fn capture_intake_adf_truncates_long_content() {
    let long_content = (0..600).map(|i| format!("line {}", i)).collect::<Vec<_>>().join("\n");
    let body = build_capture_intake_adf("Big File", "file:/tmp/big.txt", "Intake", "2026-04-11", &long_content, "text/plain");
    assert!(body.contains("truncated"));
    let parsed: serde_json::Value = serde_json::from_str(&body).unwrap();
    let content = parsed["content"].as_array().unwrap();
    assert_eq!(content.len(), 5 + 500 + 1);
    assert_eq!(
        content[505]["content"][0]["text"],
        "— Content truncated at 500 lines (600 total). Open the source file for the full content."
    );
}

#[test]
fn reference_card_adf_with_no_origin_url() {
    let body = build_reference_card_adf("Unknown Source", "file:/tmp/unknown", None, None, "Intake", "2026-04-11", &[], &[]);
    assert!(body.contains("file:/tmp/unknown"));
    let parsed: serde_json::Value = serde_json::from_str(&body).expect("valid JSON");
    assert_eq!(parsed["type"], "doc");
}

#[test]
fn adf_bodies_match_the_json_writer() {
    let body = build_capture_intake_adf("T\"q", "s", "L", "now", "a\n\n  \nb\tc\u{1}", "text/plain");
    let parsed: serde_json::Value = serde_json::from_str(&body).unwrap();
    assert_eq!(body, serde_json::to_string(&parsed).unwrap());
    let content = parsed["content"].as_array().unwrap();
    assert_eq!(content.len(), 7);
    assert_eq!(content[0]["content"][0]["text"], "T\"q");
    assert_eq!(content[0]["attrs"]["level"], 1);
    assert_eq!(content[1]["content"][0]["text"], "Curio lane: L | Captured file content.");
    assert_eq!(content[3]["attrs"]["isNumberColumnEnabled"], false);
    assert_eq!(content[3]["content"][3]["content"][1]["content"][0]["content"][0]["text"], "4");
    assert_eq!(content[5]["content"][0]["text"], "a");
    assert_eq!(content[6]["content"][0]["text"], "b\tc\u{1}");
    assert!(body.starts_with("{\"content\":[{\"attrs\":{\"level\":1},\"content\":[{\"text\":\"T\\\"q\",\"type\":\"text\"}],\"type\":\"heading\"}"));
    assert!(body.contains("b\\tc\\u0001"));
    assert!(body.ends_with("],\"type\":\"doc\",\"version\":1}"));
    let card = build_reference_card_adf("T", "id", Some("https://x"), None, "Intake", "t0", &[("k", "v")], &["c1"]);
    let parsed: serde_json::Value = serde_json::from_str(&card).unwrap();
    assert_eq!(card, serde_json::to_string(&parsed).unwrap());
    assert_eq!(parsed["content"][3]["content"][1]["marks"][0]["attrs"]["href"], "https://x");
    assert_eq!(parsed["content"][5]["content"][0]["text"], "No summary available.");
    assert_eq!(parsed["content"][7]["type"], "table");
    assert_eq!(parsed["content"][9]["content"][0]["type"], "listItem");
}
