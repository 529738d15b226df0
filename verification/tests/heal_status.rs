use curio::commands::heal::{
    apply_command, is_heal_page, missing_scope_error, scope_label, thin_branch_issue,
    archived_text, auto_approve_plan, auto_approve_record_md, heal_log_line, heal_step,
    inject_auto_heal_frontmatter, HealStep,
};
use curio::commands::status::{is_index_stale, last_sync_in_log, status_text};
use curio::commands::sync::{
    curio_root_body, markdown_to_html, page_link, parse_northstar_blueprint,
    published_input_errors, render_proposal_body, validate_published_sync_inputs, ProposalView,
    PublishedFile, RelatedRepo,
};
use curio::heal_types::HealKind;

fn file(rel: &str, title: &str, category: &[&str]) -> PublishedFile {
    let name = rel.rsplit('/').next().unwrap().to_string();
    let top = rel.split('/').next().unwrap().to_string();
    PublishedFile {
        rel_path: rel.to_string(),
        top_dir: top,
        name,
        title: title.to_string(),
        category: category.iter().map(|s| s.to_string()).collect(),
    }
}

#[test]
fn published_inputs_are_checked_against_routes() {
    let trees = parse_northstar_blueprint("## Published Tree Blueprint\n### Ops\n#### DB\n");
    let files = vec![
        file("ops/db/good.md", "Good", &["ops", "db"]),
        file("ops/index.md", "", &[]),
        file("uncategorized/x.md", "X", &["ops"]),
        file("ops/untitled.md", "  ", &["ops"]),
        file("ops/nocat.md", "T", &[]),
        file("ops/bad.md", "T", &["ops", "web"]),
    ];
    let errors = published_input_errors(&files, &trees);
    assert_eq!(
        errors,
        vec![
            "uncategorized/x.md is under published/uncategorized, which is invalid. Send it to review with a subtree proposal instead.".to_string(),
            "ops/untitled.md is missing a frontmatter title".to_string(),
            "ops/nocat.md has no category. Published content must already be curated into a NORTHSTAR route.".to_string(),
            "ops/bad.md uses invalid published route 'ops/web'. Update NORTHSTAR or move the page back to review.".to_string(),
        ]
    );
    let err = validate_published_sync_inputs(&files[3..5], &trees).unwrap_err();
    assert_eq!(
        err,
        "Published sync validation failed:\n- ops/untitled.md is missing a frontmatter title\n- ops/nocat.md has no category. Published content must already be curated into a NORTHSTAR route."
    );
    assert_eq!(validate_published_sync_inputs(&files[..2], &trees), Ok(()));
}

#[test]
fn landing_page_lists_related_repos() {
    let bare = curio_root_body("KB", &[]);
    assert!(bare.starts_with("<ac:image ac:layout=\"center\" ac:width=\"230\"><ri:attachment ri:filename=\"Curio_curated_intelligence_operator.png\" /></ac:image><h1>CURIO</h1>"));
    assert!(!bare.contains("Source Repositories"));
    assert!(bare.contains(&format!("<p>New to CURIO? Start with {} for setup", page_link("KB", "Getting Started", "Getting Started"))));
    assert!(bare.ends_with(&format!("<tr><td>{}</td><td>Northstar, readme, config YAML, onboarding docs, and downloads that define the workspace.</td></tr></tbody></table>", page_link("KB", "Admin", "Admin"))));
    let repos = vec![
        RelatedRepo { url: "https://x/a".into(), title: "A&B".into(), description: " ".into() },
        RelatedRepo { url: "https://x/c".into(), title: "C".into(), description: "the <c> repo".into() },
    ];
    let body = curio_root_body("KB", &repos);
    assert!(body.contains("</ul><h2>Source Repositories</h2><ul><li><a href=\"https://x/a\">A&amp;B</a></li><li><a href=\"https://x/c\">C</a> — the &lt;c&gt; repo</li></ul><h2>How It Works</h2>"));
}

#[test]
fn proposal_page_renders_each_proposal() {
    let p = ProposalView {
        kind: Some("merge".into()),
        recommended_action: Some("Merge <a> into b".into()),
        affected_paths: Some(vec!["a.md".into(), "b.md".into()]),
        rationale: Some("dup".into()),
        confidence_percent: Some("85".into()),
        expected_signal_gain: None,
    };
    let q = ProposalView {
        kind: None,
        recommended_action: None,
        affected_paths: None,
        rationale: None,
        confidence_percent: None,
        expected_signal_gain: Some("high".into()),
    };
    let html = render_proposal_body("2024-01-01", &[p, q]);
    assert_eq!(
        html,
        "<h1>Sharpening Proposal Set</h1><p>Generated at 2024-01-01</p>\
<ac:structured-macro ac:name=\"info\"><ac:rich-text-body><p><strong>merge</strong>: Merge &lt;a&gt; into b</p></ac:rich-text-body></ac:structured-macro>\
<table><tbody><tr><th>Affected paths</th><td>a.md<br/>b.md</td></tr><tr><th>Rationale</th><td>dup</td></tr><tr><th>Confidence</th><td>85%</td></tr></tbody></table>\
<ac:structured-macro ac:name=\"info\"><ac:rich-text-body><p><strong>proposal</strong>: </p></ac:rich-text-body></ac:structured-macro>\
<table><tbody><tr><th>Expected signal gain</th><td>high</td></tr></tbody></table>"
    );
    assert_eq!(render_proposal_body("", &[]), "<h1>Sharpening Proposal Set</h1>");
}

#[test]
fn markdown_falls_back_to_pulldown() {
    assert_eq!(markdown_to_html("x", Some("<p>stored</p>".into())), "<p>stored</p>");
    assert_eq!(markdown_to_html("| a |\n|---|\n| 1 |", None).contains("<table>"), true);
    assert_eq!(markdown_to_html("*x*", None), "<p><em>x</em></p>\n");
}

#[test]
fn heal_steps_follow_the_threshold() {
    assert_eq!(heal_step(HealKind::NoAction, true), HealStep::Skip);
    assert_eq!(heal_step(HealKind::Rewrite, true), HealStep::AutoApprove);
    assert_eq!(heal_step(HealKind::Merge, false), HealStep::ToReview);
}

#[test]
fn heal_note_goes_into_front_matter() {
    assert_eq!(
        inject_auto_heal_frontmatter("---\ntitle: T\n---\nbody", "2024", "0.9"),
        "---\ntitle: T\nauto_healed_at: \"2024\"\nauto_healed_confidence: 0.9\n\n---\nbody"
    );
    assert_eq!(
        inject_auto_heal_frontmatter("plain", "2024", "1"),
        "---\nauto_healed_at: \"2024\"\nauto_healed_confidence: 1\n\n---\n\nplain"
    );
    assert_eq!(
        inject_auto_heal_frontmatter("---no close", "t", "1"),
        "---\nauto_healed_at: \"t\"\nauto_healed_confidence: 1\n\n---\n\n---no close"
    );
}

#[test]
fn archiving_and_plans() {
    assert_eq!(
        archived_text("status: staged\nstatus: published\nstatus: review"),
        "status: archived\nstatus: archived\nstatus: archived"
    );
    assert_eq!(archived_text("status: draft"), "status: draft");
    let plan = auto_approve_plan(HealKind::Archive, "p", "status: published", None, "t", "1").unwrap();
    assert_eq!(plan.archive_as, Some("status: archived".to_string()));
    assert!(!plan.record);
    let plan = auto_approve_plan(HealKind::Merge, "p", "", Some("body"), "t", "0.95").unwrap();
    assert!(plan.remove_merge_sources && plan.record);
    assert_eq!(
        plan.write,
        Some("---\nauto_healed_at: \"t\"\nauto_healed_confidence: 0.95\n\n---\n\nbody".to_string())
    );
    let err = auto_approve_plan(HealKind::Rewrite, "p", "", None, "t", "1").unwrap_err();
    assert_eq!(err, "Rewrite/Merge action for p missing new_content");
    let plan = auto_approve_plan(HealKind::FixStructure, "p", "", None, "t", "1").unwrap();
    assert_eq!(plan.write, None);
    assert!(plan.record && !plan.remove_merge_sources);
}

#[test]
fn heal_texts() {
    assert_eq!(
        heal_log_line(true, "T", HealKind::UpdateMetadata, "s", "0.90", "why"),
        "[T] heal auto-approve UpdateMetadata s (conf 0.90) — why"
    );
    assert_eq!(
        heal_log_line(false, "T", HealKind::Archive, "s", "0.10", "r"),
        "[T] heal route-to-review Archive s (conf 0.10) — r"
    );
    let md = auto_approve_record_md("s", "T", "0.9", "0.90", HealKind::Rewrite, "why", &[]);
    assert_eq!(
        md,
        "---\ntitle: \"Auto-Approved: s\"\nstatus: auto-approved\nauto_healed_at: \"T\"\nauto_healed_confidence: 0.9\n---\n\n# Auto-Approved: s\n\n**Action:** Rewrite  \n**Confidence:** 0.90  \n**Approved at:** T  \n\n## Rationale\n\nwhy\n\n## Sources Consulted\n\n_none_\n"
    );
    let md = auto_approve_record_md("s", "T", "1", "1.00", HealKind::Merge, "r", &["a".into(), "b".into()]);
    assert!(md.ends_with("## Sources Consulted\n\n- a\n- b\n"));
}

#[test]
fn status_reads_the_log_and_mtimes() {
    let log = "# Log\n- **2026-01-01T00:00:00Z** sync: first\n- **2026-02-02T00:00:00Z** sync: second\n- **x** other\n";
    assert_eq!(last_sync_in_log(log), Some("2026-02-02T00:00:00Z".to_string()));
    assert_eq!(last_sync_in_log("no syncs here\n"), None);
    assert_eq!(last_sync_in_log("sync: without bold\n"), None);
    assert!(is_index_stale(Some(10), &[Some(5), None, Some(11)]));
    assert!(!is_index_stale(Some(10), &[Some(10), None]));
    assert!(!is_index_stale(None, &[Some(11)]));
}

#[test]
fn status_text_aligns_counts() {
    let t = status_text(3, 12, 0, 12345, Some("2026"), true);
    assert_eq!(
        t,
        "\n  Curio Pipeline\n  ──────────────────────────────────\n  intake         3  (wiki/intake/)\n  staged        12  (wiki/staged/)\n  review         0  (wiki/review/)\n  published   12345  (wiki/published/)\n\n  last sync   2026\n\n  ⚠  Index may be stale — run `curio reindex` to rebuild\n\n"
    );
    assert!(status_text(0, 0, 0, 0, None, false).ends_with("  last sync   never\n\n"));
}

#[test]
fn heal_manifest_pieces() {
    assert_eq!(scope_label(None), "(all)");
    assert_eq!(scope_label(Some("ops")), "ops");
    assert_eq!(apply_command(None), "curio heal --apply-file /tmp/heal-routes.json");
    assert_eq!(apply_command(Some("ops/db")), "curio heal --apply-file /tmp/heal-routes.json --scope ops/db");
    assert_eq!(missing_scope_error("/w/published/x"), "Scope path does not exist: /w/published/x");
    assert!(is_heal_page("a.md"));
    assert!(!is_heal_page("index.md"));
    assert!(!is_heal_page("a.json"));
    let issue = thin_branch_issue("ops\\db", "/w/published/ops/db/index.md", 12, 50).unwrap();
    assert_eq!((issue.kind.as_str(), issue.slug.as_str(), issue.detail.as_str()), ("thin_branch", "ops/db", "12 words in branch index"));
    assert!(thin_branch_issue("ops", "/i.md", 50, 50).is_none());
}
