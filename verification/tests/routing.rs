use curio::commands::process_intake::{
    body_rewrite_kind, check_route, consolidation_note, effective_body, is_technical,
    merge_directives, merged_body, plan_route, process_summary, proposal_kind,
    proposed_node_title, recommended_action, route_alternatives, scoring_body, sidecar_flags,
    ProposalKind, RouteDecision, RouteSignals,
};
use curio::commands::process_intake::{decisions_plan, routing_writes, PageStep};

fn decision(status: &str, category: &[&str]) -> RouteDecision {
    RouteDecision {
        status: status.to_string(),
        category: category.iter().map(|s| s.to_string()).collect(),
        review_reason: None,
        merge_target: None,
        proposed_new_subtree: None,
        proposed_body_markdown: None,
        decision_section_markdown: None,
        body_rewrite_kind: None,
    }
}

fn signals(needs_review: bool, high_overlap: bool, has_path: bool, technical: bool) -> RouteSignals {
    RouteSignals {
        needs_review,
        high_overlap,
        top_overlap_path: Some("published/ops/peer.md".to_string()),
        overlap_percent: "82".to_string(),
        quality_percent: "40".to_string(),
        usability_percent: "55".to_string(),
        taxonomy_has_path: has_path,
        technical,
    }
}

#[test]
fn routes_need_a_valid_category() {
    assert_eq!(
        check_route("p", &[], true, false),
        Err("Routing decision for 'p' is missing a category path".to_string())
    );
    assert_eq!(
        check_route("p", &["ops".into(), "x".into()], false, false),
        Err("Routing decision for 'p' uses invalid taxonomy path 'ops/x'. Attach a new-node proposal or move it to review.".to_string())
    );
    assert_eq!(check_route("p", &["ops".into()], false, true), Ok(()));
}

#[test]
fn scoring_uses_a_nonblank_rewrite() {
    assert_eq!(scoring_body(Some("new"), "old"), "new");
    assert_eq!(scoring_body(Some("  "), "old"), "old");
    assert_eq!(scoring_body(None, "old"), "old");
}

#[test]
fn technical_pages_are_detected_case_insensitively() {
    assert!(is_technical("How To Upgrade", ""));
    assert!(is_technical("Notes", "an ERROR appears"));
    assert!(!is_technical("Team lunch", "menu"));
}

#[test]
fn review_plans_fill_in_target_and_reason() {
    let plan = plan_route(&decision("staged", &["ops", "db"]), &signals(true, true, true, false));
    assert!(!plan.staged);
    assert_eq!(plan.merge_target, Some("published/ops/peer.md".to_string()));
    assert_eq!(
        plan.review_reason,
        Some("High semantic overlap (82%) with existing peer content at 'published/ops/peer.md' — requires review for merge or consolidation".to_string())
    );
    let plan = plan_route(&decision("staged", &["ops"]), &signals(true, false, false, false));
    assert_eq!(
        plan.review_reason,
        Some("Proposed taxonomy path does not exist yet — requires review with a taxonomy mutation".to_string())
    );
    let plan = plan_route(&decision("review", &["ops"]), &signals(true, false, true, false));
    assert_eq!(
        plan.review_reason,
        Some("Low information quality (40%) or usability (55%) — requires review before publication".to_string())
    );
    let mut d = decision("staged", &["ops"]);
    d.review_reason = Some("agent says so".into());
    let plan = plan_route(&d, &signals(true, false, true, false));
    assert_eq!(plan.review_reason, Some("agent says so".to_string()));
}

#[test]
fn shallow_technical_pages_go_to_review() {
    let plan = plan_route(&decision("staged", &["ops"]), &signals(false, false, true, true));
    assert!(!plan.staged && plan.shallow_warning);
    assert_eq!(
        plan.review_reason,
        Some("Shallow-route warning: content appears technical/operational but was routed to a top-level category 'ops' with no subtree. Verify this is the correct final depth or propose a deeper path.".to_string())
    );
    let plan = plan_route(&decision("staged", &["ops", "db"]), &signals(false, false, true, true));
    assert!(plan.staged && !plan.shallow_warning && plan.review_reason.is_none());
    let plan = plan_route(&decision("review", &["ops"]), &signals(false, false, true, true));
    assert!(!plan.staged && !plan.shallow_warning);
}

#[test]
fn sidecar_flags_keep_three_overlaps() {
    let flags = sidecar_flags(
        &["thin".into()],
        &["a".into(), "b".into(), "c".into(), "d".into()],
        true,
    );
    assert_eq!(flags, vec!["thin", "overlap:a", "overlap:b", "overlap:c", "shallow_route_warning"]);
    assert_eq!(sidecar_flags(&[], &["a".into()], false), vec!["overlap:a"]);
}

#[test]
fn bodies_after_routing() {
    assert_eq!(effective_body(Some("  ## Decision \n"), Some("new"), "old"), ("## Decision\n\nnew".to_string(), true));
    assert_eq!(effective_body(Some("## D"), None, "old"), ("## D\n\nold".to_string(), true));
    assert_eq!(effective_body(Some("   "), None, "old"), ("old".to_string(), false));
    assert_eq!(effective_body(None, Some("new"), "old"), ("new".to_string(), true));
    assert_eq!(body_rewrite_kind(None, true), "full_synthesis");
    assert_eq!(body_rewrite_kind(None, false), "none");
    assert_eq!(body_rewrite_kind(Some("light_edit"), true), "light_edit");
}

#[test]
fn proposal_record_pieces() {
    assert_eq!(proposal_kind(true, true, true), ProposalKind::TaxonomyChange);
    assert_eq!(proposal_kind(false, false, true), ProposalKind::Merge);
    assert_eq!(proposal_kind(false, false, false), ProposalKind::NewPage);
    assert_eq!(recommended_action(true, Some("x"), true), "stage for approval");
    assert_eq!(recommended_action(false, Some("x"), true), "review for merge into 'x'");
    assert_eq!(recommended_action(false, None, true), "review taxonomy mutation proposal before publication");
    assert_eq!(recommended_action(false, None, false), "review before further action");
    assert_eq!(proposed_node_title("db-tools-x"), "db tools x");
    assert_eq!(route_alternatives(&["ops".into(), "db".into()]), vec!["Primary route candidate: ops"]);
    assert!(route_alternatives(&[]).is_empty());
    assert_eq!(
        consolidation_note(&["A".into(), "B".into()]),
        "Consolidated 2 merged source(s) per agent decision: A; B"
    );
}

#[test]
fn merges_before_routing() {
    let ds = vec![
        ("a".to_string(), Some("b".to_string())),
        ("b".to_string(), None),
        ("c".to_string(), Some("c".to_string())),
    ];
    assert_eq!(merge_directives(&ds), vec![("a".to_string(), "b".to_string())]);
    assert_eq!(
        merged_body("primary  \n", "Second", "a", "\n  secondary"),
        "primary\n\n## Merged source: Second (a)\n\nsecondary"
    );
    assert_eq!(process_summary(3, 1, 0, true), "3 processed (1 merged into primary), 0 errors (dry run)");
    assert_eq!(process_summary(2, 0, 1, false), "2 processed, 1 errors");
}

#[test]
fn routing_writes_lands_a_clean_page_in_staged() {
    let d = decision("staged", &["ops", "deploys"]);
    let w = routing_writes(&d, &signals(false, false, true, false), "rollback", "/kb/wiki", "Body", &[], &[])
        .unwrap();
    assert!(w.plan.staged);
    assert_eq!(w.lane, "staged");
    assert_eq!(w.dest_dir, "/kb/wiki/staged/ops/deploys");
    assert_eq!(w.dest_path, "/kb/wiki/staged/ops/deploys/rollback.md");
    assert_eq!(w.body, "Body");
    assert!(!w.rewrite_body);
    assert_eq!(w.rewrite_kind, "none");
    assert!(w.sidecar_flags.is_empty());
}

#[test]
fn routing_writes_sends_a_shallow_technical_page_to_review() {
    let mut d = decision("staged", &["ops"]);
    d.proposed_body_markdown = Some("New body".to_string());
    d.decision_section_markdown = Some("  ## Decision  ".to_string());
    let w = routing_writes(
        &d,
        &signals(false, false, true, true),
        "install-guide",
        "wiki/",
        "Old",
        &["thin".to_string()],
        &["a.md".to_string(), "b.md".to_string(), "c.md".to_string(), "d.md".to_string()],
    )
    .unwrap();
    assert!(!w.plan.staged);
    assert!(w.plan.shallow_warning);
    assert_eq!(w.dest_path, "wiki/review/ops/install-guide.md");
    assert_eq!(w.body, "## Decision\n\nNew body");
    assert!(w.rewrite_body);
    assert_eq!(w.rewrite_kind, "full_synthesis");
    assert_eq!(
        w.sidecar_flags,
        vec!["thin", "overlap:a.md", "overlap:b.md", "overlap:c.md", "shallow_route_warning"]
    );
}

#[test]
fn routing_writes_refuses_an_unknown_path_without_a_proposal() {
    let d = decision("staged", &["nowhere"]);
    let e = routing_writes(&d, &signals(false, false, false, false), "x", "wiki", "B", &[], &[]).unwrap_err();
    assert_eq!(
        e,
        "Routing decision for 'x' uses invalid taxonomy path 'nowhere'. Attach a new-node proposal or move it to review."
    );
    let e = routing_writes(&decision("staged", &[]), &signals(false, false, true, false), "x", "wiki", "B", &[], &[])
        .unwrap_err();
    assert_eq!(e, "Routing decision for 'x' is missing a category path");
}

fn pairs(ds: &[(&str, Option<&str>)]) -> Vec<(String, Option<String>)> {
    ds.iter().map(|(s, t)| (s.to_string(), t.map(|x| x.to_string()))).collect()
}

#[test]
fn decisions_plan_merges_first_then_routes_each_page() {
    let pages: Vec<String> = vec!["a".into(), "b".into(), "c".into(), "d".into()];
    let ds = pairs(&[("b", Some("a")), ("a", None), ("d", Some("d")), ("a", Some("c"))]);
    let plan = decisions_plan(&pages, &ds, false);
    assert_eq!(plan.merges, vec![("b".to_string(), "a".to_string()), ("a".to_string(), "c".to_string())]);
    assert_eq!(
        plan.steps,
        vec![PageStep::Route(1), PageStep::Secondary, PageStep::NoDecision, PageStep::Secondary]
    );
}

#[test]
fn decisions_plan_dry_run_only_previews() {
    let pages: Vec<String> = vec!["a".into(), "b".into()];
    let ds = pairs(&[("b", Some("a")), ("a", None)]);
    let plan = decisions_plan(&pages, &ds, true);
    assert!(plan.merges.is_empty());
    assert_eq!(plan.steps, vec![PageStep::Preview(1), PageStep::Secondary]);
}
