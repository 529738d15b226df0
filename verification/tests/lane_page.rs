use curio::commands::lane_page::{
    child_status_badge, render_child_links, render_lane_branch_body, render_lane_page_body,
    score_bar, BadgeFacts, ChildLink, LanePage, ProposalFacts, RoutingFacts, ScoreMark,
    TaxonomyMutation,
};
use curio::PageStatus;

/// A score as a page shows it: a percentage and a number of filled bar cells (the
/// rounding of a 0..1 score to these stays with the caller).
fn m(pct: u32, filled: u32) -> ScoreMark {
    ScoreMark { pct, filled }
}

struct Scores {
    route_pct: u32,
    high_overlap: bool,
    hierarchy_fit: ScoreMark,
    overlap_risk: ScoreMark,
    evidence_completeness: ScoreMark,
    freshness: ScoreMark,
}

fn default_scores() -> Scores {
    Scores {
        route_pct: 0,
        high_overlap: false,
        hierarchy_fit: m(0, 0),
        overlap_risk: m(0, 0),
        evidence_completeness: m(0, 0),
        freshness: m(0, 0),
    }
}

fn proposal_with(
    kind: &str,
    scores: &Scores,
    merge_target: Option<String>,
    taxonomy_mutation: Option<TaxonomyMutation>,
    alternatives: Vec<String>,
) -> ProposalFacts {
    ProposalFacts {
        kind: kind.to_string(),
        recommended_action: "review for merge".into(),
        merge_target,
        review_reason: Some("ambiguous topic".into()),
        hierarchy_fit: scores.hierarchy_fit,
        overlap_risk: scores.overlap_risk,
        evidence_completeness: scores.evidence_completeness,
        freshness: scores.freshness,
        taxonomy_mutation,
        alternatives_considered: alternatives,
        unresolved_questions: vec!["is this duplicate?".into()],
        rationale: "the agent chose review because two paths fit".into(),
        body_rewrite_kind: Some("full_synthesis".into()),
        decision_section_present: true,
    }
}

fn badge_of(kind: &str, scores: &Scores, merge_target: Option<String>, new_node: bool) -> BadgeFacts {
    BadgeFacts {
        kind: kind.to_string(),
        route_confidence_pct: scores.route_pct,
        high_overlap: scores.high_overlap,
        new_node,
        merge_target,
    }
}

fn make_page(category: &[&str], confidence: ScoreMark, body: &str, proposal: Option<ProposalFacts>) -> LanePage {
    LanePage {
        status: PageStatus::Review,
        category: category.iter().map(|s| s.to_string()).collect(),
        route_confidence: confidence,
        information_quality: m(70, 7),
        usability: m(80, 8),
        quality_flags: vec![],
        proposal,
        analysis: None,
        body_markdown: body.to_string(),
        auto_heal: None,
    }
}

#[test]
fn score_bar_renders_correctly() {
    assert!(score_bar(m(0, 0)).starts_with("0%"));
    assert!(score_bar(m(100, 10)).starts_with("100%"));
    let mid = score_bar(m(50, 5));
    assert!(mid.contains("50%"), "got {mid}");
    assert!(mid.contains("▰"));
    assert!(mid.contains("▱"));
    assert!(score_bar(m(0, 0)).starts_with("0%"));
    assert!(score_bar(m(100, 10)).starts_with("100%"));
}

#[test]
fn score_bar_exact_text() {
    assert_eq!(score_bar(ScoreMark { pct: 62, filled: 6 }), "62% <code>▰▰▰▰▰▰▱▱▱▱</code>");
    assert_eq!(score_bar(ScoreMark { pct: 100, filled: 14 }), "100% <code>▰▰▰▰▰▰▰▰▰▰</code>");
}

#[test]
fn child_status_badge_returns_empty_without_sidecar() {
    assert_eq!(child_status_badge(None), "");
}

#[test]
fn child_status_badge_surfaces_overlap_merge_and_taxonomy() {
    let scores = Scores {
        route_pct: 82,
        high_overlap: true,
        hierarchy_fit: m(70, 7),
        overlap_risk: m(85, 9),
        evidence_completeness: m(60, 6),
        freshness: m(100, 10),
    };
    let facts = badge_of("Merge", &scores, Some("published/x.md".into()), true);
    let badge = child_status_badge(Some(&facts));
    assert!(badge.contains("Merge"), "badge must show kind; got {badge}");
    assert!(badge.contains("82%"), "badge must show route conf; got {badge}");
    assert!(badge.contains("overlap"), "badge must flag overlap; got {badge}");
    assert!(badge.contains("new node"), "badge must flag taxonomy mutation; got {badge}");
    assert!(badge.contains("published/x.md"), "badge must show merge target; got {badge}");
}

#[test]
fn child_status_badge_exact_text() {
    let facts = BadgeFacts {
        kind: "NewPage".into(),
        route_confidence_pct: 9,
        high_overlap: false,
        new_node: false,
        merge_target: Some("a<b".into()),
    };
    assert_eq!(
        child_status_badge(Some(&facts)),
        " <code>NewPage</code> <em>9%</em> — merge → <code>a&lt;b</code>"
    );
}

#[test]
fn branch_child_outline_surfaces_index_proposal_badges() {
    let scores = Scores {
        route_pct: 81,
        high_overlap: false,
        hierarchy_fit: m(86, 9),
        overlap_risk: m(20, 2),
        evidence_completeness: m(74, 7),
        freshness: m(90, 9),
    };
    let child = ChildLink {
        title: "Branch Index".into(),
        summary: "Branch summary body.".into(),
        is_branch: true,
        proposal: Some(badge_of("Split", &scores, None, false)),
    };
    let html = render_child_links(vec![child], "TEST");
    assert!(html.contains("Branch Index"));
    assert!(html.contains("Split"), "branch children must show proposal kind");
    assert!(html.contains("81%"), "branch children must show route confidence");
}

#[test]
fn child_links_are_sorted_by_title() {
    let a = ChildLink { title: "b".into(), summary: String::new(), is_branch: false, proposal: None };
    let b = ChildLink { title: "a".into(), summary: "s".into(), is_branch: true, proposal: None };
    let html = render_child_links(vec![a, b], "K");
    let pa = html.find("ri:content-title=\"a\"").unwrap();
    let pb = html.find("ri:content-title=\"b\"").unwrap();
    assert!(pa < pb);
    assert!(html.starts_with("<h2>Child Pages</h2><ul><li>"));
    assert!(html.ends_with("</li></ul>"));
    assert_eq!(render_child_links(vec![], "K"), "");
}

#[test]
fn lane_branch_body_names_the_branch() {
    let html = render_lane_branch_body("K", "tree/ops", "review", None);
    assert_eq!(html, "<p>Review proposal branch for <code>tree/ops</code>.</p>");
    let html = render_lane_branch_body("K", "tree/ops", "staged", Some(vec![]));
    assert_eq!(html, "<p>Staged proposal branch for <code>tree/ops</code>.</p>");
}

#[test]
fn lane_page_body_includes_curation_decision_and_recommendation() {
    let scores = Scores {
        route_pct: 92,
        high_overlap: false,
        hierarchy_fit: m(88, 9),
        overlap_risk: m(10, 1),
        evidence_completeness: m(70, 7),
        freshness: m(100, 10),
    };
    let proposal = proposal_with(
        "NewPage",
        &scores,
        None,
        None,
        vec!["alt path A (rejected: too shallow)".into()],
    );
    let page = make_page(&["tree", "leaf"], m(92, 9), "Body content.", Some(proposal));
    let html = render_lane_page_body(&page, "review");
    assert!(html.contains("Curation Decision"), "missing curation section");
    assert!(html.contains("Recommendation"), "missing recommendation section");
    assert!(html.contains("Hierarchy fit"), "missing hierarchy fit row");
    assert!(html.contains("Evidence completeness"), "missing evidence row");
    assert!(html.contains("Freshness"), "missing freshness row");
    assert!(html.contains("Alternatives considered"), "must surface alternatives");
    assert!(html.contains("alt path A (rejected: too shallow)"));
    assert!(html.contains("Body rewrite"), "must surface body rewrite badge");
    assert!(html.contains("Proposed page"), "must label the rendered body");
}

#[test]
fn lane_page_body_renders_taxonomy_mutation_panel() {
    let proposal = proposal_with(
        "TaxonomyChange",
        &default_scores(),
        None,
        Some(TaxonomyMutation {
            proposed_node_title: "New Subtree".into(),
            proposed_node_slug: "new-subtree".into(),
            proposed_parent_path: vec!["tree".into()],
            node_description: "what it's for".into(),
            rationale: "no existing node fits".into(),
            rejected_nearby_nodes: vec!["near-a".into(), "near-b".into()],
        }),
        vec![],
    );
    let page = make_page(&["tree"], m(60, 6), "B", Some(proposal));
    let html = render_lane_page_body(&page, "review");
    assert!(html.contains("Taxonomy mutation proposed"));
    assert!(html.contains("New Subtree"));
    assert!(html.contains("new-subtree"));
    assert!(html.contains("no existing node fits"));
    assert!(html.contains("near-a, near-b"));
}

#[test]
fn lane_page_body_without_proposal_uses_routing_analysis() {
    let mut page = make_page(&[], m(50, 5), "Hello", None);
    page.analysis = Some(RoutingFacts {
        rationale: "fits ops".into(),
        review_reason: None,
        proposed_new_subtree: None,
    });
    let html = render_lane_page_body(&page, "staged");
    assert!(html.contains("ac:name=\"info\""));
    assert!(html.contains("<tr><th>Route</th><td>unrouted</td></tr>"));
    assert!(html.contains("50% <code>▰▰▰▰▰▱▱▱▱▱</code>"));
    assert!(!html.contains("<h2>Recommendation</h2>"));
    assert!(html.contains("fits ops"));
}
