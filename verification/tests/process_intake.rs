use curio::commands::process_intake::{
    enforce_manifest_budget, hierarchy_json_text, HierarchyContextEntry, PeerPageSnippet,
};

fn pages_size(json: &str) -> usize {
    let pages: Vec<serde_json::Value> = serde_json::from_str(json).unwrap();
    serde_json::to_string(&pages).map(|s| s.len()).unwrap_or(0)
}

#[test]
fn enforce_manifest_budget_drops_peers_until_under_budget() {
    let mut hierarchy: Vec<HierarchyContextEntry> = (0..5)
        .map(|i| HierarchyContextEntry {
            path: format!("published/branch-{i}/index.md"),
            title: format!("Branch {i}"),
            summary: "branch summary".into(),
            peer_pages: (0..5)
                .map(|j| PeerPageSnippet {
                    path: format!("published/branch-{i}/page-{j}.md"),
                    title: format!("Page {j}"),
                    summary: "x".repeat(500),
                    keywords: vec!["a".into(), "b".into()],
                })
                .collect(),
        })
        .collect();
    let size = pages_size("[{\"slug\": \"intake-1\", \"title\": \"T\"}]");
    let (truncated, dropped) = enforce_manifest_budget(&mut hierarchy, size, 0, 2_000);
    assert!(truncated, "must report truncation");
    assert!(dropped > 0, "must drop at least one peer entry");
    let remaining: usize = hierarchy.iter().map(|e| e.peer_pages.len()).sum();
    assert!(remaining < 25, "must drop at least one peer (started at 25)");
}

#[test]
fn enforce_manifest_budget_no_op_when_under_budget() {
    let mut hierarchy = vec![HierarchyContextEntry {
        path: "p".into(),
        title: "t".into(),
        summary: "s".into(),
        peer_pages: vec![PeerPageSnippet { path: "p1".into(), title: "t".into(), summary: "s".into(), keywords: vec![] }],
    }];
    let (truncated, dropped) = enforce_manifest_budget(&mut hierarchy, pages_size("[]"), 0, 1_000_000);
    assert!(!truncated);
    assert_eq!(dropped, 0);
    assert_eq!(hierarchy[0].peer_pages.len(), 1);
}

fn entry(name: &str, peers: usize) -> HierarchyContextEntry {
    HierarchyContextEntry {
        path: name.into(),
        title: name.into(),
        summary: String::new(),
        peer_pages: (0..peers)
            .map(|j| PeerPageSnippet { path: format!("{name}{j}"), title: String::new(), summary: String::new(), keywords: vec![] })
            .collect(),
    }
}

#[test]
fn manifest_json_and_fullest_branch_first() {
    let one = vec![HierarchyContextEntry {
        path: "a\"b".into(),
        title: "T".into(),
        summary: "S".into(),
        peer_pages: vec![PeerPageSnippet { path: "p".into(), title: "t".into(), summary: "s".into(), keywords: vec!["k".into()] }],
    }];
    let text: String = hierarchy_json_text(&one).into_iter().collect();
    assert_eq!(
        text,
        "[{\"path\":\"a\\\"b\",\"title\":\"T\",\"summary\":\"S\",\"peer_pages\":[{\"path\":\"p\",\"title\":\"t\",\"summary\":\"s\",\"keywords\":[\"k\"]}]}]"
    );
    let bare: String = hierarchy_json_text(&vec![entry("x", 0)]).into_iter().collect();
    assert_eq!(bare, "[{\"path\":\"x\",\"title\":\"x\",\"summary\":\"\"}]");
    // Two branches of two peers: the later one gives up first, then the earlier.
    let mut h = vec![entry("a", 2), entry("b", 2)];
    let full: String = hierarchy_json_text(&h).into_iter().collect();
    let (truncated, dropped) = enforce_manifest_budget(&mut h, 0, 0, full.len() - 1);
    assert!(truncated);
    assert_eq!(dropped, 1);
    assert_eq!((h[0].peer_pages.len(), h[1].peer_pages.len()), (2, 1));
    let mut h = vec![entry("a", 2), entry("b", 2)];
    let (_, dropped) = enforce_manifest_budget(&mut h, 0, 0, 0);
    assert_eq!(dropped, 4);
    assert!(h.iter().all(|e| e.peer_pages.is_empty()));
}
