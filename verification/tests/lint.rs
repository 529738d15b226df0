use curio::commands::lint::{lint_issues, lint_report, without_ref, LintEntry, LintKind};

fn entry(path: &str, status: &str, keywords: &[&str], low: bool, exists: bool, refs: Option<&[&str]>) -> LintEntry {
    LintEntry {
        path: path.to_string(),
        status: status.to_string(),
        keywords: keywords.iter().map(|s| s.to_string()).collect(),
        low_confidence: low,
        exists,
        cross_refs: refs.map(|r| r.iter().map(|s| s.to_string()).collect()),
    }
}

#[test]
fn lint_finds_each_kind_in_order() {
    let entries = vec![
        entry("published/a.md", "published", &["k"], false, true, Some(&["b.md", "published/a.md", "ops/x.md"])),
        entry("published/b.md", "published", &[], true, true, None),
        entry("published/gone.md", "staged", &[], false, false, None),
    ];
    let issues = lint_issues(&entries);
    let got: Vec<(LintKind, &str, Option<&str>)> =
        issues.iter().map(|i| (i.kind, i.path.as_str(), i.broken_ref.as_deref())).collect();
    assert_eq!(
        got,
        vec![
            (LintKind::OrphanedCrossRef, "published/a.md", Some("ops/x.md")),
            (LintKind::MissingFile, "published/gone.md", None),
            (LintKind::MissingKeywords, "published/b.md", None),
            (LintKind::LowConfidence, "published/b.md", None),
        ]
    );
    let report = lint_report(&issues, 3, true, 1);
    assert!(report.starts_with("4 issue(s) found across 3 pages: 1 fixed\n"));
    assert!(report.contains("  [ orphaned_cross_ref ] published/a.md — Cross-reference points to a non-existent page\n"));
    assert!(report.contains("  [    missing_file    ] published/gone.md — Registry entry exists but file is missing\n"));
    assert_eq!(lint_report(&[], 5, false, 0), "No issues found (5 pages checked)\n");
}

#[test]
fn broken_refs_are_removed() {
    let refs: Vec<String> = vec!["a".into(), "b".into(), "a".into()];
    assert_eq!(without_ref(&refs, "a"), vec!["b".to_string()]);
}
