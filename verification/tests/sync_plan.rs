use curio::commands::sync::{
    parse_northstar_blueprint, published_sync_plan, skip_unchanged, stale_pages_to_delete, SyncOp,
};
use curio::confluence::{check_write_root, under_write_root, write_guard_step, GuardStep};

fn e(p: &str, d: bool) -> (String, bool) {
    (p.to_string(), d)
}

#[test]
fn published_walk_plans_branches_and_pages() {
    let trees = parse_northstar_blueprint(
        "## Published Tree Blueprint\n### Account Tree\n**Icon:** 1f4e6\n#### Billing\n**Icon:** x\n",
    );
    let entries = vec![
        e("account-tree", true),
        e("account-tree/billing", true),
        e("account-tree/billing/deep", true),
        e("account-tree/billing/deep/page.md", false),
        e("account-tree/index.md", false),
        e("account-tree/a.analysis.json", false),
        e(".hidden", true),
        e("account-tree/_draft.md", false),
        e("uncategorized", true),
        e("uncategorized/x.md", false),
        e("ops", true),
        e("ops/notes.txt", false),
    ];
    let plan = published_sync_plan(&entries, &trees);
    assert_eq!(plan.len(), 5);
    match &plan[0] {
        SyncOp::Branch { rel_path, parent_rel, name, title, icon, .. } => {
            assert_eq!((rel_path.as_str(), parent_rel.as_str(), name.as_str()), ("account-tree", "", "account-tree"));
            assert_eq!(title, "Account Tree");
            assert_eq!(icon.as_deref(), Some("1f4e6"));
        }
        _ => panic!("branch expected"),
    }
    match &plan[1] {
        SyncOp::Branch { parent_rel, title, icon, .. } => {
            assert_eq!(parent_rel, "account-tree");
            assert_eq!(title, "Billing");
            assert_eq!(icon.as_deref(), Some("x"));
        }
        _ => panic!("branch expected"),
    }
    match &plan[2] {
        SyncOp::Branch { parent_rel, title, description_html, icon, .. } => {
            assert_eq!(parent_rel, "account-tree/billing");
            assert_eq!(title, "Deep");
            assert_eq!(description_html, "");
            assert_eq!(icon, &None);
        }
        _ => panic!("branch expected"),
    }
    match &plan[3] {
        SyncOp::Page { rel_path, parent_rel } => {
            assert_eq!(rel_path, "account-tree/billing/deep/page.md");
            assert_eq!(parent_rel, "account-tree/billing/deep");
        }
        _ => panic!("page expected"),
    }
    match &plan[4] {
        SyncOp::Branch { title, .. } => assert_eq!(title, "Ops"),
        _ => panic!("branch expected"),
    }
}

#[test]
fn unchanged_pages_are_skipped() {
    assert!(skip_unchanged(true, Some("h1"), "h1"));
    assert!(!skip_unchanged(true, Some("h0"), "h1"));
    assert!(!skip_unchanged(true, None, "h1"));
    assert!(!skip_unchanged(false, Some("h1"), "h1"));
}

#[test]
fn only_owned_unseen_pages_are_pruned() {
    let candidates = vec![e("1", true), e("2", false), e("3", true), e("4", true)];
    let synced = vec!["3".to_string()];
    assert_eq!(stale_pages_to_delete(&candidates, &synced, true), vec!["1".to_string(), "4".to_string()]);
    assert!(stale_pages_to_delete(&candidates, &synced, false).is_empty());
}

#[test]
fn writes_stay_under_the_write_root() {
    assert!(under_write_root("R", &[], "R"));
    assert!(under_write_root("R", &["P".into(), "R".into()], "X"));
    assert!(!under_write_root("R", &["P".into(), "Q".into()], "X"));
    assert!(matches!(write_guard_step("R", "R", None), GuardStep::Inside));
    assert!(matches!(write_guard_step("R", "X", Some("R")), GuardStep::Inside));
    assert!(matches!(write_guard_step("R", "X", None), GuardStep::Outside));
    match write_guard_step("R", "X", Some("P")) {
        GuardStep::Up(p) => assert_eq!(p, "P"),
        _ => panic!("up expected"),
    }
    assert_eq!(check_write_root(None, &[], "X"), Ok(()));
    assert_eq!(
        check_write_root(Some("R"), &["P".into()], "X"),
        Err("Refusing to write page X because it is outside the configured CURIO output root page R".to_string())
    );
}

#[test]
fn sync_closing_lines() {
    assert_eq!(curio::commands::sync::sync_summary(3, 1, 0, true), "Sync: 3 upserted, 1 skipped, 0 errors (dry run)");
    assert_eq!(
        curio::commands::sync::sync_log_line(3, 1, 2, 4, 0),
        "sync: 3 upserted, 1 skipped, 2 owned stale deleted, 4 unowned preserved, 0 errors"
    );
}
