use curio::acl::{can_read, find_snapshot, AccessContext, AclSnapshot, Principal, PrincipalKind};

fn p(kind: PrincipalKind, id: &str) -> Principal {
    Principal { kind, id: id.into(), label: None }
}

#[test]
fn deny_wins_and_missing_identity_fails_closed() {
    let s = AclSnapshot {
        source_id: "x".into(),
        source_revision: "1".into(),
        captured_at: "now".into(),
        allow: vec![p(PrincipalKind::Group, "eng")],
        deny: vec![p(PrincipalKind::User, "u")],
    };
    let mut a = AccessContext::default();
    a.group_ids.push("eng".into());
    assert!(can_read(Some(&s), Some(&a)));
    a.principal_ids.push("u".into());
    assert!(!can_read(Some(&s), Some(&a)));
    assert!(!can_read(Some(&s), None));
}

#[test]
fn no_snapshot_reads_freely() {
    assert!(can_read(None, None));
    let a = AccessContext::new(vec!["u".to_string()]);
    assert!(can_read(None, Some(&a)));
}

#[test]
fn empty_allow_list_is_restricted() {
    let s = AclSnapshot {
        source_id: "x".into(),
        source_revision: "1".into(),
        captured_at: "now".into(),
        allow: vec![],
        deny: vec![],
    };
    let a = AccessContext::new(vec!["u".to_string()]);
    assert!(!can_read(Some(&s), Some(&a)));
}

#[test]
fn public_allow_and_service_identity() {
    let s = AclSnapshot {
        source_id: "x".into(),
        source_revision: "1".into(),
        captured_at: "now".into(),
        allow: vec![p(PrincipalKind::Public, "")],
        deny: vec![p(PrincipalKind::Service, "bot")],
    };
    let mut a = AccessContext::new(vec![]);
    assert!(can_read(Some(&s), Some(&a)));
    a.service_ids.push("bot".into());
    assert!(!can_read(Some(&s), Some(&a)));
}

#[test]
fn find_snapshot_takes_first_match() {
    let mk = |id: &str, rev: &str| AclSnapshot {
        source_id: id.into(),
        source_revision: rev.into(),
        captured_at: "t".into(),
        allow: vec![],
        deny: vec![],
    };
    let list = vec![mk("a", "1"), mk("b", "2"), mk("b", "3")];
    assert_eq!(find_snapshot(&list, "b"), Some(1));
    assert_eq!(find_snapshot(&list, "c"), None);
}
