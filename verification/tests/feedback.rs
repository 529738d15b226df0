use curio::commands::feedback::{
    audit_log_text, category_path, decide_action, feedback_text, label_action, reaction_action,
    reviewer_comments, with_status, FeedbackAction, ReviewComment,
};

fn strings(v: &[&str]) -> Vec<String> {
    v.iter().map(|s| s.to_string()).collect()
}

#[test]
fn labels_pick_approve_before_reject_and_rewrite() {
    let labels = strings(&["curio:rewrite", "curio:reject", "curio:approve"]);
    assert_eq!(label_action(&labels), Some(FeedbackAction::Approve));
    let labels = strings(&["other", "curio:rewrite", "curio:reject"]);
    assert_eq!(label_action(&labels), Some(FeedbackAction::Reject));
    let labels = strings(&["curio:rewrite"]);
    assert_eq!(label_action(&labels), Some(FeedbackAction::Rewrite));
    assert_eq!(label_action(&strings(&["curio:approved"])), None);
    assert_eq!(label_action(&[]), None);
}

#[test]
fn reactions_map_to_actions() {
    assert_eq!(reaction_action(&strings(&["\u{1F44D}"])), Some(FeedbackAction::Approve));
    assert_eq!(reaction_action(&strings(&[":+1:"])), Some(FeedbackAction::Approve));
    assert_eq!(reaction_action(&strings(&["thumbsdown", "thumbsup"])), Some(FeedbackAction::Approve));
    assert_eq!(reaction_action(&strings(&["-1"])), Some(FeedbackAction::Reject));
    assert_eq!(reaction_action(&strings(&["\u{1F44E}"])), Some(FeedbackAction::Reject));
    assert_eq!(reaction_action(&strings(&["question"])), Some(FeedbackAction::Rewrite));
    assert_eq!(reaction_action(&strings(&["\u{2753}"])), Some(FeedbackAction::Rewrite));
    assert_eq!(reaction_action(&strings(&["heart"])), None);
    assert_eq!(reaction_action(&[]), None);
}

#[test]
fn labels_beat_reactions_and_comments_capture() {
    assert_eq!(
        decide_action(Some(FeedbackAction::Reject), Some(FeedbackAction::Approve), true),
        FeedbackAction::Reject
    );
    assert_eq!(decide_action(None, Some(FeedbackAction::Rewrite), true), FeedbackAction::Rewrite);
    assert_eq!(decide_action(None, None, true), FeedbackAction::Capture);
    assert_eq!(decide_action(None, None, false), FeedbackAction::NoSignal);
}

#[test]
fn reviewer_comments_skip_pinned_and_blank() {
    let comments = vec![
        ReviewComment { id: Some("pin".to_string()), body: "<p>pinned</p>".to_string() },
        ReviewComment { id: Some("c1".to_string()), body: "<p>Needs   more <b>detail</b></p>".to_string() },
        ReviewComment { id: None, body: "".to_string() },
        ReviewComment { id: None, body: "<p> </p>".to_string() },
        ReviewComment { id: None, body: "ok".to_string() },
    ];
    let got = reviewer_comments(&comments, Some("pin"));
    assert_eq!(got, vec!["Needs more detail".to_string(), "ok".to_string()]);
    let all = reviewer_comments(&comments, None);
    assert_eq!(all.len(), 3);
    assert_eq!(all[0], "pinned");
}

#[test]
fn status_replaced_once() {
    let raw = "---\nstatus: review\n---\nstatus: review again\n";
    assert_eq!(with_status(raw, "staged"), "---\nstatus: staged\n---\nstatus: review again\n");
    assert_eq!(with_status("no front matter", "intake"), "no front matter");
}

#[test]
fn category_path_defaults_to_uncategorised() {
    assert_eq!(category_path(&[]), "uncategorised");
    assert_eq!(category_path(&strings(&["eng", "infra"])), "eng/infra");
}

#[test]
fn feedback_text_appends_trimmed_comments() {
    let got = feedback_text(None, "2024-01-01T00:00:00Z", &strings(&["  first ", "second"]));
    assert_eq!(
        got,
        "# Review Feedback\n\n\n## Comments (2024-01-01T00:00:00Z)\n\n- first\n- second\n"
    );
    let got = feedback_text(Some("old\n"), "t", &[]);
    assert_eq!(got, "old\n\n## Comments (t)\n\n");
}

#[test]
fn audit_log_text_appends_lines() {
    assert_eq!(audit_log_text(None, &strings(&["a", "b"])), "# Curio Audit Log\n\na\nb\n");
    assert_eq!(audit_log_text(Some("x\n"), &strings(&["y"])), "x\ny\n");
}
