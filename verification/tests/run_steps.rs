use curio::commands::feedback::{FeedbackAction, ReviewComment};
use curio::commands::feedback_flow::{
    feedback_step, FeedbackEvent, FeedbackPhase, FeedbackState, FeedbackTask,
};
use curio::commands::sync_flow::{sync_step, SyncAction, SyncEvent, SyncPhase, SyncState, SyncTally};
use curio::config::ConnectionConfig;
use curio::confluence::create_page_v1_payload;

fn conn(url: &str, email: &str) -> ConnectionConfig {
    ConnectionConfig { confluence_url: url.to_string(), confluence_email: email.to_string() }
}

fn started(url: &str, email: &str, published: bool, admin: bool) -> SyncEvent {
    SyncEvent::Started { connection: conn(url, email), published_exists: published, admin_exists: admin }
}

fn tally(u: u64, s: u64, e: u64) -> SyncEvent {
    SyncEvent::PhaseDone(Ok(SyncTally { upserted: u, skipped: s, errors: e }))
}

#[test]
fn sync_checks_the_connection_before_the_dry_run() {
    let st = SyncState::new(true, false, false, false);
    let (next, action) = sync_step(&st, started("", "a@b.c", true, true));
    assert!(matches!(next.phase, SyncPhase::Done));
    match action {
        SyncAction::Fail(m) => assert!(m.starts_with("Confluence URL is not configured"), "got {m}"),
        _ => panic!("expected a failure"),
    }
    let (_, action) = sync_step(&st, started("https://x", "", true, true));
    match action {
        SyncAction::Fail(m) => assert!(m.starts_with("Confluence email is not configured"), "got {m}"),
        _ => panic!("expected a failure"),
    }
}

#[test]
fn sync_dry_run_stops_before_any_confluence_call() {
    let st = SyncState::new(true, true, false, false);
    let (next, action) = sync_step(&st, started("https://x", "a@b.c", true, true));
    assert!(matches!(action, SyncAction::DryRun));
    assert!(matches!(next.phase, SyncPhase::Done));
    let (_, later) = sync_step(&next, SyncEvent::Connected(Ok(())));
    assert!(matches!(later, SyncAction::Ignore));
}

#[test]
fn sync_without_published_dir_fails() {
    let st = SyncState::new(false, false, false, false);
    let (_, action) = sync_step(&st, started("https://x", "a@b.c", false, true));
    match action {
        SyncAction::Fail(m) => assert_eq!(m, "wiki/published/ not found. Run `curio init` first."),
        _ => panic!("expected a failure"),
    }
}

#[test]
fn sync_full_refresh_runs_every_part_and_prunes_owned_pages() {
    let st = SyncState::new(false, true, false, false);
    let (st, a) = sync_step(&st, started("https://x", "a@b.c", true, true));
    assert!(matches!(a, SyncAction::Connect));
    let (st, a) = sync_step(&st, SyncEvent::Connected(Ok(())));
    assert!(matches!(a, SyncAction::SyncAdminPages));
    let (st, a) = sync_step(&st, tally(2, 1, 0));
    assert!(matches!(a, SyncAction::RefreshDownloads));
    let (st, a) = sync_step(&st, tally(0, 0, 0));
    assert!(matches!(a, SyncAction::SyncPublished));
    let (st, a) = sync_step(&st, tally(3, 0, 1));
    assert!(matches!(a, SyncAction::SyncLanes));
    let (st, a) = sync_step(&st, tally(1, 2, 0));
    assert!(matches!(a, SyncAction::FindStale));
    let candidates = vec![
        ("10".to_string(), true),
        ("11".to_string(), false),
        ("12".to_string(), true),
    ];
    let synced = vec!["12".to_string()];
    let (st, a) = sync_step(
        &st,
        SyncEvent::StaleFound { candidates, synced, lookup_errors: 0 },
    );
    match a {
        SyncAction::Delete(ids) => assert_eq!(ids, vec!["10".to_string()]),
        _ => panic!("expected deletions"),
    }
    assert_eq!(st.preserved, 1);
    let (st, a) = sync_step(&st, SyncEvent::Deleted { ok: 1, failed: 0 });
    match a {
        SyncAction::WriteLog(l) => assert_eq!(
            l,
            "sync: 7 upserted, 3 skipped, 1 owned stale deleted, 1 unowned preserved, 1 errors"
        ),
        _ => panic!("expected a log line"),
    }
    let (st, a) = sync_step(&st, SyncEvent::Logged(Ok(())));
    match a {
        SyncAction::Report(l) => assert_eq!(l, "Sync: 7 upserted, 3 skipped, 1 errors"),
        _ => panic!("expected the closing line"),
    }
    assert!(matches!(st.phase, SyncPhase::Done));
}

#[test]
fn sync_without_full_refresh_never_prunes() {
    let st = SyncState::new(false, false, true, false);
    let (st, _) = sync_step(&st, started("https://x", "a@b.c", true, false));
    let (st, a) = sync_step(&st, SyncEvent::Connected(Ok(())));
    assert!(matches!(a, SyncAction::SyncPublished), "docs only skips admin-less and downloads");
    let (st, _) = sync_step(&st, tally(1, 0, 0));
    let (_, a) = sync_step(&st, tally(0, 0, 0));
    match a {
        SyncAction::Report(l) => assert_eq!(l, "Sync: 1 upserted, 0 skipped, 0 errors"),
        _ => panic!("expected the closing line"),
    }
}

#[test]
fn sync_failed_lookup_skips_deletion() {
    let mut st = SyncState::new(false, true, false, false);
    st.phase = SyncPhase::Pruning;
    let (st, a) = sync_step(
        &st,
        SyncEvent::StaleFound { candidates: vec![("9".to_string(), true)], synced: vec![], lookup_errors: 1 },
    );
    assert!(matches!(a, SyncAction::WriteLog(_)));
    assert_eq!(st.errors, 1);
    assert_eq!(st.deleted, 0);
}

#[test]
fn sync_phase_error_ends_the_run() {
    let mut st = SyncState::new(false, false, false, false);
    st.phase = SyncPhase::Published;
    let (st, a) = sync_step(&st, SyncEvent::PhaseDone(Err("bad page".to_string())));
    assert!(matches!(st.phase, SyncPhase::Done));
    match a {
        SyncAction::Fail(m) => assert_eq!(m, "bad page"),
        _ => panic!("expected a failure"),
    }
}

fn feedback_started(review: bool, token: bool) -> FeedbackEvent {
    FeedbackEvent::Started { review_exists: review, connection: conn("https://x", "a@b.c"), token_set: token }
}

fn signals(labels: &[&str], emojis: &[&str], comments: &[&str], pinned: Option<&str>) -> FeedbackEvent {
    FeedbackEvent::Signals {
        page_id_known: true,
        labels: labels.iter().map(|s| s.to_string()).collect(),
        emojis: emojis.iter().map(|s| s.to_string()).collect(),
        comments: comments
            .iter()
            .map(|b| ReviewComment { id: Some("c".to_string()), body: b.to_string() })
            .collect(),
        pinned: pinned.map(|s| s.to_string()),
    }
}

#[test]
fn feedback_without_review_dir_does_nothing() {
    let st = FeedbackState::new(false);
    let (st, t) = feedback_step(&st, feedback_started(false, true));
    assert!(matches!(st.phase, FeedbackPhase::Done));
    match t {
        FeedbackTask::Done(m) => assert_eq!(m, "No wiki/review/ directory found — nothing to do."),
        _ => panic!("expected the end"),
    }
}

#[test]
fn feedback_needs_the_token() {
    let st = FeedbackState::new(false);
    let (_, t) = feedback_step(&st, feedback_started(true, false));
    match t {
        FeedbackTask::Fail(m) => assert_eq!(m, "CURIO_CONFLUENCE_TOKEN not set"),
        _ => panic!("expected a failure"),
    }
}

#[test]
fn feedback_without_sidecars_hints_at_sync() {
    let st = FeedbackState::new(false);
    let (st, _) = feedback_step(&st, feedback_started(true, true));
    let (_, t) = feedback_step(&st, FeedbackEvent::Collected(Ok(0)));
    match t {
        FeedbackTask::Done(m) => assert_eq!(m, "No sync-refs sidecars found — run `curio sync` first."),
        _ => panic!("expected the end"),
    }
}

#[test]
fn feedback_run_decides_each_page_and_logs() {
    let st = FeedbackState::new(false);
    let (st, _) = feedback_step(&st, feedback_started(true, true));
    let (st, t) = feedback_step(&st, FeedbackEvent::Collected(Ok(3)));
    assert!(matches!(t, FeedbackTask::Fetch(0)));
    // A label wins over a thumbs-down reaction.
    let (st, t) = feedback_step(&st, signals(&["curio:approve"], &["👎"], &[], Some("p")));
    match t {
        FeedbackTask::Apply { page, action, execute, .. } => {
            assert_eq!(page, 0);
            assert_eq!(action, FeedbackAction::Approve);
            assert!(execute);
        }
        _ => panic!("expected an outcome"),
    }
    let (st, t) = feedback_step(&st, FeedbackEvent::Applied(Ok(())));
    assert!(matches!(t, FeedbackTask::Fetch(1)));
    // Comments only: a capture with the comment text.
    let (st, t) = feedback_step(&st, signals(&[], &[], &["<p>needs a diagram</p>"], None));
    match t {
        FeedbackTask::Apply { action, comments, .. } => {
            assert_eq!(action, FeedbackAction::Capture);
            assert_eq!(comments, vec!["needs a diagram".to_string()]);
        }
        _ => panic!("expected an outcome"),
    }
    let (st, _) = feedback_step(&st, FeedbackEvent::Applied(Ok(())));
    let (st, t) = feedback_step(&st, signals(&[], &[], &[], None));
    match t {
        FeedbackTask::Apply { action, execute, .. } => {
            assert_eq!(action, FeedbackAction::NoSignal);
            assert!(!execute);
        }
        _ => panic!("expected an outcome"),
    }
    let (st, t) = feedback_step(&st, FeedbackEvent::Applied(Ok(())));
    assert!(matches!(t, FeedbackTask::AppendAuditLog));
    let (_, t) = feedback_step(&st, FeedbackEvent::Logged(Ok(())));
    match t {
        FeedbackTask::Done(m) => assert_eq!(
            m,
            "Done: 1 approved / 0 rejected / 0 rewritten / 1 captured / 1 no-signal"
        ),
        _ => panic!("expected the end"),
    }
}

#[test]
fn feedback_dry_run_executes_nothing() {
    let st = FeedbackState::new(true);
    let (st, _) = feedback_step(&st, feedback_started(true, true));
    let (st, _) = feedback_step(&st, FeedbackEvent::Collected(Ok(1)));
    let (st, t) = feedback_step(&st, signals(&[], &["👍"], &[], Some("p")));
    match t {
        FeedbackTask::Apply { action, execute, .. } => {
            assert_eq!(action, FeedbackAction::Approve);
            assert!(!execute);
        }
        _ => panic!("expected an outcome"),
    }
    let (_, t) = feedback_step(&st, FeedbackEvent::Applied(Ok(())));
    match t {
        FeedbackTask::Done(m) => assert_eq!(
            m,
            "[dry-run] 1 approve / 0 reject / 0 rewrite / 0 capture / 0 no-signal"
        ),
        _ => panic!("expected the end"),
    }
}

#[test]
fn reactions_count_only_on_a_pinned_comment() {
    let st = FeedbackState::new(false);
    let (st, _) = feedback_step(&st, feedback_started(true, true));
    let (st, _) = feedback_step(&st, FeedbackEvent::Collected(Ok(1)));
    let (_, t) = feedback_step(&st, signals(&[], &["👍"], &[], None));
    match t {
        FeedbackTask::Apply { action, .. } => assert_eq!(action, FeedbackAction::NoSignal),
        _ => panic!("expected an outcome"),
    }
}

#[test]
fn payload_strings_are_json_escaped() {
    let p = create_page_v1_payload("KB", None, "A \"q\"\nB", "<p>x</p>");
    assert_eq!(
        p,
        "{\"body\":{\"storage\":{\"representation\":\"storage\",\"value\":\"<p>x</p>\"}},\"space\":{\"key\":\"KB\"},\"status\":\"current\",\"title\":\"A \\\"q\\\"\\nB\",\"type\":\"page\"}"
    );
}

use curio::confluence_flow::{
    move_step, CurrentPage, MoveEvent, MovePhase, MoveRequest, MoveTask, body_update_step, BodyUpdateDecision, retry_step, upsert_step, PageVersion, RetryDecision, SendOutcome, UpsertEvent, UpsertPhase,
    UpsertRequest, UpsertState, UpsertTask,
};

fn answered(status: u16, text: &str, body: &str) -> SendOutcome {
    SendOutcome::Answered { status, status_text: text.to_string(), body: body.to_string() }
}

#[test]
fn transient_failures_are_retried_twice_then_reported() {
    assert!(matches!(retry_step(1, "page", answered(503, "503 Service Unavailable", "busy")), RetryDecision::Retry(500)));
    assert!(matches!(retry_step(2, "page", SendOutcome::Unsent), RetryDecision::Retry(1000)));
    match retry_step(3, "page", answered(429, "429 Too Many Requests", "slow down")) {
        RetryDecision::GiveUp(m) => assert_eq!(
            m,
            "Confluence API request for page failed with retryable status 429 Too Many Requests: slow down"
        ),
        _ => panic!("expected to give up"),
    }
    match retry_step(3, "labels", SendOutcome::Unsent) {
        RetryDecision::GiveUp(m) => assert_eq!(m, "Failed to send Confluence API request for labels"),
        _ => panic!("expected to give up"),
    }
    assert!(matches!(retry_step(1, "page", answered(404, "404 Not Found", "")), RetryDecision::Accept));
}

fn request(parent: Option<&str>, root: Option<&str>) -> UpsertRequest {
    UpsertRequest {
        space_key: "KB".to_string(),
        parent: parent.map(|s| s.to_string()),
        title: "T".to_string(),
        representation: "storage".to_string(),
        body: "<p>b</p>".to_string(),
        write_root: root.map(|s| s.to_string()),
    }
}

fn start() -> UpsertState {
    UpsertState { phase: UpsertPhase::Start, page_id: None }
}

#[test]
fn upsert_updates_a_page_found_by_title() {
    let req = request(None, None);
    let (st, t) = upsert_step(&req, &start(), UpsertEvent::Begin);
    match t {
        UpsertTask::FindByTitle { space_key, parent, title } => {
            assert_eq!(space_key, "KB");
            assert_eq!(parent, None);
            assert_eq!(title, "T");
        }
        _ => panic!("expected a lookup"),
    }
    let (st, t) = upsert_step(&req, &st, UpsertEvent::Found(Ok(Some(Some("42".to_string())))));
    assert!(matches!(t, UpsertTask::LoadPage(ref p) if p == "42"));
    let v = PageVersion { number: Some(3), space_id: Some("9".to_string()), parent_id: None };
    let (st, t) = upsert_step(&req, &st, UpsertEvent::Loaded(Ok(Some(v))));
    match t {
        UpsertTask::Put { page_id, payload } => {
            assert_eq!(page_id, "42");
            assert_eq!(
                payload,
                "{\"body\":{\"representation\":\"storage\",\"value\":\"<p>b</p>\"},\"id\":\"42\",\"spaceId\":\"9\",\"status\":\"current\",\"title\":\"T\",\"version\":{\"number\":4}}"
            );
        }
        _ => panic!("expected an update"),
    }
    let (st, t) = upsert_step(
        &req,
        &st,
        UpsertEvent::Answered {
            success: true,
            status: 200,
            status_text: "200 OK".to_string(),
            body: "{}".to_string(),
            parsed: true,
            id: Some("42".to_string()),
        },
    );
    assert!(matches!(t, UpsertTask::Written(ref p) if p == "42"));
    assert!(matches!(st.phase, UpsertPhase::Done));
}

#[test]
fn upsert_refuses_a_parent_outside_the_write_root() {
    let req = request(Some("7"), Some("1"));
    let (st, t) = upsert_step(&req, &start(), UpsertEvent::Begin);
    assert!(matches!(t, UpsertTask::CheckDescendant { ref page, ref root } if page == "7" && root == "1"));
    let (_, t) = upsert_step(&req, &st, UpsertEvent::Descendant(Ok(false)));
    match t {
        UpsertTask::Fail(m) => assert_eq!(
            m,
            "Refusing to write page 7 because it is outside the configured CURIO output root page 1"
        ),
        _ => panic!("expected a refusal"),
    }
}

#[test]
fn upsert_creates_instead_of_touching_a_page_outside_the_root() {
    let req = request(None, Some("1"));
    let (st, t) = upsert_step(&req, &start(), UpsertEvent::Begin);
    assert!(matches!(t, UpsertTask::FindByTitle { ref parent, .. } if parent.as_deref() == Some("1")));
    let (st, t) = upsert_step(&req, &st, UpsertEvent::Found(Ok(Some(Some("99".to_string())))));
    assert!(matches!(t, UpsertTask::CheckDescendant { ref page, .. } if page == "99"));
    let (st, t) = upsert_step(&req, &st, UpsertEvent::Descendant(Ok(false)));
    match t {
        UpsertTask::Post(p) => assert_eq!(
            p,
            "{\"ancestors\":[{\"id\":\"1\"}],\"body\":{\"storage\":{\"representation\":\"storage\",\"value\":\"<p>b</p>\"}},\"space\":{\"key\":\"KB\"},\"status\":\"current\",\"title\":\"T\",\"type\":\"page\"}"
        ),
        _ => panic!("expected a creation"),
    }
    let (_, t) = upsert_step(
        &req,
        &st,
        UpsertEvent::Answered {
            success: false,
            status: 400,
            status_text: "400 Bad Request".to_string(),
            body: "A page already exists with the same TITLE in this space".to_string(),
            parsed: false,
            id: None,
        },
    );
    match t {
        UpsertTask::Fail(m) => assert_eq!(
            m,
            "Confluence title collision for 'T': 400 Bad Request A page already exists with the same TITLE in this space"
        ),
        _ => panic!("expected a collision"),
    }
}

#[test]
fn provider_names_are_sorted_and_unique() {
    let stems = vec!["zeta".to_string(), "codex".to_string(), "alpha".to_string(), "alpha".to_string()];
    assert_eq!(
        curio::harness::provider_names(&stems),
        vec!["alpha".to_string(), "codex".to_string(), "gemini".to_string(), "zeta".to_string()]
    );
    assert_eq!(curio::harness::provider_names(&[]), vec!["codex".to_string(), "gemini".to_string()]);
}

#[test]
fn stale_body_updates_are_retried_at_most_twice() {
    assert!(matches!(body_update_step(0, true, 200, "200 OK", ""), BodyUpdateDecision::Updated));
    assert!(matches!(body_update_step(0, false, 409, "409 Conflict", "x"), BodyUpdateDecision::Retry(500)));
    assert!(matches!(
        body_update_step(1, false, 500, "500 Internal Server Error", "StaleStateException: v"),
        BodyUpdateDecision::Retry(500)
    ));
    match body_update_step(2, false, 409, "409 Conflict", "again") {
        BodyUpdateDecision::Fail(m) => assert_eq!(
            m,
            "Confluence API request to update page body failed with status 409 Conflict: again"
        ),
        _ => panic!("expected a failure"),
    }
    assert!(matches!(body_update_step(0, false, 403, "403 Forbidden", "no"), BodyUpdateDecision::Fail(_)));
}

#[test]
fn outcome_log_lines() {
    let approve = curio::commands::feedback_flow::outcome_log_line(FeedbackAction::Approve, "T", "Guide", "ops/db", 0);
    assert_eq!(approve.as_deref(), Some("[T] approve Guide → staged/ops/db"));
    let reject = curio::commands::feedback_flow::outcome_log_line(FeedbackAction::Reject, "T", "Guide", "", 0);
    assert_eq!(reject.as_deref(), Some("[T] reject Guide — removed"));
    let rewrite = curio::commands::feedback_flow::outcome_log_line(FeedbackAction::Rewrite, "T", "Guide", "", 0);
    assert_eq!(rewrite.as_deref(), Some("[T] rewrite Guide — moved back to intake"));
    let capture = curio::commands::feedback_flow::outcome_log_line(FeedbackAction::Capture, "T", "g", "", 2);
    assert_eq!(capture.as_deref(), Some("[T] capture g — 2 review comment(s) captured"));
    let none = curio::commands::feedback_flow::outcome_log_line(FeedbackAction::NoSignal, "T", "g", "", 0);
    assert_eq!(none, None);
}

#[test]
fn moving_a_page_checks_both_ends_and_writes_the_next_version() {
    let req = MoveRequest { page_id: "5".to_string(), new_parent: "6".to_string(), write_root: Some("1".to_string()), migrate: false };
    let (ph, t) = move_step(&req, MovePhase::Start, MoveEvent::Begin);
    assert!(matches!(t, MoveTask::CheckDescendant { ref page, .. } if page == "5"));
    let (ph, t) = move_step(&req, ph, MoveEvent::Descendant(Ok(true)));
    assert!(matches!(t, MoveTask::CheckDescendant { ref page, .. } if page == "6"));
    let (ph, t) = move_step(&req, ph, MoveEvent::Descendant(Ok(true)));
    assert!(matches!(t, MoveTask::Fetch));
    let page = CurrentPage {
        version: Some(2),
        space_key: Some("KB".to_string()),
        title: Some("T".to_string()),
        body: None,
    };
    let (ph, t) = move_step(
        &req,
        ph,
        MoveEvent::Fetched { success: true, status_text: "200 OK".to_string(), body: String::new(), page: Some(page) },
    );
    match t {
        MoveTask::Put(p) => assert_eq!(
            p,
            "{\"ancestors\":[{\"id\":\"6\"}],\"body\":{\"storage\":{\"representation\":\"storage\",\"value\":\"\"}},\"id\":\"5\",\"space\":{\"key\":\"KB\"},\"title\":\"T\",\"type\":\"page\",\"version\":{\"number\":3}}"
        ),
        _ => panic!("expected the write"),
    }
    let (_, t) = move_step(
        &req,
        ph,
        MoveEvent::Answered { success: false, status_text: "400 Bad Request".to_string(), body: "no".to_string() },
    );
    match t {
        MoveTask::Fail(m) => assert_eq!(m, "Confluence API request to move page 5 failed with status 400 Bad Request: no"),
        _ => panic!("expected a failure"),
    }
    let mig = MoveRequest { migrate: true, ..req };
    let (_, t) = move_step(&mig, MovePhase::Start, MoveEvent::Begin);
    assert!(matches!(t, MoveTask::CheckDescendant { ref page, .. } if page == "6"));
    let (_, t) = move_step(&mig, MovePhase::CheckingParent, MoveEvent::Descendant(Ok(false)));
    match t {
        MoveTask::Fail(m) => assert_eq!(
            m,
            "Refusing to write page 6 because it is outside the configured CURIO output root page 1"
        ),
        _ => panic!("expected a refusal"),
    }
}
