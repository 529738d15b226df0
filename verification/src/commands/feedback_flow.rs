//! `curio feedback` as a sequence of steps: the review pages are read one by one,
//! the signals on each decide what happens to it, and the caller fetches the
//! signals and moves the files.
use vstd::prelude::*;

use crate::commands::feedback::{
    decided, decide_action, label_action, label_action_of, reaction_action, reaction_action_of,
    reviewer_comments, reviewer_comments_of, FeedbackAction, ReviewComment,
};
use crate::commands::sync_flow::sat_add;
use crate::config::{config_error_message, ConfigError, ConnectionConfig};
use crate::harness::strings_view;
use crate::text::{chars_of, decimal, decimal_vec, extend_chars, extend_str, string_of};

verus! {

/// Where a feedback run stands.
#[derive(Clone, Copy, Debug, PartialEq, Eq, Structural)]
pub enum FeedbackPhase {
    Start,
    /// Waiting for the count of review pages with a sync-refs sidecar.
    Collecting,
    /// Waiting for the signals of the current page.
    Fetching,
    /// Waiting for the current page's outcome to be carried out.
    Applying,
    /// Waiting for the audit log.
    Logging,
    Done,
}

/// The state of a feedback run.
#[derive(Clone, Copy, Debug)]
pub struct FeedbackState {
    pub phase: FeedbackPhase,
    pub dry_run: bool,
    /// How many review pages have a sidecar.
    pub pages: u64,
    /// The page being read.
    pub next: u64,
    pub approved: u64,
    pub rejected: u64,
    pub rewritten: u64,
    pub captured: u64,
    pub no_signal: u64,
}

/// What the caller brings back.
pub enum FeedbackEvent {
    /// The run begins: whether `review/` exists, the connection settings, and whether
    /// the API token is set.
    Started { review_exists: bool, connection: ConnectionConfig, token_set: bool },
    /// How many review pages have a sync-refs sidecar, or why they could not be read.
    Collected(Result<u64, String>),
    /// The signals on the current page: whether its sidecar names the review page; its
    /// labels; the reactions on the pinned comment; its comments; the pinned comment.
    Signals {
        page_id_known: bool,
        labels: Vec<String>,
        emojis: Vec<String>,
        comments: Vec<ReviewComment>,
        pinned: Option<String>,
    },
    /// The outcome was carried out, or why not.
    Applied(Result<(), String>),
    /// The audit log was written, or why not.
    Logged(Result<(), String>),
}

/// What the caller does next.
pub enum FeedbackTask {
    /// Stop with this error.
    Fail(String),
    /// Print this line; the run is over.
    Done(String),
    /// Count the review pages that have a sync-refs sidecar.
    Collect,
    /// Fetch the signals of the page with this index.
    Fetch(u64),
    /// Report the outcome of a page (nothing for no signal) and, when `execute`,
    /// carry it out; `comments` are the readers' comments.
    Apply { page: u64, action: FeedbackAction, comments: Vec<String>, execute: bool },
    /// Append the run's lines to the audit log.
    AppendAuditLog,
    /// The event does not belong to this phase.
    Ignore,
}

/// A [`FeedbackTask`] as plain values.
pub enum FeedbackTaskView {
    Fail(Seq<char>),
    Done(Seq<char>),
    Collect,
    Fetch(u64),
    Apply { page: u64, action: FeedbackAction, comments: Seq<Seq<char>>, execute: bool },
    AppendAuditLog,
    Ignore,
}

pub open spec fn feedback_task_view(t: FeedbackTask) -> FeedbackTaskView {
    match t {
        FeedbackTask::Fail(m) => FeedbackTaskView::Fail(m@),
        FeedbackTask::Done(m) => FeedbackTaskView::Done(m@),
        FeedbackTask::Collect => FeedbackTaskView::Collect,
        FeedbackTask::Fetch(i) => FeedbackTaskView::Fetch(i),
        FeedbackTask::Apply { page, action, comments, execute } => FeedbackTaskView::Apply {
            page,
            action,
            comments: strings_view(comments@),
            execute,
        },
        FeedbackTask::AppendAuditLog => FeedbackTaskView::AppendAuditLog,
        FeedbackTask::Ignore => FeedbackTaskView::Ignore,
    }
}

pub open spec fn feedback_start(dry_run: bool) -> FeedbackState {
    FeedbackState {
        phase: FeedbackPhase::Start,
        dry_run,
        pages: 0,
        next: 0,
        approved: 0,
        rejected: 0,
        rewritten: 0,
        captured: 0,
        no_signal: 0,
    }
}

/// The closing line: the counts, as a dry run would act or as the run acted.
pub open spec fn feedback_summary_of(st: FeedbackState) -> Seq<char> {
    if st.dry_run {
        "[dry-run] "@ + decimal(st.approved as nat) + " approve / "@ + decimal(st.rejected as nat)
            + " reject / "@ + decimal(st.rewritten as nat) + " rewrite / "@ + decimal(
            st.captured as nat,
        ) + " capture / "@ + decimal(st.no_signal as nat) + " no-signal"@
    } else {
        "Done: "@ + decimal(st.approved as nat) + " approved / "@ + decimal(st.rejected as nat)
            + " rejected / "@ + decimal(st.rewritten as nat) + " rewritten / "@ + decimal(
            st.captured as nat,
        ) + " captured / "@ + decimal(st.no_signal as nat) + " no-signal"@
    }
}

/// After the last page: a run that moved or captured something writes the audit
/// log first; a dry run writes nothing.
pub open spec fn feedback_finish(st: FeedbackState) -> (FeedbackState, FeedbackTaskView) {
    if !st.dry_run && (st.approved > 0 || st.rejected > 0 || st.rewritten > 0 || st.captured > 0) {
        (FeedbackState { phase: FeedbackPhase::Logging, ..st }, FeedbackTaskView::AppendAuditLog)
    } else {
        (FeedbackState { phase: FeedbackPhase::Done, ..st }, FeedbackTaskView::Done(feedback_summary_of(st)))
    }
}

/// On to the next page, or the end.
pub open spec fn feedback_advance(st: FeedbackState) -> (FeedbackState, FeedbackTaskView) {
    if st.next + 1 < st.pages {
        (
            FeedbackState { phase: FeedbackPhase::Fetching, next: (st.next + 1) as u64, ..st },
            FeedbackTaskView::Fetch((st.next + 1) as u64),
        )
    } else {
        feedback_finish(st)
    }
}

pub open spec fn counted(st: FeedbackState, a: FeedbackAction) -> FeedbackState {
    match a {
        FeedbackAction::Approve => FeedbackState { approved: sat_add(st.approved, 1), ..st },
        FeedbackAction::Reject => FeedbackState { rejected: sat_add(st.rejected, 1), ..st },
        FeedbackAction::Rewrite => FeedbackState { rewritten: sat_add(st.rewritten, 1), ..st },
        FeedbackAction::Capture => FeedbackState { captured: sat_add(st.captured, 1), ..st },
        FeedbackAction::NoSignal => FeedbackState { no_signal: sat_add(st.no_signal, 1), ..st },
    }
}

/// The outcome of a page: its labels decide; without a label, the reactions on the
/// pinned comment (when there is one); without either, a capture when readers
/// commented.
pub open spec fn page_action_of(
    labels: Seq<Seq<char>>,
    emojis: Seq<Seq<char>>,
    comments: Seq<ReviewComment>,
    pinned: Option<Seq<char>>,
) -> FeedbackAction {
    decided(
        label_action_of(labels),
        if pinned is Some {
            reaction_action_of(emojis)
        } else {
            None
        },
        reviewer_comments_of(comments, pinned).len() > 0,
    )
}

/// One step of a feedback run.
///
/// Without `review/` there is nothing to do; then the connection settings and the
/// token are checked; a run with no sidecar stops with a hint to sync first. Each
/// page whose sidecar names its review page is decided ([`page_action_of`]) and
/// counted; its outcome is carried out unless the run is a dry run or the page gave
/// no signal. At the end a run that moved or captured something appends to the
/// audit log, then prints the counts.
pub open spec fn feedback_step_of(st: FeedbackState, ev: FeedbackEvent) -> (FeedbackState, FeedbackTaskView) {
    let done = FeedbackState { phase: FeedbackPhase::Done, ..st };
    match (st.phase, ev) {
        (FeedbackPhase::Start, FeedbackEvent::Started { review_exists, connection, token_set }) => {
            if !review_exists {
                (done, FeedbackTaskView::Done("No wiki/review/ directory found — nothing to do."@))
            } else if connection.confluence_url@.len() == 0 {
                (done, FeedbackTaskView::Fail(config_error_message(ConfigError::MissingConfluenceUrl)))
            } else if connection.confluence_email@.len() == 0 {
                (done, FeedbackTaskView::Fail(config_error_message(ConfigError::MissingConfluenceEmail)))
            } else if !token_set {
                (done, FeedbackTaskView::Fail("CURIO_CONFLUENCE_TOKEN not set"@))
            } else {
                (FeedbackState { phase: FeedbackPhase::Collecting, ..st }, FeedbackTaskView::Collect)
            }
        },
        (FeedbackPhase::Collecting, FeedbackEvent::Collected(r)) => match r {
            Err(m) => (done, FeedbackTaskView::Fail(m@)),
            Ok(n) => if n == 0 {
                (done, FeedbackTaskView::Done("No sync-refs sidecars found — run `curio sync` first."@))
            } else {
                (
                    FeedbackState { phase: FeedbackPhase::Fetching, pages: n, next: 0, ..st },
                    FeedbackTaskView::Fetch(0),
                )
            },
        },
        (FeedbackPhase::Fetching, FeedbackEvent::Signals { page_id_known, labels, emojis, comments, pinned }) => {
            if !page_id_known {
                feedback_advance(st)
            } else {
                let pv = match pinned {
                    Some(p) => Some(p@),
                    None => None,
                };
                let a = page_action_of(strings_view(labels@), strings_view(emojis@), comments@, pv);
                (
                    FeedbackState { phase: FeedbackPhase::Applying, ..counted(st, a) },
                    FeedbackTaskView::Apply {
                        page: st.next,
                        action: a,
                        comments: reviewer_comments_of(comments@, pv),
                        execute: !st.dry_run && a != FeedbackAction::NoSignal,
                    },
                )
            }
        },
        (FeedbackPhase::Applying, FeedbackEvent::Applied(r)) => match r {
            Err(m) => (done, FeedbackTaskView::Fail(m@)),
            Ok(()) => feedback_advance(st),
        },
        (FeedbackPhase::Logging, FeedbackEvent::Logged(r)) => match r {
            Err(m) => (done, FeedbackTaskView::Fail(m@)),
            Ok(()) => (done, FeedbackTaskView::Done(feedback_summary_of(st))),
        },
        _ => (st, FeedbackTaskView::Ignore),
    }
}

impl FeedbackState {
    pub fn new(dry_run: bool) -> (s: Self)
        ensures
            s == feedback_start(dry_run),
    {
        FeedbackState {
            phase: FeedbackPhase::Start,
            dry_run,
            pages: 0,
            next: 0,
            approved: 0,
            rejected: 0,
            rewritten: 0,
            captured: 0,
            no_signal: 0,
        }
    }
}

fn push_count(m: &mut Vec<char>, n: u64, word: &str)
    ensures
        final(m)@ == old(m)@ + decimal(n as nat) + word@,
{
    extend_chars(m, &decimal_vec(n));
    extend_str(m, word);
}

/// The closing line of a feedback run: see [`feedback_summary_of`].
pub fn feedback_summary(st: &FeedbackState) -> (r: String)
    ensures
        r@ == feedback_summary_of(*st),
{
    if st.dry_run {
        let mut m = chars_of("[dry-run] ");
        push_count(&mut m, st.approved, " approve / ");
        push_count(&mut m, st.rejected, " reject / ");
        push_count(&mut m, st.rewritten, " rewrite / ");
        push_count(&mut m, st.captured, " capture / ");
        push_count(&mut m, st.no_signal, " no-signal");
        string_of(&m)
    } else {
        let mut m = chars_of("Done: ");
        push_count(&mut m, st.approved, " approved / ");
        push_count(&mut m, st.rejected, " rejected / ");
        push_count(&mut m, st.rewritten, " rewritten / ");
        push_count(&mut m, st.captured, " captured / ");
        push_count(&mut m, st.no_signal, " no-signal");
        string_of(&m)
    }
}

fn finish_exec(st: FeedbackState) -> (r: (FeedbackState, FeedbackTask))
    ensures
        (r.0, feedback_task_view(r.1)) == feedback_finish(st),
{
    if !st.dry_run && (st.approved > 0 || st.rejected > 0 || st.rewritten > 0 || st.captured > 0) {
        (FeedbackState { phase: FeedbackPhase::Logging, ..st }, FeedbackTask::AppendAuditLog)
    } else {
        let line = feedback_summary(&st);
        (FeedbackState { phase: FeedbackPhase::Done, ..st }, FeedbackTask::Done(line))
    }
}

fn advance_exec(st: FeedbackState) -> (r: (FeedbackState, FeedbackTask))
    ensures
        (r.0, feedback_task_view(r.1)) == feedback_advance(st),
{
    if st.next < u64::MAX && st.next + 1 < st.pages {
        let n = st.next + 1;
        (FeedbackState { phase: FeedbackPhase::Fetching, next: n, ..st }, FeedbackTask::Fetch(n))
    } else {
        finish_exec(st)
    }
}

fn count_exec(st: FeedbackState, a: FeedbackAction) -> (r: FeedbackState)
    ensures
        r == counted(st, a),
{
    match a {
        FeedbackAction::Approve => FeedbackState { approved: st.approved.saturating_add(1), ..st },
        FeedbackAction::Reject => FeedbackState { rejected: st.rejected.saturating_add(1), ..st },
        FeedbackAction::Rewrite => FeedbackState { rewritten: st.rewritten.saturating_add(1), ..st },
        FeedbackAction::Capture => FeedbackState { captured: st.captured.saturating_add(1), ..st },
        FeedbackAction::NoSignal => FeedbackState { no_signal: st.no_signal.saturating_add(1), ..st },
    }
}

fn fail_with(st: FeedbackState, m: String) -> (r: (FeedbackState, FeedbackTask))
    ensures
        r.0 == (FeedbackState { phase: FeedbackPhase::Done, ..st }),
        feedback_task_view(r.1) == FeedbackTaskView::Fail(m@),
{
    (FeedbackState { phase: FeedbackPhase::Done, ..st }, FeedbackTask::Fail(m))
}

fn done_with(st: FeedbackState, m: String) -> (r: (FeedbackState, FeedbackTask))
    ensures
        r.0 == (FeedbackState { phase: FeedbackPhase::Done, ..st }),
        feedback_task_view(r.1) == FeedbackTaskView::Done(m@),
{
    (FeedbackState { phase: FeedbackPhase::Done, ..st }, FeedbackTask::Done(m))
}

/// One step of a feedback run: see [`feedback_step_of`].
pub fn feedback_step(st: &FeedbackState, ev: FeedbackEvent) -> (r: (FeedbackState, FeedbackTask))
    ensures
        (r.0, feedback_task_view(r.1)) == feedback_step_of(*st, ev),
{
    let st = *st;
    match (st.phase, ev) {
        (FeedbackPhase::Start, FeedbackEvent::Started { review_exists, connection, token_set }) => {
            if !review_exists {
                return done_with(st, String::from_str("No wiki/review/ directory found — nothing to do."));
            }
            match connection.require_confluence() {
                Err(e) => {
                    proof {
                        if connection.confluence_url@.len() == 0 {
                            assert(e == ConfigError::MissingConfluenceUrl);
                        } else {
                            assert(e == ConfigError::MissingConfluenceEmail);
                        }
                    }
                    fail_with(st, String::from_str(e.message()))
                },
                Ok(()) => if !token_set {
                    fail_with(st, String::from_str("CURIO_CONFLUENCE_TOKEN not set"))
                } else {
                    (FeedbackState { phase: FeedbackPhase::Collecting, ..st }, FeedbackTask::Collect)
                },
            }
        },
        (FeedbackPhase::Collecting, FeedbackEvent::Collected(r)) => match r {
            Err(m) => fail_with(st, m),
            Ok(n) => if n == 0 {
                done_with(st, String::from_str("No sync-refs sidecars found — run `curio sync` first."))
            } else {
                (
                    FeedbackState { phase: FeedbackPhase::Fetching, pages: n, next: 0, ..st },
                    FeedbackTask::Fetch(0),
                )
            },
        },
        (FeedbackPhase::Fetching, FeedbackEvent::Signals { page_id_known, labels, emojis, comments, pinned }) => {
            if !page_id_known {
                return advance_exec(st);
            }
            let label = label_action(labels.as_slice());
            let reaction = match &pinned {
                Some(_) => reaction_action(emojis.as_slice()),
                None => None,
            };
            let texts = match &pinned {
                Some(p) => reviewer_comments(comments.as_slice(), Some(p.as_str())),
                None => reviewer_comments(comments.as_slice(), None),
            };
            let a = decide_action(label, reaction, texts.len() > 0);
            let execute = !st.dry_run && !matches!(a, FeedbackAction::NoSignal);
            let st1 = count_exec(st, a);
            (
                FeedbackState { phase: FeedbackPhase::Applying, ..st1 },
                FeedbackTask::Apply { page: st.next, action: a, comments: texts, execute },
            )
        },
        (FeedbackPhase::Applying, FeedbackEvent::Applied(r)) => match r {
            Err(m) => fail_with(st, m),
            Ok(()) => advance_exec(st),
        },
        (FeedbackPhase::Logging, FeedbackEvent::Logged(r)) => match r {
            Err(m) => fail_with(st, m),
            Ok(()) => {
                let line = feedback_summary(&st);
                done_with(st, line)
            },
        },
        _ => (st, FeedbackTask::Ignore),
    }
}

/// The audit-log line of a page's outcome: `name` is the page's slug for a capture
/// and its title otherwise; an approval names the `staged/` category path it went
/// to, a capture how many comments it kept. No signal writes no line.
pub open spec fn outcome_log_line_of(
    action: FeedbackAction,
    timestamp: Seq<char>,
    name: Seq<char>,
    category_path: Seq<char>,
    comments: u64,
) -> Option<Seq<char>> {
    let head = "["@ + timestamp + "] "@;
    match action {
        FeedbackAction::Approve => Some(head + "approve "@ + name + " → staged/"@ + category_path),
        FeedbackAction::Reject => Some(head + "reject "@ + name + " — removed"@),
        FeedbackAction::Rewrite => Some(head + "rewrite "@ + name + " — moved back to intake"@),
        FeedbackAction::Capture => Some(
            head + "capture "@ + name + " — "@ + decimal(comments as nat) + " review comment(s) captured"@,
        ),
        FeedbackAction::NoSignal => None,
    }
}

pub fn outcome_log_line(action: FeedbackAction, timestamp: &str, name: &str, category_path: &str, comments: u64) -> (r:
    Option<String>)
    ensures
        match r {
            Some(l) => outcome_log_line_of(action, timestamp@, name@, category_path@, comments) == Some(l@),
            None => outcome_log_line_of(action, timestamp@, name@, category_path@, comments) is None,
        },
{
    let mut m = chars_of("[");
    extend_str(&mut m, timestamp);
    extend_str(&mut m, "] ");
    match action {
        FeedbackAction::Approve => {
            extend_str(&mut m, "approve ");
            extend_str(&mut m, name);
            extend_str(&mut m, " → staged/");
            extend_str(&mut m, category_path);
        },
        FeedbackAction::Reject => {
            extend_str(&mut m, "reject ");
            extend_str(&mut m, name);
            extend_str(&mut m, " — removed");
        },
        FeedbackAction::Rewrite => {
            extend_str(&mut m, "rewrite ");
            extend_str(&mut m, name);
            extend_str(&mut m, " — moved back to intake");
        },
        FeedbackAction::Capture => {
            extend_str(&mut m, "capture ");
            extend_str(&mut m, name);
            extend_str(&mut m, " — ");
            push_count(&mut m, comments, " review comment(s) captured");
        },
        FeedbackAction::NoSignal => {
            return None;
        },
    }
    Some(string_of(&m))
}

/// A dry run changes nothing: no step of it carries out an outcome or writes the
/// audit log, and the counts it prints are those of the pages it read.
pub proof fn law_dry_run_changes_nothing(st: FeedbackState, ev: FeedbackEvent)
    requires
        st.dry_run,
    ensures
        !(feedback_step_of(st, ev).1 is AppendAuditLog),
        feedback_step_of(st, ev).1 matches FeedbackTaskView::Apply { execute, .. } ==> !execute,
        feedback_step_of(st, ev).0.dry_run,
{
}

/// A label on the review page decides its outcome whatever the reactions and
/// comments say.
pub proof fn law_label_wins(
    labels: Seq<Seq<char>>,
    emojis: Seq<Seq<char>>,
    comments: Seq<ReviewComment>,
    pinned: Option<Seq<char>>,
)
    requires
        label_action_of(labels) is Some,
    ensures
        page_action_of(labels, emojis, comments, pinned) == label_action_of(labels)->0,
{
}

} // verus!
