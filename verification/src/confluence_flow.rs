//! The Confluence client's write sequences as steps: a request retried on
//! transient failures, and a page created or updated by title. The caller makes
//! each HTTP call and hands back what came of it.
use vstd::prelude::*;

use crate::confluence::{
    create_page_v1_payload, create_v1_payload, is_retryable_status, is_stale_update, update_v1_payload, refusal_of, retry_delay_ms,
    update_page_v2_payload, update_v2_payload,
};
use crate::text::{chars_of, contains_seq, extend_str, has_at, str_contains, str_eq, string_of};

verus! {

// ─── Retries ────────────────────────────────────────────────────────────────

/// What one attempt at a request brought back.
pub enum SendOutcome {
    /// The request could not be sent.
    Unsent,
    /// A response with its status code, the status as text, and its body.
    Answered { status: u16, status_text: String, body: String },
}

/// What to do after an attempt.
pub enum RetryDecision {
    /// Keep the response.
    Accept,
    /// Wait this many milliseconds and send again.
    Retry(u64),
    /// Stop with this error.
    GiveUp(String),
}

pub enum RetryDecisionView {
    Accept,
    Retry(u64),
    GiveUp(Seq<char>),
}

pub open spec fn retry_view(d: RetryDecision) -> RetryDecisionView {
    match d {
        RetryDecision::Accept => RetryDecisionView::Accept,
        RetryDecision::Retry(ms) => RetryDecisionView::Retry(ms),
        RetryDecision::GiveUp(m) => RetryDecisionView::GiveUp(m@),
    }
}

/// The decision after attempt `attempt` (from 1) of the request named `action`:
/// a response whose status is not transient is kept; an unsent request or a
/// transient status is retried after `500 * attempt` ms while fewer than three
/// attempts were made, and reported after the third.
pub open spec fn retry_of(attempt: u32, action: Seq<char>, outcome: SendOutcome) -> RetryDecisionView {
    let error = match outcome {
        SendOutcome::Unsent => Some("Failed to send Confluence API request for "@ + action),
        SendOutcome::Answered { status, status_text, body } => if status == 429 || status == 502
            || status == 503 || status == 504 {
            Some(
                "Confluence API request for "@ + action + " failed with retryable status "@
                    + status_text@ + ": "@ + body@,
            )
        } else {
            None
        },
    };
    match error {
        None => RetryDecisionView::Accept,
        Some(m) => if attempt < 3 {
            RetryDecisionView::Retry((500 * attempt) as u64)
        } else {
            RetryDecisionView::GiveUp(m)
        },
    }
}

pub fn retry_step(attempt: u32, action: &str, outcome: SendOutcome) -> (r: RetryDecision)
    ensures
        retry_view(r) == retry_of(attempt, action@, outcome),
{
    let error = match outcome {
        SendOutcome::Unsent => {
            let mut m = chars_of("Failed to send Confluence API request for ");
            extend_str(&mut m, action);
            Some(string_of(&m))
        },
        SendOutcome::Answered { status, status_text, body } => if is_retryable_status(status) {
            let mut m = chars_of("Confluence API request for ");
            extend_str(&mut m, action);
            extend_str(&mut m, " failed with retryable status ");
            extend_str(&mut m, status_text.as_str());
            extend_str(&mut m, ": ");
            extend_str(&mut m, body.as_str());
            Some(string_of(&m))
        } else {
            None
        },
    };
    match error {
        None => RetryDecision::Accept,
        Some(m) => if attempt < 3 {
            RetryDecision::Retry(retry_delay_ms(attempt))
        } else {
            RetryDecision::GiveUp(m)
        },
    }
}

/// A request is sent at most three times: from the third attempt on, no decision
/// asks for another.
pub proof fn law_at_most_three_attempts(attempt: u32, action: Seq<char>, outcome: SendOutcome)
    requires
        attempt >= 3,
    ensures
        !(retry_of(attempt, action, outcome) is Retry),
{
}

// ─── Updating a page body ───────────────────────────────────────────────────

/// What to do after an attempt (from 0) at a body update.
pub enum BodyUpdateDecision {
    Updated,
    /// A lost version race: wait this many milliseconds, reload the page and try again.
    Retry(u64),
    Fail(String),
}

pub enum BodyUpdateDecisionView {
    Updated,
    Retry(u64),
    Fail(Seq<char>),
}

pub open spec fn body_update_view(d: BodyUpdateDecision) -> BodyUpdateDecisionView {
    match d {
        BodyUpdateDecision::Updated => BodyUpdateDecisionView::Updated,
        BodyUpdateDecision::Retry(ms) => BodyUpdateDecisionView::Retry(ms),
        BodyUpdateDecision::Fail(m) => BodyUpdateDecisionView::Fail(m@),
    }
}

/// A body update that lost a version race (`is_stale_update`) is tried again after
/// half a second, at most three attempts in all; any other failure, or the third
/// stale one, is reported with its status and response.
pub open spec fn body_update_of(
    attempt: u32,
    success: bool,
    status: u16,
    status_text: Seq<char>,
    response: Seq<char>,
) -> BodyUpdateDecisionView {
    if success {
        BodyUpdateDecisionView::Updated
    } else if (status == 409 || (exists|i: int| has_at(response, "StaleStateException"@, i)) || (exists|
        i: int,
    | has_at(response, "expected: 1"@, i))) && attempt < 2 {
        BodyUpdateDecisionView::Retry(500)
    } else {
        BodyUpdateDecisionView::Fail(
            "Confluence API request to update page body failed with status "@ + status_text + ": "@
                + response,
        )
    }
}

pub fn body_update_step(attempt: u32, success: bool, status: u16, status_text: &str, response: &str) -> (r: BodyUpdateDecision)
    ensures
        body_update_view(r) == body_update_of(attempt, success, status, status_text@, response@),
{
    if success {
        return BodyUpdateDecision::Updated;
    }
    let stale = is_stale_update(status, response);
    if stale && attempt < 2 {
        BodyUpdateDecision::Retry(500)
    } else {
        let mut m = chars_of("Confluence API request to update page body failed with status ");
        extend_str(&mut m, status_text);
        extend_str(&mut m, ": ");
        extend_str(&mut m, response);
        BodyUpdateDecision::Fail(string_of(&m))
    }
}

// ─── Creating or updating a page ────────────────────────────────────────────

/// A page write: where, what, and the write root the client keeps to.
#[derive(Clone, Debug)]
pub struct UpsertRequest {
    pub space_key: String,
    pub parent: Option<String>,
    pub title: String,
    pub representation: String,
    pub body: String,
    pub write_root: Option<String>,
}

/// Where a page write stands.
#[derive(Clone, Copy, Debug, PartialEq, Eq, Structural)]
pub enum UpsertPhase {
    Start,
    /// Waiting to learn whether the parent lies under the write root.
    CheckingParent,
    /// Waiting for the page found by title, if any.
    Looking,
    /// Waiting to learn whether the page found lies under the write root.
    CheckingPage,
    /// Waiting for the current version of the page found.
    Loading,
    /// Waiting for the answer to the update.
    Putting,
    /// Waiting for the answer to the creation.
    Posting,
    Done,
}

/// The state of a page write: its phase and the id of the page found by title.
#[derive(Clone, Debug)]
pub struct UpsertState {
    pub phase: UpsertPhase,
    pub page_id: Option<String>,
}

/// The current version of a page, as the v2 API gives it.
#[derive(Clone, Debug)]
pub struct PageVersion {
    pub number: Option<i64>,
    pub space_id: Option<String>,
    pub parent_id: Option<String>,
}

/// What the caller brings back.
pub enum UpsertEvent {
    Begin,
    /// Whether the page asked about lies under the write root, or why that is unknown.
    Descendant(Result<bool, String>),
    /// The lookup by title: no page, or a page with its id (when the answer has one).
    Found(Result<Option<Option<String>>, String>),
    /// The current version of the page, if it could be loaded.
    Loaded(Result<Option<PageVersion>, String>),
    /// The answer to a write: whether the status is a success, the status code and
    /// text, the body, whether it parsed as JSON, and the page id in it.
    Answered { success: bool, status: u16, status_text: String, body: String, parsed: bool, id: Option<String> },
}

/// What the caller does next.
pub enum UpsertTask {
    /// Ask whether `page` lies under `root`.
    CheckDescendant { page: String, root: String },
    /// Look for the page with this title under this parent in the space.
    FindByTitle { space_key: String, parent: Option<String>, title: String },
    /// Load the current version of this page.
    LoadPage(String),
    /// Send this v2 update of this page.
    Put { page_id: String, payload: String },
    /// Send this v1 creation.
    Post(String),
    /// The write succeeded, with this page id.
    Written(String),
    Fail(String),
    Ignore,
}

pub enum UpsertTaskView {
    CheckDescendant { page: Seq<char>, root: Seq<char> },
    FindByTitle { space_key: Seq<char>, parent: Option<Seq<char>>, title: Seq<char> },
    LoadPage(Seq<char>),
    Put { page_id: Seq<char>, payload: Seq<char> },
    Post(Seq<char>),
    Written(Seq<char>),
    Fail(Seq<char>),
    Ignore,
}

pub open spec fn ov(o: Option<String>) -> Option<Seq<char>> {
    match o {
        Some(s) => Some(s@),
        None => None,
    }
}

pub open spec fn upsert_task_view(t: UpsertTask) -> UpsertTaskView {
    match t {
        UpsertTask::CheckDescendant { page, root } => UpsertTaskView::CheckDescendant { page: page@, root: root@ },
        UpsertTask::FindByTitle { space_key, parent, title } => UpsertTaskView::FindByTitle {
            space_key: space_key@,
            parent: ov(parent),
            title: title@,
        },
        UpsertTask::LoadPage(p) => UpsertTaskView::LoadPage(p@),
        UpsertTask::Put { page_id, payload } => UpsertTaskView::Put { page_id: page_id@, payload: payload@ },
        UpsertTask::Post(p) => UpsertTaskView::Post(p@),
        UpsertTask::Written(p) => UpsertTaskView::Written(p@),
        UpsertTask::Fail(m) => UpsertTaskView::Fail(m@),
        UpsertTask::Ignore => UpsertTaskView::Ignore,
    }
}

pub open spec fn upsert_state_view(s: UpsertState) -> (UpsertPhase, Option<Seq<char>>) {
    (s.phase, ov(s.page_id))
}

/// The parent the page goes under: the one asked for, else the write root.
pub open spec fn effective_parent_of(req: UpsertRequest) -> Option<Seq<char>> {
    match req.parent {
        Some(p) => Some(p@),
        None => ov(req.write_root),
    }
}

/// The text in an option, or the empty text.
pub open spec fn or_empty(o: Option<Seq<char>>) -> Seq<char> {
    match o {
        Some(t) => t,
        None => seq![],
    }
}

pub open spec fn find_task(req: UpsertRequest) -> UpsertTaskView {
    UpsertTaskView::FindByTitle { space_key: req.space_key@, parent: effective_parent_of(req), title: req.title@ }
}

pub open spec fn post_task(req: UpsertRequest) -> UpsertTaskView {
    UpsertTaskView::Post(create_v1_payload(req.space_key@, effective_parent_of(req), req.title@, req.body@))
}

pub open spec fn answer_of(
    req: UpsertRequest,
    creating: bool,
    success: bool,
    status: u16,
    status_text: Seq<char>,
    body: Seq<char>,
    parsed: bool,
    id: Option<Seq<char>>,
) -> UpsertTaskView {
    if success {
        if !parsed {
            UpsertTaskView::Fail("Failed to parse Confluence API response"@)
        } else {
            match id {
                Some(i) => UpsertTaskView::Written(i),
                None => UpsertTaskView::Fail("Page ID not found in response"@),
            }
        }
    } else if creating && status == 400 && contains_seq(body, "A page already exists with the same TITLE"@) {
        UpsertTaskView::Fail("Confluence title collision for '"@ + req.title@ + "': "@ + status_text + " "@ + body)
    } else {
        UpsertTaskView::Fail("Confluence API request failed with status "@ + status_text + ": "@ + body)
    }
}

/// One step of a page write (`create_or_update_page`).
///
/// With a write root, a parent other than the root must lie under it. The page is
/// looked up by title under the parent; a page found outside the write root is
/// left alone and a new one created. A page kept is updated through the v2 API at
/// its next version (keeping its space and parent); else the page is created
/// through the v1 API. The answer gives the page id, or the error: a title
/// collision for a creation refused with 400 for that reason.
pub open spec fn upsert_step_of(req: UpsertRequest, st: UpsertState, ev: UpsertEvent) -> (
    (UpsertPhase, Option<Seq<char>>),
    UpsertTaskView,
) {
    let pid = ov(st.page_id);
    let done = (UpsertPhase::Done, pid);
    match (st.phase, ev) {
        (UpsertPhase::Start, UpsertEvent::Begin) => match (effective_parent_of(req), req.write_root) {
            (Some(p), Some(w)) => if p == w@ {
                ((UpsertPhase::Looking, pid), find_task(req))
            } else {
                (
                    (UpsertPhase::CheckingParent, pid),
                    UpsertTaskView::CheckDescendant { page: p, root: w@ },
                )
            },
            _ => ((UpsertPhase::Looking, pid), find_task(req)),
        },
        (UpsertPhase::CheckingParent, UpsertEvent::Descendant(r)) => match r {
            Err(m) => (done, UpsertTaskView::Fail(m@)),
            Ok(inside) => if inside {
                ((UpsertPhase::Looking, pid), find_task(req))
            } else {
                (
                    done,
                    UpsertTaskView::Fail(
                        refusal_of(or_empty(effective_parent_of(req)), or_empty(ov(req.write_root))),
                    ),
                )
            },
        },
        (UpsertPhase::Looking, UpsertEvent::Found(r)) => match r {
            Err(m) => (done, UpsertTaskView::Fail(m@)),
            Ok(None) => ((UpsertPhase::Posting, pid), post_task(req)),
            Ok(Some(None)) => (done, UpsertTaskView::Fail("Page ID missing from existing page lookup"@)),
            Ok(Some(Some(id))) => match req.write_root {
                Some(w) => (
                    (UpsertPhase::CheckingPage, Some(id@)),
                    UpsertTaskView::CheckDescendant { page: id@, root: w@ },
                ),
                None => ((UpsertPhase::Loading, Some(id@)), UpsertTaskView::LoadPage(id@)),
            },
        },
        (UpsertPhase::CheckingPage, UpsertEvent::Descendant(r)) => match r {
            Err(m) => (done, UpsertTaskView::Fail(m@)),
            Ok(inside) => if inside {
                ((UpsertPhase::Loading, pid), UpsertTaskView::LoadPage(or_empty(pid)))
            } else {
                ((UpsertPhase::Posting, pid), post_task(req))
            },
        },
        (UpsertPhase::Loading, UpsertEvent::Loaded(r)) => match r {
            Err(m) => (done, UpsertTaskView::Fail(m@)),
            Ok(None) => (done, UpsertTaskView::Fail("Existing page could not be loaded via v2 API"@)),
            Ok(Some(v)) => match v.number {
                None => (done, UpsertTaskView::Fail("Page version missing"@)),
                Some(n) => if n == i64::MAX {
                    (done, UpsertTaskView::Fail("Page version out of range"@))
                } else {
                    (
                        (UpsertPhase::Putting, pid),
                        UpsertTaskView::Put {
                            page_id: or_empty(pid),
                            payload: update_v2_payload(
                                or_empty(pid),
                                req.title@,
                                req.representation@,
                                req.body@,
                                n as int,
                                ov(v.space_id),
                                ov(v.parent_id),
                            ),
                        },
                    )
                },
            },
        },
        (UpsertPhase::Putting, UpsertEvent::Answered { success, status, status_text, body, parsed, id }) => (
            done,
            answer_of(req, false, success, status, status_text@, body@, parsed, ov(id)),
        ),
        (UpsertPhase::Posting, UpsertEvent::Answered { success, status, status_text, body, parsed, id }) => (
            done,
            answer_of(req, true, success, status, status_text@, body@, parsed, ov(id)),
        ),
        _ => ((st.phase, pid), UpsertTaskView::Ignore),
    }
}

fn copy_opt(o: &Option<String>) -> (r: Option<String>)
    ensures
        ov(r) == ov(*o),
{
    match o {
        Some(s) => Some(String::from_str(s.as_str())),
        None => None,
    }
}

fn as_str_opt(o: &Option<String>) -> (r: Option<&str>)
    ensures
        crate::curio_docs::opt_str(r) == ov(*o),
{
    match o {
        Some(s) => Some(s.as_str()),
        None => None,
    }
}

fn text_or_empty(o: &Option<String>) -> (r: &str)
    ensures
        r@ == or_empty(ov(*o)),
{
    match o {
        Some(s) => s.as_str(),
        None => {
            proof {
                reveal_strlit("");
            }
            ""
        },
    }
}

fn effective_parent_exec(req: &UpsertRequest) -> (r: Option<String>)
    ensures
        ov(r) == effective_parent_of(*req),
{
    match &req.parent {
        Some(p) => Some(String::from_str(p.as_str())),
        None => copy_opt(&req.write_root),
    }
}

fn find_exec(req: &UpsertRequest) -> (r: UpsertTask)
    ensures
        upsert_task_view(r) == find_task(*req),
{
    UpsertTask::FindByTitle {
        space_key: String::from_str(req.space_key.as_str()),
        parent: effective_parent_exec(req),
        title: String::from_str(req.title.as_str()),
    }
}

fn post_exec(req: &UpsertRequest) -> (r: UpsertTask)
    ensures
        upsert_task_view(r) == post_task(*req),
{
    let ep = effective_parent_exec(req);
    let payload = create_page_v1_payload(
        req.space_key.as_str(),
        as_str_opt(&ep),
        req.title.as_str(),
        req.body.as_str(),
    );
    UpsertTask::Post(payload)
}

fn answer_exec(
    req: &UpsertRequest,
    creating: bool,
    success: bool,
    status: u16,
    status_text: &str,
    body: &str,
    parsed: bool,
    id: Option<String>,
) -> (r: UpsertTask)
    ensures
        upsert_task_view(r) == answer_of(*req, creating, success, status, status_text@, body@, parsed, ov(id)),
{
    if success {
        if !parsed {
            UpsertTask::Fail(String::from_str("Failed to parse Confluence API response"))
        } else {
            match id {
                Some(i) => UpsertTask::Written(i),
                None => UpsertTask::Fail(String::from_str("Page ID not found in response")),
            }
        }
    } else if creating && status == 400 && str_contains(body, "A page already exists with the same TITLE") {
        let mut m = chars_of("Confluence title collision for '");
        extend_str(&mut m, req.title.as_str());
        extend_str(&mut m, "': ");
        extend_str(&mut m, status_text);
        extend_str(&mut m, " ");
        extend_str(&mut m, body);
        UpsertTask::Fail(string_of(&m))
    } else {
        let mut m = chars_of("Confluence API request failed with status ");
        extend_str(&mut m, status_text);
        extend_str(&mut m, ": ");
        extend_str(&mut m, body);
        UpsertTask::Fail(string_of(&m))
    }
}

fn refusal_exec(page: &str, root: &str) -> (r: String)
    ensures
        r@ == refusal_of(page@, root@),
{
    let mut m = chars_of("Refusing to write page ");
    extend_str(&mut m, page);
    extend_str(&mut m, " because it is outside the configured CURIO output root page ");
    extend_str(&mut m, root);
    string_of(&m)
}

/// One step of a page write: see [`upsert_step_of`].
pub fn upsert_step(req: &UpsertRequest, st: &UpsertState, ev: UpsertEvent) -> (r: (UpsertState, UpsertTask))
    ensures
        (upsert_state_view(r.0), upsert_task_view(r.1)) == upsert_step_of(*req, *st, ev),
{
    let pid = copy_opt(&st.page_id);
    match (st.phase, ev) {
        (UpsertPhase::Start, UpsertEvent::Begin) => {
            let ep = effective_parent_exec(req);
            match (&ep, &req.write_root) {
                (Some(p), Some(w)) => if str_eq(p.as_str(), w.as_str()) {
                    (UpsertState { phase: UpsertPhase::Looking, page_id: pid }, find_exec(req))
                } else {
                    (
                        UpsertState { phase: UpsertPhase::CheckingParent, page_id: pid },
                        UpsertTask::CheckDescendant {
                            page: String::from_str(p.as_str()),
                            root: String::from_str(w.as_str()),
                        },
                    )
                },
                _ => (UpsertState { phase: UpsertPhase::Looking, page_id: pid }, find_exec(req)),
            }
        },
        (UpsertPhase::CheckingParent, UpsertEvent::Descendant(r)) => match r {
            Err(m) => (UpsertState { phase: UpsertPhase::Done, page_id: pid }, UpsertTask::Fail(m)),
            Ok(inside) => if inside {
                (UpsertState { phase: UpsertPhase::Looking, page_id: pid }, find_exec(req))
            } else {
                let ep = effective_parent_exec(req);
                let msg = refusal_exec(text_or_empty(&ep), text_or_empty(&req.write_root));
                (UpsertState { phase: UpsertPhase::Done, page_id: pid }, UpsertTask::Fail(msg))
            },
        },
        (UpsertPhase::Looking, UpsertEvent::Found(r)) => match r {
            Err(m) => (UpsertState { phase: UpsertPhase::Done, page_id: pid }, UpsertTask::Fail(m)),
            Ok(None) => (UpsertState { phase: UpsertPhase::Posting, page_id: pid }, post_exec(req)),
            Ok(Some(None)) => (
                UpsertState { phase: UpsertPhase::Done, page_id: pid },
                UpsertTask::Fail(String::from_str("Page ID missing from existing page lookup")),
            ),
            Ok(Some(Some(id))) => match &req.write_root {
                Some(w) => (
                    UpsertState { phase: UpsertPhase::CheckingPage, page_id: Some(String::from_str(id.as_str())) },
                    UpsertTask::CheckDescendant { page: id, root: String::from_str(w.as_str()) },
                ),
                None => (
                    UpsertState { phase: UpsertPhase::Loading, page_id: Some(String::from_str(id.as_str())) },
                    UpsertTask::LoadPage(id),
                ),
            },
        },
        (UpsertPhase::CheckingPage, UpsertEvent::Descendant(r)) => match r {
            Err(m) => (UpsertState { phase: UpsertPhase::Done, page_id: pid }, UpsertTask::Fail(m)),
            Ok(inside) => if inside {
                let id = String::from_str(text_or_empty(&pid));
                (UpsertState { phase: UpsertPhase::Loading, page_id: pid }, UpsertTask::LoadPage(id))
            } else {
                (UpsertState { phase: UpsertPhase::Posting, page_id: pid }, post_exec(req))
            },
        },
        (UpsertPhase::Loading, UpsertEvent::Loaded(r)) => match r {
            Err(m) => (UpsertState { phase: UpsertPhase::Done, page_id: pid }, UpsertTask::Fail(m)),
            Ok(None) => (
                UpsertState { phase: UpsertPhase::Done, page_id: pid },
                UpsertTask::Fail(String::from_str("Existing page could not be loaded via v2 API")),
            ),
            Ok(Some(v)) => match v.number {
                None => (
                    UpsertState { phase: UpsertPhase::Done, page_id: pid },
                    UpsertTask::Fail(String::from_str("Page version missing")),
                ),
                Some(n) => if n == i64::MAX {
                    (
                        UpsertState { phase: UpsertPhase::Done, page_id: pid },
                        UpsertTask::Fail(String::from_str("Page version out of range")),
                    )
                } else {
                    let id = String::from_str(text_or_empty(&pid));
                    let payload = update_page_v2_payload(
                        id.as_str(),
                        req.title.as_str(),
                        req.representation.as_str(),
                        req.body.as_str(),
                        n,
                        as_str_opt(&v.space_id),
                        as_str_opt(&v.parent_id),
                    );
                    (UpsertState { phase: UpsertPhase::Putting, page_id: pid }, UpsertTask::Put { page_id: id, payload })
                },
            },
        },
        (UpsertPhase::Putting, UpsertEvent::Answered { success, status, status_text, body, parsed, id }) => {
            let t = answer_exec(req, false, success, status, status_text.as_str(), body.as_str(), parsed, id);
            (UpsertState { phase: UpsertPhase::Done, page_id: pid }, t)
        },
        (UpsertPhase::Posting, UpsertEvent::Answered { success, status, status_text, body, parsed, id }) => {
            let t = answer_exec(req, true, success, status, status_text.as_str(), body.as_str(), parsed, id);
            (UpsertState { phase: UpsertPhase::Done, page_id: pid }, t)
        },
        _ => (UpsertState { phase: st.phase, page_id: pid }, UpsertTask::Ignore),
    }
}

/// A write with a write root never touches a page outside it: a parent outside the
/// root refuses the write, and a page found by title outside the root is not
/// updated (a new page is created under the parent instead).
pub proof fn law_writes_stay_under_write_root(req: UpsertRequest, st: UpsertState, ev: UpsertEvent)
    requires
        req.write_root is Some,
    ensures
        st.phase == UpsertPhase::CheckingParent && ev == UpsertEvent::Descendant(Ok(false))
            ==> upsert_step_of(req, st, ev).1 is Fail,
        st.phase == UpsertPhase::CheckingPage && ev == UpsertEvent::Descendant(Ok(false))
            ==> upsert_step_of(req, st, ev).1 is Post,
        st.phase == UpsertPhase::Looking && ev is Found ==> !(upsert_step_of(req, st, ev).1 is LoadPage),
{
}

// ─── Moving a page ──────────────────────────────────────────────────────────

/// A page moved under a new parent. A migration brings a page from outside the
/// write root in, so only the new parent is held to the root.
#[derive(Clone, Debug)]
pub struct MoveRequest {
    pub page_id: String,
    pub new_parent: String,
    pub write_root: Option<String>,
    pub migrate: bool,
}

#[derive(Clone, Copy, Debug, PartialEq, Eq, Structural)]
pub enum MovePhase {
    Start,
    /// Waiting to learn whether the page lies under the write root.
    CheckingPage,
    /// Waiting to learn whether the new parent lies under the write root.
    CheckingParent,
    /// Waiting for the page's current details.
    Fetching,
    /// Waiting for the answer to the move.
    Putting,
    Done,
}

/// The current details of a page, as the v1 API gives them.
#[derive(Clone, Debug)]
pub struct CurrentPage {
    pub version: Option<i64>,
    pub space_key: Option<String>,
    pub title: Option<String>,
    pub body: Option<String>,
}

pub enum MoveEvent {
    Begin,
    Descendant(Result<bool, String>),
    /// The answer to the fetch: success, the status as text, the body, and the
    /// details when the body parsed.
    Fetched { success: bool, status_text: String, body: String, page: Option<CurrentPage> },
    /// The answer to the move.
    Answered { success: bool, status_text: String, body: String },
}

pub enum MoveTask {
    CheckDescendant { page: String, root: String },
    /// Fetch the page's current details.
    Fetch,
    /// Send this v1 update.
    Put(String),
    Moved,
    Fail(String),
    Ignore,
}

pub enum MoveTaskView {
    CheckDescendant { page: Seq<char>, root: Seq<char> },
    Fetch,
    Put(Seq<char>),
    Moved,
    Fail(Seq<char>),
    Ignore,
}

pub open spec fn move_task_view(t: MoveTask) -> MoveTaskView {
    match t {
        MoveTask::CheckDescendant { page, root } => MoveTaskView::CheckDescendant { page: page@, root: root@ },
        MoveTask::Fetch => MoveTaskView::Fetch,
        MoveTask::Put(p) => MoveTaskView::Put(p@),
        MoveTask::Moved => MoveTaskView::Moved,
        MoveTask::Fail(m) => MoveTaskView::Fail(m@),
        MoveTask::Ignore => MoveTaskView::Ignore,
    }
}

pub open spec fn move_verb(req: MoveRequest) -> Seq<char> {
    if req.migrate {
        "migrat"@
    } else {
        "mov"@
    }
}

/// The check of the new parent against the write root: none without a root or when
/// the parent is the root itself.
pub open spec fn parent_check(req: MoveRequest) -> (MovePhase, MoveTaskView) {
    match req.write_root {
        Some(w) => if req.new_parent@ == w@ {
            (MovePhase::Fetching, MoveTaskView::Fetch)
        } else {
            (MovePhase::CheckingParent, MoveTaskView::CheckDescendant { page: req.new_parent@, root: w@ })
        },
        None => (MovePhase::Fetching, MoveTaskView::Fetch),
    }
}

/// One step of moving (or migrating) a page.
///
/// A move holds the page and then the new parent to the write root, a migration
/// only the new parent (anything outside is refused). The page's current details
/// are fetched; its version, space and title must be there (a missing body moves as
/// empty); the page is then written back under the new parent at the next version.
pub open spec fn move_step_of(req: MoveRequest, phase: MovePhase, ev: MoveEvent) -> (MovePhase, MoveTaskView) {
    let verb = move_verb(req);
    let done = MovePhase::Done;
    match (phase, ev) {
        (MovePhase::Start, MoveEvent::Begin) => match req.write_root {
            Some(w) => if !req.migrate && req.page_id@ != w@ {
                (MovePhase::CheckingPage, MoveTaskView::CheckDescendant { page: req.page_id@, root: w@ })
            } else {
                parent_check(req)
            },
            None => parent_check(req),
        },
        (MovePhase::CheckingPage, MoveEvent::Descendant(r)) => match r {
            Err(m) => (done, MoveTaskView::Fail(m@)),
            Ok(inside) => if inside {
                parent_check(req)
            } else {
                (done, MoveTaskView::Fail(refusal_of(req.page_id@, or_empty(ov(req.write_root)))))
            },
        },
        (MovePhase::CheckingParent, MoveEvent::Descendant(r)) => match r {
            Err(m) => (done, MoveTaskView::Fail(m@)),
            Ok(inside) => if inside {
                (MovePhase::Fetching, MoveTaskView::Fetch)
            } else {
                (done, MoveTaskView::Fail(refusal_of(req.new_parent@, or_empty(ov(req.write_root)))))
            },
        },
        (MovePhase::Fetching, MoveEvent::Fetched { success, status_text, body, page }) => if !success {
            (
                done,
                MoveTaskView::Fail(
                    "Failed to get current page details for "@ + verb + "ing page "@ + req.page_id@
                        + ". Status: "@ + status_text@ + ". Response: "@ + body@,
                ),
            )
        } else {
            match page {
                None => (done, MoveTaskView::Fail("Failed to parse current page details for "@ + verb + "ing page"@)),
                Some(cp) => match (cp.version, cp.space_key, cp.title) {
                    (None, _, _) => (done, MoveTaskView::Fail("Page version missing"@)),
                    (Some(v), None, _) => if v == i64::MAX {
                        (done, MoveTaskView::Fail("Page version out of range"@))
                    } else {
                        (done, MoveTaskView::Fail("Space key missing from current page"@))
                    },
                    (Some(v), Some(_), None) => if v == i64::MAX {
                        (done, MoveTaskView::Fail("Page version out of range"@))
                    } else {
                        (done, MoveTaskView::Fail("Page title missing from current page"@))
                    },
                    (Some(v), Some(k), Some(t)) => if v == i64::MAX {
                        (done, MoveTaskView::Fail("Page version out of range"@))
                    } else {
                        (
                            MovePhase::Putting,
                            MoveTaskView::Put(
                                update_v1_payload(
                                    req.page_id@,
                                    t@,
                                    k@,
                                    "storage"@,
                                    or_empty(ov(cp.body)),
                                    v as int,
                                    Some(req.new_parent@),
                                ),
                            ),
                        )
                    },
                },
            }
        },
        (MovePhase::Putting, MoveEvent::Answered { success, status_text, body }) => if success {
            (done, MoveTaskView::Moved)
        } else {
            (
                done,
                MoveTaskView::Fail(
                    "Confluence API request to "@ + verb + "e page "@ + req.page_id@ + " failed with status "@
                        + status_text@ + ": "@ + body@,
                ),
            )
        },
        _ => (phase, MoveTaskView::Ignore),
    }
}

fn parent_check_exec(req: &MoveRequest) -> (r: (MovePhase, MoveTask))
    ensures
        (r.0, move_task_view(r.1)) == parent_check(*req),
{
    match &req.write_root {
        Some(w) => if str_eq(req.new_parent.as_str(), w.as_str()) {
            (MovePhase::Fetching, MoveTask::Fetch)
        } else {
            (
                MovePhase::CheckingParent,
                MoveTask::CheckDescendant {
                    page: String::from_str(req.new_parent.as_str()),
                    root: String::from_str(w.as_str()),
                },
            )
        },
        None => (MovePhase::Fetching, MoveTask::Fetch),
    }
}

fn verb_exec(req: &MoveRequest) -> (r: &'static str)
    ensures
        r@ == move_verb(*req),
{
    if req.migrate {
        proof {
            reveal_strlit("migrat");
        }
        "migrat"
    } else {
        proof {
            reveal_strlit("mov");
        }
        "mov"
    }
}

/// One step of moving a page: see [`move_step_of`].
pub fn move_step(req: &MoveRequest, phase: MovePhase, ev: MoveEvent) -> (r: (MovePhase, MoveTask))
    ensures
        (r.0, move_task_view(r.1)) == move_step_of(*req, phase, ev),
{
    let verb = verb_exec(req);
    match (phase, ev) {
        (MovePhase::Start, MoveEvent::Begin) => match &req.write_root {
            Some(w) => if !req.migrate && !str_eq(req.page_id.as_str(), w.as_str()) {
                (
                    MovePhase::CheckingPage,
                    MoveTask::CheckDescendant {
                        page: String::from_str(req.page_id.as_str()),
                        root: String::from_str(w.as_str()),
                    },
                )
            } else {
                parent_check_exec(req)
            },
            None => parent_check_exec(req),
        },
        (MovePhase::CheckingPage, MoveEvent::Descendant(r)) => match r {
            Err(m) => (MovePhase::Done, MoveTask::Fail(m)),
            Ok(inside) => if inside {
                parent_check_exec(req)
            } else {
                (MovePhase::Done, MoveTask::Fail(refusal_exec(req.page_id.as_str(), text_or_empty(&req.write_root))))
            },
        },
        (MovePhase::CheckingParent, MoveEvent::Descendant(r)) => match r {
            Err(m) => (MovePhase::Done, MoveTask::Fail(m)),
            Ok(inside) => if inside {
                (MovePhase::Fetching, MoveTask::Fetch)
            } else {
                (MovePhase::Done, MoveTask::Fail(refusal_exec(req.new_parent.as_str(), text_or_empty(&req.write_root))))
            },
        },
        (MovePhase::Fetching, MoveEvent::Fetched { success, status_text, body, page }) => if !success {
            let mut m = chars_of("Failed to get current page details for ");
            extend_str(&mut m, verb);
            extend_str(&mut m, "ing page ");
            extend_str(&mut m, req.page_id.as_str());
            extend_str(&mut m, ". Status: ");
            extend_str(&mut m, status_text.as_str());
            extend_str(&mut m, ". Response: ");
            extend_str(&mut m, body.as_str());
            (MovePhase::Done, MoveTask::Fail(string_of(&m)))
        } else {
            match page {
                None => {
                    let mut m = chars_of("Failed to parse current page details for ");
                    extend_str(&mut m, verb);
                    extend_str(&mut m, "ing page");
                    (MovePhase::Done, MoveTask::Fail(string_of(&m)))
                },
                Some(cp) => match (cp.version, &cp.space_key, &cp.title) {
                    (None, _, _) => (MovePhase::Done, MoveTask::Fail(String::from_str("Page version missing"))),
                    (Some(v), k, t) => if v == i64::MAX {
                        (MovePhase::Done, MoveTask::Fail(String::from_str("Page version out of range")))
                    } else {
                        match (k, t) {
                            (None, _) => (
                                MovePhase::Done,
                                MoveTask::Fail(String::from_str("Space key missing from current page")),
                            ),
                            (Some(_), None) => (
                                MovePhase::Done,
                                MoveTask::Fail(String::from_str("Page title missing from current page")),
                            ),
                            (Some(k), Some(t)) => {
                                let payload = crate::confluence::update_page_body_v1_payload(
                                    req.page_id.as_str(),
                                    t.as_str(),
                                    k.as_str(),
                                    "storage",
                                    text_or_empty(&cp.body),
                                    v,
                                    Some(req.new_parent.as_str()),
                                );
                                (MovePhase::Putting, MoveTask::Put(payload))
                            },
                        }
                    },
                },
            }
        },
        (MovePhase::Putting, MoveEvent::Answered { success, status_text, body }) => if success {
            (MovePhase::Done, MoveTask::Moved)
        } else {
            let mut m = chars_of("Confluence API request to ");
            extend_str(&mut m, verb);
            extend_str(&mut m, "e page ");
            extend_str(&mut m, req.page_id.as_str());
            extend_str(&mut m, " failed with status ");
            extend_str(&mut m, status_text.as_str());
            extend_str(&mut m, ": ");
            extend_str(&mut m, body.as_str());
            (MovePhase::Done, MoveTask::Fail(string_of(&m)))
        },
        _ => (phase, MoveTask::Ignore),
    }
}

/// A move reaches the write only after the fetch, and a page or new parent found
/// outside the write root refuses the move.
pub proof fn law_move_refused_outside_root(req: MoveRequest, phase: MovePhase, ev: MoveEvent)
    ensures
        move_step_of(req, phase, ev).1 is Put ==> phase == MovePhase::Fetching,
        (phase == MovePhase::CheckingPage || phase == MovePhase::CheckingParent) && ev
            == MoveEvent::Descendant(Ok(false)) ==> move_step_of(req, phase, ev).1 is Fail,
{
}

} // verus!
