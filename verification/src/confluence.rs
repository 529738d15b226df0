//! The Confluence connection's policies: how long a request may take, which
//! failures are retried, the web address of a page, and what a page write sends.
use vstd::prelude::*;

use crate::adf::{json_str, push_json_str};
use crate::text::{
    chars_of, decimal, decimal_vec, has_at, extend_chars, extend_str, parse_u64, parsed_u64, string_of, trim, trim_end_char,
    trim_end_char_vec, trim_str,
};

verus! {

/// The request timeout in seconds: `CURIO_HTTP_TIMEOUT_SECONDS` (its trimmed value)
/// when it is a positive whole number, else 45.
pub open spec fn timeout_secs(env_value: Option<Seq<char>>) -> u64 {
    match env_value {
        Some(v) => match parsed_u64(trim(v)) {
            Some(n) => if n > 0 {
                n
            } else {
                45
            },
            None => 45,
        },
        None => 45,
    }
}

pub fn http_timeout_seconds(env_value: Option<&str>) -> (r: u64)
    ensures
        r == timeout_secs(match env_value {
            Some(v) => Some(v@),
            None => None,
        }),
{
    match env_value {
        Some(v) => {
            let t = string_of(&trim_str(v));
            match parse_u64(t.as_str()) {
                Some(n) => if n > 0 {
                    n
                } else {
                    45
                },
                None => 45,
            }
        },
        None => 45,
    }
}

/// Whether a response status is worth retrying: too many requests, bad gateway,
/// service unavailable or gateway timeout.
pub fn is_retryable_status(status: u16) -> (b: bool)
    ensures
        b == (status == 429 || status == 502 || status == 503 || status == 504),
{
    status == 429 || status == 502 || status == 503 || status == 504
}

/// How many times a request is sent before its failure is reported.
pub const MAX_ATTEMPTS: u32 = 3;

/// How long to wait after a failed attempt (numbered from 1) before the next one.
pub fn retry_delay_ms(attempt: u32) -> (r: u64)
    ensures
        r == 500 * attempt,
{
    500 * (attempt as u64)
}

/// The web address of a page.
pub fn page_web_url(base_url: &str, page_id: &str) -> (r: String)
    ensures
        r@ == trim_end_char(base_url@, '/') + "/pages/viewpage.action?pageId="@ + page_id@,
{
    let mut out = trim_end_char_vec(&chars_of(base_url), '/');
    extend_str(&mut out, "/pages/viewpage.action?pageId=");
    extend_str(&mut out, page_id);
    string_of(&out)
}


// ─── Page writes ────────────────────────────────────────────────────────────

/// The parent a page is written under: the one asked for, else the write root.
pub fn effective_parent<'a>(parent_id: Option<&'a str>, write_root: Option<&'a str>) -> (r: Option<&'a str>)
    ensures
        r == match parent_id {
            Some(p) => Some(p),
            None => write_root,
        },
{
    match parent_id {
        Some(p) => Some(p),
        None => write_root,
    }
}

// ─── The write-root guard ───────────────────────────────────────────────────

/// Whether a page lies under the write root: it is the root, or the root is one of
/// its ancestors (`ancestors`: its parent, that page's parent, and so on).
pub fn under_write_root(root: &str, ancestors: &[String], page: &str) -> (b: bool)
    ensures
        b == (page@ == root@ || crate::curio_docs::strings(ancestors@).contains(root@)),
{
    if crate::text::str_eq(page, root) {
        return true;
    }
    let mut i: usize = 0;
    while i < ancestors.len()
        invariant
            i <= ancestors@.len(),
            forall|k: int| 0 <= k < i ==> ancestors@[k]@ != root@,
        decreases ancestors@.len() - i,
    {
        if crate::text::str_eq(ancestors[i].as_str(), root) {
            assert(crate::curio_docs::strings(ancestors@)[i as int] == root@);
            return true;
        }
        i += 1;
    }
    assert forall|k: int| 0 <= k < crate::curio_docs::strings(ancestors@).len() implies crate::curio_docs::strings(
        ancestors@,
    )[k] != root@ by {}
    false
}

/// One step of the walk up from a page to the write root.
#[derive(Clone, Debug)]
pub enum GuardStep {
    /// The page is the root, or the root is its parent.
    Inside,
    /// The page is unknown or has no parent: it is not under the root.
    Outside,
    /// Look at this parent next.
    Up(String),
}

/// [`GuardStep`] as plain values.
pub enum GuardStepView {
    Inside,
    Outside,
    Up(Seq<char>),
}

pub open spec fn guard_view(g: GuardStep) -> GuardStepView {
    match g {
        GuardStep::Inside => GuardStepView::Inside,
        GuardStep::Outside => GuardStepView::Outside,
        GuardStep::Up(p) => GuardStepView::Up(p@),
    }
}

pub open spec fn guard_step_of(root: Seq<char>, page: Seq<char>, parent: Option<Seq<char>>) -> GuardStepView {
    if page == root {
        GuardStepView::Inside
    } else {
        match parent {
            None => GuardStepView::Outside,
            Some(p) => if p == root {
                GuardStepView::Inside
            } else {
                GuardStepView::Up(p)
            },
        }
    }
}

/// Where the walk up goes from `page`, given its parent as Confluence reports it
/// (`None` when the page is unknown or has no parent).
pub fn write_guard_step(root: &str, page: &str, parent: Option<&str>) -> (r: GuardStep)
    ensures
        guard_view(r) == guard_step_of(root@, page@, crate::curio_docs::opt_str(parent)),
{
    if crate::text::str_eq(page, root) {
        GuardStep::Inside
    } else {
        match parent {
            None => GuardStep::Outside,
            Some(p) => if crate::text::str_eq(p, root) {
                GuardStep::Inside
            } else {
                GuardStep::Up(String::from_str(p))
            },
        }
    }
}

pub open spec fn refusal_of(page: Seq<char>, root: Seq<char>) -> Seq<char> {
    "Refusing to write page "@ + page
        + " because it is outside the configured CURIO output root page "@ + root
}

/// The guard before a write: allowed without a write root, or when the page is the
/// root or lies under it; otherwise refused with a message naming both.
pub fn check_write_root(root: Option<&str>, ancestors: &[String], page: &str) -> (r: Result<(), String>)
    ensures
        match root {
            None => r is Ok,
            Some(w) => match r {
                Ok(()) => page@ == w@ || crate::curio_docs::strings(ancestors@).contains(w@),
                Err(m) => !(page@ == w@ || crate::curio_docs::strings(ancestors@).contains(w@))
                    && m@ == refusal_of(page@, w@),
            },
        },
{
    match root {
        None => Ok(()),
        Some(w) => if under_write_root(w, ancestors, page) {
            Ok(())
        } else {
            let mut m = chars_of("Refusing to write page ");
            extend_str(&mut m, page);
            extend_str(&mut m, " because it is outside the configured CURIO output root page ");
            extend_str(&mut m, w);
            Err(string_of(&m))
        },
    }
}

/// A page found by title is updated in place only when no write root is set or the
/// page lies under it; otherwise a new page is created.
pub fn keep_existing_page(write_root_set: bool, under_write_root: bool) -> (b: bool)
    ensures
        b == (!write_root_set || under_write_root),
{
    !write_root_set || under_write_root
}

/// An integer as JSON writes it.
pub open spec fn int_text(n: int) -> Seq<char> {
    if n < 0 {
        seq!['-'] + decimal((-n) as nat)
    } else {
        decimal(n as nat)
    }
}

fn push_int(out: &mut Vec<char>, n: i64)
    requires
        n > i64::MIN,
    ensures
        final(out)@ == old(out)@ + int_text(n as int),
{
    if n < 0 {
        out.push('-');
        let m: i64 = -n;
        extend_chars(out, &decimal_vec(m as u64));
    } else {
        extend_chars(out, &decimal_vec(n as u64));
    }
}

pub open spec fn opt_field(key: Seq<char>, v: Option<Seq<char>>) -> Seq<char> {
    match v {
        Some(x) => "\""@ + key + "\":"@ + json_str(x) + ","@,
        None => seq![],
    }
}

/// The v2 update of a page: its id, status, title, body in the given representation,
/// the version after the current one, and the space and parent the page has.
pub open spec fn update_v2_payload(
    page_id: Seq<char>,
    title: Seq<char>,
    representation: Seq<char>,
    body: Seq<char>,
    version: int,
    space_id: Option<Seq<char>>,
    parent_id: Option<Seq<char>>,
) -> Seq<char> {
    "{\"body\":{\"representation\":"@ + json_str(representation) + ",\"value\":"@ + json_str(body)
        + "},\"id\":"@ + json_str(page_id) + ","@ + opt_field("parentId"@, parent_id) + opt_field(
        "spaceId"@,
        space_id,
    ) + "\"status\":\"current\",\"title\":"@ + json_str(title) + ",\"version\":{\"number\":"@
        + int_text(version + 1) + "}}"@
}

fn push_opt_field(out: &mut Vec<char>, key: &str, v: Option<&str>)
    ensures
        final(out)@ == old(out)@ + opt_field(key@, match v {
            Some(x) => Some(x@),
            None => None,
        }),
{
    let ghost start = out@;
    match v {
        Some(x) => {
            extend_str(out, "\"");
            extend_str(out, key);
            extend_str(out, "\":");
            push_json_str(out, x);
            extend_str(out, ",");
            assert(out@ =~= start + opt_field(key@, Some(x@)));
        },
        None => {
            assert(out@ =~= start + opt_field(key@, None));
        },
    }
}

/// The JSON body of a v2 page update (`PUT <base>/api/v2/pages/<id>`).
pub fn update_page_v2_payload(
    page_id: &str,
    title: &str,
    representation: &str,
    body: &str,
    current_version: i64,
    space_id: Option<&str>,
    parent_id: Option<&str>,
) -> (r: String)
    requires
        current_version < i64::MAX,
    ensures
        r@ == update_v2_payload(
            page_id@,
            title@,
            representation@,
            body@,
            current_version as int,
            match space_id {
                Some(x) => Some(x@),
                None => None,
            },
            match parent_id {
                Some(x) => Some(x@),
                None => None,
            },
        ),
{
    let mut out = chars_of("{\"body\":{\"representation\":");
    push_json_str(&mut out, representation);
    extend_str(&mut out, ",\"value\":");
    push_json_str(&mut out, body);
    extend_str(&mut out, "},\"id\":");
    push_json_str(&mut out, page_id);
    extend_str(&mut out, ",");
    push_opt_field(&mut out, "parentId", parent_id);
    push_opt_field(&mut out, "spaceId", space_id);
    extend_str(&mut out, "\"status\":\"current\",\"title\":");
    push_json_str(&mut out, title);
    extend_str(&mut out, ",\"version\":{\"number\":");
    if current_version == i64::MIN {
        proof {
            assert(current_version + 1 < 0);
        }
    }
    let next: i64 = current_version + 1;
    push_int(&mut out, next);
    extend_str(&mut out, "}}");
    string_of(&out)
}

/// The v1 creation of a page: under its parent when it has one, with a storage body,
/// in the space, current, titled.
pub open spec fn create_v1_payload(space_key: Seq<char>, parent: Option<Seq<char>>, title: Seq<char>, body: Seq<char>) -> Seq<char> {
    "{"@ + match parent {
        Some(p) => "\"ancestors\":[{\"id\":"@ + json_str(p) + "}],"@,
        None => seq![],
    } + "\"body\":{\"storage\":{\"representation\":\"storage\",\"value\":"@ + json_str(body)
        + "}},\"space\":{\"key\":"@ + json_str(space_key) + "},\"status\":\"current\",\"title\":"@
        + json_str(title) + ",\"type\":\"page\"}"@
}

/// The JSON body of a v1 page creation (`POST <base>/rest/api/content`).
pub fn create_page_v1_payload(space_key: &str, parent: Option<&str>, title: &str, body: &str) -> (r: String)
    ensures
        r@ == create_v1_payload(space_key@, match parent {
            Some(x) => Some(x@),
            None => None,
        }, title@, body@),
{
    let mut out = chars_of("{");
    match parent {
        Some(p) => {
            extend_str(&mut out, "\"ancestors\":[{\"id\":");
            push_json_str(&mut out, p);
            extend_str(&mut out, "}],");
        },
        None => {},
    }
    extend_str(&mut out, "\"body\":{\"storage\":{\"representation\":\"storage\",\"value\":");
    push_json_str(&mut out, body);
    extend_str(&mut out, "}},\"space\":{\"key\":");
    push_json_str(&mut out, space_key);
    extend_str(&mut out, "},\"status\":\"current\",\"title\":");
    push_json_str(&mut out, title);
    extend_str(&mut out, ",\"type\":\"page\"}");
    string_of(&out)
}

/// The v1 update of a page's body: under its last ancestor when it has one, the body
/// keyed by its representation (`atlas_doc_format`, else `storage`), the page's id,
/// space and title, and the version after the current one.
pub open spec fn update_v1_payload(
    page_id: Seq<char>,
    title: Seq<char>,
    space_key: Seq<char>,
    representation: Seq<char>,
    body: Seq<char>,
    version: int,
    parent: Option<Seq<char>>,
) -> Seq<char> {
    "{"@ + match parent {
        Some(p) => "\"ancestors\":[{\"id\":"@ + json_str(p) + "}],"@,
        None => seq![],
    } + "\"body\":{"@ + json_str(
        if representation == "atlas_doc_format"@ {
            "atlas_doc_format"@
        } else {
            "storage"@
        },
    ) + ":{\"representation\":"@ + json_str(representation) + ",\"value\":"@ + json_str(body)
        + "}},\"id\":"@ + json_str(page_id) + ",\"space\":{\"key\":"@ + json_str(space_key)
        + "},\"title\":"@ + json_str(title) + ",\"type\":\"page\",\"version\":{\"number\":"@
        + int_text(version + 1) + "}}"@
}

/// The JSON body of a v1 page body update (`PUT <base>/rest/api/content/<id>`).
pub fn update_page_body_v1_payload(
    page_id: &str,
    title: &str,
    space_key: &str,
    representation: &str,
    body: &str,
    current_version: i64,
    parent: Option<&str>,
) -> (r: String)
    requires
        current_version < i64::MAX,
    ensures
        r@ == update_v1_payload(
            page_id@,
            title@,
            space_key@,
            representation@,
            body@,
            current_version as int,
            match parent {
                Some(x) => Some(x@),
                None => None,
            },
        ),
{
    let mut out = chars_of("{");
    match parent {
        Some(p) => {
            extend_str(&mut out, "\"ancestors\":[{\"id\":");
            push_json_str(&mut out, p);
            extend_str(&mut out, "}],");
        },
        None => {},
    }
    extend_str(&mut out, "\"body\":{");
    let key: &str = if crate::text::str_eq(representation, "atlas_doc_format") {
        "atlas_doc_format"
    } else {
        "storage"
    };
    push_json_str(&mut out, key);
    extend_str(&mut out, ":{\"representation\":");
    push_json_str(&mut out, representation);
    extend_str(&mut out, ",\"value\":");
    push_json_str(&mut out, body);
    extend_str(&mut out, "}},\"id\":");
    push_json_str(&mut out, page_id);
    extend_str(&mut out, ",\"space\":{\"key\":");
    push_json_str(&mut out, space_key);
    extend_str(&mut out, "},\"title\":");
    push_json_str(&mut out, title);
    extend_str(&mut out, ",\"type\":\"page\",\"version\":{\"number\":");
    let next: i64 = current_version + 1;
    push_int(&mut out, next);
    extend_str(&mut out, "}}");
    string_of(&out)
}

/// Why a page write failed.
#[derive(Debug, Clone, PartialEq, Eq)]
pub enum PageWriteError {
    /// A page with the title already exists in the space.
    TitleCollision { title: String, status: u16, response: String },
    /// Any other failed response.
    Failed { status: u16, response: String },
}

/// The failure of a page creation: a title collision when Confluence answers 400 and
/// says a page with the same title exists, else a plain failure.
pub fn create_failure(title: &str, status: u16, response: &str) -> (e: PageWriteError)
    ensures
        (status == 400 && exists|i: int| has_at(response@, "A page already exists with the same TITLE"@, i))
            ==> (e matches PageWriteError::TitleCollision { title: t, status: st, response: r } && t@
            == title@ && st == status && r@ == response@),
        !(status == 400 && exists|i: int| has_at(response@, "A page already exists with the same TITLE"@, i))
            ==> (e matches PageWriteError::Failed { status: st, response: r } && st == status && r@
            == response@),
{
    if status == 400 && crate::text::str_contains(response, "A page already exists with the same TITLE") {
        PageWriteError::TitleCollision { title: String::from_str(title), status, response: String::from_str(response) }
    } else {
        PageWriteError::Failed { status, response: String::from_str(response) }
    }
}

/// A failed body update is worth retrying when it lost a version race: a conflict, or
/// a stale-state answer.
pub fn is_stale_update(status: u16, response: &str) -> (b: bool)
    ensures
        b == (status == 409 || (exists|i: int| has_at(response@, "StaleStateException"@, i)) || (
        exists|i: int| has_at(response@, "expected: 1"@, i))),
{
    status == 409 || crate::text::str_contains(response, "StaleStateException") || crate::text::str_contains(response, "expected: 1")
}

} // verus!
