//! Slack actions: what a Slack message asks of Curio, who may ask it, and the job
//! contract the bot follows.
use vstd::prelude::*;

use crate::harness::{opt_view, strings_view};
use crate::text::{chars_of, extend_str, lines, split_lines, str_eq, string_of, trim, trim_vec};
use crate::SourceRef;

verus! {

/// A Slack message forwarded to Curio.
#[derive(Clone, Debug)]
pub struct SlackPayload {
    pub workspace_id: Option<String>,
    pub channel_id: String,
    pub channel_name: Option<String>,
    pub message_ts: String,
    pub thread_ts: Option<String>,
    pub user_id: Option<String>,
    pub user_name: Option<String>,
    pub text: Option<String>,
    pub permalink: Option<String>,
    pub action: String,
    pub request_id: Option<String>,
}

/// The job queued for a Slack action.
#[derive(Clone, Debug)]
pub struct SlackProcessOutput {
    pub action: String,
    pub ok: bool,
    pub job_type: String,
    pub source_ref: SourceRef,
    pub title: String,
    pub summary: String,
    pub requested_by: Option<String>,
    pub channel_id: String,
    pub channel_name: Option<String>,
    pub thread_ts: Option<String>,
    pub queued_at: String,
}

/// Whether a Slack user may run admin actions.
#[derive(Clone, Debug)]
pub struct SlackAuthorizeOutput {
    pub allowed: bool,
    pub user_id: String,
    pub channel_id: Option<String>,
    pub reason: String,
}

/// What the Slack bot may ask of Curio.
#[derive(Clone, Debug)]
pub struct SlackJobContract {
    pub action_types: Vec<String>,
    pub default_provider: String,
    pub required_fields: Vec<String>,
    pub async_only: bool,
    pub acknowledgement_sla_seconds: u32,
}

pub open spec fn job_type_of(action: Seq<char>) -> Seq<char> {
    if action == "intake"@ {
        "intake"@
    } else if action == "ask"@ {
        "question"@
    } else if action == "heal"@ {
        "heal"@
    } else if action == "merge"@ {
        "merge"@
    } else if action == "publish"@ {
        "publish"@
    } else if action == "sync"@ {
        "sync"@
    } else {
        "unknown"@
    }
}

/// The job a Slack action queues (`ask` is a question; unknown actions are `unknown`).
pub fn slack_job_type(action: &str) -> (r: &'static str)
    ensures
        r@ == job_type_of(action@),
{
    if str_eq(action, "intake") {
        "intake"
    } else if str_eq(action, "ask") {
        "question"
    } else if str_eq(action, "heal") {
        "heal"
    } else if str_eq(action, "merge") {
        "merge"
    } else if str_eq(action, "publish") {
        "publish"
    } else if str_eq(action, "sync") {
        "sync"
    } else {
        "unknown"
    }
}

/// The title of a Slack job: the first line of the message, trimmed (`Slack intake`
/// for a message without text or lines).
pub open spec fn slack_title(text: Option<Seq<char>>) -> Seq<char> {
    let t = match text {
        Some(t) => t,
        None => "Slack intake"@,
    };
    if lines(t).len() > 0 {
        trim(lines(t)[0])
    } else {
        trim("Slack intake"@)
    }
}

/// The summary of a Slack job: the message's first 280 characters.
pub open spec fn slack_summary(text: Option<Seq<char>>) -> Seq<char> {
    match text {
        Some(t) => if t.len() > 280 {
            t.take(280)
        } else {
            t
        },
        None => seq![],
    }
}

/// The job a Slack payload queues, stamped `queued_at`.
pub fn process_output(payload: &SlackPayload, queued_at: &str) -> (r: SlackProcessOutput)
    ensures
        r.action == payload.action,
        r.ok,
        r.job_type@ == job_type_of(payload.action@),
        r.source_ref.kind@ == "slack_message"@,
        r.source_ref.id@ == "slack:"@ + payload.channel_id@ + ":"@ + payload.message_ts@,
        r.source_ref.origin_url == payload.permalink,
        r.source_ref.summary == payload.text,
        r.title@ == slack_title(opt_view(payload.text)),
        r.summary@ == slack_summary(opt_view(payload.text)),
        r.requested_by == payload.user_id,
        r.channel_id == payload.channel_id,
        r.channel_name == payload.channel_name,
        r.thread_ts == payload.thread_ts,
        r.queued_at@ == queued_at@,
{
    let text: Vec<char> = match &payload.text {
        Some(t) => chars_of(t.as_str()),
        None => chars_of("Slack intake"),
    };
    let ls = split_lines(&text);
    let title = if ls.len() > 0 {
        assert(crate::text::views(ls@)[0] == ls@[0]@);
        trim_vec(&ls[0])
    } else {
        trim_vec(&chars_of("Slack intake"))
    };
    let summary: Vec<char> = match &payload.text {
        Some(t) => {
            let cs = chars_of(t.as_str());
            if cs.len() > 280 {
                crate::text::slice_vec(&cs, 0, 280)
            } else {
                cs
            }
        },
        None => Vec::new(),
    };
    assert(summary@ =~= slack_summary(opt_view(payload.text)));
    let mut id = chars_of("slack:");
    extend_str(&mut id, payload.channel_id.as_str());
    extend_str(&mut id, ":");
    extend_str(&mut id, payload.message_ts.as_str());
    SlackProcessOutput {
        action: payload.action.clone(),
        ok: true,
        job_type: String::from_str(slack_job_type(payload.action.as_str())),
        source_ref: SourceRef {
            kind: String::from_str("slack_message"),
            id: string_of(&id),
            origin_url: payload.permalink.clone(),
            summary: payload.text.clone(),
        },
        title: string_of(&title),
        summary: string_of(&summary),
        requested_by: payload.user_id.clone(),
        channel_id: payload.channel_id.clone(),
        channel_name: payload.channel_name.clone(),
        thread_ts: payload.thread_ts.clone(),
        queued_at: String::from_str(queued_at),
    }
}

/// Whether a user is an admin: allowed exactly when the allowlist names them.
pub fn authorize(admin_user_ids: &[String], user_id: String, channel_id: Option<String>) -> (r: SlackAuthorizeOutput)
    ensures
        r.allowed == strings_view(admin_user_ids@).contains(user_id@),
        r.reason@ == if r.allowed {
            "allowed by admin allowlist"@
        } else {
            "user not in admin allowlist"@
        },
        r.user_id == user_id,
        r.channel_id == channel_id,
{
    let mut allowed = false;
    let mut i: usize = 0;
    while i < admin_user_ids.len()
        invariant
            i <= admin_user_ids@.len(),
            allowed == exists|j: int| 0 <= j < i && admin_user_ids@[j]@ == user_id@,
        decreases admin_user_ids@.len() - i,
    {
        if str_eq(admin_user_ids[i].as_str(), user_id.as_str()) {
            allowed = true;
        }
        i += 1;
    }
    proof {
        if allowed {
            let j = choose|j: int| 0 <= j < admin_user_ids@.len() && admin_user_ids@[j]@ == user_id@;
            assert(strings_view(admin_user_ids@)[j] == user_id@);
        } else {
            assert forall|j: int| 0 <= j < strings_view(admin_user_ids@).len() implies strings_view(
                admin_user_ids@,
            )[j] != user_id@ by {
                assert(strings_view(admin_user_ids@)[j] == admin_user_ids@[j]@);
            }
        }
    }
    let reason = if allowed {
        String::from_str("allowed by admin allowlist")
    } else {
        String::from_str("user not in admin allowlist")
    };
    SlackAuthorizeOutput { allowed, user_id, channel_id, reason }
}

/// The job contract: the six action types, the default provider, the four fields a
/// payload must carry, asynchronous jobs only, and acknowledgement within 3 seconds.
pub fn job_contract(default_provider: &str) -> (r: SlackJobContract)
    ensures
        strings_view(r.action_types@) == seq![
            "intake"@,
            "ask"@,
            "heal"@,
            "merge"@,
            "publish"@,
            "sync"@,
        ],
        r.default_provider@ == default_provider@,
        strings_view(r.required_fields@) == seq![
            "workspace_id"@,
            "channel_id"@,
            "message_ts"@,
            "action"@,
        ],
        r.async_only,
        r.acknowledgement_sla_seconds == 3,
{
    let action_types = vec![
        String::from_str("intake"),
        String::from_str("ask"),
        String::from_str("heal"),
        String::from_str("merge"),
        String::from_str("publish"),
        String::from_str("sync"),
    ];
    let required_fields = vec![
        String::from_str("workspace_id"),
        String::from_str("channel_id"),
        String::from_str("message_ts"),
        String::from_str("action"),
    ];
    assert(strings_view(action_types@) =~= seq![
        "intake"@,
        "ask"@,
        "heal"@,
        "merge"@,
        "publish"@,
        "sync"@,
    ]);
    assert(strings_view(required_fields@) =~= seq![
        "workspace_id"@,
        "channel_id"@,
        "message_ts"@,
        "action"@,
    ]);
    SlackJobContract {
        action_types,
        default_provider: String::from_str(default_provider),
        required_fields,
        async_only: true,
        acknowledgement_sla_seconds: 3,
    }
}

} // verus!
