//! `curio feedback`: what a review page's labels, reactions and comments ask for, and
//! the texts the outcome writes.
use vstd::prelude::*;

use crate::commands::sync::{strip_html_tags, untagged};
use crate::harness::strings_view;
use crate::text::{
    chars_of, collapse_ws, contains_char, extend_chars, extend_str, contains_seq, contains_vec, join,
    replace_first, replace_first_exec, string_of, trim, trim_vec,
};

verus! {

/// What the people approving a page signalled on it.
#[derive(Debug, Clone, Copy, PartialEq, Eq)]
pub enum FeedbackAction {
    Approve,
    Reject,
    Rewrite,
    /// Free-form comments only: they are captured, nothing moves.
    Capture,
    /// No signal at all.
    NoSignal,
}

/// The action a page's labels ask for: approve, else reject, else rewrite.
pub open spec fn label_action_of(labels: Seq<Seq<char>>) -> Option<FeedbackAction> {
    if labels.contains("curio:approve"@) {
        Some(FeedbackAction::Approve)
    } else if labels.contains("curio:reject"@) {
        Some(FeedbackAction::Reject)
    } else if labels.contains("curio:rewrite"@) {
        Some(FeedbackAction::Rewrite)
    } else {
        None
    }
}

fn has_text(v: &[String], s: &str) -> (b: bool)
    ensures
        b == strings_view(v@).contains(s@),
{
    let mut i: usize = 0;
    while i < v.len()
        invariant
            i <= v@.len(),
            forall|j: int| 0 <= j < i ==> v@[j]@ != s@,
        decreases v@.len() - i,
    {
        if crate::text::str_eq(v[i].as_str(), s) {
            assert(strings_view(v@)[i as int] == s@);
            return true;
        }
        i += 1;
    }
    assert forall|j: int| 0 <= j < strings_view(v@).len() implies strings_view(v@)[j] != s@ by {
        assert(strings_view(v@)[j] == v@[j]@);
    }
    false
}

pub fn label_action(labels: &[String]) -> (r: Option<FeedbackAction>)
    ensures
        r == label_action_of(strings_view(labels@)),
{
    if has_text(labels, "curio:approve") {
        Some(FeedbackAction::Approve)
    } else if has_text(labels, "curio:reject") {
        Some(FeedbackAction::Reject)
    } else if has_text(labels, "curio:rewrite") {
        Some(FeedbackAction::Rewrite)
    } else {
        None
    }
}

pub open spec fn approves(e: Seq<char>) -> bool {
    e.contains('\u{1F44D}') || contains_seq(e, "+1"@) || contains_seq(e, "thumbsup"@)
}

pub open spec fn rejects(e: Seq<char>) -> bool {
    e.contains('\u{1F44E}') || contains_seq(e, "-1"@) || contains_seq(e, "thumbsdown"@)
}

pub open spec fn questions(e: Seq<char>) -> bool {
    e.contains('\u{2753}') || contains_seq(e, "question"@)
}

/// The action the reactions on the pinned comment ask for: any thumbs up approves,
/// else any thumbs down rejects, else any question mark asks for a rewrite.
pub open spec fn reaction_action_of(emojis: Seq<Seq<char>>) -> Option<FeedbackAction> {
    if exists|i: int| 0 <= i < emojis.len() && approves(#[trigger] emojis[i]) {
        Some(FeedbackAction::Approve)
    } else if exists|i: int| 0 <= i < emojis.len() && rejects(#[trigger] emojis[i]) {
        Some(FeedbackAction::Reject)
    } else if exists|i: int| 0 <= i < emojis.len() && questions(#[trigger] emojis[i]) {
        Some(FeedbackAction::Rewrite)
    } else {
        None
    }
}

/// Without a thumbs up among the reactions (no U+1F44D, `+1` or `thumbsup` in any
/// of them), a thumbs down (U+1F44E, `-1` or `thumbsdown` in one of them) rejects;
/// any thumbs up approves; with neither, a question mark (U+2753 or `question`)
/// asks for a rewrite.
pub proof fn law_thumbs_down_rejects(emojis: Seq<Seq<char>>, k: int)
    requires
        0 <= k < emojis.len(),
    ensures
        (forall|i: int|
            0 <= i < emojis.len() ==> !(#[trigger] emojis[i]).contains('\u{1F44D}') && !contains_seq(
                emojis[i],
                "+1"@,
            ) && !contains_seq(emojis[i], "thumbsup"@)) && (emojis[k].contains('\u{1F44E}')
            || contains_seq(emojis[k], "-1"@) || contains_seq(emojis[k], "thumbsdown"@))
            ==> reaction_action_of(emojis) == Some(FeedbackAction::Reject),
        (emojis[k].contains('\u{1F44D}') || contains_seq(emojis[k], "+1"@) || contains_seq(
            emojis[k],
            "thumbsup"@,
        )) ==> reaction_action_of(emojis) == Some(FeedbackAction::Approve),
        (forall|i: int|
            0 <= i < emojis.len() ==> !(#[trigger] emojis[i]).contains('\u{1F44D}') && !contains_seq(
                emojis[i],
                "+1"@,
            ) && !contains_seq(emojis[i], "thumbsup"@) && !emojis[i].contains('\u{1F44E}')
                && !contains_seq(emojis[i], "-1"@) && !contains_seq(emojis[i], "thumbsdown"@)) && (
        emojis[k].contains('\u{2753}') || contains_seq(emojis[k], "question"@))
            ==> reaction_action_of(emojis) == Some(FeedbackAction::Rewrite),
{
    assert(questions(emojis[k]) == (emojis[k].contains('\u{2753}') || contains_seq(emojis[k], "question"@)));
    assert(approves(emojis[k]) == (emojis[k].contains('\u{1F44D}') || contains_seq(emojis[k], "+1"@)
        || contains_seq(emojis[k], "thumbsup"@)));
    assert(rejects(emojis[k]) == (emojis[k].contains('\u{1F44E}') || contains_seq(emojis[k], "-1"@)
        || contains_seq(emojis[k], "thumbsdown"@)));
}

pub open spec fn reacts(kind: u8, e: Seq<char>) -> bool {
    if kind == 0 {
        approves(e)
    } else if kind == 1 {
        rejects(e)
    } else {
        questions(e)
    }
}

fn any_reaction(emojis: &[String], kind: u8) -> (b: bool)
    requires
        kind < 3,
    ensures
        b == exists|i: int| 0 <= i < emojis@.len() && reacts(kind, #[trigger] strings_view(emojis@)[i]),
{
    let ghost ev = strings_view(emojis@);
    let mut i: usize = 0;
    while i < emojis.len()
        invariant
            i <= emojis@.len(),
            kind < 3,
            ev == strings_view(emojis@),
            forall|j: int| 0 <= j < i ==> !reacts(kind, #[trigger] ev[j]),
        decreases emojis@.len() - i,
    {
        let e = chars_of(emojis[i].as_str());
        assert(e@ == ev[i as int]);
        let hit = if kind == 0 {
            contains_char(&e, '\u{1F44D}') || contains_vec(&e, "+1") || contains_vec(&e, "thumbsup")
        } else if kind == 1 {
            contains_char(&e, '\u{1F44E}') || contains_vec(&e, "-1") || contains_vec(&e, "thumbsdown")
        } else {
            contains_char(&e, '\u{2753}') || contains_vec(&e, "question")
        };
        if hit {
            assert(reacts(kind, ev[i as int]));
            return true;
        }
        i += 1;
    }
    false
}

pub fn reaction_action(emojis: &[String]) -> (r: Option<FeedbackAction>)
    ensures
        r == reaction_action_of(strings_view(emojis@)),
{
    let ghost ev = strings_view(emojis@);
    let a = any_reaction(emojis, 0);
    let b = any_reaction(emojis, 1);
    let c = any_reaction(emojis, 2);
    proof {
        assert(a == exists|i: int| 0 <= i < ev.len() && approves(#[trigger] ev[i]));
        assert(b == exists|i: int| 0 <= i < ev.len() && rejects(#[trigger] ev[i]));
        assert(c == exists|i: int| 0 <= i < ev.len() && questions(#[trigger] ev[i]));
    }
    if a {
        Some(FeedbackAction::Approve)
    } else if b {
        Some(FeedbackAction::Reject)
    } else if c {
        Some(FeedbackAction::Rewrite)
    } else {
        None
    }
}

/// A comment on a review page: its id, if it has one, and its body.
#[derive(Clone, Debug)]
pub struct ReviewComment {
    pub id: Option<String>,
    pub body: String,
}

/// The readers' comments: every comment but the pinned one, with a body, its tags
/// removed and whitespace collapsed, kept when not blank.
pub open spec fn reviewer_comments_of(cs: Seq<ReviewComment>, pinned: Option<Seq<char>>) -> Seq<Seq<char>>
    decreases cs.len(),
{
    if cs.len() == 0 {
        seq![]
    } else {
        let c = cs.last();
        let is_pinned = match pinned {
            Some(p) => c.id is Some && c.id->0@ == p,
            None => false,
        };
        let text = collapse_ws(untagged(c.body@));
        reviewer_comments_of(cs.drop_last(), pinned) + if !is_pinned && c.body@.len() > 0 && trim(
            text,
        ).len() > 0 {
            seq![text]
        } else {
            Seq::<Seq<char>>::empty()
        }
    }
}

pub fn reviewer_comments(comments: &[ReviewComment], pinned: Option<&str>) -> (r: Vec<String>)
    ensures
        strings_view(r@) == reviewer_comments_of(comments@, match pinned {
            Some(p) => Some(p@),
            None => None,
        }),
{
    let ghost pv = match pinned {
        Some(p) => Some(p@),
        None => None::<Seq<char>>,
    };
    let mut out: Vec<String> = Vec::new();
    let mut i: usize = 0;
    assert(comments@.take(0) =~= Seq::<ReviewComment>::empty());
    while i < comments.len()
        invariant
            i <= comments@.len(),
            pv == match pinned {
                Some(p) => Some(p@),
                None => None::<Seq<char>>,
            },
            strings_view(out@) == reviewer_comments_of(comments@.take(i as int), pv),
        decreases comments@.len() - i,
    {
        let c = &comments[i];
        assert(comments@.take(i + 1).drop_last() =~= comments@.take(i as int));
        assert(comments@.take(i + 1).last() == *c);
        let is_pinned = match (pinned, &c.id) {
            (Some(p), Some(id)) => crate::text::str_eq(id.as_str(), p),
            _ => false,
        };
        let body_len = chars_of(c.body.as_str()).len();
        if !is_pinned && body_len > 0 {
            let text = strip_html_tags(c.body.as_str());
            if trim_vec(&chars_of(text.as_str())).len() > 0 {
                let ghost before = out@;
                out.push(text);
                assert(strings_view(out@) =~= strings_view(before).push(text@));
            }
        }
        i += 1;
    }
    assert(comments@.take(comments@.len() as int) =~= comments@);
    out
}

/// The action on a page: its labels', else its reactions', else a capture when
/// readers commented, else none.
pub open spec fn decided(label: Option<FeedbackAction>, reaction: Option<FeedbackAction>, has_comments: bool) -> FeedbackAction {
    match label {
        Some(a) => a,
        None => match reaction {
            Some(a) => a,
            None => if has_comments {
                FeedbackAction::Capture
            } else {
                FeedbackAction::NoSignal
            },
        },
    }
}

pub fn decide_action(label: Option<FeedbackAction>, reaction: Option<FeedbackAction>, has_comments: bool) -> (r: FeedbackAction)
    ensures
        r == decided(label, reaction, has_comments),
{
    match label {
        Some(a) => a,
        None => match reaction {
            Some(a) => a,
            None => if has_comments {
                FeedbackAction::Capture
            } else {
                FeedbackAction::NoSignal
            },
        },
    }
}

// ─── What the outcome writes ────────────────────────────────────────────────

/// A review page's text with its status set to `lane` (the first `status: review`
/// replaced).
pub fn with_status(raw: &str, lane: &str) -> (r: String)
    ensures
        r@ == replace_first(raw@, "status: review"@, "status: "@ + lane@),
{
    proof {
        reveal_strlit("status: review");
    }
    let mut to = chars_of("status: ");
    extend_str(&mut to, lane);
    let to_s = string_of(&to);
    replace_first_exec(raw, "status: review", to_s.as_str())
}

/// Where an approved page goes under `staged/`: its category path, or
/// `uncategorised`.
pub fn category_path(category: &[String]) -> (r: String)
    ensures
        r@ == if category@.len() == 0 {
            "uncategorised"@
        } else {
            join(strings_view(category@), "/"@)
        },
{
    if category.len() == 0 {
        String::from_str("uncategorised")
    } else {
        let j = crate::curio_docs::join_strings(category, "/");
        assert(crate::curio_docs::strings(category@) =~= strings_view(category@));
        string_of(&j)
    }
}

pub open spec fn comment_lines(cs: Seq<Seq<char>>) -> Seq<char>
    decreases cs.len(),
{
    if cs.len() == 0 {
        seq![]
    } else {
        comment_lines(cs.drop_last()) + "- "@ + trim(cs.last()) + "\n"@
    }
}

/// The feedback file after the readers' comments are added: the existing text (or a
/// header), a dated heading, and each comment, trimmed, as a list item.
pub open spec fn feedback_text_of(existing: Option<Seq<char>>, timestamp: Seq<char>, cs: Seq<Seq<char>>) -> Seq<char> {
    (match existing {
        Some(t) => t,
        None => "# Review Feedback\n\n"@,
    }) + "\n## Comments ("@ + timestamp + ")\n\n"@ + comment_lines(cs)
}

pub fn feedback_text(existing: Option<&str>, timestamp: &str, comments: &[String]) -> (r: String)
    ensures
        r@ == feedback_text_of(match existing {
            Some(t) => Some(t@),
            None => None,
        }, timestamp@, strings_view(comments@)),
{
    let mut out = match existing {
        Some(t) => chars_of(t),
        None => chars_of("# Review Feedback\n\n"),
    };
    extend_str(&mut out, "\n## Comments (");
    extend_str(&mut out, timestamp);
    extend_str(&mut out, ")\n\n");
    let ghost head = out@;
    let ghost cs = strings_view(comments@);
    let mut i: usize = 0;
    assert(cs.take(0) =~= Seq::<Seq<char>>::empty());
    while i < comments.len()
        invariant
            i <= comments@.len(),
            cs == strings_view(comments@),
            out@ == head + comment_lines(cs.take(i as int)),
        decreases comments@.len() - i,
    {
        assert(cs.take(i + 1).drop_last() =~= cs.take(i as int));
        assert(cs.take(i + 1).last() == comments@[i as int]@);
        extend_str(&mut out, "- ");
        extend_chars(&mut out, &trim_vec(&chars_of(comments[i].as_str())));
        extend_str(&mut out, "\n");
        assert(out@ =~= head + comment_lines(cs.take(i + 1)));
        i += 1;
    }
    assert(cs.take(cs.len() as int) =~= cs);
    string_of(&out)
}

pub open spec fn line_block(ls: Seq<Seq<char>>) -> Seq<char>
    decreases ls.len(),
{
    if ls.len() == 0 {
        seq![]
    } else {
        line_block(ls.drop_last()) + ls.last() + "\n"@
    }
}

/// The audit log after lines are added: the existing text (or a header), then each
/// line.
pub fn audit_log_text(existing: Option<&str>, lines: &[String]) -> (r: String)
    ensures
        r@ == (match existing {
            Some(t) => t@,
            None => "# Curio Audit Log\n\n"@,
        }) + line_block(strings_view(lines@)),
{
    let mut out = match existing {
        Some(t) => chars_of(t),
        None => chars_of("# Curio Audit Log\n\n"),
    };
    let ghost head = out@;
    let ghost ls = strings_view(lines@);
    let mut i: usize = 0;
    assert(ls.take(0) =~= Seq::<Seq<char>>::empty());
    while i < lines.len()
        invariant
            i <= lines@.len(),
            ls == strings_view(lines@),
            out@ == head + line_block(ls.take(i as int)),
        decreases lines@.len() - i,
    {
        assert(ls.take(i + 1).drop_last() =~= ls.take(i as int));
        assert(ls.take(i + 1).last() == lines@[i as int]@);
        extend_str(&mut out, lines[i].as_str());
        extend_str(&mut out, "\n");
        assert(out@ =~= head + line_block(ls.take(i + 1)));
        i += 1;
    }
    assert(ls.take(ls.len() as int) =~= ls);
    string_of(&out)
}

} // verus!
