//! `curio heal --apply-file`: what each heal action does to the wiki, and the texts it
//! writes. Confidences arrive already written out, as the routes file gives them and
//! rounded to two places.
use vstd::prelude::*;

use crate::harness::strings_view;
use crate::heal_types::HealKind;
use crate::text::{
    chars_of, extend_chars, extend_str, find, first_match, join, replace_first,
    replace_first_exec, slice_vec, starts_with, string_of, vec_starts_with,
};

verus! {

/// The name a heal kind is logged and recorded under.
pub open spec fn kind_name(k: HealKind) -> Seq<char> {
    match k {
        HealKind::Rewrite => "Rewrite"@,
        HealKind::Merge => "Merge"@,
        HealKind::Archive => "Archive"@,
        HealKind::UpdateMetadata => "UpdateMetadata"@,
        HealKind::FixStructure => "FixStructure"@,
        HealKind::NoAction => "NoAction"@,
    }
}

pub fn heal_kind_name(k: HealKind) -> (r: &'static str)
    ensures
        r@ == kind_name(k),
{
    match k {
        HealKind::Rewrite => "Rewrite",
        HealKind::Merge => "Merge",
        HealKind::Archive => "Archive",
        HealKind::UpdateMetadata => "UpdateMetadata",
        HealKind::FixStructure => "FixStructure",
        HealKind::NoAction => "NoAction",
    }
}

/// Where a heal action goes.
#[derive(Clone, Copy, Debug, PartialEq, Eq, Structural)]
pub enum HealStep {
    /// Nothing to do.
    Skip,
    /// Applied at once, with a record under `review/auto-approved/`.
    AutoApprove,
    /// Written as a proposal under `review/`.
    ToReview,
}

pub open spec fn step_of(k: HealKind, meets_threshold: bool) -> HealStep {
    if k == HealKind::NoAction {
        HealStep::Skip
    } else if meets_threshold {
        HealStep::AutoApprove
    } else {
        HealStep::ToReview
    }
}

/// Where an action goes: a no-op is skipped, one whose confidence meets the threshold
/// is applied, any other goes to review.
pub fn heal_step(kind: HealKind, meets_threshold: bool) -> (r: HealStep)
    ensures
        r == step_of(kind, meets_threshold),
{
    if kind == HealKind::NoAction {
        HealStep::Skip
    } else if meets_threshold {
        HealStep::AutoApprove
    } else {
        HealStep::ToReview
    }
}

/// A page's text marked archived: its first `status: published`, then its first
/// `status: staged`, then its first `status: review` become `status: archived`.
pub open spec fn archived_text_of(raw: Seq<char>) -> Seq<char> {
    replace_first(
        replace_first(
            replace_first(raw, "status: published"@, "status: archived"@),
            "status: staged"@,
            "status: archived"@,
        ),
        "status: review"@,
        "status: archived"@,
    )
}

pub fn archived_text(raw: &str) -> (r: String)
    ensures
        r@ == archived_text_of(raw@),
{
    proof {
        reveal_strlit("status: published");
        reveal_strlit("status: staged");
        reveal_strlit("status: review");
    }
    let a = replace_first_exec(raw, "status: published", "status: archived");
    let b = replace_first_exec(a.as_str(), "status: staged", "status: archived");
    replace_first_exec(b.as_str(), "status: review", "status: archived")
}

/// The front-matter lines that mark a page healed.
pub open spec fn heal_note(timestamp: Seq<char>, confidence: Seq<char>) -> Seq<char> {
    "auto_healed_at: \""@ + timestamp + "\"\nauto_healed_confidence: "@ + confidence + "\n"@
}

/// A healed page's text: the note goes before the line that closes its front matter
/// (the first `\n---` after the opening `---`), or, without front matter, into a new
/// block before the text.
pub open spec fn with_heal_note(content: Seq<char>, timestamp: Seq<char>, confidence: Seq<char>) -> Seq<char> {
    let note = heal_note(timestamp, confidence);
    if starts_with(content, "---"@) && first_match(content.skip(3), "\n---"@) is Some {
        let close = 3 + first_match(content.skip(3), "\n---"@)->0;
        content.take(close) + "\n"@ + note + content.skip(close)
    } else {
        "---\n"@ + note + "\n---\n\n"@ + content
    }
}

pub fn inject_auto_heal_frontmatter(content: &str, timestamp: &str, confidence: &str) -> (r: String)
    ensures
        r@ == with_heal_note(content@, timestamp@, confidence@),
{
    proof {
        reveal_strlit("---");
        reveal_strlit("\n---");
    }
    let mut note = chars_of("auto_healed_at: \"");
    extend_str(&mut note, timestamp);
    extend_str(&mut note, "\"\nauto_healed_confidence: ");
    extend_str(&mut note, confidence);
    extend_str(&mut note, "\n");
    assert(note@ =~= heal_note(timestamp@, confidence@));
    let cv = chars_of(content);
    let dashes = chars_of("---");
    if vec_starts_with(&cv, &dashes) {
        let rest = slice_vec(&cv, 3, cv.len());
        let close_pat = chars_of("\n---");
        match find(&rest, &close_pat) {
            Some(pos) => {
                let close = 3 + pos;
                let mut out = slice_vec(&cv, 0, close);
                extend_str(&mut out, "\n");
                extend_chars(&mut out, &note);
                extend_chars(&mut out, &slice_vec(&cv, close, cv.len()));
                assert(rest@ =~= content@.skip(3));
                assert(out@ =~= with_heal_note(content@, timestamp@, confidence@));
                return string_of(&out);
            },
            None => {
                assert(rest@ =~= content@.skip(3));
            },
        }
    }
    let mut out = chars_of("---\n");
    extend_chars(&mut out, &note);
    extend_str(&mut out, "\n---\n\n");
    extend_str(&mut out, content);
    string_of(&out)
}

/// What applying an action at once does to the wiki.
#[derive(Clone, Debug)]
pub struct AutoApprovePlan {
    /// Move the page under `review/auto-approved/` with this text.
    pub archive_as: Option<String>,
    /// Write this text over the page.
    pub write: Option<String>,
    /// Remove the merge sources' pages and sidecars.
    pub remove_merge_sources: bool,
    /// Write the decision record.
    pub record: bool,
}

pub open spec fn plan_of(
    kind: HealKind,
    slug: Seq<char>,
    raw: Seq<char>,
    new_content: Option<Seq<char>>,
    timestamp: Seq<char>,
    confidence: Seq<char>,
) -> Result<(Option<Seq<char>>, Option<Seq<char>>, bool, bool), Seq<char>> {
    match kind {
        HealKind::Archive => Ok((Some(archived_text_of(raw)), None, false, false)),
        HealKind::Rewrite | HealKind::Merge => match new_content {
            Some(c) => Ok(
                (None, Some(with_heal_note(c, timestamp, confidence)), kind == HealKind::Merge, true),
            ),
            None => Err("Rewrite/Merge action for "@ + slug + " missing new_content"@),
        },
        HealKind::UpdateMetadata | HealKind::FixStructure => Ok((None, new_content, false, true)),
        HealKind::NoAction => Ok((None, None, false, false)),
    }
}

pub open spec fn plan_view(p: AutoApprovePlan) -> (Option<Seq<char>>, Option<Seq<char>>, bool, bool) {
    (
        match p.archive_as {
            Some(t) => Some(t@),
            None => None,
        },
        match p.write {
            Some(t) => Some(t@),
            None => None,
        },
        p.remove_merge_sources,
        p.record,
    )
}

/// What applying an action at once does: an archive moves the page, marked archived
/// (`raw` is its text); a rewrite or merge writes the new content, marked healed, and
/// a merge removes its sources; a metadata or structure fix writes the new content if
/// there is one. Each but the archive leaves a decision record. A rewrite or merge
/// without new content is an error.
pub fn auto_approve_plan(
    kind: HealKind,
    slug: &str,
    raw: &str,
    new_content: Option<&str>,
    timestamp: &str,
    confidence: &str,
) -> (r: Result<AutoApprovePlan, String>)
    ensures
        match r {
            Ok(p) => plan_of(
                kind,
                slug@,
                raw@,
                match new_content {
                    Some(c) => Some(c@),
                    None => None,
                },
                timestamp@,
                confidence@,
            ) == Ok::<_, Seq<char>>(plan_view(p)),
            Err(m) => plan_of(
                kind,
                slug@,
                raw@,
                match new_content {
                    Some(c) => Some(c@),
                    None => None,
                },
                timestamp@,
                confidence@,
            ) == Err::<(Option<Seq<char>>, Option<Seq<char>>, bool, bool), _>(m@),
        },
{
    match kind {
        HealKind::Archive => Ok(
            AutoApprovePlan {
                archive_as: Some(archived_text(raw)),
                write: None,
                remove_merge_sources: false,
                record: false,
            },
        ),
        HealKind::Rewrite | HealKind::Merge => match new_content {
            Some(c) => Ok(
                AutoApprovePlan {
                    archive_as: None,
                    write: Some(inject_auto_heal_frontmatter(c, timestamp, confidence)),
                    remove_merge_sources: kind == HealKind::Merge,
                    record: true,
                },
            ),
            None => {
                let mut m = chars_of("Rewrite/Merge action for ");
                extend_str(&mut m, slug);
                extend_str(&mut m, " missing new_content");
                Err(string_of(&m))
            },
        },
        HealKind::UpdateMetadata | HealKind::FixStructure => Ok(
            AutoApprovePlan {
                archive_as: None,
                write: match new_content {
                    Some(c) => Some(String::from_str(c)),
                    None => None,
                },
                remove_merge_sources: false,
                record: true,
            },
        ),
        HealKind::NoAction => Ok(
            AutoApprovePlan { archive_as: None, write: None, remove_merge_sources: false, record: false },
        ),
    }
}

/// The audit line of an applied or rerouted action.
pub open spec fn heal_log_line_of(
    applied: bool,
    timestamp: Seq<char>,
    kind: HealKind,
    slug: Seq<char>,
    confidence2: Seq<char>,
    rationale: Seq<char>,
) -> Seq<char> {
    "["@ + timestamp + (if applied {
        "] heal auto-approve "@
    } else {
        "] heal route-to-review "@
    }) + kind_name(kind) + " "@ + slug + " (conf "@ + confidence2 + ") — "@ + rationale
}

pub fn heal_log_line(
    applied: bool,
    timestamp: &str,
    kind: HealKind,
    slug: &str,
    confidence2: &str,
    rationale: &str,
) -> (r: String)
    ensures
        r@ == heal_log_line_of(applied, timestamp@, kind, slug@, confidence2@, rationale@),
{
    let mut m = chars_of("[");
    extend_str(&mut m, timestamp);
    if applied {
        extend_str(&mut m, "] heal auto-approve ");
    } else {
        extend_str(&mut m, "] heal route-to-review ");
    }
    extend_str(&mut m, heal_kind_name(kind));
    extend_str(&mut m, " ");
    extend_str(&mut m, slug);
    extend_str(&mut m, " (conf ");
    extend_str(&mut m, confidence2);
    extend_str(&mut m, ") — ");
    extend_str(&mut m, rationale);
    string_of(&m)
}

pub open spec fn bullets(ss: Seq<Seq<char>>) -> Seq<Seq<char>> {
    ss.map_values(|s: Seq<char>| "- "@ + s)
}

/// The readable companion of a decision record.
pub open spec fn record_md_of(
    slug: Seq<char>,
    timestamp: Seq<char>,
    confidence: Seq<char>,
    confidence2: Seq<char>,
    kind: HealKind,
    rationale: Seq<char>,
    sources: Seq<Seq<char>>,
) -> Seq<char> {
    "---\ntitle: \"Auto-Approved: "@ + slug + "\"\nstatus: auto-approved\nauto_healed_at: \""@
        + timestamp + "\"\nauto_healed_confidence: "@ + confidence + "\n---\n\n# Auto-Approved: "@
        + slug + "\n\n**Action:** "@ + kind_name(kind) + "  \n**Confidence:** "@ + confidence2
        + "  \n**Approved at:** "@ + timestamp + "  \n\n## Rationale\n\n"@ + rationale
        + "\n\n## Sources Consulted\n\n"@ + (if sources.len() == 0 {
        "_none_"@
    } else {
        join(bullets(sources), "\n"@)
    }) + "\n"@
}

pub fn auto_approve_record_md(
    slug: &str,
    timestamp: &str,
    confidence: &str,
    confidence2: &str,
    kind: HealKind,
    rationale: &str,
    sources: &[String],
) -> (r: String)
    ensures
        r@ == record_md_of(
            slug@,
            timestamp@,
            confidence@,
            confidence2@,
            kind,
            rationale@,
            strings_view(sources@),
        ),
{
    let mut m = chars_of("---\ntitle: \"Auto-Approved: ");
    extend_str(&mut m, slug);
    extend_str(&mut m, "\"\nstatus: auto-approved\nauto_healed_at: \"");
    extend_str(&mut m, timestamp);
    extend_str(&mut m, "\"\nauto_healed_confidence: ");
    extend_str(&mut m, confidence);
    extend_str(&mut m, "\n---\n\n# Auto-Approved: ");
    extend_str(&mut m, slug);
    extend_str(&mut m, "\n\n**Action:** ");
    extend_str(&mut m, heal_kind_name(kind));
    extend_str(&mut m, "  \n**Confidence:** ");
    extend_str(&mut m, confidence2);
    extend_str(&mut m, "  \n**Approved at:** ");
    extend_str(&mut m, timestamp);
    extend_str(&mut m, "  \n\n## Rationale\n\n");
    extend_str(&mut m, rationale);
    extend_str(&mut m, "\n\n## Sources Consulted\n\n");
    let ghost head = m@;
    let ghost ss = strings_view(sources@);
    if sources.len() == 0 {
        extend_str(&mut m, "_none_");
    } else {
        let mut parts: Vec<Vec<char>> = Vec::new();
        let mut i: usize = 0;
        while i < sources.len()
            invariant
                i <= sources@.len(),
                ss == strings_view(sources@),
                crate::text::views(parts@) == bullets(ss.take(i as int)),
            decreases sources@.len() - i,
        {
            let mut b = chars_of("- ");
            extend_str(&mut b, sources[i].as_str());
            let ghost before = parts@;
            parts.push(b);
            assert(ss[i as int] == sources@[i as int]@);
            assert(crate::text::views(parts@) =~= crate::text::views(before).push(b@));
            assert(bullets(ss.take(i + 1)) =~= bullets(ss.take(i as int)).push("- "@ + ss[i as int]));
            assert(crate::text::views(parts@) =~= bullets(ss.take(i + 1)));
            i += 1;
        }
        assert(ss.take(sources@.len() as int) =~= ss);
        let nl = chars_of("\n");
        extend_chars(&mut m, &crate::text::join_vec(&parts, &nl));
    }
    extend_str(&mut m, "\n");
    assert(m@ =~= record_md_of(
        slug@,
        timestamp@,
        confidence@,
        confidence2@,
        kind,
        rationale@,
        ss,
    ));
    string_of(&m)
}

// ─── Preparing the manifest ─────────────────────────────────────────────────

/// The scope a manifest names: the one asked for, else `(all)`.
pub fn scope_label(scope: Option<&str>) -> (r: String)
    ensures
        r@ == match scope {
            Some(s) => s@,
            None => "(all)"@,
        },
{
    match scope {
        Some(s) => String::from_str(s),
        None => String::from_str("(all)"),
    }
}

/// The command that applies the agent's routes file, scoped like the manifest.
pub fn apply_command(scope: Option<&str>) -> (r: String)
    ensures
        r@ == "curio heal --apply-file /tmp/heal-routes.json"@ + match scope {
            Some(s) => " --scope "@ + s@,
            None => Seq::<char>::empty(),
        },
{
    let mut m = chars_of("curio heal --apply-file /tmp/heal-routes.json");
    match scope {
        Some(s) => {
            extend_str(&mut m, " --scope ");
            extend_str(&mut m, s);
        },
        None => {},
    }
    string_of(&m)
}

/// The refusal of a scope whose directory does not exist.
pub fn missing_scope_error(scope_path: &str) -> (r: String)
    ensures
        r@ == "Scope path does not exist: "@ + scope_path@,
{
    let mut m = chars_of("Scope path does not exist: ");
    extend_str(&mut m, scope_path);
    string_of(&m)
}

/// Whether a file is a page the heal looks at: a markdown file other than a branch
/// index.
pub fn is_heal_page(file_name: &str) -> (b: bool)
    ensures
        b == (crate::text::ends_with(file_name@, ".md"@) && file_name@ != "index.md"@),
{
    crate::text::str_ends_with(file_name, ".md") && !crate::text::str_eq(file_name, "index.md")
}

/// The structural issue of a branch whose index has fewer than `min_words` words:
/// named by its path under `published/` with `/` separators.
pub open spec fn thin_branch_of(rel: Seq<char>, index_path: Seq<char>, words: nat, min_words: nat) -> Option<
    (Seq<char>, Seq<char>, Seq<char>, Seq<char>),
> {
    if words < min_words {
        Some(
            (
                "thin_branch"@,
                crate::text::replace_all(rel, "\\"@, "/"@),
                index_path,
                crate::text::decimal(words) + " words in branch index"@,
            ),
        )
    } else {
        None
    }
}

pub fn thin_branch_issue(rel: &str, index_path: &str, words: u64, min_words: u64) -> (r: Option<
    crate::heal_types::StructuralIssue,
>)
    ensures
        match r {
            Some(i) => thin_branch_of(rel@, index_path@, words as nat, min_words as nat) == Some(
                (i.kind@, i.slug@, i.path@, i.detail@),
            ),
            None => thin_branch_of(rel@, index_path@, words as nat, min_words as nat) is None,
        },
{
    if words < min_words {
        proof {
            reveal_strlit("\\");
        }
        let slug = crate::text::replace_str(rel, "\\", "/");
        let mut d = crate::text::decimal_vec(words);
        extend_str(&mut d, " words in branch index");
        Some(
            crate::heal_types::StructuralIssue {
                kind: String::from_str("thin_branch"),
                slug: string_of(&slug),
                path: String::from_str(index_path),
                detail: string_of(&d),
            },
        )
    } else {
        None
    }
}

} // verus!
