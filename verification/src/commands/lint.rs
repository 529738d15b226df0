//! `curio lint`: the registry's pages checked for missing files, cross references
//! to pages that do not exist, published pages without keywords, and published
//! pages routed with low confidence.
use vstd::prelude::*;

use crate::harness::strings_view;
use crate::text::{
    chars_of, contains_char, decimal, decimal_vec, extend_chars, extend_str, str_eq, string_of,
};

verus! {

/// A registry entry as the lint sees it.
#[derive(Clone, Debug)]
pub struct LintEntry {
    pub path: String,
    pub status: String,
    pub keywords: Vec<String>,
    /// Its routing confidence is recorded and below one half.
    pub low_confidence: bool,
    /// Its file exists.
    pub exists: bool,
    /// The cross references of its front matter; `None` when the page could not be
    /// parsed.
    pub cross_refs: Option<Vec<String>>,
}

#[derive(Clone, Copy, Debug, PartialEq, Eq, Structural)]
pub enum LintKind {
    MissingFile,
    OrphanedCrossRef,
    MissingKeywords,
    LowConfidence,
}

/// A problem found: its kind, the page it is about, and the broken reference of an
/// orphaned cross reference.
#[derive(Clone, Debug)]
pub struct LintIssue {
    pub kind: LintKind,
    pub path: String,
    pub broken_ref: Option<String>,
}

pub open spec fn issue_view(i: LintIssue) -> (LintKind, Seq<char>, Option<Seq<char>>) {
    (
        i.kind,
        i.path@,
        match i.broken_ref {
            Some(r) => Some(r@),
            None => None,
        },
    )
}

pub open spec fn issues_view(is: Seq<LintIssue>) -> Seq<(LintKind, Seq<char>, Option<Seq<char>>)> {
    is.map_values(|i: LintIssue| issue_view(i))
}

/// The registry path a cross reference names: itself when it holds a `/`, else the
/// page of that name under `published/`.
pub open spec fn xref_path(x: Seq<char>) -> Seq<char> {
    if x.contains('/') {
        x
    } else {
        "published/"@ + x
    }
}

pub open spec fn entry_paths(es: Seq<LintEntry>) -> Seq<Seq<char>> {
    es.map_values(|e: LintEntry| e.path@)
}

pub open spec fn orphans(src: Seq<char>, xs: Seq<Seq<char>>, all: Seq<Seq<char>>) -> Seq<(LintKind, Seq<char>, Option<Seq<char>>)>
    decreases xs.len(),
{
    if xs.len() == 0 {
        seq![]
    } else {
        orphans(src, xs.drop_last(), all) + if all.contains(xref_path(xs.last())) {
            Seq::<(LintKind, Seq<char>, Option<Seq<char>>)>::empty()
        } else {
            seq![(LintKind::OrphanedCrossRef, src, Some(xs.last()))]
        }
    }
}

pub open spec fn file_issues(e: LintEntry, all: Seq<Seq<char>>) -> Seq<(LintKind, Seq<char>, Option<Seq<char>>)> {
    if !e.exists {
        seq![(LintKind::MissingFile, e.path@, None)]
    } else {
        match e.cross_refs {
            Some(xs) => orphans(e.path@, strings_view(xs@), all),
            None => seq![],
        }
    }
}

pub open spec fn file_checks(es: Seq<LintEntry>, all: Seq<Seq<char>>) -> Seq<(LintKind, Seq<char>, Option<Seq<char>>)>
    decreases es.len(),
{
    if es.len() == 0 {
        seq![]
    } else {
        file_checks(es.drop_last(), all) + file_issues(es.last(), all)
    }
}

pub open spec fn flagged(e: LintEntry, kind: LintKind) -> bool {
    e.status@ == "published"@ && if kind == LintKind::MissingKeywords {
        e.keywords@.len() == 0
    } else {
        e.low_confidence
    }
}

pub open spec fn flag_checks(es: Seq<LintEntry>, kind: LintKind) -> Seq<(LintKind, Seq<char>, Option<Seq<char>>)>
    decreases es.len(),
{
    if es.len() == 0 {
        seq![]
    } else {
        flag_checks(es.drop_last(), kind) + if flagged(es.last(), kind) {
            seq![(kind, es.last().path@, None::<Seq<char>>)]
        } else {
            Seq::<(LintKind, Seq<char>, Option<Seq<char>>)>::empty()
        }
    }
}

/// What the lint reports, in order: missing files and orphaned cross references page
/// by page, then published pages without keywords, then published pages with low
/// confidence.
pub open spec fn lint_issues_of(es: Seq<LintEntry>) -> Seq<(LintKind, Seq<char>, Option<Seq<char>>)> {
    file_checks(es, entry_paths(es)) + flag_checks(es, LintKind::MissingKeywords) + flag_checks(
        es,
        LintKind::LowConfidence,
    )
}

fn has_path(entries: &[LintEntry], p: &Vec<char>) -> (b: bool)
    ensures
        b == entry_paths(entries@).contains(p@),
{
    let mut i: usize = 0;
    while i < entries.len()
        invariant
            i <= entries@.len(),
            forall|k: int| 0 <= k < i ==> entries@[k].path@ != p@,
        decreases entries@.len() - i,
    {
        if crate::text::seq_eq(&chars_of(entries[i].path.as_str()), p) {
            assert(entry_paths(entries@)[i as int] == p@);
            return true;
        }
        i += 1;
    }
    assert forall|k: int| 0 <= k < entry_paths(entries@).len() implies entry_paths(entries@)[k]
        != p@ by {
        assert(entry_paths(entries@)[k] == entries@[k].path@);
    }
    false
}

fn push_issue(out: &mut Vec<LintIssue>, kind: LintKind, path: &str, broken: Option<&str>)
    ensures
        issues_view(final(out)@) == issues_view(old(out)@).push(
            (
                kind,
                path@,
                match broken {
                    Some(b) => Some(b@),
                    None => None,
                },
            ),
        ),
{
    let ghost before = out@;
    out.push(
        LintIssue {
            kind,
            path: String::from_str(path),
            broken_ref: match broken {
                Some(b) => Some(String::from_str(b)),
                None => None,
            },
        },
    );
    assert(issues_view(out@) =~= issues_view(before).push(
        (
            kind,
            path@,
            match broken {
                Some(b) => Some(b@),
                None => None,
            },
        ),
    ));
}

fn push_orphans(out: &mut Vec<LintIssue>, entries: &[LintEntry], src: &str, xs: &Vec<String>)
    ensures
        issues_view(final(out)@) == issues_view(old(out)@) + orphans(
            src@,
            strings_view(xs@),
            entry_paths(entries@),
        ),
{
    let ghost start = issues_view(out@);
    let ghost xv = strings_view(xs@);
    let ghost all = entry_paths(entries@);
    let mut i: usize = 0;
    assert(xv.take(0) =~= Seq::<Seq<char>>::empty());
    while i < xs.len()
        invariant
            i <= xs@.len(),
            xv == strings_view(xs@),
            all == entry_paths(entries@),
            issues_view(out@) == start + orphans(src@, xv.take(i as int), all),
        decreases xs@.len() - i,
    {
        assert(xv.take(i + 1).drop_last() =~= xv.take(i as int));
        assert(xv.take(i + 1).last() == xs@[i as int]@);
        let x = chars_of(xs[i].as_str());
        let target = if contains_char(&x, '/') {
            chars_of(xs[i].as_str())
        } else {
            let mut t = chars_of("published/");
            extend_chars(&mut t, &x);
            t
        };
        assert(target@ == xref_path(xv[i as int]));
        if !has_path(entries, &target) {
            push_issue(out, LintKind::OrphanedCrossRef, src, Some(xs[i].as_str()));
        }
        assert(issues_view(out@) =~= start + orphans(src@, xv.take(i + 1), all));
        i += 1;
    }
    assert(xv.take(xs@.len() as int) =~= xv);
}

fn push_flags(out: &mut Vec<LintIssue>, entries: &[LintEntry], kind: LintKind)
    ensures
        issues_view(final(out)@) == issues_view(old(out)@) + flag_checks(entries@, kind),
{
    let ghost start = issues_view(out@);
    let mut i: usize = 0;
    assert(entries@.take(0) =~= Seq::<LintEntry>::empty());
    while i < entries.len()
        invariant
            i <= entries@.len(),
            issues_view(out@) == start + flag_checks(entries@.take(i as int), kind),
        decreases entries@.len() - i,
    {
        let e = &entries[i];
        assert(entries@.take(i + 1).drop_last() =~= entries@.take(i as int));
        assert(entries@.take(i + 1).last() == *e);
        let hit = str_eq(e.status.as_str(), "published") && match kind {
            LintKind::MissingKeywords => e.keywords.len() == 0,
            _ => e.low_confidence,
        };
        if hit {
            push_issue(out, kind, e.path.as_str(), None);
        }
        assert(issues_view(out@) =~= start + flag_checks(entries@.take(i + 1), kind));
        i += 1;
    }
    assert(entries@.take(entries@.len() as int) =~= entries@);
}

/// The problems the lint finds in the registry's entries.
pub fn lint_issues(entries: &[LintEntry]) -> (r: Vec<LintIssue>)
    ensures
        issues_view(r@) == lint_issues_of(entries@),
{
    let ghost all = entry_paths(entries@);
    let mut out: Vec<LintIssue> = Vec::new();
    let mut i: usize = 0;
    assert(entries@.take(0) =~= Seq::<LintEntry>::empty());
    assert(issues_view(out@) =~= file_checks(entries@.take(0), all));
    while i < entries.len()
        invariant
            i <= entries@.len(),
            all == entry_paths(entries@),
            issues_view(out@) == file_checks(entries@.take(i as int), all),
        decreases entries@.len() - i,
    {
        let e = &entries[i];
        assert(entries@.take(i + 1).drop_last() =~= entries@.take(i as int));
        assert(entries@.take(i + 1).last() == *e);
        let ghost before = issues_view(out@);
        if !e.exists {
            push_issue(&mut out, LintKind::MissingFile, e.path.as_str(), None);
        } else {
            match &e.cross_refs {
                Some(xs) => push_orphans(&mut out, entries, e.path.as_str(), xs),
                None => {},
            }
        }
        assert(issues_view(out@) =~= before + file_issues(*e, all));
        i += 1;
    }
    assert(entries@.take(entries@.len() as int) =~= entries@);
    push_flags(&mut out, entries, LintKind::MissingKeywords);
    push_flags(&mut out, entries, LintKind::LowConfidence);
    assert(issues_view(out@) =~= lint_issues_of(entries@));
    out
}

/// A page's cross references with a broken one removed.
pub fn without_ref(cross_refs: &[String], broken: &str) -> (r: Vec<String>)
    ensures
        strings_view(r@) == strings_view(cross_refs@).filter(|x: Seq<char>| x != broken@),
{
    let ghost xs = strings_view(cross_refs@);
    let mut out: Vec<String> = Vec::new();
    let mut i: usize = 0;
    assert(xs.take(0).filter(|x: Seq<char>| x != broken@) =~= Seq::<Seq<char>>::empty());
    while i < cross_refs.len()
        invariant
            i <= cross_refs@.len(),
            xs == strings_view(cross_refs@),
            strings_view(out@) == xs.take(i as int).filter(|x: Seq<char>| x != broken@),
        decreases cross_refs@.len() - i,
    {
        proof {
            assert(xs.take(i + 1).drop_last() =~= xs.take(i as int));
            xs.take(i as int).lemma_filter_push(xs[i as int], |x: Seq<char>| x != broken@);
            assert(xs.take(i as int).push(xs[i as int]) =~= xs.take(i + 1));
        }
        if !str_eq(cross_refs[i].as_str(), broken) {
            let ghost before = out@;
            let x = String::from_str(cross_refs[i].as_str());
            out.push(x);
            assert(strings_view(out@) =~= strings_view(before).push(xs[i as int]));
        }
        i += 1;
    }
    assert(xs.take(cross_refs@.len() as int) =~= xs);
    out
}

pub open spec fn kind_name(k: LintKind) -> Seq<char> {
    match k {
        LintKind::MissingFile => "missing_file"@,
        LintKind::OrphanedCrossRef => "orphaned_cross_ref"@,
        LintKind::MissingKeywords => "missing_keywords"@,
        LintKind::LowConfidence => "low_confidence"@,
    }
}

pub open spec fn kind_detail(k: LintKind) -> Seq<char> {
    match k {
        LintKind::MissingFile => "Registry entry exists but file is missing"@,
        LintKind::OrphanedCrossRef => "Cross-reference points to a non-existent page"@,
        LintKind::MissingKeywords => "Published page has no keywords — harder to discover"@,
        LintKind::LowConfidence => "Published page has low routing confidence — may be miscategorised"@,
    }
}

/// The name an issue kind is reported under.
pub fn lint_kind_name(k: LintKind) -> (r: &'static str)
    ensures
        r@ == kind_name(k),
{
    match k {
        LintKind::MissingFile => "missing_file",
        LintKind::OrphanedCrossRef => "orphaned_cross_ref",
        LintKind::MissingKeywords => "missing_keywords",
        LintKind::LowConfidence => "low_confidence",
    }
}

/// What an issue kind means.
pub fn lint_kind_detail(k: LintKind) -> (r: &'static str)
    ensures
        r@ == kind_detail(k),
{
    match k {
        LintKind::MissingFile => "Registry entry exists but file is missing",
        LintKind::OrphanedCrossRef => "Cross-reference points to a non-existent page",
        LintKind::MissingKeywords => "Published page has no keywords — harder to discover",
        LintKind::LowConfidence => "Published page has low routing confidence — may be miscategorised",
    }
}

pub open spec fn spaces(n: nat) -> Seq<char> {
    Seq::new(n, |i: int| ' ')
}

/// A text centred in 20 columns (`{:^20}`): the odd space goes right.
pub open spec fn centered20(s: Seq<char>) -> Seq<char> {
    if s.len() >= 20 {
        s
    } else {
        spaces(((20 - s.len()) / 2) as nat) + s + spaces((20 - s.len() - (20 - s.len()) / 2) as nat)
    }
}

fn push_spaces(out: &mut Vec<char>, n: usize)
    ensures
        final(out)@ == old(out)@ + spaces(n as nat),
{
    let ghost start = out@;
    let mut i: usize = 0;
    while i < n
        invariant
            i <= n,
            out@ == start + spaces(i as nat),
        decreases n - i,
    {
        out.push(' ');
        assert(out@ =~= start + spaces((i + 1) as nat));
        i += 1;
    }
}

pub open spec fn issue_line(i: (LintKind, Seq<char>, Option<Seq<char>>)) -> Seq<char> {
    "  ["@ + centered20(kind_name(i.0)) + "] "@ + i.1 + " — "@ + kind_detail(i.0) + "\n"@
}

pub open spec fn issue_lines(is: Seq<(LintKind, Seq<char>, Option<Seq<char>>)>) -> Seq<char>
    decreases is.len(),
{
    if is.len() == 0 {
        seq![]
    } else {
        issue_lines(is.drop_last()) + issue_line(is.last())
    }
}

/// What `curio lint` prints.
pub open spec fn lint_report_of(
    is: Seq<(LintKind, Seq<char>, Option<Seq<char>>)>,
    total: nat,
    fix: bool,
    fixed: nat,
) -> Seq<char> {
    if is.len() == 0 {
        "No issues found ("@ + decimal(total) + " pages checked)\n"@
    } else {
        decimal(is.len()) + " issue(s) found across "@ + decimal(total) + " pages:"@ + (if fix {
            " "@ + decimal(fixed) + " fixed"@
        } else {
            Seq::<char>::empty()
        }) + "\n"@ + issue_lines(is)
    }
}

fn push_issue_line(m: &mut Vec<char>, issue: &LintIssue)
    ensures
        final(m)@ == old(m)@ + issue_line(issue_view(*issue)),
{
    let ghost start = m@;
    let k = issue.kind;
    let name = lint_kind_name(k);
    extend_str(m, "  [");
    let ghost a = m@;
    let len = chars_of(name).len();
    if len < 20 {
        let left: usize = (20 - len) / 2;
        push_spaces(m, left);
        extend_str(m, name);
        push_spaces(m, 20 - len - left);
    } else {
        extend_str(m, name);
    }
    assert(m@ =~= a + centered20(kind_name(k)));
    extend_str(m, "] ");
    extend_str(m, issue.path.as_str());
    extend_str(m, " — ");
    extend_str(m, lint_kind_detail(k));
    extend_str(m, "\n");
    assert(m@ =~= start + issue_line(issue_view(*issue)));
}

pub fn lint_report(issues: &[LintIssue], total_pages: u64, fix: bool, fixed: u64) -> (r: String)
    ensures
        r@ == lint_report_of(issues_view(issues@), total_pages as nat, fix, fixed as nat),
{
    let ghost iv = issues_view(issues@);
    if issues.len() == 0 {
        let mut m = chars_of("No issues found (");
        extend_chars(&mut m, &decimal_vec(total_pages));
        extend_str(&mut m, " pages checked)\n");
        return string_of(&m);
    }
    let mut m = decimal_vec(issues.len() as u64);
    extend_str(&mut m, " issue(s) found across ");
    extend_chars(&mut m, &decimal_vec(total_pages));
    extend_str(&mut m, " pages:");
    if fix {
        extend_str(&mut m, " ");
        extend_chars(&mut m, &decimal_vec(fixed));
        extend_str(&mut m, " fixed");
    }
    extend_str(&mut m, "\n");
    let ghost head = m@;
    let mut i: usize = 0;
    assert(iv.take(0) =~= Seq::<(LintKind, Seq<char>, Option<Seq<char>>)>::empty());
    while i < issues.len()
        invariant
            i <= issues@.len(),
            iv == issues_view(issues@),
            m@ == head + issue_lines(iv.take(i as int)),
        decreases issues@.len() - i,
    {
        assert(iv.take(i + 1).drop_last() =~= iv.take(i as int));
        assert(iv.take(i + 1).last() == issue_view(issues@[i as int]));
        push_issue_line(&mut m, &issues[i]);
        assert(m@ =~= head + issue_lines(iv.take(i + 1)));
        i += 1;
    }
    assert(iv.take(issues@.len() as int) =~= iv);
    string_of(&m)
}

proof fn lemma_orphans_kind(src: Seq<char>, xs: Seq<Seq<char>>, all: Seq<Seq<char>>)
    ensures
        forall|k: int| 0 <= k < orphans(src, xs, all).len() ==> (#[trigger] orphans(src, xs, all)[k]).0
            == LintKind::OrphanedCrossRef,
    decreases xs.len(),
{
    if xs.len() > 0 {
        lemma_orphans_kind(src, xs.drop_last(), all);
    }
}

proof fn lemma_file_checks_kind(es: Seq<LintEntry>, all: Seq<Seq<char>>)
    ensures
        forall|k: int| 0 <= k < file_checks(es, all).len() ==> (#[trigger] file_checks(es, all)[k]).0
            == LintKind::MissingFile || file_checks(es, all)[k].0 == LintKind::OrphanedCrossRef,
    decreases es.len(),
{
    if es.len() > 0 {
        lemma_file_checks_kind(es.drop_last(), all);
        let e = es.last();
        if e.exists {
            match e.cross_refs {
                Some(xs) => lemma_orphans_kind(e.path@, strings_view(xs@), all),
                None => {},
            }
        }
        let a = file_checks(es.drop_last(), all);
        let b = file_issues(e, all);
        assert forall|k: int| 0 <= k < file_checks(es, all).len() implies (#[trigger] file_checks(
            es,
            all,
        )[k]).0 == LintKind::MissingFile || file_checks(es, all)[k].0 == LintKind::OrphanedCrossRef by {
            if k >= a.len() {
                assert(file_checks(es, all)[k] == b[k - a.len()]);
            } else {
                assert(file_checks(es, all)[k] == a[k]);
            }
        }
    }
}

proof fn lemma_flag_checks(es: Seq<LintEntry>, kind: LintKind)
    ensures
        forall|k: int|
            0 <= k < flag_checks(es, kind).len() ==> (#[trigger] flag_checks(es, kind)[k]).0 == kind
                && exists|j: int|
                0 <= j < es.len() && es[j].path@ == flag_checks(es, kind)[k].1 && es[j].status@
                    == "published"@ && (if kind == LintKind::MissingKeywords {
                    es[j].keywords@.len() == 0
                } else {
                    es[j].low_confidence
                }),
    decreases es.len(),
{
    if es.len() > 0 {
        let rest = es.drop_last();
        lemma_flag_checks(rest, kind);
        let a = flag_checks(rest, kind);
        assert forall|k: int| 0 <= k < flag_checks(es, kind).len() implies (#[trigger] flag_checks(
            es,
            kind,
        )[k]).0 == kind && exists|j: int|
            0 <= j < es.len() && es[j].path@ == flag_checks(es, kind)[k].1 && es[j].status@
                == "published"@ && (if kind == LintKind::MissingKeywords {
                es[j].keywords@.len() == 0
            } else {
                es[j].low_confidence
            }) by {
            if k < a.len() {
                assert(flag_checks(es, kind)[k] == a[k]);
                let j = choose|j: int|
                    0 <= j < rest.len() && rest[j].path@ == a[k].1 && rest[j].status@ == "published"@
                        && (if kind == LintKind::MissingKeywords {
                        rest[j].keywords@.len() == 0
                    } else {
                        rest[j].low_confidence
                    });
                assert(es[j] == rest[j]);
            } else {
                let j = es.len() - 1;
                assert(es[j] == es.last());
            }
        }
    }
}

/// The lint reports missing keywords and low confidence only of published pages: each
/// such issue names a page of the registry whose status is `published` and that
/// lacks keywords, or was routed with low confidence, as the issue says.
pub proof fn law_flags_only_published(es: Seq<LintEntry>, k: int)
    requires
        0 <= k < lint_issues_of(es).len(),
        lint_issues_of(es)[k].0 == LintKind::MissingKeywords || lint_issues_of(es)[k].0
            == LintKind::LowConfidence,
    ensures
        exists|j: int|
            0 <= j < es.len() && es[j].path@ == lint_issues_of(es)[k].1 && es[j].status@ == "published"@
                && (if lint_issues_of(es)[k].0 == LintKind::MissingKeywords {
                es[j].keywords@.len() == 0
            } else {
                es[j].low_confidence
            }),
{
    let f = file_checks(es, entry_paths(es));
    let m = flag_checks(es, LintKind::MissingKeywords);
    let l = flag_checks(es, LintKind::LowConfidence);
    lemma_file_checks_kind(es, entry_paths(es));
    lemma_flag_checks(es, LintKind::MissingKeywords);
    lemma_flag_checks(es, LintKind::LowConfidence);
    let all = lint_issues_of(es);
    assert(all == f + m + l);
    if k < f.len() {
        assert(all[k] == f[k]);
    } else if k < f.len() + m.len() {
        assert(all[k] == m[k - f.len()]);
    } else {
        assert(all[k] == l[k - f.len() - m.len()]);
    }
}
} // verus!
