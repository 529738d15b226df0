//! `curio doctor`: the structural health report of the published knowledge base
//! and the infrastructure checks of a workspace.
use vstd::prelude::*;

use crate::config::Config;
use crate::harness::{parent_of, path_join, path_joined, spec_parent, strings_view};
use crate::order::{lex_le, text_le};
use crate::text::{
    chars_of, decimal, decimal_vec, extend_chars, extend_str, find, has_at, lines, replace_all,
    replace_vec, split_lines, split_ws, str_eq, string_of, words,
};

verus! {

// ─── Findings ───────────────────────────────────────────────────────────────

#[derive(Clone, Copy, Debug, PartialEq, Eq)]
pub enum FindingKind {
    LowQuality,
    HighOverlap,
    Stale,
    OrphanedXref,
    ThinBranch,
    MissingKeywords,
}

#[derive(Clone, Copy, Debug, PartialEq, Eq)]
pub enum Severity {
    Warn,
    Error,
}

/// The counts of a report's findings.
#[derive(Clone, Copy, Debug, PartialEq, Eq)]
pub struct DoctorSummary {
    pub errors: usize,
    pub warnings: usize,
    pub low_quality: usize,
    pub high_overlap: usize,
    pub stale: usize,
    pub orphaned_xrefs: usize,
    pub thin_branches: usize,
    pub missing_keywords: usize,
}

pub open spec fn count_severity(fs: Seq<(FindingKind, Severity)>, s: Severity) -> nat
    decreases fs.len(),
{
    if fs.len() == 0 {
        0
    } else {
        count_severity(fs.drop_last(), s) + if fs.last().1 == s {
            1nat
        } else {
            0nat
        }
    }
}

pub open spec fn count_kind(fs: Seq<(FindingKind, Severity)>, k: FindingKind) -> nat
    decreases fs.len(),
{
    if fs.len() == 0 {
        0
    } else {
        count_kind(fs.drop_last(), k) + if fs.last().0 == k {
            1nat
        } else {
            0nat
        }
    }
}

pub open spec fn summary_of(fs: Seq<(FindingKind, Severity)>) -> DoctorSummary {
    DoctorSummary {
        errors: count_severity(fs, Severity::Error) as usize,
        warnings: count_severity(fs, Severity::Warn) as usize,
        low_quality: count_kind(fs, FindingKind::LowQuality) as usize,
        high_overlap: count_kind(fs, FindingKind::HighOverlap) as usize,
        stale: count_kind(fs, FindingKind::Stale) as usize,
        orphaned_xrefs: count_kind(fs, FindingKind::OrphanedXref) as usize,
        thin_branches: count_kind(fs, FindingKind::ThinBranch) as usize,
        missing_keywords: count_kind(fs, FindingKind::MissingKeywords) as usize,
    }
}

proof fn lemma_counts_bounded(fs: Seq<(FindingKind, Severity)>)
    ensures
        count_severity(fs, Severity::Error) <= fs.len(),
        count_severity(fs, Severity::Warn) <= fs.len(),
        count_severity(fs, Severity::Error) + count_severity(fs, Severity::Warn) == fs.len(),
        forall|k: FindingKind| #[trigger] count_kind(fs, k) <= fs.len(),
    decreases fs.len(),
{
    if fs.len() > 0 {
        lemma_counts_bounded(fs.drop_last());
        assert forall|k: FindingKind| #[trigger] count_kind(fs, k) <= fs.len() by {
            assert(count_kind(fs.drop_last(), k) <= fs.drop_last().len());
        }
    }
}

/// The summary of a report's findings, each given by its kind and severity.
pub fn summarize(findings: &[(FindingKind, Severity)]) -> (s: DoctorSummary)
    ensures
        s == summary_of(findings@),
{
    let mut s = DoctorSummary {
        errors: 0,
        warnings: 0,
        low_quality: 0,
        high_overlap: 0,
        stale: 0,
        orphaned_xrefs: 0,
        thin_branches: 0,
        missing_keywords: 0,
    };
    let mut i: usize = 0;
    assert(findings@.take(0) =~= Seq::<(FindingKind, Severity)>::empty());
    while i < findings.len()
        invariant
            i <= findings@.len(),
            s == summary_of(findings@.take(i as int)),
        decreases findings@.len() - i,
    {
        let (k, sev) = findings[i];
        let ghost t = findings@.take(i + 1);
        assert(t.drop_last() =~= findings@.take(i as int));
        assert(t.last() == (k, sev));
        proof {
            lemma_counts_bounded(t);
            lemma_counts_bounded(findings@.take(i as int));
        }
        match sev {
            Severity::Error => s.errors = s.errors + 1,
            Severity::Warn => s.warnings = s.warnings + 1,
        }
        match k {
            FindingKind::LowQuality => s.low_quality = s.low_quality + 1,
            FindingKind::HighOverlap => s.high_overlap = s.high_overlap + 1,
            FindingKind::Stale => s.stale = s.stale + 1,
            FindingKind::OrphanedXref => s.orphaned_xrefs = s.orphaned_xrefs + 1,
            FindingKind::ThinBranch => s.thin_branches = s.thin_branches + 1,
            FindingKind::MissingKeywords => s.missing_keywords = s.missing_keywords + 1,
        }
        i += 1;
    }
    assert(findings@.take(findings@.len() as int) =~= findings@);
    s
}

/// Every finding is an error or a warning: the summary's two counts add up to the
/// number of findings.
pub proof fn law_summary_partitions(findings: Seq<(FindingKind, Severity)>)
    ensures
        count_severity(findings, Severity::Error) + count_severity(findings, Severity::Warn)
            == findings.len(),
{
    lemma_counts_bounded(findings);
}

/// The cross references of a page that name no published page, in order.
pub open spec fn orphans(refs: Seq<Seq<char>>, slugs: Seq<Seq<char>>) -> Seq<Seq<char>>
    decreases refs.len(),
{
    if refs.len() == 0 {
        seq![]
    } else if slugs.contains(refs.last()) {
        orphans(refs.drop_last(), slugs)
    } else {
        orphans(refs.drop_last(), slugs).push(refs.last())
    }
}

fn contains_text(v: &[String], s: &str) -> (b: bool)
    ensures
        b == strings_view(v@).contains(s@),
{
    let mut i: usize = 0;
    while i < v.len()
        invariant
            i <= v@.len(),
            forall|j: int| 0 <= j < i ==> v@[j]@ != s@,
        decreases v@.len() - i,
    {
        if str_eq(v[i].as_str(), s) {
            assert(strings_view(v@)[i as int] == s@);
            return true;
        }
        i += 1;
    }
    assert forall|j: int| 0 <= j < strings_view(v@).len() implies strings_view(v@)[j] != s@ by {
        assert(strings_view(v@)[j] == v@[j]@);
    }
    false
}

pub fn orphaned_xrefs(cross_refs: &[String], all_slugs: &[String]) -> (r: Vec<String>)
    ensures
        strings_view(r@) == orphans(strings_view(cross_refs@), strings_view(all_slugs@)),
{
    let ghost refs = strings_view(cross_refs@);
    let mut out: Vec<String> = Vec::new();
    let mut i: usize = 0;
    assert(refs.take(0) =~= Seq::<Seq<char>>::empty());
    assert(strings_view(out@) =~= Seq::<Seq<char>>::empty());
    while i < cross_refs.len()
        invariant
            i <= cross_refs@.len(),
            refs == strings_view(cross_refs@),
            strings_view(out@) == orphans(refs.take(i as int), strings_view(all_slugs@)),
        decreases cross_refs@.len() - i,
    {
        assert(refs.take(i + 1).drop_last() =~= refs.take(i as int));
        assert(refs.take(i + 1).last() == cross_refs@[i as int]@);
        if !contains_text(all_slugs, cross_refs[i].as_str()) {
            let ghost before = out@;
            let x = cross_refs[i].clone();
            out.push(x);
            assert(strings_view(out@) =~= strings_view(before).push(x@));
        }
        i += 1;
    }
    assert(refs.take(refs.len() as int) =~= refs);
    out
}

/// The detail of an orphaned cross reference.
pub fn orphan_detail(xref: &str) -> (r: String)
    ensures
        r@ == "broken cross_ref → "@ + xref@,
{
    let mut d = chars_of("broken cross_ref → ");
    extend_str(&mut d, xref);
    string_of(&d)
}

/// A branch is thin when its index has fewer words than the minimum; gives the word
/// count when it is.
pub fn thin_branch_words(body: &str, min_words: usize) -> (r: Option<usize>)
    ensures
        match r {
            Some(n) => n == words(body@).len() && n < min_words,
            None => words(body@).len() >= min_words,
        },
{
    let ws = split_ws(&chars_of(body));
    assert(crate::text::views(ws@).len() == ws@.len());
    if ws.len() < min_words {
        Some(ws.len())
    } else {
        None
    }
}

/// The detail of a thin branch.
pub fn thin_branch_detail(word_count: usize) -> (r: String)
    ensures
        r@ == "branch index has only "@ + decimal(word_count as nat) + " words"@,
{
    let mut d = chars_of("branch index has only ");
    extend_chars(&mut d, &decimal_vec(word_count as u64));
    extend_str(&mut d, " words");
    string_of(&d)
}

/// A branch's slug from its path under the published directory, with backslashes
/// made forward slashes.
pub fn branch_slug(relative: &str) -> (r: String)
    ensures
        r@ == replace_all(relative@, "\\"@, "/"@),
{
    proof {
        reveal_strlit("\\");
    }
    string_of(&replace_vec(&chars_of(relative), &chars_of("\\"), &chars_of("/")))
}

/// An overlapping pair is reported once, from the page whose slug comes first.
pub fn reports_overlap_pair(slug: &str, peer_slug: &str) -> (b: bool)
    ensures
        b == (lex_le(slug@, peer_slug@) && slug@ != peer_slug@),
{
    text_le(slug, peer_slug) && !str_eq(slug, peer_slug)
}

/// Of two pages overlapping each other, exactly one reports the pair: the one whose
/// slug comes first; a page never reports itself.
pub proof fn law_overlap_pair_reported_once(a: Seq<char>, b: Seq<char>)
    ensures
        a != b ==> ((lex_le(a, b) && a != b) != (lex_le(b, a) && b != a)),
        !(lex_le(a, a) && a != a),
{
    crate::order::lemma_lex_total(a, b);
    if lex_le(a, b) && lex_le(b, a) {
        crate::order::lemma_lex_antisym(a, b);
    }
}

pub open spec fn dash_safe(c: char) -> char {
    if crate::text::is_ascii_alnum(c) || c == '-' {
        c
    } else {
        '-'
    }
}

/// A slug made safe for a file name: every character other than an ASCII letter,
/// digit or `-` becomes `-`.
pub fn sanitize_segment(s: &str) -> (r: String)
    ensures
        r@ == s@.map_values(|c: char| dash_safe(c)),
{
    let v = chars_of(s);
    let mut out: Vec<char> = Vec::new();
    let mut i: usize = 0;
    while i < v.len()
        invariant
            i <= v.len(),
            v@ == s@,
            out@ == s@.map_values(|c: char| dash_safe(c)).take(i as int),
        decreases v.len() - i,
    {
        let c = v[i];
        out.push(if crate::text::ascii_alnum(c) || c == '-' { c } else { '-' });
        assert(out@ =~= s@.map_values(|c: char| dash_safe(c)).take(i + 1));
        i += 1;
    }
    assert(out@ =~= s@.map_values(|c: char| dash_safe(c)));
    string_of(&out)
}

/// The file of an overlap review: both slugs made safe, `--` between them.
pub fn overlap_review_file(slug: &str, peer: &str) -> (r: String)
    ensures
        r@ == slug@.map_values(|c: char| dash_safe(c)) + "--"@ + peer@.map_values(
            |c: char| dash_safe(c),
        ) + ".md"@,
{
    let mut d = chars_of(sanitize_segment(slug).as_str());
    extend_str(&mut d, "--");
    extend_str(&mut d, sanitize_segment(peer).as_str());
    extend_str(&mut d, ".md");
    string_of(&d)
}

// ─── Infrastructure checks ──────────────────────────────────────────────────

/// The outcome of one infrastructure check.
#[derive(Clone, Debug)]
pub struct InfraCheck {
    /// Stable, machine-friendly identifier (e.g. "kb.northstar").
    pub label: String,
    pub ok: bool,
    pub detail: String,
    /// A remediation hint.
    pub fix_hint: Option<String>,
}

pub open spec fn infra_view(c: InfraCheck) -> (Seq<char>, bool, Seq<char>, Option<Seq<char>>) {
    (c.label@, c.ok, c.detail@, match c.fix_hint {
        Some(h) => Some(h@),
        None => None,
    })
}

pub open spec fn infra_views(s: Seq<InfraCheck>) -> Seq<(Seq<char>, bool, Seq<char>, Option<Seq<char>>)> {
    s.map_values(|c: InfraCheck| infra_view(c))
}

// ─── Collecting findings ────────────────────────────────────────────────────

/// A peer page whose overlap with a page reached the threshold, with its detail.
#[derive(Clone, Debug)]
pub struct OverlapPeer {
    pub peer_slug: String,
    pub detail: String,
}

/// What the report looks at for one published page. The quality and freshness
/// findings come with their detail already written, when the page has them.
#[derive(Clone, Debug)]
pub struct PageFacts {
    pub slug: String,
    pub path: String,
    pub low_quality: Option<String>,
    pub stale: Option<String>,
    pub has_keywords: bool,
    pub cross_refs: Vec<String>,
    pub overlaps: Vec<OverlapPeer>,
}

/// A branch directory with an index, and its path relative to the published tree.
#[derive(Clone, Debug)]
pub struct BranchFacts {
    pub relative: String,
    pub index_path: String,
    pub index_body: String,
}

/// One finding of the report.
#[derive(Clone, Debug)]
pub struct Finding {
    pub kind: FindingKind,
    pub severity: Severity,
    pub slug: String,
    pub path: String,
    pub detail: String,
    pub overlap_peer: Option<String>,
}

pub type FindingView = (FindingKind, Severity, Seq<char>, Seq<char>, Seq<char>, Option<Seq<char>>);

pub open spec fn finding_view(f: Finding) -> FindingView {
    (f.kind, f.severity, f.slug@, f.path@, f.detail@, match f.overlap_peer {
        Some(p) => Some(p@),
        None => None,
    })
}

pub open spec fn findings_view(fs: Seq<Finding>) -> Seq<FindingView> {
    fs.map_values(|f: Finding| finding_view(f))
}

pub open spec fn xref_findings(p: PageFacts, xs: Seq<Seq<char>>) -> Seq<FindingView> {
    xs.map_values(
        |x: Seq<char>|
            (
                FindingKind::OrphanedXref,
                Severity::Error,
                p.slug@,
                p.path@,
                "broken cross_ref → "@ + x,
                None::<Seq<char>>,
            ),
    )
}

pub open spec fn overlap_findings(p: PageFacts, peers: Seq<OverlapPeer>) -> Seq<FindingView>
    decreases peers.len(),
{
    if peers.len() == 0 {
        seq![]
    } else {
        let m = peers.last();
        overlap_findings(p, peers.drop_last()) + if lex_le(p.slug@, m.peer_slug@) && p.slug@
            != m.peer_slug@ {
            seq![
                (
                    FindingKind::HighOverlap,
                    Severity::Warn,
                    p.slug@,
                    p.path@,
                    m.detail@,
                    Some(m.peer_slug@),
                ),
            ]
        } else {
            Seq::<FindingView>::empty()
        }
    }
}

/// The findings of one page, in order: low quality, stale, missing keywords, each
/// broken cross reference, then each overlapping peer reported from this side (the
/// page whose slug comes first reports the pair).
pub open spec fn page_findings(p: PageFacts, slugs: Seq<Seq<char>>) -> Seq<FindingView> {
    (match p.low_quality {
        Some(d) => seq![(FindingKind::LowQuality, Severity::Warn, p.slug@, p.path@, d@, None::<Seq<char>>)],
        None => Seq::<FindingView>::empty(),
    }) + (match p.stale {
        Some(d) => seq![(FindingKind::Stale, Severity::Warn, p.slug@, p.path@, d@, None::<Seq<char>>)],
        None => Seq::<FindingView>::empty(),
    }) + (if !p.has_keywords {
        seq![
            (
                FindingKind::MissingKeywords,
                Severity::Warn,
                p.slug@,
                p.path@,
                "no keywords set"@,
                None::<Seq<char>>,
            ),
        ]
    } else {
        Seq::<FindingView>::empty()
    }) + xref_findings(p, orphans(strings_view(p.cross_refs@), slugs)) + overlap_findings(
        p,
        p.overlaps@,
    )
}

pub open spec fn pages_findings(ps: Seq<PageFacts>, slugs: Seq<Seq<char>>) -> Seq<FindingView>
    decreases ps.len(),
{
    if ps.len() == 0 {
        seq![]
    } else {
        pages_findings(ps.drop_last(), slugs) + page_findings(ps.last(), slugs)
    }
}

pub open spec fn branch_findings(bs: Seq<BranchFacts>, min_words: nat) -> Seq<FindingView>
    decreases bs.len(),
{
    if bs.len() == 0 {
        seq![]
    } else {
        let b = bs.last();
        branch_findings(bs.drop_last(), min_words) + if words(b.index_body@).len() < min_words {
            seq![
                (
                    FindingKind::ThinBranch,
                    Severity::Warn,
                    replace_all(b.relative@, "\\"@, "/"@),
                    b.index_path@,
                    "branch index has only "@ + decimal(words(b.index_body@).len())
                        + " words"@,
                    None::<Seq<char>>,
                ),
            ]
        } else {
            Seq::<FindingView>::empty()
        }
    }
}

fn push_finding(out: &mut Vec<Finding>, f: Finding)
    ensures
        findings_view(final(out)@) == findings_view(old(out)@).push(finding_view(f)),
{
    let ghost before = out@;
    out.push(f);
    assert(findings_view(out@) =~= findings_view(before).push(finding_view(f)));
}

fn page_findings_exec(out: &mut Vec<Finding>, p: &PageFacts, all_slugs: &[String])
    ensures
        findings_view(final(out)@) == findings_view(old(out)@) + page_findings(
            *p,
            strings_view(all_slugs@),
        ),
{
    let ghost start = findings_view(out@);
    match &p.low_quality {
        Some(d) => push_finding(out, Finding {
            kind: FindingKind::LowQuality,
            severity: Severity::Warn,
            slug: p.slug.clone(),
            path: p.path.clone(),
            detail: d.clone(),
            overlap_peer: None,
        }),
        None => {},
    }
    match &p.stale {
        Some(d) => push_finding(out, Finding {
            kind: FindingKind::Stale,
            severity: Severity::Warn,
            slug: p.slug.clone(),
            path: p.path.clone(),
            detail: d.clone(),
            overlap_peer: None,
        }),
        None => {},
    }
    if !p.has_keywords {
        push_finding(out, Finding {
            kind: FindingKind::MissingKeywords,
            severity: Severity::Warn,
            slug: p.slug.clone(),
            path: p.path.clone(),
            detail: String::from_str("no keywords set"),
            overlap_peer: None,
        });
    }
    let ghost a = findings_view(out@);
    let orphan_refs = orphaned_xrefs(p.cross_refs.as_slice(), all_slugs);
    let ghost os = strings_view(orphan_refs@);
    let mut i: usize = 0;
    while i < orphan_refs.len()
        invariant
            i <= orphan_refs@.len(),
            os == strings_view(orphan_refs@),
            findings_view(out@) == a + xref_findings(*p, os.take(i as int)),
        decreases orphan_refs@.len() - i,
    {
        push_finding(out, Finding {
            kind: FindingKind::OrphanedXref,
            severity: Severity::Error,
            slug: p.slug.clone(),
            path: p.path.clone(),
            detail: orphan_detail(orphan_refs[i].as_str()),
            overlap_peer: None,
        });
        assert(xref_findings(*p, os.take(i + 1)) =~= xref_findings(*p, os.take(i as int)).push(
            xref_findings(*p, os)[i as int],
        ));
        assert(findings_view(out@) =~= a + xref_findings(*p, os.take(i + 1)));
        i += 1;
    }
    assert(os.take(os.len() as int) =~= os);
    let ghost b = findings_view(out@);
    let mut k: usize = 0;
    assert(p.overlaps@.take(0) =~= Seq::<OverlapPeer>::empty());
    while k < p.overlaps.len()
        invariant
            k <= p.overlaps@.len(),
            findings_view(out@) == b + overlap_findings(*p, p.overlaps@.take(k as int)),
        decreases p.overlaps@.len() - k,
    {
        let m = &p.overlaps[k];
        assert(p.overlaps@.take(k + 1).drop_last() =~= p.overlaps@.take(k as int));
        assert(p.overlaps@.take(k + 1).last() == *m);
        if reports_overlap_pair(p.slug.as_str(), m.peer_slug.as_str()) {
            push_finding(out, Finding {
                kind: FindingKind::HighOverlap,
                severity: Severity::Warn,
                slug: p.slug.clone(),
                path: p.path.clone(),
                detail: m.detail.clone(),
                overlap_peer: Some(m.peer_slug.clone()),
            });
        }
        assert(findings_view(out@) =~= b + overlap_findings(*p, p.overlaps@.take(k + 1)));
        k += 1;
    }
    assert(p.overlaps@.take(p.overlaps@.len() as int) =~= p.overlaps@);
    assert(findings_view(out@) =~= start + page_findings(*p, strings_view(all_slugs@)));
}

/// The findings of a report: each page's in turn, then each thin branch (one whose
/// index has fewer than `min_words` words).
pub fn collect_findings(pages: &[PageFacts], all_slugs: &[String], branches: &[BranchFacts], min_words: usize) -> (r: Vec<Finding>)
    ensures
        findings_view(r@) == pages_findings(pages@, strings_view(all_slugs@)) + branch_findings(
            branches@,
            min_words as nat,
        ),
{
    let mut out: Vec<Finding> = Vec::new();
    let mut i: usize = 0;
    assert(pages@.take(0) =~= Seq::<PageFacts>::empty());
    while i < pages.len()
        invariant
            i <= pages@.len(),
            findings_view(out@) == pages_findings(pages@.take(i as int), strings_view(all_slugs@)),
        decreases pages@.len() - i,
    {
        assert(pages@.take(i + 1).drop_last() =~= pages@.take(i as int));
        assert(pages@.take(i + 1).last() == pages@[i as int]);
        page_findings_exec(&mut out, &pages[i], all_slugs);
        i += 1;
    }
    assert(pages@.take(pages@.len() as int) =~= pages@);
    let ghost head = findings_view(out@);
    let mut j: usize = 0;
    assert(branches@.take(0) =~= Seq::<BranchFacts>::empty());
    while j < branches.len()
        invariant
            j <= branches@.len(),
            findings_view(out@) == head + branch_findings(branches@.take(j as int), min_words as nat),
        decreases branches@.len() - j,
    {
        let b = &branches[j];
        assert(branches@.take(j + 1).drop_last() =~= branches@.take(j as int));
        assert(branches@.take(j + 1).last() == *b);
        match thin_branch_words(b.index_body.as_str(), min_words) {
            Some(n) => push_finding(&mut out, Finding {
                kind: FindingKind::ThinBranch,
                severity: Severity::Warn,
                slug: branch_slug(b.relative.as_str()),
                path: b.index_path.clone(),
                detail: thin_branch_detail(n),
                overlap_peer: None,
            }),
            None => {},
        }
        assert(findings_view(out@) =~= head + branch_findings(branches@.take(j + 1), min_words as nat));
        j += 1;
    }
    assert(branches@.take(branches@.len() as int) =~= branches@);
    out
}

/// The kind and severity of each finding, for the summary.
pub fn finding_kinds(findings: &[Finding]) -> (r: Vec<(FindingKind, Severity)>)
    ensures
        r@ == findings@.map_values(|f: Finding| (f.kind, f.severity)),
{
    let mut r: Vec<(FindingKind, Severity)> = Vec::new();
    let mut i: usize = 0;
    while i < findings.len()
        invariant
            i <= findings@.len(),
            r@ == findings@.map_values(|f: Finding| (f.kind, f.severity)).take(i as int),
        decreases findings@.len() - i,
    {
        r.push((findings[i].kind, findings[i].severity));
        assert(r@ =~= findings@.map_values(|f: Finding| (f.kind, f.severity)).take(i + 1));
        i += 1;
    }
    assert(findings@.map_values(|f: Finding| (f.kind, f.severity)).take(findings@.len() as int)
        =~= findings@.map_values(|f: Finding| (f.kind, f.severity)));
    r
}

/// The workspace directory: the wiki directory when it holds a config file, else its
/// parent (or itself, without one).
pub open spec fn kb_dir_of(wiki: Seq<char>, wiki_has_config: bool) -> Seq<char> {
    if wiki_has_config {
        wiki
    } else {
        match spec_parent(wiki) {
            Some(p) => p,
            None => wiki,
        }
    }
}

/// The workspace directory (`wiki_has_config` says whether the wiki directory holds
/// `.curio.yaml` or `curio.yaml`).
pub fn choose_kb_dir(wiki_dir: &str, wiki_has_config: bool) -> (r: String)
    ensures
        r@ == kb_dir_of(wiki_dir@, wiki_has_config),
{
    if wiki_has_config {
        String::from_str(wiki_dir)
    } else {
        match parent_of(wiki_dir) {
            Some(p) => p,
            None => String::from_str(wiki_dir),
        }
    }
}

/// The outcome of the Confluence authentication probe.
#[derive(Clone, Debug)]
pub enum AuthOutcome {
    Authenticated { display: String, email: String },
    /// The API call failed with this message.
    ApiError(String),
    /// The client could not be built.
    ClientError(String),
}

/// What the infrastructure checks look at, gathered from the workspace.
#[derive(Debug)]
pub struct InfraFacts {
    /// Whether `.curio.yaml` and `curio.yaml` exist in the workspace directory.
    pub dot_config_exists: bool,
    pub config_exists: bool,
    /// Whether the first of them that exists parses as a configuration.
    pub config_parse: Result<(), String>,
    /// Whether `NORTHSTAR.md` exists in the wiki and in the workspace directory.
    pub wiki_northstar_exists: bool,
    pub kb_northstar_exists: bool,
    /// The size of the first of them that exists.
    pub northstar_bytes: u64,
    /// `git status --porcelain` in the workspace directory, or why it failed.
    pub git_status: Result<String, String>,
    /// The variable the Confluence token is read from, and whether it resolved.
    pub token_env: String,
    pub token: Result<(), String>,
    /// The authentication probe, when one was made.
    pub auth: Option<AuthOutcome>,
}

pub open spec fn config_check(kb: Seq<char>, f: InfraFacts) -> (Seq<char>, bool, Seq<char>, Option<Seq<char>>) {
    if f.dot_config_exists || f.config_exists {
        let path = if f.dot_config_exists {
            path_joined(kb, ".curio.yaml"@)
        } else {
            path_joined(kb, "curio.yaml"@)
        };
        match f.config_parse {
            Ok(_) => ("kb.config"@, true, path + " parses cleanly"@, None),
            Err(e) => (
                "kb.config"@,
                false,
                path + " failed to parse: "@ + e@,
                Some("Check YAML syntax. See curio init-kb output for the canonical template."@),
            ),
        }
    } else {
        (
            "kb.config"@,
            false,
            "no .curio.yaml found at "@ + kb,
            Some("Run `curio init-kb --path <dir>` to scaffold one, or copy curio.yaml from another KB."@),
        )
    }
}

pub open spec fn northstar_check(wiki: Seq<char>, kb: Seq<char>, f: InfraFacts) -> (Seq<char>, bool, Seq<char>, Option<Seq<char>>) {
    if f.wiki_northstar_exists || f.kb_northstar_exists {
        let path = if f.wiki_northstar_exists {
            path_joined(wiki, "NORTHSTAR.md"@)
        } else {
            path_joined(kb, "NORTHSTAR.md"@)
        };
        (
            "kb.northstar"@,
            f.northstar_bytes > 0,
            path + " ("@ + decimal(f.northstar_bytes as nat) + " bytes)"@,
            if f.northstar_bytes == 0 {
                Some("NORTHSTAR.md is empty — author the KB charter and routing rules."@)
            } else {
                None
            },
        )
    } else {
        (
            "kb.northstar"@,
            false,
            "NORTHSTAR.md not found in "@ + wiki + " or "@ + kb,
            Some("Author wiki/NORTHSTAR.md — it is required for routing decisions."@),
        )
    }
}

pub open spec fn git_check(kb: Seq<char>, f: InfraFacts) -> (Seq<char>, bool, Seq<char>, Option<Seq<char>>) {
    match f.git_status {
        Ok(out) => (
            "kb.git"@,
            true,
            if lines(out@).len() == 0 {
                "git working tree clean"@
            } else {
                "git working tree has "@ + decimal(lines(out@).len()) + " uncommitted change(s)"@
            },
            None,
        ),
        Err(e) => (
            "kb.git"@,
            false,
            "git status failed: "@ + e@,
            Some("Initialize the KB as a git repo: cd "@ + kb + " && git init -b main"@),
        ),
    }
}

pub open spec fn setting_check(label: Seq<char>, value: Seq<char>, empty_detail: Seq<char>, hint: Seq<char>) -> (
    Seq<char>,
    bool,
    Seq<char>,
    Option<Seq<char>>,
) {
    if value.len() > 0 {
        (label, true, value, None)
    } else {
        (label, false, empty_detail, Some(hint))
    }
}

pub open spec fn token_check(f: InfraFacts) -> (Seq<char>, bool, Seq<char>, Option<Seq<char>>) {
    match f.token {
        Ok(_) => ("kb.confluence.token"@, true, "token resolved from env var "@ + f.token_env@, None),
        Err(e) => (
            "kb.confluence.token"@,
            false,
            e@,
            Some(
                "Set the env var "@ + f.token_env@
                    + " to your Confluence API token (e.g. in deploy/local/.env)."@,
            ),
        ),
    }
}

pub open spec fn mentions_forbidden(msg: Seq<char>) -> bool {
    (exists|i: int| has_at(msg, "403"@, i)) || (exists|i: int| has_at(msg, "FORBIDDEN"@, i))
}

/// The authentication check: skipped without a URL, an email or a resolved token,
/// else the probe's outcome (none when no probe was made).
pub open spec fn auth_checks(url_set: bool, email_set: bool, f: InfraFacts) -> Seq<
    (Seq<char>, bool, Seq<char>, Option<Seq<char>>),
> {
    if !(url_set && email_set) || f.token is Err {
        seq![
            (
                "kb.confluence.auth"@,
                false,
                "skipped — url, email, or token not set"@,
                Some("Fix the prior kb.confluence.* checks first."@),
            ),
        ]
    } else {
        match f.auth {
            Some(AuthOutcome::Authenticated { display, email }) => seq![
                ("kb.confluence.auth"@, true, "authenticated as "@ + display@ + " ("@ + email@ + ")"@, None),
            ],
            Some(AuthOutcome::ApiError(msg)) => seq![
                (
                    "kb.confluence.auth"@,
                    false,
                    "auth probe failed: "@ + msg@,
                    Some(
                        if mentions_forbidden(msg@) {
                            "403 usually means the email/token mismatch or the account lacks Confluence access."@
                        } else {
                            "Verify CURIO_CONFLUENCE_URL, the email matches the token, and the token is current."@
                        },
                    ),
                ),
            ],
            Some(AuthOutcome::ClientError(msg)) => seq![
                ("kb.confluence.auth"@, false, "could not build Confluence client: "@ + msg@, None),
            ],
            None => seq![],
        }
    }
}

/// All infrastructure checks of a workspace, in order.
pub open spec fn infra_checks_of(config: Config, wiki: Seq<char>, kb: Seq<char>, f: InfraFacts) -> Seq<
    (Seq<char>, bool, Seq<char>, Option<Seq<char>>),
> {
    seq![
        config_check(kb, f),
        northstar_check(wiki, kb, f),
        git_check(kb, f),
        setting_check(
            "kb.confluence.url"@,
            config.connection.confluence_url@,
            "connection.confluence_url is empty"@,
            "Set connection.confluence_url in .curio.yaml (e.g. https://yourorg.atlassian.net/wiki)."@,
        ),
        setting_check(
            "kb.confluence.email"@,
            config.connection.confluence_email@,
            "connection.confluence_email is empty"@,
            "Set connection.confluence_email in .curio.yaml (the Atlassian account email matching the API token)."@,
        ),
        token_check(f),
        setting_check(
            "kb.confluence.space_key"@,
            config.content_model.space_key@,
            "content_model.space_key is empty"@,
            "Set content_model.space_key in .curio.yaml to your Confluence space key."@,
        ),
    ] + auth_checks(
        config.connection.confluence_url@.len() > 0,
        config.connection.confluence_email@.len() > 0,
        f,
    )
}

fn infra(label: &str, ok: bool, detail: Vec<char>, hint: Option<Vec<char>>) -> (c: InfraCheck)
    ensures
        infra_view(c) == (label@, ok, detail@, match hint {
            Some(h) => Some(h@),
            None => None,
        }),
{
    InfraCheck {
        label: String::from_str(label),
        ok,
        detail: string_of(&detail),
        fix_hint: match hint {
            Some(h) => Some(string_of(&h)),
            None => None,
        },
    }
}

fn push_infra(out: &mut Vec<InfraCheck>, c: InfraCheck)
    ensures
        infra_views(final(out)@) == infra_views(old(out)@).push(infra_view(c)),
{
    let ghost before = out@;
    out.push(c);
    assert(infra_views(out@) =~= infra_views(before).push(infra_view(c)));
}

fn joined_detail(a: &str, b: &str) -> (r: Vec<char>)
    ensures
        r@ == a@ + b@,
{
    let mut d = chars_of(a);
    extend_str(&mut d, b);
    d
}

fn config_check_exec(kb: &str, f: &InfraFacts) -> (c: InfraCheck)
    ensures
        infra_view(c) == config_check(kb@, *f),
{
    if f.dot_config_exists || f.config_exists {
        let path = if f.dot_config_exists {
            path_join(kb, ".curio.yaml")
        } else {
            path_join(kb, "curio.yaml")
        };
        match &f.config_parse {
            Ok(_) => infra("kb.config", true, joined_detail(path.as_str(), " parses cleanly"), None),
            Err(e) => {
                let mut d = joined_detail(path.as_str(), " failed to parse: ");
                extend_str(&mut d, e.as_str());
                infra(
                    "kb.config",
                    false,
                    d,
                    Some(chars_of("Check YAML syntax. See curio init-kb output for the canonical template.")),
                )
            },
        }
    } else {
        infra(
            "kb.config",
            false,
            joined_detail("no .curio.yaml found at ", kb),
            Some(chars_of("Run `curio init-kb --path <dir>` to scaffold one, or copy curio.yaml from another KB.")),
        )
    }
}

fn northstar_check_exec(wiki: &str, kb: &str, f: &InfraFacts) -> (c: InfraCheck)
    ensures
        infra_view(c) == northstar_check(wiki@, kb@, *f),
{
    if f.wiki_northstar_exists || f.kb_northstar_exists {
        let path = if f.wiki_northstar_exists {
            path_join(wiki, "NORTHSTAR.md")
        } else {
            path_join(kb, "NORTHSTAR.md")
        };
        let mut d = joined_detail(path.as_str(), " (");
        extend_chars(&mut d, &decimal_vec(f.northstar_bytes));
        extend_str(&mut d, " bytes)");
        let hint = if f.northstar_bytes == 0 {
            Some(chars_of("NORTHSTAR.md is empty — author the KB charter and routing rules."))
        } else {
            None
        };
        infra("kb.northstar", f.northstar_bytes > 0, d, hint)
    } else {
        let mut d = joined_detail("NORTHSTAR.md not found in ", wiki);
        extend_str(&mut d, " or ");
        extend_str(&mut d, kb);
        infra(
            "kb.northstar",
            false,
            d,
            Some(chars_of("Author wiki/NORTHSTAR.md — it is required for routing decisions.")),
        )
    }
}

fn git_check_exec(kb: &str, f: &InfraFacts) -> (c: InfraCheck)
    ensures
        infra_view(c) == git_check(kb@, *f),
{
    match &f.git_status {
        Ok(out) => {
            let ls = split_lines(&chars_of(out.as_str()));
            assert(crate::text::views(ls@).len() == ls@.len());
            let detail = if ls.len() == 0 {
                chars_of("git working tree clean")
            } else {
                let mut d = chars_of("git working tree has ");
                extend_chars(&mut d, &decimal_vec(ls.len() as u64));
                extend_str(&mut d, " uncommitted change(s)");
                d
            };
            infra("kb.git", true, detail, None)
        },
        Err(e) => {
            let mut h = joined_detail("Initialize the KB as a git repo: cd ", kb);
            extend_str(&mut h, " && git init -b main");
            infra("kb.git", false, joined_detail("git status failed: ", e.as_str()), Some(h))
        },
    }
}

fn setting_check_exec(label: &str, value: &str, empty_detail: &str, hint: &str) -> (c: InfraCheck)
    ensures
        infra_view(c) == setting_check(label@, value@, empty_detail@, hint@),
{
    if chars_of(value).len() > 0 {
        infra(label, true, chars_of(value), None)
    } else {
        infra(label, false, chars_of(empty_detail), Some(chars_of(hint)))
    }
}

fn token_check_exec(f: &InfraFacts) -> (c: InfraCheck)
    ensures
        infra_view(c) == token_check(*f),
{
    match &f.token {
        Ok(_) => infra(
            "kb.confluence.token",
            true,
            joined_detail("token resolved from env var ", f.token_env.as_str()),
            None,
        ),
        Err(e) => {
            let mut h = joined_detail("Set the env var ", f.token_env.as_str());
            extend_str(&mut h, " to your Confluence API token (e.g. in deploy/local/.env).");
            infra("kb.confluence.token", false, chars_of(e.as_str()), Some(h))
        },
    }
}

fn auth_checks_exec(out: &mut Vec<InfraCheck>, url_set: bool, email_set: bool, f: &InfraFacts)
    ensures
        infra_views(final(out)@) == infra_views(old(out)@) + auth_checks(url_set, email_set, *f),
{
    let ghost start = infra_views(out@);
    if !(url_set && email_set) || f.token.is_err() {
        push_infra(
            out,
            infra(
                "kb.confluence.auth",
                false,
                chars_of("skipped — url, email, or token not set"),
                Some(chars_of("Fix the prior kb.confluence.* checks first.")),
            ),
        );
    } else {
        match &f.auth {
            Some(AuthOutcome::Authenticated { display, email }) => {
                let mut d = joined_detail("authenticated as ", display.as_str());
                extend_str(&mut d, " (");
                extend_str(&mut d, email.as_str());
                extend_str(&mut d, ")");
                push_infra(out, infra("kb.confluence.auth", true, d, None));
            },
            Some(AuthOutcome::ApiError(msg)) => {
                proof {
                    reveal_strlit("403");
                    reveal_strlit("FORBIDDEN");
                }
                let forbidden = crate::text::str_contains(msg.as_str(), "403") || crate::text::str_contains(
                    msg.as_str(),
                    "FORBIDDEN",
                );
                let hint = if forbidden {
                    chars_of(
                        "403 usually means the email/token mismatch or the account lacks Confluence access.",
                    )
                } else {
                    chars_of(
                        "Verify CURIO_CONFLUENCE_URL, the email matches the token, and the token is current.",
                    )
                };
                push_infra(
                    out,
                    infra("kb.confluence.auth", false, joined_detail("auth probe failed: ", msg.as_str()), Some(hint)),
                );
            },
            Some(AuthOutcome::ClientError(msg)) => {
                push_infra(
                    out,
                    infra(
                        "kb.confluence.auth",
                        false,
                        joined_detail("could not build Confluence client: ", msg.as_str()),
                        None,
                    ),
                );
            },
            None => {},
        }
    }
    assert(infra_views(out@) =~= start + auth_checks(url_set, email_set, *f));
}

/// One check per probe, in a fixed order, none suppressed by an earlier failure:
/// the seven configuration checks always come first, and the authentication check
/// follows whenever a probe was made or could not be (no URL, email or token).
pub proof fn law_one_check_per_probe(config: Config, wiki: Seq<char>, kb: Seq<char>, f: InfraFacts)
    ensures
        infra_checks_of(config, wiki, kb, f).len() >= 7,
        infra_checks_of(config, wiki, kb, f)[0].0 == "kb.config"@,
        infra_checks_of(config, wiki, kb, f)[1].0 == "kb.northstar"@,
        infra_checks_of(config, wiki, kb, f)[2].0 == "kb.git"@,
        infra_checks_of(config, wiki, kb, f)[3].0 == "kb.confluence.url"@,
        infra_checks_of(config, wiki, kb, f)[4].0 == "kb.confluence.email"@,
        infra_checks_of(config, wiki, kb, f)[5].0 == "kb.confluence.token"@,
        infra_checks_of(config, wiki, kb, f)[6].0 == "kb.confluence.space_key"@,
        (f.auth is Some || f.token is Err || config.connection.confluence_url@.len() == 0
            || config.connection.confluence_email@.len() == 0) ==> infra_checks_of(
            config,
            wiki,
            kb,
            f,
        ).len() == 8 && infra_checks_of(config, wiki, kb, f)[7].0 == "kb.confluence.auth"@,
{
}

/// The infrastructure checks of a workspace: its config file, its NORTHSTAR, git, the
/// Confluence settings and token, and the authentication probe. `kb_dir` is the
/// workspace directory (see `choose_kb_dir`).
pub fn run_infra_checks(config: &Config, kb_dir: &str, facts: &InfraFacts) -> (r: Vec<InfraCheck>)
    ensures
        infra_views(r@) == infra_checks_of(*config, config.wiki.wiki_dir@, kb_dir@, *facts),
{
    let wiki = config.wiki.wiki_dir.as_str();
    let mut out: Vec<InfraCheck> = Vec::new();
    push_infra(&mut out, config_check_exec(kb_dir, facts));
    push_infra(&mut out, northstar_check_exec(wiki, kb_dir, facts));
    push_infra(&mut out, git_check_exec(kb_dir, facts));
    push_infra(
        &mut out,
        setting_check_exec(
            "kb.confluence.url",
            config.connection.confluence_url.as_str(),
            "connection.confluence_url is empty",
            "Set connection.confluence_url in .curio.yaml (e.g. https://yourorg.atlassian.net/wiki).",
        ),
    );
    push_infra(
        &mut out,
        setting_check_exec(
            "kb.confluence.email",
            config.connection.confluence_email.as_str(),
            "connection.confluence_email is empty",
            "Set connection.confluence_email in .curio.yaml (the Atlassian account email matching the API token).",
        ),
    );
    push_infra(&mut out, token_check_exec(facts));
    push_infra(
        &mut out,
        setting_check_exec(
            "kb.confluence.space_key",
            config.content_model.space_key.as_str(),
            "content_model.space_key is empty",
            "Set content_model.space_key in .curio.yaml to your Confluence space key.",
        ),
    );
    let ghost fixed = infra_views(out@);
    let url_set = chars_of(config.connection.confluence_url.as_str()).len() > 0;
    let email_set = chars_of(config.connection.confluence_email.as_str()).len() > 0;
    auth_checks_exec(&mut out, url_set, email_set, facts);
    assert(infra_views(out@) =~= infra_checks_of(*config, config.wiki.wiki_dir@, kb_dir@, *facts));
    out
}

} // verus!
