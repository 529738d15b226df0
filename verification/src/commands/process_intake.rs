//! `curio process`: the hierarchy context of the routing manifest, kept under a byte
//! budget by dropping peer pages from the fullest branches; and, when the agent's
//! decisions come back, where each page lands, why, and what its body becomes.
use vstd::prelude::*;

use crate::adf::{json_array, json_str, push_json_str};
use crate::harness::strings_view;
use crate::text::{
    byte_len, char_width, char_width_of, chars_of, contains_seq, contains_vec, extend_chars,
    extend_str, join, lowercase, spec_lowercase, str_eq, string_of, trim, trim_end, trim_end_vec,
    trim_start, trim_start_vec, trim_str,
};

verus! {

/// A leaf page beside a branch, as the manifest shows it.
#[derive(Clone, Debug)]
pub struct PeerPageSnippet {
    pub path: String,
    pub title: String,
    pub summary: String,
    pub keywords: Vec<String>,
}

/// A branch of the published tree, with some of its leaf pages.
#[derive(Clone, Debug)]
pub struct HierarchyContextEntry {
    pub path: String,
    pub title: String,
    pub summary: String,
    pub peer_pages: Vec<PeerPageSnippet>,
}

pub type PeerView = (Seq<char>, Seq<char>, Seq<char>, Seq<Seq<char>>);

pub type EntryView = (Seq<char>, Seq<char>, Seq<char>, Seq<PeerView>);

pub open spec fn peer_view(p: PeerPageSnippet) -> PeerView {
    (p.path@, p.title@, p.summary@, p.keywords@.map_values(|k: String| k@))
}

pub open spec fn entry_view(e: HierarchyContextEntry) -> EntryView {
    (e.path@, e.title@, e.summary@, e.peer_pages@.map_values(|p: PeerPageSnippet| peer_view(p)))
}

pub open spec fn hierarchy_view(h: Seq<HierarchyContextEntry>) -> Seq<EntryView> {
    h.map_values(|e: HierarchyContextEntry| entry_view(e))
}

// ─── The manifest's JSON ────────────────────────────────────────────────────

/// A peer as JSON: its fields in order, keywords left out when there are none.
pub open spec fn peer_json(p: PeerView) -> Seq<char> {
    "{\"path\":"@ + json_str(p.0) + ",\"title\":"@ + json_str(p.1) + ",\"summary\":"@ + json_str(p.2)
        + (if p.3.len() > 0 {
        ",\"keywords\":"@ + json_array(p.3.map_values(|k: Seq<char>| json_str(k)))
    } else {
        seq![]
    }) + "}"@
}

/// A branch as JSON: its fields in order, peers left out when there are none.
pub open spec fn entry_json(e: EntryView) -> Seq<char> {
    "{\"path\":"@ + json_str(e.0) + ",\"title\":"@ + json_str(e.1) + ",\"summary\":"@ + json_str(e.2)
        + (if e.3.len() > 0 {
        ",\"peer_pages\":"@ + json_array(e.3.map_values(|p: PeerView| peer_json(p)))
    } else {
        seq![]
    }) + "}"@
}

/// The hierarchy context as JSON.
pub open spec fn hierarchy_json(h: Seq<EntryView>) -> Seq<char> {
    json_array(h.map_values(|e: EntryView| entry_json(e)))
}

fn push_json_strings(out: &mut Vec<char>, ks: &Vec<String>)
    ensures
        final(out)@ == old(out)@ + json_array(
            ks@.map_values(|k: String| k@).map_values(|k: Seq<char>| json_str(k)),
        ),
{
    let ghost items = ks@.map_values(|k: String| k@).map_values(|k: Seq<char>| json_str(k));
    let mut parts: Vec<Vec<char>> = Vec::new();
    let mut i: usize = 0;
    while i < ks.len()
        invariant
            i <= ks@.len(),
            items == ks@.map_values(|k: String| k@).map_values(|k: Seq<char>| json_str(k)),
            crate::text::views(parts@) == items.take(i as int),
        decreases ks@.len() - i,
    {
        let mut p: Vec<char> = Vec::new();
        push_json_str(&mut p, ks[i].as_str());
        let ghost before = parts@;
        parts.push(p);
        assert(crate::text::views(parts@) =~= crate::text::views(before).push(p@));
        assert(items.take(i + 1) =~= items.take(i as int).push(items[i as int]));
        i += 1;
    }
    assert(items.take(ks@.len() as int) =~= items);
    push_array(out, &parts);
}

fn push_array(out: &mut Vec<char>, parts: &Vec<Vec<char>>)
    ensures
        final(out)@ == old(out)@ + json_array(crate::text::views(parts@)),
{
    let ghost start = out@;
    out.push('[');
    let mut sep: Vec<char> = Vec::new();
    sep.push(',');
    assert(sep@ =~= seq![',']);
    let body = crate::text::join_vec(parts, &sep);
    extend_chars(out, &body);
    out.push(']');
    assert(out@ =~= start + json_array(crate::text::views(parts@)));
}

fn peer_json_exec(p: &PeerPageSnippet) -> (r: Vec<char>)
    ensures
        r@ == peer_json(peer_view(*p)),
{
    let mut out = chars_of("{\"path\":");
    push_json_str(&mut out, p.path.as_str());
    extend_str(&mut out, ",\"title\":");
    push_json_str(&mut out, p.title.as_str());
    extend_str(&mut out, ",\"summary\":");
    push_json_str(&mut out, p.summary.as_str());
    let ghost mid = out@;
    if p.keywords.len() > 0 {
        extend_str(&mut out, ",\"keywords\":");
        push_json_strings(&mut out, &p.keywords);
    }
    extend_str(&mut out, "}");
    assert(out@ =~= peer_json(peer_view(*p)));
    out
}

fn entry_json_exec(e: &HierarchyContextEntry) -> (r: Vec<char>)
    ensures
        r@ == entry_json(entry_view(*e)),
{
    let mut out = chars_of("{\"path\":");
    push_json_str(&mut out, e.path.as_str());
    extend_str(&mut out, ",\"title\":");
    push_json_str(&mut out, e.title.as_str());
    extend_str(&mut out, ",\"summary\":");
    push_json_str(&mut out, e.summary.as_str());
    if e.peer_pages.len() > 0 {
        extend_str(&mut out, ",\"peer_pages\":");
        let ghost items = e.peer_pages@.map_values(|p: PeerPageSnippet| peer_view(p)).map_values(
            |p: PeerView| peer_json(p),
        );
        let mut parts: Vec<Vec<char>> = Vec::new();
        let mut i: usize = 0;
        while i < e.peer_pages.len()
            invariant
                i <= e.peer_pages@.len(),
                items == e.peer_pages@.map_values(|p: PeerPageSnippet| peer_view(p)).map_values(
                    |p: PeerView| peer_json(p),
                ),
                crate::text::views(parts@) == items.take(i as int),
            decreases e.peer_pages@.len() - i,
        {
            let p = peer_json_exec(&e.peer_pages[i]);
            let ghost before = parts@;
            parts.push(p);
            assert(crate::text::views(parts@) =~= crate::text::views(before).push(p@));
            assert(items.take(i + 1) =~= items.take(i as int).push(items[i as int]));
            i += 1;
        }
        assert(items.take(e.peer_pages@.len() as int) =~= items);
        push_array(&mut out, &parts);
    }
    extend_str(&mut out, "}");
    assert(out@ =~= entry_json(entry_view(*e)));
    out
}

/// The hierarchy context as the manifest writes it.
pub fn hierarchy_json_text(h: &Vec<HierarchyContextEntry>) -> (r: Vec<char>)
    ensures
        r@ == hierarchy_json(hierarchy_view(h@)),
{
    let ghost items = hierarchy_view(h@).map_values(|e: EntryView| entry_json(e));
    let mut parts: Vec<Vec<char>> = Vec::new();
    let mut i: usize = 0;
    while i < h.len()
        invariant
            i <= h@.len(),
            items == hierarchy_view(h@).map_values(|e: EntryView| entry_json(e)),
            crate::text::views(parts@) == items.take(i as int),
        decreases h@.len() - i,
    {
        let p = entry_json_exec(&h[i]);
        let ghost before = parts@;
        parts.push(p);
        assert(crate::text::views(parts@) =~= crate::text::views(before).push(p@));
        assert(items.take(i + 1) =~= items.take(i as int).push(items[i as int]));
        i += 1;
    }
    assert(items.take(h@.len() as int) =~= items);
    let mut out: Vec<char> = Vec::new();
    push_array(&mut out, &parts);
    out
}

proof fn lemma_byte_len_bound(s: Seq<char>)
    ensures
        byte_len(s) <= 4 * s.len(),
    decreases s.len(),
{
    if s.len() > 0 {
        lemma_byte_len_bound(s.drop_last());
    }
}

fn byte_len_wide(s: &Vec<char>) -> (r: u128)
    ensures
        r == byte_len(s@),
        r <= 4 * s@.len(),
{
    let mut total: u128 = 0;
    let mut i: usize = 0;
    while i < s.len()
        invariant
            i <= s@.len(),
            total == byte_len(s@.take(i as int)),
        decreases s@.len() - i,
    {
        assert(s@.take(i + 1).drop_last() =~= s@.take(i as int));
        proof {
            lemma_byte_len_bound(s@.take(i as int));
        }
        total = total + char_width_of(s[i]) as u128;
        i += 1;
    }
    assert(s@.take(s@.len() as int) =~= s@);
    proof {
        lemma_byte_len_bound(s@);
    }
    total
}

// ─── The budget ─────────────────────────────────────────────────────────────

/// How many peers the branches carry in all.
pub open spec fn total_peers(h: Seq<EntryView>) -> nat
    decreases h.len(),
{
    if h.len() == 0 {
        0
    } else {
        total_peers(h.drop_last()) + h.last().3.len()
    }
}

/// The branch that gives up a peer: the last of those carrying the most (none when no
/// branch has any).
pub open spec fn fullest(h: Seq<EntryView>) -> int
    decreases h.len(),
{
    if h.len() == 0 {
        -1
    } else {
        let i = fullest(h.drop_last());
        let n = h.last().3.len();
        if n > 0 && (i < 0 || n >= h[i].3.len()) {
            h.len() - 1
        } else {
            i
        }
    }
}

pub proof fn lemma_fullest(h: Seq<EntryView>)
    ensures
        -1 <= fullest(h) < h.len(),
        fullest(h) >= 0 ==> h[fullest(h)].3.len() > 0,
        fullest(h) < 0 ==> total_peers(h) == 0,
    decreases h.len(),
{
    if h.len() > 0 {
        lemma_fullest(h.drop_last());
        assert(h.drop_last().len() == h.len() - 1);
        let i = fullest(h.drop_last());
        if i >= 0 {
            assert(h[i] == h.drop_last()[i]);
        }
    }
}

/// The branches with the last peer of branch `i` dropped.
pub open spec fn drop_peer(h: Seq<EntryView>, i: int) -> Seq<EntryView> {
    h.update(i, (h[i].0, h[i].1, h[i].2, h[i].3.drop_last()))
}

pub proof fn lemma_drop_peer_total(h: Seq<EntryView>, i: int)
    requires
        0 <= i < h.len(),
        h[i].3.len() > 0,
    ensures
        total_peers(drop_peer(h, i)) + 1 == total_peers(h),
    decreases h.len(),
{
    let d = drop_peer(h, i);
    if i == h.len() - 1 {
        assert(d.drop_last() =~= h.drop_last());
    } else {
        lemma_drop_peer_total(h.drop_last(), i);
        assert(d.drop_last() =~= drop_peer(h.drop_last(), i));
    }
}

/// The hierarchy after the budget: while its JSON and `extra` bytes exceed `budget`,
/// the fullest branch drops its last peer; with how many peers were dropped.
#[verifier::opaque]
pub open spec fn trimmed(h: Seq<EntryView>, extra: nat, budget: nat) -> (Seq<EntryView>, nat)
    decreases total_peers(h),
{
    if byte_len(hierarchy_json(h)) + extra <= budget {
        (h, 0)
    } else {
        proof {
            lemma_fullest(h);
        }
        let i = fullest(h);
        if i < 0 {
            (h, 0)
        } else {
            proof {
                lemma_drop_peer_total(h, i);
            }
            let r = trimmed(drop_peer(h, i), extra, budget);
            (r.0, r.1 + 1)
        }
    }
}

fn fullest_exec(h: &Vec<HierarchyContextEntry>) -> (r: Option<usize>)
    ensures
        match r {
            Some(i) => fullest(hierarchy_view(h@)) == i,
            None => fullest(hierarchy_view(h@)) < 0,
        },
{
    let ghost hv = hierarchy_view(h@);
    let mut best: Option<usize> = None;
    let mut i: usize = 0;
    assert(hv.take(0) =~= Seq::<EntryView>::empty());
    while i < h.len()
        invariant
            i <= h@.len(),
            hv == hierarchy_view(h@),
            match best {
                Some(b) => b < i && fullest(hv.take(i as int)) == b,
                None => fullest(hv.take(i as int)) < 0,
            },
        decreases h@.len() - i,
    {
        let ghost t = hv.take(i + 1);
        assert(t.drop_last() =~= hv.take(i as int));
        assert(t.last() == entry_view(h@[i as int]));
        let n = h[i].peer_pages.len();
        match best {
            Some(b) => {
                assert(t[b as int] == hv.take(i as int)[b as int]);
                if n > 0 && n >= h[b].peer_pages.len() {
                    best = Some(i);
                }
            },
            None => {
                if n > 0 {
                    best = Some(i);
                }
            },
        }
        i += 1;
    }
    assert(hv.take(h@.len() as int) =~= hv);
    best
}

fn drop_peer_exec(h: &mut Vec<HierarchyContextEntry>, i: usize)
    requires
        i < old(h)@.len(),
        old(h)@[i as int].peer_pages@.len() > 0,
    ensures
        hierarchy_view(final(h)@) == drop_peer(hierarchy_view(old(h)@), i as int),
{
    let ghost before = hierarchy_view(h@);
    let mut e = h.remove(i);
    let ghost ev = entry_view(e);
    e.peer_pages.pop();
    assert(entry_view(e).3 =~= ev.3.drop_last());
    h.insert(i, e);
    assert(hierarchy_view(h@) =~= drop_peer(before, i as int));
}

proof fn lemma_trim_done(h: Seq<EntryView>, extra: nat, budget: nat)
    requires
        byte_len(hierarchy_json(h)) + extra <= budget || fullest(h) < 0,
    ensures
        trimmed(h, extra, budget) == (h, 0nat),
{
    reveal(trimmed);
}

proof fn lemma_trim_step(h: Seq<EntryView>, extra: nat, budget: nat, i: int)
    requires
        byte_len(hierarchy_json(h)) + extra > budget,
        fullest(h) == i,
        i >= 0,
    ensures
        trimmed(h, extra, budget) == ({
            let r = trimmed(drop_peer(h, i), extra, budget);
            (r.0, r.1 + 1)
        }),
{
    reveal(trimmed);
}

/// Applies a byte budget to the manifest: while the hierarchy's JSON, the pages'
/// (`pages_size` bytes) and the rest (`other_size`) exceed `budget_bytes`, the branch
/// carrying the most peers (the last such) drops its last one. Gives whether the
/// manifest was over budget and how many peers were dropped.
pub fn enforce_manifest_budget(
    hierarchy: &mut Vec<HierarchyContextEntry>,
    pages_size: usize,
    other_size: usize,
    budget_bytes: usize,
) -> (r: (bool, usize))
    requires
        total_peers(hierarchy_view(old(hierarchy)@)) <= usize::MAX,
    ensures
        ({
            let t = trimmed(hierarchy_view(old(hierarchy)@), (pages_size + other_size) as nat, budget_bytes as nat);
            &&& hierarchy_view(final(hierarchy)@) == t.0
            &&& r.0 == (byte_len(hierarchy_json(hierarchy_view(old(hierarchy)@))) + pages_size
                + other_size > budget_bytes)
            &&& r.1 == t.1
        }),
{
    let ghost h0 = hierarchy_view(hierarchy@);
    let extra: u128 = pages_size as u128 + other_size as u128;
    let ghost ex = (pages_size + other_size) as nat;
    let text0 = hierarchy_json_text(hierarchy);
    let size = byte_len_wide(&text0);
    let _len0 = text0.len();
    assert(text0@.len() <= usize::MAX);
    assert(size + extra <= u128::MAX);
    if size + extra <= budget_bytes as u128 {
        proof {
            lemma_trim_done(h0, ex, budget_bytes as nat);
        }
        return (false, 0);
    }
    let mut dropped: usize = 0;
    loop
        invariant
            extra == ex,
            ex == (pages_size + other_size) as nat,
            trimmed(h0, ex, budget_bytes as nat) == ({
                let t = trimmed(hierarchy_view(hierarchy@), ex, budget_bytes as nat);
                (t.0, (t.1 + dropped) as nat)
            }),
            dropped + total_peers(hierarchy_view(hierarchy@)) == total_peers(h0),
            total_peers(h0) <= usize::MAX,
        ensures
            hierarchy_view(hierarchy@) == trimmed(h0, ex, budget_bytes as nat).0,
            dropped == trimmed(h0, ex, budget_bytes as nat).1,
        decreases total_peers(hierarchy_view(hierarchy@)),
    {
        let ghost hv = hierarchy_view(hierarchy@);
        let text = hierarchy_json_text(hierarchy);
        let size = byte_len_wide(&text);
        let _len = text.len();
        assert(text@.len() <= usize::MAX);
        assert(size + extra <= u128::MAX);
        if size + extra <= budget_bytes as u128 {
            proof {
                lemma_trim_done(hv, ex, budget_bytes as nat);
            }
            break;
        }
        proof {
            lemma_fullest(hv);
        }
        match fullest_exec(hierarchy) {
            None => {
                proof {
                    lemma_trim_done(hv, ex, budget_bytes as nat);
                }
                break;
            },
            Some(i) => {
                proof {
                    lemma_drop_peer_total(hv, i as int);
                    lemma_trim_step(hv, ex, budget_bytes as nat, i as int);
                }
                assert(hv[i as int].3.len() == hierarchy@[i as int].peer_pages@.len());
                drop_peer_exec(hierarchy, i);
                dropped = dropped + 1;
            },
        }
    }
    (true, dropped)
}

} // verus!

verus! {

// ─── Applying routing decisions ─────────────────────────────────────────────

/// What an agent's routing decision says of an intake page, as the routing reads it.
#[derive(Clone, Debug)]
pub struct RouteDecision {
    /// The lane the agent asked for (`staged` or anything else, which means review).
    pub status: String,
    pub category: Vec<String>,
    pub review_reason: Option<String>,
    pub merge_target: Option<String>,
    pub proposed_new_subtree: Option<String>,
    pub proposed_body_markdown: Option<String>,
    pub decision_section_markdown: Option<String>,
    pub body_rewrite_kind: Option<String>,
}

pub open spec fn opt_view(o: Option<String>) -> Option<Seq<char>> {
    match o {
        Some(s) => Some(s@),
        None => None,
    }
}

/// The body that quality and overlap are scored on: the agent's rewrite when it is
/// not blank, else the page's own body.
pub open spec fn scoring_body_of(proposed: Option<Seq<char>>, page_body: Seq<char>) -> Seq<char> {
    match proposed {
        Some(b) => if trim(b).len() > 0 {
            b
        } else {
            page_body
        },
        None => page_body,
    }
}

pub fn scoring_body(proposed: Option<&str>, page_body: &str) -> (r: String)
    ensures
        r@ == scoring_body_of(
            match proposed {
                Some(b) => Some(b@),
                None => None,
            },
            page_body@,
        ),
{
    match proposed {
        Some(b) => if trim_str(b).len() > 0 {
            String::from_str(b)
        } else {
            String::from_str(page_body)
        },
        None => String::from_str(page_body),
    }
}

/// Why a decision cannot be routed at all: it has no category, or its category is
/// no taxonomy path and it proposes no new node.
pub open spec fn route_error_of(
    slug: Seq<char>,
    category: Seq<Seq<char>>,
    taxonomy_has_path: bool,
    proposes_node: bool,
) -> Option<Seq<char>> {
    if category.len() == 0 {
        Some("Routing decision for '"@ + slug + "' is missing a category path"@)
    } else if !taxonomy_has_path && !proposes_node {
        Some(
            "Routing decision for '"@ + slug + "' uses invalid taxonomy path '"@ + join(category, "/"@)
                + "'. Attach a new-node proposal or move it to review."@,
        )
    } else {
        None
    }
}

pub fn check_route(slug: &str, category: &[String], taxonomy_has_path: bool, proposes_node: bool) -> (r: Result<(), String>)
    ensures
        match r {
            Ok(()) => route_error_of(slug@, strings_view(category@), taxonomy_has_path, proposes_node) is None,
            Err(m) => route_error_of(slug@, strings_view(category@), taxonomy_has_path, proposes_node)
                == Some(m@),
        },
{
    if category.len() == 0 {
        let mut m = chars_of("Routing decision for '");
        extend_str(&mut m, slug);
        extend_str(&mut m, "' is missing a category path");
        return Err(string_of(&m));
    }
    if !taxonomy_has_path && !proposes_node {
        let mut m = chars_of("Routing decision for '");
        extend_str(&mut m, slug);
        extend_str(&mut m, "' uses invalid taxonomy path '");
        let j = crate::curio_docs::join_strings(category, "/");
        assert(crate::curio_docs::strings(category@) =~= strings_view(category@));
        extend_chars(&mut m, &j);
        extend_str(&mut m, "'. Attach a new-node proposal or move it to review.");
        return Err(string_of(&m));
    }
    Ok(())
}

/// The words that mark a page as technical or operational.
pub open spec fn technical_signals() -> Seq<Seq<char>> {
    seq![
        "troubleshoot"@,
        "install"@,
        "configur"@,
        "version"@,
        "upgrade"@,
        "migrat"@,
        "error"@,
        "debug"@,
        "procedure"@,
        "step-by-step"@,
        "how to"@,
        "howto"@,
    ]
}

/// Whether the lower-cased title or body holds one of the technical signals.
pub open spec fn technical_of(title: Seq<char>, body: Seq<char>) -> bool {
    exists|i: int|
        0 <= i < technical_signals().len() && (contains_seq(
            spec_lowercase(title),
            #[trigger] technical_signals()[i],
        ) || contains_seq(spec_lowercase(body), technical_signals()[i]))
}

pub fn is_technical(title: &str, body: &str) -> (b: bool)
    ensures
        b == technical_of(title@, body@),
{
    let t = chars_of(lowercase(title).as_str());
    let bd = chars_of(lowercase(body).as_str());
    let signals: [&str; 12] = [
        "troubleshoot",
        "install",
        "configur",
        "version",
        "upgrade",
        "migrat",
        "error",
        "debug",
        "procedure",
        "step-by-step",
        "how to",
        "howto",
    ];
    assert(signals@.map_values(|s: &str| s@) =~= technical_signals());
    let mut i: usize = 0;
    while i < 12
        invariant
            i <= 12,
            t@ == spec_lowercase(title@),
            bd@ == spec_lowercase(body@),
            signals@.map_values(|s: &str| s@) == technical_signals(),
            forall|j: int|
                0 <= j < i ==> !(contains_seq(t@, #[trigger] technical_signals()[j]) || contains_seq(
                    bd@,
                    technical_signals()[j],
                )),
        decreases 12 - i,
    {
        let sig = signals[i];
        assert(sig@ == technical_signals()[i as int]);
        if contains_vec(&t, sig) || contains_vec(&bd, sig) {
            return true;
        }
        i += 1;
    }
    false
}

/// Where a decision lands and why, before the page is moved.
#[derive(Clone, Debug)]
pub struct RoutePlan {
    /// Staged (else review).
    pub staged: bool,
    pub review_reason: Option<String>,
    pub merge_target: Option<String>,
    /// A technical page routed to a top-level category only, sent to review.
    pub shallow_warning: bool,
}

/// What the routing learned of a page beyond the decision. The percentages come
/// already written out.
#[derive(Clone, Debug)]
pub struct RouteSignals {
    /// The proposal scores require review.
    pub needs_review: bool,
    /// The closest peer overlaps by 70% or more.
    pub high_overlap: bool,
    /// The path of the closest peer, if any.
    pub top_overlap_path: Option<String>,
    pub overlap_percent: String,
    pub quality_percent: String,
    pub usability_percent: String,
    pub taxonomy_has_path: bool,
    /// The page reads as technical ([`is_technical`]).
    pub technical: bool,
}

pub open spec fn fallback_reason_of(s: RouteSignals, merge_target: Option<Seq<char>>) -> Seq<char> {
    if s.high_overlap {
        "High semantic overlap ("@ + s.overlap_percent@ + "%) with existing peer content at '"@
            + match merge_target {
            Some(t) => t,
            None => "unknown peer"@,
        } + "' — requires review for merge or consolidation"@
    } else if !s.taxonomy_has_path {
        "Proposed taxonomy path does not exist yet — requires review with a taxonomy mutation"@
    } else {
        "Low information quality ("@ + s.quality_percent@ + "%) or usability ("@
            + s.usability_percent@ + "%) — requires review before publication"@
    }
}

pub open spec fn shallow_reason_of(top: Seq<char>) -> Seq<char> {
    "Shallow-route warning: content appears technical/operational but was routed to a top-level category '"@
        + top
        + "' with no subtree. Verify this is the correct final depth or propose a deeper path."@
}

pub open spec fn or_else(o: Option<Seq<char>>, d: Seq<char>) -> Option<Seq<char>> {
    match o {
        Some(x) => Some(x),
        None => Some(d),
    }
}

/// The merge target after review: the agent's, else the closest peer when it
/// overlaps heavily.
pub open spec fn reviewed_merge_target(d: RouteDecision, s: RouteSignals) -> Option<Seq<char>> {
    if s.high_overlap && d.merge_target is None {
        match s.top_overlap_path {
            Some(p) => Some(p@),
            None => None,
        }
    } else {
        opt_view(d.merge_target)
    }
}

/// The plan of a routing: review when the scores require it (with a merge target and
/// a reason filled in where the agent gave none); then a staged page that is
/// technical but sits in a top-level category only goes to review too.
pub open spec fn plan_of(d: RouteDecision, s: RouteSignals) -> (bool, Option<Seq<char>>, Option<Seq<char>>, bool) {
    let staged0 = d.status@ == "staged"@;
    let mt = if s.needs_review {
        reviewed_merge_target(d, s)
    } else {
        opt_view(d.merge_target)
    };
    let reason1 = if s.needs_review {
        or_else(opt_view(d.review_reason), fallback_reason_of(s, mt))
    } else {
        opt_view(d.review_reason)
    };
    let staged1 = staged0 && !s.needs_review;
    let shallow = staged1 && d.category@.len() == 1 && s.technical;
    let reason2 = if shallow {
        or_else(reason1, shallow_reason_of(d.category@[0]@))
    } else {
        reason1
    };
    (staged1 && !shallow, reason2, mt, shallow)
}

pub open spec fn route_plan_view(p: RoutePlan) -> (bool, Option<Seq<char>>, Option<Seq<char>>, bool) {
    (p.staged, opt_view(p.review_reason), opt_view(p.merge_target), p.shallow_warning)
}

fn clone_opt(o: &Option<String>) -> (r: Option<String>)
    ensures
        opt_view(r) == opt_view(*o),
{
    match o {
        Some(s) => Some(String::from_str(s.as_str())),
        None => None,
    }
}

fn fallback_reason(s: &RouteSignals, merge_target: &Option<String>) -> (r: String)
    ensures
        r@ == fallback_reason_of(*s, opt_view(*merge_target)),
{
    if s.high_overlap {
        let mut m = chars_of("High semantic overlap (");
        extend_str(&mut m, s.overlap_percent.as_str());
        extend_str(&mut m, "%) with existing peer content at '");
        match merge_target {
            Some(t) => extend_str(&mut m, t.as_str()),
            None => extend_str(&mut m, "unknown peer"),
        }
        extend_str(&mut m, "' — requires review for merge or consolidation");
        string_of(&m)
    } else if !s.taxonomy_has_path {
        String::from_str(
            "Proposed taxonomy path does not exist yet — requires review with a taxonomy mutation",
        )
    } else {
        let mut m = chars_of("Low information quality (");
        extend_str(&mut m, s.quality_percent.as_str());
        extend_str(&mut m, "%) or usability (");
        extend_str(&mut m, s.usability_percent.as_str());
        extend_str(&mut m, "%) — requires review before publication");
        string_of(&m)
    }
}

pub fn plan_route(d: &RouteDecision, s: &RouteSignals) -> (r: RoutePlan)
    requires
        d.category@.len() > 0,
    ensures
        route_plan_view(r) == plan_of(*d, *s),
{
    let staged0 = str_eq(d.status.as_str(), "staged");
    let mut merge_target = clone_opt(&d.merge_target);
    let mut reason = clone_opt(&d.review_reason);
    if s.needs_review {
        if s.high_overlap && d.merge_target.is_none() {
            merge_target = clone_opt(&s.top_overlap_path);
        }
        if reason.is_none() {
            reason = Some(fallback_reason(s, &merge_target));
        }
    }
    let staged1 = staged0 && !s.needs_review;
    let shallow = staged1 && d.category.len() == 1 && s.technical;
    if shallow && reason.is_none() {
        let mut m = chars_of(
            "Shallow-route warning: content appears technical/operational but was routed to a top-level category '",
        );
        extend_str(&mut m, d.category[0].as_str());
        extend_str(
            &mut m,
            "' with no subtree. Verify this is the correct final depth or propose a deeper path.",
        );
        reason = Some(string_of(&m));
    }
    RoutePlan { staged: staged1 && !shallow, review_reason: reason, merge_target, shallow_warning: shallow }
}

/// A page lands in staged only when the agent asked for staged, the scores do not
/// require review, and it is not a technical page filed under a top-level category
/// only; any page that goes to review carries a reason once the scores required
/// review.
pub proof fn law_staged_only_when_clean(d: RouteDecision, s: RouteSignals)
    ensures
        plan_of(d, s).0 ==> (d.status@ == "staged"@ && !s.needs_review && !(d.category@.len() == 1
            && s.technical)),
        s.needs_review ==> plan_of(d, s).1 is Some && !plan_of(d, s).0,
{
}

/// The flags the analysis sidecar gains: the quality flags, the three closest
/// peers as `overlap:<path>`, and the shallow-route warning.
pub open spec fn sidecar_flags_of(quality: Seq<Seq<char>>, overlaps: Seq<Seq<char>>, shallow: bool) -> Seq<Seq<char>> {
    quality + overlaps.take(if overlaps.len() < 3 {
        overlaps.len() as int
    } else {
        3
    }).map_values(|p: Seq<char>| "overlap:"@ + p) + if shallow {
        seq!["shallow_route_warning"@]
    } else {
        Seq::<Seq<char>>::empty()
    }
}

pub fn sidecar_flags(quality_flags: &[String], overlap_paths: &[String], shallow: bool) -> (r: Vec<String>)
    ensures
        strings_view(r@) == sidecar_flags_of(strings_view(quality_flags@), strings_view(overlap_paths@), shallow),
{
    let mut out: Vec<String> = Vec::new();
    let mut i: usize = 0;
    while i < quality_flags.len()
        invariant
            i <= quality_flags@.len(),
            strings_view(out@) == strings_view(quality_flags@).take(i as int),
        decreases quality_flags@.len() - i,
    {
        let ghost before = out@;
        let f = String::from_str(quality_flags[i].as_str());
        assert(f@ == strings_view(quality_flags@)[i as int]);
        out.push(f);
        assert(strings_view(out@) =~= strings_view(before).push(f@));
        assert(strings_view(quality_flags@).take(i + 1) =~= strings_view(quality_flags@).take(
            i as int,
        ).push(f@));
        assert(strings_view(out@) =~= strings_view(quality_flags@).take(i + 1));
        i += 1;
    }
    let ghost q = strings_view(out@);
    assert(q =~= strings_view(quality_flags@));
    let ghost ov = strings_view(overlap_paths@);
    let n: usize = if overlap_paths.len() < 3 {
        overlap_paths.len()
    } else {
        3
    };
    let mut k: usize = 0;
    while k < n
        invariant
            k <= n,
            n <= overlap_paths@.len(),
            ov == strings_view(overlap_paths@),
            strings_view(out@) == q + ov.take(k as int).map_values(|p: Seq<char>| "overlap:"@ + p),
        decreases n - k,
    {
        let mut m = chars_of("overlap:");
        extend_str(&mut m, overlap_paths[k].as_str());
        let ghost before = out@;
        let ms = string_of(&m);
        assert(ms@ == "overlap:"@ + ov[k as int]);
        out.push(ms);
        assert(strings_view(out@) =~= strings_view(before).push(ms@));
        assert(ov.take(k + 1).map_values(|p: Seq<char>| "overlap:"@ + p) =~= ov.take(
            k as int,
        ).map_values(|p: Seq<char>| "overlap:"@ + p).push("overlap:"@ + ov[k as int]));
        assert(strings_view(out@) =~= q + ov.take(k + 1).map_values(|p: Seq<char>| "overlap:"@ + p));
        k += 1;
    }
    if shallow {
        let ghost before = strings_view(out@);
        out.push(String::from_str("shallow_route_warning"));
        assert(strings_view(out@) =~= before.push("shallow_route_warning"@));
    }
    out
}

/// Whether the decision carries a non-blank decision section.
pub open spec fn section_present(section: Option<Seq<char>>) -> bool {
    section matches Some(s) && trim(s).len() > 0
}

/// The page body after routing: when the agent rewrote the body or wrote a decision
/// section, the trimmed section and a blank line (if any), then the rewrite (else the
/// page's body); otherwise the page's body unchanged.
pub open spec fn effective_body_of(section: Option<Seq<char>>, proposed: Option<Seq<char>>, page_body: Seq<char>) -> Seq<char> {
    if proposed is Some || section_present(section) {
        (if section_present(section) {
            trim(section->0) + "\n\n"@
        } else {
            Seq::<char>::empty()
        }) + match proposed {
            Some(b) => b,
            None => page_body,
        }
    } else {
        page_body
    }
}

pub fn effective_body(section: Option<&str>, proposed: Option<&str>, page_body: &str) -> (r: (String, bool))
    ensures
        r.0@ == effective_body_of(
            match section {
                Some(s) => Some(s@),
                None => None,
            },
            match proposed {
                Some(b) => Some(b@),
                None => None,
            },
            page_body@,
        ),
        r.1 == (proposed is Some || section_present(
            match section {
                Some(s) => Some(s@),
                None => None,
            },
        )),
{
    let trimmed: Option<Vec<char>> = match section {
        Some(s) => {
            let t = trim_str(s);
            if t.len() > 0 {
                Some(t)
            } else {
                None
            }
        },
        None => None,
    };
    let present = trimmed.is_some();
    if proposed.is_some() || present {
        let mut out: Vec<char> = Vec::new();
        match &trimmed {
            Some(t) => {
                extend_chars(&mut out, t);
                extend_str(&mut out, "\n\n");
            },
            None => {},
        }
        match proposed {
            Some(b) => extend_str(&mut out, b),
            None => extend_str(&mut out, page_body),
        }
        (string_of(&out), true)
    } else {
        (String::from_str(page_body), false)
    }
}

/// How the agent changed the body: as it says, else a full synthesis when it wrote
/// a body, else none.
pub open spec fn rewrite_kind_of(kind: Option<Seq<char>>, has_proposed: bool) -> Seq<char> {
    match kind {
        Some(k) => k,
        None => if has_proposed {
            "full_synthesis"@
        } else {
            "none"@
        },
    }
}

pub fn body_rewrite_kind(kind: Option<&str>, has_proposed: bool) -> (r: String)
    ensures
        r@ == rewrite_kind_of(
            match kind {
                Some(k) => Some(k@),
                None => None,
            },
            has_proposed,
        ),
{
    match kind {
        Some(k) => String::from_str(k),
        None => if has_proposed {
            String::from_str("full_synthesis")
        } else {
            String::from_str("none")
        },
    }
}

/// What a proposal record proposes.
#[derive(Clone, Copy, Debug, PartialEq, Eq, Structural)]
pub enum ProposalKind {
    NewPage,
    Merge,
    TaxonomyChange,
    Consolidation,
}

pub open spec fn proposal_kind_of(proposes_node: bool, has_merge_target: bool, high_overlap: bool) -> ProposalKind {
    if proposes_node {
        ProposalKind::TaxonomyChange
    } else if has_merge_target || high_overlap {
        ProposalKind::Merge
    } else {
        ProposalKind::NewPage
    }
}

/// A new node proposal wins, then a merge (named or implied by overlap), else a new
/// page.
pub fn proposal_kind(proposes_node: bool, has_merge_target: bool, high_overlap: bool) -> (r: ProposalKind)
    ensures
        r == proposal_kind_of(proposes_node, has_merge_target, high_overlap),
{
    if proposes_node {
        ProposalKind::TaxonomyChange
    } else if has_merge_target || high_overlap {
        ProposalKind::Merge
    } else {
        ProposalKind::NewPage
    }
}

pub open spec fn recommended_action_of(staged: bool, merge_target: Option<Seq<char>>, proposes_node: bool) -> Seq<char> {
    if staged {
        "stage for approval"@
    } else if merge_target is Some {
        "review for merge into '"@ + merge_target->0 + "'"@
    } else if proposes_node {
        "review taxonomy mutation proposal before publication"@
    } else {
        "review before further action"@
    }
}

pub fn recommended_action(staged: bool, merge_target: Option<&str>, proposes_node: bool) -> (r: String)
    ensures
        r@ == recommended_action_of(
            staged,
            match merge_target {
                Some(t) => Some(t@),
                None => None,
            },
            proposes_node,
        ),
{
    if staged {
        String::from_str("stage for approval")
    } else {
        match merge_target {
            Some(t) => {
                let mut m = chars_of("review for merge into '");
                extend_str(&mut m, t);
                extend_str(&mut m, "'");
                string_of(&m)
            },
            None => if proposes_node {
                String::from_str("review taxonomy mutation proposal before publication")
            } else {
                String::from_str("review before further action")
            },
        }
    }
}

/// The title of a proposed node: its slug with hyphens as spaces.
pub open spec fn node_title_of(slug: Seq<char>) -> Seq<char> {
    slug.map_values(|c: char| if c == '-' {
        ' '
    } else {
        c
    })
}

pub fn proposed_node_title(slug: &str) -> (r: String)
    ensures
        r@ == node_title_of(slug@),
{
    let v = chars_of(slug);
    let mut out: Vec<char> = Vec::new();
    let mut i: usize = 0;
    while i < v.len()
        invariant
            i <= v@.len(),
            v@ == slug@,
            out@ == node_title_of(slug@.take(i as int)),
        decreases v@.len() - i,
    {
        out.push(if v[i] == '-' {
            ' '
        } else {
            v[i]
        });
        assert(node_title_of(slug@.take(i + 1)) =~= node_title_of(slug@.take(i as int)).push(
            if slug@[i as int] == '-' {
                ' '
            } else {
                slug@[i as int]
            },
        ));
        i += 1;
    }
    assert(slug@.take(v@.len() as int) =~= slug@);
    string_of(&out)
}

/// The alternative a record names: the category's first segment as the primary
/// route candidate.
pub fn route_alternatives(category: &[String]) -> (r: Vec<String>)
    ensures
        strings_view(r@) == if category@.len() == 0 {
            Seq::<Seq<char>>::empty()
        } else {
            seq!["Primary route candidate: "@ + category@[0]@]
        },
{
    let mut out: Vec<String> = Vec::new();
    if category.len() > 0 {
        let mut m = chars_of("Primary route candidate: ");
        extend_str(&mut m, category[0].as_str());
        out.push(string_of(&m));
        assert(strings_view(out@) =~= seq![m@]);
    } else {
        assert(strings_view(out@) =~= Seq::<Seq<char>>::empty());
    }
    out
}

/// The note a consolidated proposal opens its alternatives with.
pub fn consolidation_note(titles: &[String]) -> (r: String)
    ensures
        r@ == "Consolidated "@ + crate::text::decimal(titles@.len() as nat)
            + " merged source(s) per agent decision: "@ + join(strings_view(titles@), "; "@),
{
    let mut m = chars_of("Consolidated ");
    extend_chars(&mut m, &crate::text::decimal_vec(titles.len() as u64));
    extend_str(&mut m, " merged source(s) per agent decision: ");
    let j = crate::curio_docs::join_strings(titles, "; ");
    assert(crate::curio_docs::strings(titles@) =~= strings_view(titles@));
    extend_chars(&mut m, &j);
    string_of(&m)
}

// ─── Merging intake pages before routing ────────────────────────────────────

pub open spec fn merge_directives_of(ds: Seq<(Seq<char>, Option<Seq<char>>)>) -> Seq<(Seq<char>, Seq<char>)>
    decreases ds.len(),
{
    if ds.len() == 0 {
        seq![]
    } else {
        let (slug, target) = ds.last();
        merge_directives_of(ds.drop_last()) + match target {
            Some(t) => if t == slug {
                Seq::<(Seq<char>, Seq<char>)>::empty()
            } else {
                seq![(slug, t)]
            },
            None => Seq::<(Seq<char>, Seq<char>)>::empty(),
        }
    }
}

pub open spec fn directive_views(ds: Seq<(String, Option<String>)>) -> Seq<(Seq<char>, Option<Seq<char>>)> {
    ds.map_values(|d: (String, Option<String>)| (d.0@, opt_view(d.1)))
}

pub open spec fn pair_views(ps: Seq<(String, String)>) -> Seq<(Seq<char>, Seq<char>)> {
    ps.map_values(|p: (String, String)| (p.0@, p.1@))
}

/// The merges to make before routing: each decision that names another page to merge
/// into, as (secondary, primary); one naming itself is ignored.
pub fn merge_directives(decisions: &[(String, Option<String>)]) -> (r: Vec<(String, String)>)
    ensures
        pair_views(r@) == merge_directives_of(directive_views(decisions@)),
{
    let ghost dv = directive_views(decisions@);
    let mut out: Vec<(String, String)> = Vec::new();
    let mut i: usize = 0;
    assert(dv.take(0) =~= Seq::<(Seq<char>, Option<Seq<char>>)>::empty());
    while i < decisions.len()
        invariant
            i <= decisions@.len(),
            dv == directive_views(decisions@),
            pair_views(out@) == merge_directives_of(dv.take(i as int)),
        decreases decisions@.len() - i,
    {
        assert(dv.take(i + 1).drop_last() =~= dv.take(i as int));
        let (slug, target) = &decisions[i];
        assert(dv.take(i + 1).last() == (slug@, opt_view(*target)));
        match target {
            Some(t) => {
                if !str_eq(t.as_str(), slug.as_str()) {
                    let ghost before = out@;
                    out.push((String::from_str(slug.as_str()), String::from_str(t.as_str())));
                    assert(pair_views(out@) =~= pair_views(before).push((slug@, t@)));
                }
            },
            None => {},
        }
        i += 1;
    }
    assert(dv.take(decisions@.len() as int) =~= dv);
    out
}

/// The primary's body after a secondary is merged into it.
pub open spec fn merged_body_of(primary: Seq<char>, title: Seq<char>, slug: Seq<char>, secondary: Seq<char>) -> Seq<char> {
    trim_end(primary) + "\n\n## Merged source: "@ + title + " ("@ + slug + ")\n\n"@ + trim_start(secondary)
}

pub fn merged_body(primary_body: &str, secondary_title: &str, secondary_slug: &str, secondary_body: &str) -> (r: String)
    ensures
        r@ == merged_body_of(primary_body@, secondary_title@, secondary_slug@, secondary_body@),
{
    let mut m = trim_end_vec(&chars_of(primary_body));
    extend_str(&mut m, "\n\n## Merged source: ");
    extend_str(&mut m, secondary_title);
    extend_str(&mut m, " (");
    extend_str(&mut m, secondary_slug);
    extend_str(&mut m, ")\n\n");
    extend_chars(&mut m, &trim_start_vec(&chars_of(secondary_body)));
    string_of(&m)
}

/// The closing line of `curio process`.
pub open spec fn process_summary_of(processed: nat, merged: nat, errors: nat, dry_run: bool) -> Seq<char> {
    crate::text::decimal(processed) + " processed"@ + (if merged > 0 {
        " ("@ + crate::text::decimal(merged) + " merged into primary)"@
    } else {
        Seq::<char>::empty()
    }) + ", "@ + crate::text::decimal(errors) + " errors"@ + if dry_run {
        " (dry run)"@
    } else {
        Seq::<char>::empty()
    }
}

pub fn process_summary(processed: u64, merged: u64, errors: u64, dry_run: bool) -> (r: String)
    ensures
        r@ == process_summary_of(processed as nat, merged as nat, errors as nat, dry_run),
{
    let mut m = crate::text::decimal_vec(processed);
    extend_str(&mut m, " processed");
    if merged > 0 {
        extend_str(&mut m, " (");
        extend_chars(&mut m, &crate::text::decimal_vec(merged));
        extend_str(&mut m, " merged into primary)");
    }
    extend_str(&mut m, ", ");
    extend_chars(&mut m, &crate::text::decimal_vec(errors));
    extend_str(&mut m, " errors");
    if dry_run {
        extend_str(&mut m, " (dry run)");
    }
    string_of(&m)
}


// ─── Where a routed page is written ─────────────────────────────────────────

/// What routing one intake page writes.
#[derive(Clone, Debug)]
pub struct RouteWrites {
    pub plan: RoutePlan,
    /// `staged` or `review`.
    pub lane: String,
    /// The lane directory with the category path below it.
    pub dest_dir: String,
    /// `<dest_dir>/<slug>.md`.
    pub dest_path: String,
    /// The page body after routing ([`effective_body_of`]).
    pub body: String,
    /// The whole page is rewritten (else only its frontmatter).
    pub rewrite_body: bool,
    /// How the agent changed the body ([`rewrite_kind_of`]).
    pub rewrite_kind: String,
    /// The flags the analysis sidecar gains ([`sidecar_flags_of`]).
    pub sidecar_flags: Vec<String>,
}

pub open spec fn lane_of(staged: bool) -> Seq<char> {
    if staged {
        "staged"@
    } else {
        "review"@
    }
}

/// `<wiki_dir>/<lane>/<category joined by />`.
pub open spec fn route_dir_of(wiki_dir: Seq<char>, staged: bool, category: Seq<Seq<char>>) -> Seq<char> {
    crate::harness::path_joined(crate::harness::path_joined(wiki_dir, lane_of(staged)), join(category, "/"@))
}

/// The writes of routing a page: an error when the decision cannot be routed
/// ([`route_error_of`]); else the plan ([`plan_of`]), the lane and file it lands
/// in, its new body, and the sidecar's new flags.
pub fn routing_writes(
    d: &RouteDecision,
    s: &RouteSignals,
    slug: &str,
    wiki_dir: &str,
    page_body: &str,
    quality_flags: &[String],
    overlap_paths: &[String],
) -> (r: Result<RouteWrites, String>)
    ensures
        match r {
            Err(m) => route_error_of(slug@, strings_view(d.category@), s.taxonomy_has_path, d.proposed_new_subtree is Some)
                == Some(m@),
            Ok(w) => {
                let plan = plan_of(*d, *s);
                let section = opt_view(d.decision_section_markdown);
                let proposed = opt_view(d.proposed_body_markdown);
                &&& route_error_of(slug@, strings_view(d.category@), s.taxonomy_has_path, d.proposed_new_subtree is Some) is None
                &&& route_plan_view(w.plan) == plan
                &&& w.lane@ == lane_of(plan.0)
                &&& w.dest_dir@ == route_dir_of(wiki_dir@, plan.0, strings_view(d.category@))
                &&& w.dest_path@ == crate::harness::path_joined(w.dest_dir@, slug@ + ".md"@)
                &&& w.body@ == effective_body_of(section, proposed, page_body@)
                &&& w.rewrite_body == (proposed is Some || section_present(section))
                &&& w.rewrite_kind@ == rewrite_kind_of(opt_view(d.body_rewrite_kind), proposed is Some)
                &&& strings_view(w.sidecar_flags@) == sidecar_flags_of(
                    strings_view(quality_flags@),
                    strings_view(overlap_paths@),
                    plan.3,
                )
            },
        },
{
    check_route(slug, d.category.as_slice(), s.taxonomy_has_path, d.proposed_new_subtree.is_some())?;
    let plan = plan_route(d, s);
    let lane = if plan.staged {
        String::from_str("staged")
    } else {
        String::from_str("review")
    };
    let cat = crate::curio_docs::join_strings(d.category.as_slice(), "/");
    assert(crate::curio_docs::strings(d.category@) =~= strings_view(d.category@));
    let lane_dir = crate::harness::path_join(wiki_dir, lane.as_str());
    let dest_dir = crate::harness::path_join(lane_dir.as_str(), string_of(&cat).as_str());
    let mut file = chars_of(slug);
    extend_str(&mut file, ".md");
    let dest_path = crate::harness::path_join(dest_dir.as_str(), string_of(&file).as_str());
    let section = match &d.decision_section_markdown {
        Some(t) => Some(t.as_str()),
        None => None,
    };
    let proposed = match &d.proposed_body_markdown {
        Some(t) => Some(t.as_str()),
        None => None,
    };
    let (body, rewrite_body) = effective_body(section, proposed, page_body);
    let kind = match &d.body_rewrite_kind {
        Some(k) => Some(k.as_str()),
        None => None,
    };
    let rewrite_kind = body_rewrite_kind(kind, proposed.is_some());
    let flags = sidecar_flags(quality_flags, overlap_paths, plan.shallow_warning);
    Ok(RouteWrites { plan, lane, dest_dir, dest_path, body, rewrite_body, rewrite_kind, sidecar_flags: flags })
}

// ─── The order of a process run ─────────────────────────────────────────────

/// What a process run does with one intake page.
#[derive(Clone, Copy, Debug, PartialEq, Eq, Structural)]
pub enum PageStep {
    /// No decision names the page: warn and skip it.
    NoDecision,
    /// Its decision merges it into another page, which the merge pass did already.
    Secondary,
    /// A dry run: show where the decision with this index would route it.
    Preview(usize),
    /// Route it by the decision with this index.
    Route(usize),
}

/// The plan of a process run: the merges to make first, then a step per intake page.
#[derive(Clone, Debug)]
pub struct ApplyPlan {
    /// (secondary, primary) pairs; none on a dry run.
    pub merges: Vec<(String, String)>,
    pub steps: Vec<PageStep>,
}

/// The index of the first decision, from `i` on, for this slug.
pub open spec fn find_from(ds: Seq<(Seq<char>, Option<Seq<char>>)>, slug: Seq<char>, i: int) -> Option<int>
    decreases ds.len() - i,
{
    if i < 0 || i >= ds.len() {
        None
    } else if ds[i].0 == slug {
        Some(i)
    } else {
        find_from(ds, slug, i + 1)
    }
}

/// The step for a page: the first decision for its slug decides.
pub open spec fn page_step_of(slug: Seq<char>, ds: Seq<(Seq<char>, Option<Seq<char>>)>, dry_run: bool) -> PageStep {
    match find_from(ds, slug, 0) {
        None => PageStep::NoDecision,
        Some(k) => if ds[k].1 is Some {
            PageStep::Secondary
        } else if dry_run {
            PageStep::Preview(k as usize)
        } else {
            PageStep::Route(k as usize)
        },
    }
}

fn find_decision(decisions: &[(String, Option<String>)], slug: &str) -> (r: Option<usize>)
    ensures
        match r {
            Some(k) => k < decisions@.len() && find_from(directive_views(decisions@), slug@, 0) == Some(k as int),
            None => find_from(directive_views(decisions@), slug@, 0) is None,
        },
{
    let ghost dv = directive_views(decisions@);
    let mut i: usize = 0;
    while i < decisions.len()
        invariant
            i <= decisions@.len(),
            dv == directive_views(decisions@),
            find_from(dv, slug@, 0) == find_from(dv, slug@, i as int),
        decreases decisions@.len() - i,
    {
        assert(dv[i as int].0 == decisions@[i as int].0@);
        if str_eq(decisions[i].0.as_str(), slug) {
            return Some(i);
        }
        i += 1;
    }
    None
}

/// The plan of a process run over the intake pages (by slug) and the agent's
/// decisions (slug and merge target). Outside a dry run the merges come first
/// ([`merge_directives_of`]); then each page, in order, gets the step that its first
/// decision gives ([`page_step_of`]).
pub fn decisions_plan(page_slugs: &[String], decisions: &[(String, Option<String>)], dry_run: bool) -> (r: ApplyPlan)
    ensures
        pair_views(r.merges@) == if dry_run {
            Seq::<(Seq<char>, Seq<char>)>::empty()
        } else {
            merge_directives_of(directive_views(decisions@))
        },
        r.steps@ == strings_view(page_slugs@).map_values(
            |p: Seq<char>| page_step_of(p, directive_views(decisions@), dry_run),
        ),
{
    let merges = if dry_run {
        Vec::new()
    } else {
        merge_directives(decisions)
    };
    let ghost dv = directive_views(decisions@);
    let ghost sv = strings_view(page_slugs@);
    let mut steps: Vec<PageStep> = Vec::new();
    let mut i: usize = 0;
    while i < page_slugs.len()
        invariant
            i <= page_slugs@.len(),
            dv == directive_views(decisions@),
            sv == strings_view(page_slugs@),
            steps@ == sv.take(i as int).map_values(|p: Seq<char>| page_step_of(p, dv, dry_run)),
        decreases page_slugs@.len() - i,
    {
        let step = match find_decision(decisions, page_slugs[i].as_str()) {
            None => PageStep::NoDecision,
            Some(k) => {
                assert(dv[k as int].1 == opt_view(decisions@[k as int].1));
                if decisions[k].1.is_some() {
                    PageStep::Secondary
                } else if dry_run {
                    PageStep::Preview(k)
                } else {
                    PageStep::Route(k)
                }
            },
        };
        assert(step == page_step_of(sv[i as int], dv, dry_run));
        steps.push(step);
        assert(sv.take(i + 1) =~= sv.take(i as int).push(sv[i as int]));
        assert(steps@ =~= sv.take(i + 1).map_values(|p: Seq<char>| page_step_of(p, dv, dry_run)));
        i += 1;
    }
    assert(sv.take(sv.len() as int) =~= sv);
    proof {
        if dry_run {
            assert(pair_views(merges@) =~= Seq::<(Seq<char>, Seq<char>)>::empty());
        }
    }
    ApplyPlan { merges, steps }
}

/// A page is routed only by a decision that names it and merges it nowhere, and a
/// dry run routes nothing and merges nothing.
pub proof fn law_route_only_named_pages(slug: Seq<char>, ds: Seq<(Seq<char>, Option<Seq<char>>)>, dry_run: bool)
    requires
        ds.len() <= usize::MAX,
    ensures
        page_step_of(slug, ds, dry_run) matches PageStep::Route(k) ==> !dry_run && 0 <= k < ds.len()
            && ds[k as int].0 == slug && ds[k as int].1 is None,
        page_step_of(slug, ds, dry_run) matches PageStep::Preview(k) ==> dry_run && 0 <= k < ds.len()
            && ds[k as int].0 == slug,
{
    lemma_find_from(ds, slug, 0);
}

proof fn lemma_find_from(ds: Seq<(Seq<char>, Option<Seq<char>>)>, slug: Seq<char>, i: int)
    ensures
        find_from(ds, slug, i) matches Some(k) ==> i <= k < ds.len() && 0 <= k && ds[k].0 == slug,
    decreases ds.len() - i,
{
    if 0 <= i < ds.len() && ds[i].0 != slug {
        lemma_find_from(ds, slug, i + 1);
    }
}

} // verus!
