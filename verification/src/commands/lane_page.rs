//! Bodies of the staged and review pages that the sync writes: the curation
//! decision, the recommendation, and the proposed page itself.
use vstd::prelude::*;

use crate::commands::sync::{
    escape_html, escape_vec, markdown_html, page_link, page_link_html, spec_markdown_html, title_of,
    to_title,
};
use crate::order::{key_sorted, sort_by_key, TextKeyed};
use crate::curio_docs::{join_strings, join_strs, list_items, row_html, strings};
use crate::text::{
    byte_len, byte_prefix, chars_of, decimal, decimal_vec, extend_chars, extend_str,
    byte_prefix_of, is_byte_boundary, min_bytes, str_eq, string_of, trim, trim_str,
};
use crate::PageStatus;
use crate::page_status_name;

verus! {

// ─── Scores ─────────────────────────────────────────────────────────────────

/// A score as a page shows it: the score in 0..1 rounded to a percentage, and to the
/// number of filled cells of a ten-cell bar.
#[derive(Clone, Copy, Debug, PartialEq, Eq)]
pub struct ScoreMark {
    pub pct: u32,
    pub filled: u32,
}

/// Ten cells, the first `filled` of them full.
pub open spec fn bar_cells(filled: nat) -> Seq<char> {
    Seq::new(10, |i: int| if i < filled { '▰' } else { '▱' })
}

pub open spec fn capped_fill(m: ScoreMark) -> nat {
    if m.filled < 10 {
        m.filled as nat
    } else {
        10
    }
}

/// `62% <code>▰▰▰▰▰▰▱▱▱▱</code>`.
pub open spec fn score_bar_html(m: ScoreMark) -> Seq<char> {
    decimal(m.pct as nat) + "% <code>"@ + bar_cells(capped_fill(m)) + "</code>"@
}

/// A score as a percentage and a text bar, for a table cell.
pub fn score_bar(mark: ScoreMark) -> (r: String)
    ensures
        r@ == score_bar_html(mark),
{
    let filled: u32 = if mark.filled < 10 {
        mark.filled
    } else {
        10
    };
    let mut out = decimal_vec(mark.pct as u64);
    extend_str(&mut out, "% <code>");
    let ghost before = out@;
    let mut i: u32 = 0;
    while i < 10
        invariant
            i <= 10,
            filled == capped_fill(mark),
            out@ == before + bar_cells(filled as nat).take(i as int),
        decreases 10 - i,
    {
        if i < filled {
            out.push('▰');
        } else {
            out.push('▱');
        }
        assert(bar_cells(filled as nat).take(i + 1) =~= bar_cells(filled as nat).take(
            i as int,
        ).push(if i < filled { '▰' } else { '▱' }));
        i += 1;
    }
    assert(bar_cells(filled as nat).take(10) =~= bar_cells(filled as nat));
    extend_str(&mut out, "</code>");
    assert(out@ =~= score_bar_html(mark));
    string_of(&out)
}

// ─── Table rows ─────────────────────────────────────────────────────────────

pub open spec fn code_html(s: Seq<char>) -> Seq<char> {
    "<code>"@ + s + "</code>"@
}

#[verifier::opaque]
pub open spec fn esc_row(key: Seq<char>, text: Seq<char>) -> Seq<char> {
    row_html(key, escape_html(text))
}

#[verifier::opaque]
pub open spec fn code_row(key: Seq<char>, text: Seq<char>) -> Seq<char> {
    row_html(key, code_html(escape_html(text)))
}

#[verifier::opaque]
pub open spec fn score_row(key: Seq<char>, m: ScoreMark) -> Seq<char> {
    row_html(key, score_bar_html(m))
}

#[verifier::opaque]
pub open spec fn opt_esc_row(key: Seq<char>, text: Option<String>) -> Seq<char> {
    match text {
        Some(t) => esc_row(key, t@),
        None => seq![],
    }
}

/// Escaped items, each in an `<li>`.
#[verifier::opaque]
pub open spec fn escaped_items(items: Seq<Seq<char>>) -> Seq<char> {
    list_items(items.map_values(|s: Seq<char>| escape_html(s)))
}

fn push_row(body: &mut Vec<char>, key: &str, value: &Vec<char>)
    ensures
        final(body)@ == old(body)@ + row_html(key@, value@),
{
    let ghost start = body@;
    extend_str(body, "<tr><th>");
    extend_str(body, key);
    extend_str(body, "</th><td>");
    extend_chars(body, value);
    extend_str(body, "</td></tr>");
    assert(body@ =~= start + row_html(key@, value@));
}

fn push_esc_row(body: &mut Vec<char>, key: &str, text: &str)
    ensures
        final(body)@ == old(body)@ + esc_row(key@, text@),
{
    proof {
        reveal(esc_row);
    }
    let value = escape_vec(&chars_of(text));
    push_row(body, key, &value);
}

fn push_code_row(body: &mut Vec<char>, key: &str, text: &str)
    ensures
        final(body)@ == old(body)@ + code_row(key@, text@),
{
    proof {
        reveal(code_row);
    }
    let mut value: Vec<char> = Vec::new();
    extend_str(&mut value, "<code>");
    let escaped = escape_vec(&chars_of(text));
    extend_chars(&mut value, &escaped);
    extend_str(&mut value, "</code>");
    assert(value@ =~= code_html(escape_html(text@)));
    push_row(body, key, &value);
}

fn push_score_row(body: &mut Vec<char>, key: &str, mark: ScoreMark)
    ensures
        final(body)@ == old(body)@ + score_row(key@, mark),
{
    proof {
        reveal(score_row);
    }
    let bar = chars_of(score_bar(mark).as_str());
    push_row(body, key, &bar);
}

fn push_opt_esc_row(body: &mut Vec<char>, key: &str, text: &Option<String>)
    ensures
        final(body)@ == old(body)@ + opt_esc_row(key@, *text),
{
    proof {
        reveal(opt_esc_row);
    }
    match text {
        Some(t) => push_esc_row(body, key, t.as_str()),
        None => {
            assert(body@ =~= old(body)@ + opt_esc_row(key@, *text));
        },
    }
}

fn push_escaped_items(body: &mut Vec<char>, items: &Vec<String>)
    ensures
        final(body)@ == old(body)@ + escaped_items(strings(items@)),
{
    proof {
        reveal(escaped_items);
    }
    let ghost all = strings(items@).map_values(|s: Seq<char>| escape_html(s));
    let mut i: usize = 0;
    assert(all.take(0) =~= Seq::<Seq<char>>::empty());
    while i < items.len()
        invariant
            i <= items@.len(),
            all == strings(items@).map_values(|s: Seq<char>| escape_html(s)),
            body@ == old(body)@ + list_items(all.take(i as int)),
        decreases items@.len() - i,
    {
        extend_str(body, "<li>");
        let escaped = escape_vec(&chars_of(items[i].as_str()));
        extend_chars(body, &escaped);
        extend_str(body, "</li>");
        assert(all.take(i + 1).drop_last() =~= all.take(i as int));
        assert(all.take(i + 1).last() == escape_html(items@[i as int]@));
        assert(body@ =~= old(body)@ + list_items(all.take(i + 1)));
        i += 1;
    }
    assert(all.take(items@.len() as int) =~= all);
}

// ─── The facts a lane page shows ────────────────────────────────────────────

/// A change to the taxonomy that a proposal carries.
#[derive(Clone, Debug)]
pub struct TaxonomyMutation {
    pub proposed_node_title: String,
    pub proposed_node_slug: String,
    pub proposed_parent_path: Vec<String>,
    pub node_description: String,
    pub rationale: String,
    pub rejected_nearby_nodes: Vec<String>,
}

/// What the proposal record of a page says, with its scores as marks.
#[derive(Clone, Debug)]
pub struct ProposalFacts {
    /// The proposal kind's name.
    pub kind: String,
    pub recommended_action: String,
    pub merge_target: Option<String>,
    pub review_reason: Option<String>,
    pub hierarchy_fit: ScoreMark,
    pub overlap_risk: ScoreMark,
    pub evidence_completeness: ScoreMark,
    pub freshness: ScoreMark,
    pub taxonomy_mutation: Option<TaxonomyMutation>,
    pub alternatives_considered: Vec<String>,
    pub unresolved_questions: Vec<String>,
    pub rationale: String,
    pub body_rewrite_kind: Option<String>,
    pub decision_section_present: bool,
}

/// What the routing analysis of a page says.
#[derive(Clone, Debug)]
pub struct RoutingFacts {
    pub rationale: String,
    pub review_reason: Option<String>,
    pub proposed_new_subtree: Option<String>,
}

/// When a page was auto-healed, and the heal's confidence as the page prints it.
#[derive(Clone, Debug)]
pub struct AutoHealMark {
    pub healed_at: String,
    pub confidence_text: String,
}

/// A staged or review page with what its sidecars say about it.
#[derive(Clone, Debug)]
pub struct LanePage {
    pub status: PageStatus,
    pub category: Vec<String>,
    pub route_confidence: ScoreMark,
    pub information_quality: ScoreMark,
    pub usability: ScoreMark,
    pub quality_flags: Vec<String>,
    pub proposal: Option<ProposalFacts>,
    pub analysis: Option<RoutingFacts>,
    pub body_markdown: String,
    pub auto_heal: Option<AutoHealMark>,
}

// ─── The page body ──────────────────────────────────────────────────────────

pub open spec fn is_review(lane: Seq<char>) -> bool {
    lane == "review"@
}

#[verifier::opaque]
pub open spec fn banner_html(lane: Seq<char>) -> Seq<char> {
    "<ac:structured-macro ac:name=\""@ + (if is_review(lane) {
        "warning"@
    } else {
        "info"@
    }) + "\"><ac:rich-text-body><p><strong>"@ + (if is_review(lane) {
        "Review"@
    } else {
        "Staged"@
    }) + " item in the Curio workflow.</strong> "@ + (if is_review(lane) {
        "This page needs human judgment. Read the curation decision below, then react or label to signal an outcome (see the pinned Curio comment at the bottom)."@
    } else {
        "This page is a curated proposal awaiting publication. The curation decision below records the agent's rationale, scores, and alternatives. Approve to promote to published."@
    }) + "</p></ac:rich-text-body></ac:structured-macro>"@
}

/// The route a page's category names, or `unrouted`.
pub open spec fn route_text(category: Seq<Seq<char>>) -> Seq<char> {
    if category.len() == 0 {
        "unrouted"@
    } else {
        join_strs(category, " / "@)
    }
}

#[verifier::opaque]
pub open spec fn proposal_score_rows(p: Option<ProposalFacts>) -> Seq<char> {
    match p {
        Some(p) => score_row("Hierarchy fit"@, p.hierarchy_fit) + score_row(
            "Overlap risk"@,
            p.overlap_risk,
        ) + score_row("Evidence completeness"@, p.evidence_completeness) + score_row(
            "Freshness"@,
            p.freshness,
        ),
        None => seq![],
    }
}

#[verifier::opaque]
pub open spec fn flags_row(flags: Seq<Seq<char>>) -> Seq<char> {
    if flags.len() == 0 {
        seq![]
    } else {
        esc_row("Quality flags"@, join_strs(flags, ", "@))
    }
}

#[verifier::opaque]
pub open spec fn decision_html(page: LanePage) -> Seq<char> {
    "<h2>Curation Decision</h2>"@ + "<table><tbody>"@ + esc_row(
        "Status"@,
        page_status_name(page.status),
    ) + esc_row("Route"@, route_text(strings(page.category@))) + score_row(
        "Route confidence"@,
        page.route_confidence,
    ) + score_row("Information quality"@, page.information_quality) + score_row(
        "Usability"@,
        page.usability,
    ) + proposal_score_rows(page.proposal) + flags_row(strings(page.quality_flags@))
        + "</tbody></table>"@
}

pub open spec fn nonblank(s: Seq<char>) -> bool {
    trim(s).len() > 0
}

/// The optional rows of a taxonomy change: parent path, description, rationale and
/// the nodes considered and rejected, each where there is something to show.
#[verifier::opaque]
pub open spec fn mutation_extra_rows(tm: TaxonomyMutation) -> Seq<char> {
    (if tm.proposed_parent_path@.len() == 0 {
        seq![]
    } else {
        code_row("Parent path"@, join_strs(strings(tm.proposed_parent_path@), " / "@))
    }) + (if nonblank(tm.node_description@) {
        esc_row("Description"@, tm.node_description@)
    } else {
        seq![]
    }) + (if nonblank(tm.rationale@) {
        esc_row("Rationale"@, tm.rationale@)
    } else {
        seq![]
    }) + (if tm.rejected_nearby_nodes@.len() == 0 {
        seq![]
    } else {
        esc_row("Considered + rejected"@, join_strs(strings(tm.rejected_nearby_nodes@), ", "@))
    })
}

#[verifier::opaque]
pub open spec fn mutation_html(tm: TaxonomyMutation) -> Seq<char> {
    "<h3>Taxonomy mutation proposed</h3>"@
        + "<ac:structured-macro ac:name=\"note\"><ac:rich-text-body>"@
        + "<p>Approving this proposal also adds a new node to <code>NORTHSTAR.md</code>.</p>"@
        + "<table><tbody>"@ + esc_row("New node title"@, tm.proposed_node_title@) + code_row(
        "Slug"@,
        tm.proposed_node_slug@,
    ) + mutation_extra_rows(tm) + "</tbody></table>"@
        + "</ac:rich-text-body></ac:structured-macro>"@
}

/// A `<h3>` heading and the escaped items as a bullet list, or nothing for no items.
#[verifier::opaque]
pub open spec fn item_list_html(heading: Seq<char>, items: Seq<Seq<char>>) -> Seq<char> {
    if items.len() == 0 {
        seq![]
    } else {
        "<h3>"@ + heading + "</h3><ul>"@ + escaped_items(items) + "</ul>"@
    }
}

#[verifier::opaque]
pub open spec fn rewrite_badge(kind: Option<String>, decision_section: bool) -> Seq<char> {
    match kind {
        Some(k) => if k@ != "none"@ || decision_section {
            "<p><em>Body rewrite: <code>"@ + escape_html(k@) + "</code>"@ + (if decision_section {
                " (with structured decision section)"@
            } else {
                seq![]
            }) + "</em></p>"@
        } else {
            seq![]
        },
        None => seq![],
    }
}

/// The recommendation table of a proposal.
#[verifier::opaque]
pub open spec fn recommendation_table(p: ProposalFacts) -> Seq<char> {
    "<h2>Recommendation</h2>"@ + "<table><tbody>"@ + esc_row("Proposal kind"@, p.kind@) + esc_row(
        "Recommended action"@,
        p.recommended_action@,
    ) + match p.merge_target {
        Some(m) => code_row("Merge target"@, m@),
        None => seq![],
    } + opt_esc_row("Review reason"@, p.review_reason) + "</tbody></table>"@
}

pub open spec fn rationale_html(text: Seq<char>) -> Seq<char> {
    if nonblank(text) {
        "<h3>Rationale</h3><p>"@ + escape_html(text) + "</p>"@
    } else {
        seq![]
    }
}

/// What follows the table: the taxonomy change, the alternatives, the open
/// questions, the rationale and how the body was rewritten.
#[verifier::opaque]
pub open spec fn recommendation_notes(p: ProposalFacts) -> Seq<char> {
    (match p.taxonomy_mutation {
        Some(tm) => mutation_html(tm),
        None => seq![],
    }) + item_list_html("Alternatives considered"@, strings(p.alternatives_considered@))
        + item_list_html("Unresolved questions"@, strings(p.unresolved_questions@))
        + rationale_html(p.rationale@) + rewrite_badge(
        p.body_rewrite_kind,
        p.decision_section_present,
    )
}

pub open spec fn recommendation_html(p: ProposalFacts) -> Seq<char> {
    recommendation_table(p) + recommendation_notes(p)
}

#[verifier::opaque]
pub open spec fn analysis_html(a: RoutingFacts) -> Seq<char> {
    "<h2>Routing analysis</h2><table><tbody>"@ + (if nonblank(a.rationale@) {
        esc_row("Rationale"@, a.rationale@)
    } else {
        seq![]
    }) + opt_esc_row("Review reason"@, a.review_reason) + opt_esc_row(
        "Proposed subtree"@,
        a.proposed_new_subtree,
    ) + "</tbody></table>"@
}

/// The notice of an auto-heal: its date (the first ten bytes of the stamp) and its
/// confidence.
#[verifier::opaque]
pub open spec fn callout_html(h: AutoHealMark) -> Seq<char> {
    "<ac:structured-macro ac:name=\"info\"><ac:rich-text-body><p>⚡ Auto-healed by Curio on "@
        + byte_prefix_of(h.healed_at@, 10) + " | confidence: "@ + h.confidence_text@
        + "%</p></ac:rich-text-body></ac:structured-macro>"@
}

pub open spec fn middle_html(page: LanePage) -> Seq<char> {
    match page.proposal {
        Some(p) => recommendation_html(p),
        None => match page.analysis {
            Some(a) => analysis_html(a),
            None => seq![],
        },
    }
}

/// The body of a staged or review page.
pub open spec fn lane_page_body(page: LanePage, lane: Seq<char>) -> Seq<char> {
    banner_html(lane) + decision_html(page) + middle_html(page) + "<h2>Proposed page</h2>"@
        + spec_markdown_html(page.body_markdown@) + match page.auto_heal {
        Some(h) => callout_html(h),
        None => seq![],
    }
}

/// The stamp of an auto-heal can be cut at ten bytes.
pub open spec fn heal_stamp_ok(page: LanePage) -> bool {
    match page.auto_heal {
        Some(h) => is_byte_boundary(h.healed_at@, min_bytes(h.healed_at@, 10)),
        None => true,
    }
}

fn push_banner(body: &mut Vec<char>, lane: &str)
    ensures
        final(body)@ == old(body)@ + banner_html(lane@),
{
    proof {
        reveal(banner_html);
    }
    let ghost start = body@;
    let review = str_eq(lane, "review");
    proof {
        reveal_strlit("review");
    }
    extend_str(body, "<ac:structured-macro ac:name=\"");
    extend_str(body, if review { "warning" } else { "info" });
    extend_str(body, "\"><ac:rich-text-body><p><strong>");
    extend_str(body, if review { "Review" } else { "Staged" });
    extend_str(body, " item in the Curio workflow.</strong> ");
    extend_str(
        body,
        if review {
            "This page needs human judgment. Read the curation decision below, then react or label to signal an outcome (see the pinned Curio comment at the bottom)."
        } else {
            "This page is a curated proposal awaiting publication. The curation decision below records the agent's rationale, scores, and alternatives. Approve to promote to published."
        },
    );
    extend_str(body, "</p></ac:rich-text-body></ac:structured-macro>");
    assert(body@ =~= start + banner_html(lane@));
}

fn is_nonblank(s: &str) -> (b: bool)
    ensures
        b == nonblank(s@),
{
    trim_str(s).len() > 0
}

fn push_decision(body: &mut Vec<char>, page: &LanePage)
    ensures
        final(body)@ == old(body)@ + decision_html(*page),
{
    proof {
        reveal(decision_html);
        reveal(proposal_score_rows);
        reveal(flags_row);
    }
    let ghost start = body@;
    extend_str(body, "<h2>Curation Decision</h2>");
    extend_str(body, "<table><tbody>");
    push_esc_row(body, "Status", page.status.as_str());
    let route: Vec<char> = if page.category.len() == 0 {
        chars_of("unrouted")
    } else {
        join_strings(page.category.as_slice(), " / ")
    };
    assert(route@ == route_text(strings(page.category@)));
    let route_s = string_of(&route);
    push_esc_row(body, "Route", route_s.as_str());
    push_score_row(body, "Route confidence", page.route_confidence);
    push_score_row(body, "Information quality", page.information_quality);
    push_score_row(body, "Usability", page.usability);
    let ghost mid = body@;
    match &page.proposal {
        Some(p) => {
            push_score_row(body, "Hierarchy fit", p.hierarchy_fit);
            push_score_row(body, "Overlap risk", p.overlap_risk);
            push_score_row(body, "Evidence completeness", p.evidence_completeness);
            push_score_row(body, "Freshness", p.freshness);
        },
        None => {},
    }
    assert(body@ =~= mid + proposal_score_rows(page.proposal));
    let ghost mid2 = body@;
    if page.quality_flags.len() > 0 {
        let flags = string_of(&join_strings(page.quality_flags.as_slice(), ", "));
        push_esc_row(body, "Quality flags", flags.as_str());
    }
    assert(body@ =~= mid2 + flags_row(strings(page.quality_flags@)));
    extend_str(body, "</tbody></table>");
    assert(body@ =~= start + decision_html(*page));
}

fn push_mutation_extra_rows(body: &mut Vec<char>, tm: &TaxonomyMutation)
    ensures
        final(body)@ == old(body)@ + mutation_extra_rows(*tm),
{
    proof {
        reveal(mutation_extra_rows);
    }
    let ghost start = body@;
    if tm.proposed_parent_path.len() > 0 {
        let path = string_of(&join_strings(tm.proposed_parent_path.as_slice(), " / "));
        push_code_row(body, "Parent path", path.as_str());
    }
    let ghost a = body@;
    if is_nonblank(tm.node_description.as_str()) {
        push_esc_row(body, "Description", tm.node_description.as_str());
    }
    let ghost b = body@;
    if is_nonblank(tm.rationale.as_str()) {
        push_esc_row(body, "Rationale", tm.rationale.as_str());
    }
    let ghost c = body@;
    if tm.rejected_nearby_nodes.len() > 0 {
        let nearby = string_of(&join_strings(tm.rejected_nearby_nodes.as_slice(), ", "));
        push_esc_row(body, "Considered + rejected", nearby.as_str());
    }
    assert(body@ =~= start + mutation_extra_rows(*tm));
}

fn push_mutation(body: &mut Vec<char>, tm: &TaxonomyMutation)
    ensures
        final(body)@ == old(body)@ + mutation_html(*tm),
{
    proof {
        reveal(mutation_html);
    }
    let ghost start = body@;
    extend_str(body, "<h3>Taxonomy mutation proposed</h3>");
    extend_str(body, "<ac:structured-macro ac:name=\"note\"><ac:rich-text-body>");
    extend_str(
        body,
        "<p>Approving this proposal also adds a new node to <code>NORTHSTAR.md</code>.</p>",
    );
    extend_str(body, "<table><tbody>");
    push_esc_row(body, "New node title", tm.proposed_node_title.as_str());
    push_code_row(body, "Slug", tm.proposed_node_slug.as_str());
    push_mutation_extra_rows(body, tm);
    extend_str(body, "</tbody></table>");
    extend_str(body, "</ac:rich-text-body></ac:structured-macro>");
    assert(body@ =~= start + mutation_html(*tm));
}

fn push_item_list(body: &mut Vec<char>, heading: &str, items: &Vec<String>)
    ensures
        final(body)@ == old(body)@ + item_list_html(heading@, strings(items@)),
{
    proof {
        reveal(item_list_html);
    }
    let ghost start = body@;
    if items.len() > 0 {
        extend_str(body, "<h3>");
        extend_str(body, heading);
        extend_str(body, "</h3><ul>");
        push_escaped_items(body, items);
        extend_str(body, "</ul>");
    }
    assert(body@ =~= start + item_list_html(heading@, strings(items@)));
}

fn push_rewrite_badge(body: &mut Vec<char>, kind: &Option<String>, decision_section: bool)
    ensures
        final(body)@ == old(body)@ + rewrite_badge(*kind, decision_section),
{
    proof {
        reveal(rewrite_badge);
    }
    let ghost start = body@;
    match kind {
        Some(k) => {
            let is_none = str_eq(k.as_str(), "none");
            if !is_none || decision_section {
                extend_str(body, "<p><em>Body rewrite: <code>");
                let escaped = escape_vec(&chars_of(k.as_str()));
                extend_chars(body, &escaped);
                extend_str(body, "</code>");
                if decision_section {
                    extend_str(body, " (with structured decision section)");
                }
                extend_str(body, "</em></p>");
            }
        },
        None => {},
    }
    assert(body@ =~= start + rewrite_badge(*kind, decision_section));
}

fn push_recommendation_table(body: &mut Vec<char>, p: &ProposalFacts)
    ensures
        final(body)@ == old(body)@ + recommendation_table(*p),
{
    proof {
        reveal(recommendation_table);
    }
    let ghost start = body@;
    extend_str(body, "<h2>Recommendation</h2>");
    extend_str(body, "<table><tbody>");
    push_esc_row(body, "Proposal kind", p.kind.as_str());
    push_esc_row(body, "Recommended action", p.recommended_action.as_str());
    let ghost a = body@;
    match &p.merge_target {
        Some(m) => push_code_row(body, "Merge target", m.as_str()),
        None => {},
    }
    assert(body@ =~= a + match p.merge_target {
        Some(m) => code_row("Merge target"@, m@),
        None => seq![],
    });
    push_opt_esc_row(body, "Review reason", &p.review_reason);
    extend_str(body, "</tbody></table>");
    assert(body@ =~= start + recommendation_table(*p));
}

fn push_recommendation_notes(body: &mut Vec<char>, p: &ProposalFacts)
    ensures
        final(body)@ == old(body)@ + recommendation_notes(*p),
{
    proof {
        reveal(recommendation_notes);
    }
    let ghost start = body@;
    match &p.taxonomy_mutation {
        Some(tm) => push_mutation(body, tm),
        None => {},
    }
    let ghost b = body@;
    push_item_list(body, "Alternatives considered", &p.alternatives_considered);
    push_item_list(body, "Unresolved questions", &p.unresolved_questions);
    let ghost c = body@;
    if is_nonblank(p.rationale.as_str()) {
        extend_str(body, "<h3>Rationale</h3><p>");
        let escaped = escape_vec(&chars_of(p.rationale.as_str()));
        extend_chars(body, &escaped);
        extend_str(body, "</p>");
    }
    assert(body@ =~= c + rationale_html(p.rationale@));
    push_rewrite_badge(body, &p.body_rewrite_kind, p.decision_section_present);
    assert(body@ =~= start + recommendation_notes(*p));
}

fn push_recommendation(body: &mut Vec<char>, p: &ProposalFacts)
    ensures
        final(body)@ == old(body)@ + recommendation_html(*p),
{
    let ghost start = body@;
    push_recommendation_table(body, p);
    push_recommendation_notes(body, p);
    assert(body@ =~= start + recommendation_html(*p));
}

fn push_analysis(body: &mut Vec<char>, a: &RoutingFacts)
    ensures
        final(body)@ == old(body)@ + analysis_html(*a),
{
    proof {
        reveal(analysis_html);
    }
    let ghost start = body@;
    extend_str(body, "<h2>Routing analysis</h2><table><tbody>");
    let ghost m = body@;
    if is_nonblank(a.rationale.as_str()) {
        push_esc_row(body, "Rationale", a.rationale.as_str());
    }
    assert(body@ =~= m + (if nonblank(a.rationale@) {
        esc_row("Rationale"@, a.rationale@)
    } else {
        seq![]
    }));
    push_opt_esc_row(body, "Review reason", &a.review_reason);
    push_opt_esc_row(body, "Proposed subtree", &a.proposed_new_subtree);
    extend_str(body, "</tbody></table>");
    assert(body@ =~= start + analysis_html(*a));
}

fn push_callout(body: &mut Vec<char>, h: &AutoHealMark)
    requires
        is_byte_boundary(h.healed_at@, min_bytes(h.healed_at@, 10)),
    ensures
        final(body)@ == old(body)@ + callout_html(*h),
{
    proof {
        reveal(callout_html);
    }
    let ghost start = body@;
    extend_str(
        body,
        "<ac:structured-macro ac:name=\"info\"><ac:rich-text-body><p>⚡ Auto-healed by Curio on ",
    );
    let date = byte_prefix(&chars_of(h.healed_at.as_str()), 10);
    extend_chars(body, &date);
    extend_str(body, " | confidence: ");
    extend_str(body, h.confidence_text.as_str());
    extend_str(body, "%</p></ac:rich-text-body></ac:structured-macro>");
    assert(body@ =~= start + callout_html(*h));
}

/// The body of a staged (or, for `lane == "review"`, review) page: a banner, the
/// curation decision with its scores, the recommendation of the proposal record (or,
/// without one, the routing analysis), the page itself, and the notice of an auto-heal.
pub fn render_lane_page_body(page: &LanePage, lane: &str) -> (r: String)
    requires
        heal_stamp_ok(*page),
    ensures
        r@ == lane_page_body(*page, lane@),
{
    let mut body: Vec<char> = Vec::new();
    push_banner(&mut body, lane);
    push_decision(&mut body, page);
    let ghost a = body@;
    match &page.proposal {
        Some(p) => push_recommendation(&mut body, p),
        None => match &page.analysis {
            Some(an) => push_analysis(&mut body, an),
            None => {},
        },
    }
    assert(body@ =~= a + middle_html(*page));
    extend_str(&mut body, "<h2>Proposed page</h2>");
    let html = markdown_html(page.body_markdown.as_str());
    extend_str(&mut body, html.as_str());
    let ghost b = body@;
    match &page.auto_heal {
        Some(h) => push_callout(&mut body, h),
        None => {},
    }
    assert(body@ =~= b + match page.auto_heal {
        Some(h) => callout_html(h),
        None => seq![],
    });
    assert(body@ =~= lane_page_body(*page, lane@));
    string_of(&body)
}

// ─── Child links ────────────────────────────────────────────────────────────

/// What a child page's proposal record says, for its badge.
#[derive(Clone, Debug)]
pub struct BadgeFacts {
    /// The proposal kind's name.
    pub kind: String,
    /// The route confidence, rounded to a percentage.
    pub route_confidence_pct: u32,
    /// Whether the overlap risk is at least 0.7.
    pub high_overlap: bool,
    /// Whether the proposal adds a taxonomy node.
    pub new_node: bool,
    pub merge_target: Option<String>,
}

#[verifier::opaque]
pub open spec fn badge_html(b: Option<BadgeFacts>) -> Seq<char> {
    match b {
        Some(f) => " "@ + code_html(f.kind@) + " <em>"@ + decimal(f.route_confidence_pct as nat)
            + "%</em>"@ + (if f.high_overlap {
            " <strong>⚠ overlap</strong>"@
        } else {
            seq![]
        }) + (if f.new_node {
            " <strong>+ new node</strong>"@
        } else {
            seq![]
        }) + match f.merge_target {
            Some(m) => " — merge → "@ + code_html(escape_html(m@)),
            None => seq![],
        },
        None => seq![],
    }
}

/// The status badge of a child page: its proposal kind, route confidence and the
/// flags that call for a closer look; nothing for a page without a proposal record.
pub fn child_status_badge(proposal: Option<&BadgeFacts>) -> (r: String)
    ensures
        r@ == badge_html(match proposal {
            Some(f) => Some(*f),
            None => None,
        }),
{
    proof {
        reveal(badge_html);
    }
    let f = match proposal {
        Some(f) => f,
        None => {
            return String::new();
        },
    };
    let mut out: Vec<char> = Vec::new();
    extend_str(&mut out, " ");
    extend_str(&mut out, "<code>");
    extend_str(&mut out, f.kind.as_str());
    extend_str(&mut out, "</code>");
    extend_str(&mut out, " <em>");
    let pct = decimal_vec(f.route_confidence_pct as u64);
    extend_chars(&mut out, &pct);
    extend_str(&mut out, "%</em>");
    let ghost a = out@;
    if f.high_overlap {
        extend_str(&mut out, " <strong>⚠ overlap</strong>");
    }
    if f.new_node {
        extend_str(&mut out, " <strong>+ new node</strong>");
    }
    let ghost b = out@;
    match &f.merge_target {
        Some(m) => {
            extend_str(&mut out, " — merge → ");
            extend_str(&mut out, "<code>");
            let escaped = escape_vec(&chars_of(m.as_str()));
            extend_chars(&mut out, &escaped);
            extend_str(&mut out, "</code>");
        },
        None => {},
    }
    assert(out@ =~= b + match f.merge_target {
        Some(m) => " — merge → "@ + code_html(escape_html(m@)),
        None => seq![],
    });
    assert(out@ =~= badge_html(Some(*f)));
    string_of(&out)
}

/// A page or branch directly under a directory, as its child list shows it.
#[derive(Clone, Debug)]
pub struct ChildLink {
    pub title: String,
    /// The first line of the page, shortened.
    pub summary: String,
    pub is_branch: bool,
    pub proposal: Option<BadgeFacts>,
}

impl TextKeyed for ChildLink {
    open spec fn key_view(&self) -> Seq<char> {
        self.title@
    }

    fn key(&self) -> (r: &str) {
        self.title.as_str()
    }
}

#[verifier::opaque]
pub open spec fn child_link_item(space_key: Seq<char>, c: ChildLink) -> Seq<char> {
    "<li>"@ + page_link_html(space_key, c.title@, c.title@) + " <em>("@ + (if c.is_branch {
        "branch"@
    } else {
        "page"@
    }) + ")</em>"@ + badge_html(c.proposal) + (if c.summary@.len() == 0 {
        seq![]
    } else {
        " — "@ + escape_html(c.summary@)
    }) + "</li>"@
}

pub open spec fn child_link_items(space_key: Seq<char>, cs: Seq<ChildLink>) -> Seq<char>
    decreases cs.len(),
{
    if cs.len() == 0 {
        seq![]
    } else {
        child_link_items(space_key, cs.drop_last()) + child_link_item(space_key, cs.last())
    }
}

/// The child list of a directory page, over its children in the order given.
pub open spec fn child_links_html(space_key: Seq<char>, cs: Seq<ChildLink>) -> Seq<char> {
    if cs.len() == 0 {
        seq![]
    } else {
        "<h2>Child Pages</h2><ul>"@ + child_link_items(space_key, cs) + "</ul>"@
    }
}

fn push_child_link(body: &mut Vec<char>, space_key: &str, c: &ChildLink)
    ensures
        final(body)@ == old(body)@ + child_link_item(space_key@, *c),
{
    proof {
        reveal(child_link_item);
    }
    let ghost start = body@;
    extend_str(body, "<li>");
    let link = page_link(space_key, c.title.as_str(), c.title.as_str());
    extend_str(body, link.as_str());
    extend_str(body, " <em>(");
    extend_str(body, if c.is_branch { "branch" } else { "page" });
    extend_str(body, ")</em>");
    let badge = child_status_badge(c.proposal.as_ref());
    extend_str(body, badge.as_str());
    let ghost a = body@;
    let summary = chars_of(c.summary.as_str());
    if summary.len() > 0 {
        extend_str(body, " — ");
        let escaped = escape_vec(&summary);
        extend_chars(body, &escaped);
    }
    assert(body@ =~= a + (if c.summary@.len() == 0 {
        seq![]
    } else {
        " — "@ + escape_html(c.summary@)
    }));
    extend_str(body, "</li>");
    assert(body@ =~= start + child_link_item(space_key@, *c));
}

/// The "Child Pages" list of a directory: its children sorted by title, each linked,
/// with its role, badge and summary; nothing when there are no children. Children
/// with equal titles may come in either order.
pub fn render_child_links(children: Vec<ChildLink>, space_key: &str) -> (r: String)
    ensures
        exists|sorted: Seq<ChildLink>|
            #![trigger key_sorted(sorted)]
            sorted.to_multiset() == children@.to_multiset() && key_sorted(sorted) && r@
                == child_links_html(space_key@, sorted),
{
    let sorted = sort_by_key(children);
    if sorted.len() == 0 {
        assert(child_links_html(space_key@, sorted@) == Seq::<char>::empty());
        return String::new();
    }
    let mut body: Vec<char> = Vec::new();
    extend_str(&mut body, "<h2>Child Pages</h2><ul>");
    let ghost start = body@;
    let mut i: usize = 0;
    while i < sorted.len()
        invariant
            i <= sorted@.len(),
            body@ == start + child_link_items(space_key@, sorted@.take(i as int)),
        decreases sorted@.len() - i,
    {
        push_child_link(&mut body, space_key, &sorted[i]);
        assert(sorted@.take(i + 1).drop_last() =~= sorted@.take(i as int));
        assert(body@ =~= start + child_link_items(space_key@, sorted@.take(i + 1)));
        i += 1;
    }
    assert(sorted@.take(sorted@.len() as int) =~= sorted@);
    extend_str(&mut body, "</ul>");
    assert(body@ =~= child_links_html(space_key@, sorted@));
    string_of(&body)
}

pub open spec fn lane_branch_html(lane: Seq<char>, rel_path: Seq<char>, outline: Seq<char>) -> Seq<char> {
    "<p>"@ + escape_html(title_of(lane)) + " proposal branch for <code>"@ + escape_html(rel_path)
        + "</code>.</p>"@ + (if trim(outline).len() > 0 {
        outline
    } else {
        seq![]
    })
}

/// The body of a directory page in the staged or review lane: a line naming the
/// branch, then the child list of the directory when it could be read and is not
/// blank.
pub fn render_lane_branch_body(
    space_key: &str,
    rel_path: &str,
    lane: &str,
    children: Option<Vec<ChildLink>>,
) -> (r: String)
    ensures
        children is None ==> r@ == lane_branch_html(lane@, rel_path@, seq![]),
        children is Some ==> exists|sorted: Seq<ChildLink>|
            #![trigger key_sorted(sorted)]
            sorted.to_multiset() == children.unwrap()@.to_multiset() && key_sorted(sorted) && r@
                == lane_branch_html(lane@, rel_path@, child_links_html(space_key@, sorted)),
{
    let mut body: Vec<char> = Vec::new();
    extend_str(&mut body, "<p>");
    let title = to_title(lane);
    let escaped_title = escape_vec(&chars_of(title.as_str()));
    extend_chars(&mut body, &escaped_title);
    extend_str(&mut body, " proposal branch for <code>");
    let escaped_path = escape_vec(&chars_of(rel_path));
    extend_chars(&mut body, &escaped_path);
    extend_str(&mut body, "</code>.</p>");
    let ghost head = body@;
    match children {
        Some(cs) => {
            let ghost cs0 = cs@;
            let outline = render_child_links(cs, space_key);
            if trim_str(outline.as_str()).len() > 0 {
                extend_str(&mut body, outline.as_str());
            }
            assert(body@ =~= lane_branch_html(lane@, rel_path@, outline@));
        },
        None => {
            assert(body@ =~= lane_branch_html(lane@, rel_path@, seq![]));
        },
    }
    string_of(&body)
}

} // verus!
