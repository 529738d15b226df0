//! Parsed HTML documents: the parser's nodes listed in document order with their
//! child counts, and the element tree rebuilt from that listing.
use vstd::prelude::*;

use crate::commands::html_md::{
    first_named, first_named_exec, first_of, first_of_exec, md_elem, text_exec, text_of,
    element_to_md, HtmlElement, HtmlNode, OtherKind,
};
use crate::text::{string_of, trim, trim_vec, chars_of};
use crate::commands::html_md::OtherKind::{Comment, Doctype, Document, Fragment, ProcessingInstruction};
use crate::commands::html_doc::HtmlKind::{Element as ElementItem, Other as OtherItem, Text as TextItem};
use scraper::Node::{
    Comment as CommentNode, Doctype as DoctypeNode, Document as DocumentNode, Element as ElementNode,
    Fragment as FragmentNode, ProcessingInstruction as InstructionNode, Text as TextNode,
};

verus! {

/// What a listed node is, apart from its children.
#[derive(Debug)]
pub enum HtmlKind {
    /// An element: its local name and its attributes.
    Element(String, Vec<(String, String)>),
    Text(String),
    /// Any other node: the document, a fragment, a doctype, a comment or a processing
    /// instruction.
    Other(OtherKind),
}

/// One node of a document listing: what it is and how many children it has.
#[derive(Debug)]
pub struct HtmlItem {
    pub kind: HtmlKind,
    pub children: usize,
}

/// The listing of one node: the node, then its descendants, parents first.
pub open spec fn listing_of(n: HtmlNode) -> Seq<HtmlItem>
    decreases n,
{
    match n {
        HtmlNode::Element(e) => seq![
            HtmlItem {
                kind: HtmlKind::Element(e.name, e.attrs),
                children: e.children.len(),
            },
        ] + listing(e.children@),
        HtmlNode::Text(t) => seq![HtmlItem { kind: HtmlKind::Text(t), children: 0 }],
        HtmlNode::Other(k, kids) => seq![HtmlItem { kind: HtmlKind::Other(k), children: kids.len() }]
            + listing(kids@),
    }
}

/// The listing of a forest: each tree's listing in turn.
pub open spec fn listing(cs: Seq<HtmlNode>) -> Seq<HtmlItem>
    decreases cs,
{
    if cs.len() == 0 {
        seq![]
    } else {
        listing(cs.drop_last()) + listing_of(cs.last())
    }
}

/// How many items the first `k` trees listed in `q` take, if `q` holds `k` whole
/// trees at its start (a text must have no children).
pub open spec fn trees_len(q: Seq<HtmlItem>, k: nat) -> Option<nat>
    decreases q.len(), k,
{
    if k == 0 {
        Some(0)
    } else if q.len() == 0 {
        None
    } else if q[0].kind is Text && q[0].children != 0 {
        None
    } else {
        match trees_len(q.drop_first(), q[0].children as nat) {
            None => None,
            Some(a) => if 1 + a <= q.len() {
                match trees_len(q.skip(1 + a as int), (k - 1) as nat) {
                    None => None,
                    Some(b) => Some(1 + a + b),
                }
            } else {
                None
            },
        }
    }
}

/// Whether `q` is a sequence of whole trees.
pub open spec fn is_forest(q: Seq<HtmlItem>) -> bool
    decreases q.len(),
{
    if q.len() == 0 {
        true
    } else {
        match trees_len(q, 1) {
            Some(a) => 0 < a <= q.len() && is_forest(q.skip(a as int)),
            None => false,
        }
    }
}

proof fn lemma_trees_len_bound(q: Seq<HtmlItem>, k: nat)
    requires
        trees_len(q, k) is Some,
    ensures
        trees_len(q, k)->0 <= q.len(),
        k > 0 ==> trees_len(q, k)->0 > 0,
    decreases q.len(), k,
{
    if k > 0 {
        lemma_trees_len_bound(q.drop_first(), q[0].children as nat);
        let a = trees_len(q.drop_first(), q[0].children as nat)->0;
        lemma_trees_len_bound(q.skip(1 + a as int), (k - 1) as nat);
    }
}

proof fn lemma_listing_push(cs: Seq<HtmlNode>, n: HtmlNode)
    ensures
        listing(cs.push(n)) == listing(cs) + listing_of(n),
{
    assert(cs.push(n).drop_last() =~= cs);
}

/// Takes the first item of the queue held reversed in `rest`.
fn take_first(rest: &mut Vec<HtmlItem>) -> (item: HtmlItem)
    requires
        old(rest)@.len() > 0,
    ensures
        item == old(rest)@.reverse()[0],
        final(rest)@.reverse() == old(rest)@.reverse().drop_first(),
{
    let item = rest.pop().unwrap();
    assert(final(rest)@.reverse() =~= old(rest)@.reverse().drop_first());
    item
}

/// Rebuilds the next `k` trees from the queue held reversed in `rest`, taking their
/// items off it.
fn build_trees(rest: &mut Vec<HtmlItem>, k: usize) -> (r: Vec<HtmlNode>)
    requires
        trees_len(old(rest)@.reverse(), k as nat) is Some,
    ensures
        r@.len() == k,
        listing(r@) == old(rest)@.reverse().take(
            trees_len(old(rest)@.reverse(), k as nat)->0 as int,
        ),
        final(rest)@.reverse() == old(rest)@.reverse().skip(
            trees_len(old(rest)@.reverse(), k as nat)->0 as int,
        ),
    decreases old(rest)@.len(), k,
{
    let ghost q0 = rest@.reverse();
    let ghost total = trees_len(q0, k as nat)->0;
    proof {
        lemma_trees_len_bound(q0, k as nat);
    }
    let mut out: Vec<HtmlNode> = Vec::new();
    let mut j: usize = 0;
    let ghost mut used: nat = 0;
    assert(q0.skip(0) =~= q0);
    assert(q0.take(0) =~= Seq::<HtmlItem>::empty());
    while j < k
        invariant
            j <= k,
            out@.len() == j,
            used <= total <= q0.len(),
            q0 == old(rest)@.reverse(),
            total == trees_len(q0, k as nat)->0,
            rest@.reverse() == q0.skip(used as int),
            listing(out@) == q0.take(used as int),
            trees_len(q0.skip(used as int), (k - j) as nat) == Some((total - used) as nat),
            j > 0 ==> rest@.len() < old(rest)@.len(),
            rest@.len() <= old(rest)@.len(),
        decreases k - j,
    {
        let ghost q = q0.skip(used as int);
        proof {
            lemma_trees_len_bound(q, (k - j) as nat);
            assert(rest@.reverse().len() == rest@.len());
        }
        let ghost a = trees_len(q.drop_first(), q[0].children as nat)->0;
        let item = take_first(rest);
        assert(rest@.reverse() == q.drop_first());
        let node = match item.kind {
            HtmlKind::Element(name, attrs) => {
                let children = build_trees(rest, item.children);
                let ghost el = HtmlElement { name, attrs, children };
                assert(listing_of(HtmlNode::Element(el)) =~= q.take(1 + a as int)) by {
                    assert(q.drop_first().take(a as int) =~= q.take(1 + a as int).drop_first());
                }
                assert(rest@.reverse() =~= q.skip(1 + a as int)) by {
                    assert(q.drop_first().skip(a as int) =~= q.skip(1 + a as int));
                }
                HtmlNode::Element(HtmlElement { name, attrs, children })
            },
            HtmlKind::Text(t) => {
                assert(a == 0);
                assert(q.take(1) =~= seq![q[0]]);
                assert(q.drop_first() =~= q.skip(1));
                HtmlNode::Text(t)
            },
            HtmlKind::Other(k) => {
                let children = build_trees(rest, item.children);
                assert(listing_of(HtmlNode::Other(k, children)) =~= q.take(1 + a as int)) by {
                    assert(q.drop_first().take(a as int) =~= q.take(1 + a as int).drop_first());
                }
                assert(rest@.reverse() =~= q.skip(1 + a as int)) by {
                    assert(q.drop_first().skip(a as int) =~= q.skip(1 + a as int));
                }
                HtmlNode::Other(k, children)
            },
        };
        assert(listing_of(node) == q.take(1 + a as int));
        assert(rest@.reverse() == q.skip(1 + a as int));
        proof {
            lemma_listing_push(out@, node);
            assert(q0.take(used as int) + q.take(1 + a as int) =~= q0.take(used + 1 + a as int));
            assert(q.skip(1 + a as int) =~= q0.skip(used + 1 + a as int));
        }
        out.push(node);
        proof {
            used = used + 1 + a;
        }
        j += 1;
    }
    out
}

/// The forest listed by `items`, rebuilt.
pub fn build_document(items: Vec<HtmlItem>) -> (r: Vec<HtmlNode>)
    requires
        is_forest(items@),
    ensures
        listing(r@) == items@,
{
    let ghost q0 = items@;
    let mut items = items;
    let mut rest: Vec<HtmlItem> = Vec::new();
    assert(q0 =~= items@ + rest@.reverse());
    while items.len() > 0
        invariant
            q0 == items@ + rest@.reverse(),
        decreases items@.len(),
    {
        let ghost before = rest@;
        let ghost left = items@;
        let x = items.pop().unwrap();
        rest.push(x);
        assert(rest@.reverse() =~= seq![x] + before.reverse());
        assert(left =~= items@.push(x));
        assert(q0 =~= items@ + rest@.reverse());
    }
    assert(q0 =~= rest@.reverse());
    let mut out: Vec<HtmlNode> = Vec::new();
    let ghost mut used: nat = 0;
    assert(q0.take(0) =~= Seq::<HtmlItem>::empty());
    assert(q0.skip(0) =~= q0);
    while rest.len() > 0
        invariant
            used <= q0.len(),
            rest@.reverse() == q0.skip(used as int),
            listing(out@) == q0.take(used as int),
            is_forest(q0.skip(used as int)),
        decreases rest@.len(),
    {
        let ghost q = q0.skip(used as int);
        assert(rest@.reverse().len() == rest@.len());
        let ghost a = trees_len(q, 1)->0;
        let mut tree = build_trees(&mut rest, 1);
        assert(tree@ =~= seq![tree@[0]]);
        assert(listing(tree@) == listing_of(tree@[0])) by {
            assert(tree@.drop_last() =~= Seq::<HtmlNode>::empty());
            assert(listing(tree@) == listing(tree@.drop_last()) + listing_of(tree@.last()));
            assert(listing(Seq::<HtmlNode>::empty()) + listing_of(tree@[0]) =~= listing_of(tree@[0]));
        }
        proof {
            lemma_listing_push(out@, tree@[0]);
            assert(q0.take(used as int) + q.take(a as int) =~= q0.take(used + a as int));
            assert(q.skip(a as int) =~= q0.skip(used + a as int));
            used = used + a;
        }
        let t0 = tree.pop().unwrap();
        out.push(t0);
    }
    assert(q0.take(q0.len() as int) =~= q0);
    out
}


// ─── Parsing ────────────────────────────────────────────────────────────────

/// The node listing that html5ever's document parser (through scraper) gives for a
/// text.
pub uninterp spec fn spec_html_listing(html: Seq<char>) -> Seq<HtmlItem>;

/// `scraper::Html::parse_document`, then the nodes below the document root in
/// document order (`descendants`): each element with its local name and attributes,
/// each text with its text, each other node by its kind (a `<template>`'s contents
/// sit under a fragment node), and each with its number of children. The contract
/// names that listing and states that it is a sequence of whole trees with childless
/// texts: `descendants` lists every node right before its subtree, the counts are
/// the nodes' own, and the parser never appends to a text node. What html5ever builds
/// for a given text (its error recovery, implied elements) is left to the name.
#[verifier::external_body]
fn parse_html(html: &str) -> (r: Vec<HtmlItem>)
    ensures
        r@ == spec_html_listing(html@),
        is_forest(r@),
{
    let doc = scraper::Html::parse_document(html);
    let mut r = Vec::new();
    for n in doc.tree.root().descendants().skip(1) {
        let kind = match n.value() {
            ElementNode(e) => ElementItem(e.name().into(), e.attrs().map(|(k, v)| (k.into(), v.into())).collect()),
            TextNode(t) => TextItem(t.to_string()),
            DocumentNode => OtherItem(Document),
            FragmentNode => OtherItem(Fragment),
            DoctypeNode(_) => OtherItem(Doctype),
            CommentNode(_) => OtherItem(Comment),
            InstructionNode(_) => OtherItem(ProcessingInstruction),
        };
        r.push(HtmlItem { kind, children: n.children().count() });
    }
    r
}

/// Parses an HTML text into its forest of nodes below the document root.
pub fn parse_document(html: &str) -> (r: Vec<HtmlNode>)
    ensures
        listing(r@) == spec_html_listing(html@),
{
    build_document(parse_html(html))
}

// ─── Page text ──────────────────────────────────────────────────────────────

/// How many line feeds `s` starts with.
pub open spec fn lead_nl(s: Seq<char>) -> nat
    decreases s.len(),
{
    if s.len() > 0 && s[0] == '\n' {
        1 + lead_nl(s.drop_first())
    } else {
        0
    }
}

pub proof fn lemma_lead_nl_bound(s: Seq<char>)
    ensures
        lead_nl(s) <= s.len(),
        s.len() > 0 && s[0] == '\n' ==> lead_nl(s) >= 1,
        forall|k: int| 0 <= k < lead_nl(s) ==> #[trigger] s[k] == '\n',
    decreases s.len(),
{
    if s.len() > 0 && s[0] == '\n' {
        lemma_lead_nl_bound(s.drop_first());
        assert forall|k: int| 0 <= k < lead_nl(s) implies #[trigger] s[k] == '\n' by {
            if k > 0 {
                assert(s[k] == s.drop_first()[k - 1]);
            }
        }
    }
}

proof fn lemma_lead_nl_scan(s: Seq<char>, n: int)
    requires
        0 <= n <= s.len(),
        forall|k: int| 0 <= k < n ==> #[trigger] s[k] == '\n',
        n == s.len() || s[n] != '\n',
    ensures
        lead_nl(s) == n,
    decreases n,
{
    if n > 0 {
        assert forall|k: int| 0 <= k < n - 1 implies #[trigger] s.drop_first()[k] == '\n' by {
            assert(s.drop_first()[k] == s[k + 1]);
        }
        if n < s.len() {
            assert(s.drop_first()[n - 1] == s[n]);
        }
        lemma_lead_nl_scan(s.drop_first(), n - 1);
    }
}

/// Every run of three or more line feeds replaced by two (the regex `\n{3,}`
/// replaced by a blank line).
pub open spec fn collapse_blank_lines(s: Seq<char>) -> Seq<char>
    decreases s.len(),
{
    if s.len() == 0 {
        s
    } else if s[0] != '\n' {
        seq![s[0]] + collapse_blank_lines(s.drop_first())
    } else {
        proof {
            lemma_lead_nl_bound(s);
        }
        let n = lead_nl(s);
        (if n >= 3 {
            seq!['\n', '\n']
        } else {
            s.take(n as int)
        }) + collapse_blank_lines(s.skip(n as int))
    }
}

/// Whether `s` holds three line feeds in a row.
pub open spec fn has_triple_nl(s: Seq<char>) -> bool {
    exists|i: int| 0 <= i && i + 2 < s.len() && #[trigger] s[i] == '\n' && s[i + 1] == '\n' && s[i + 2] == '\n'
}

proof fn lemma_collapse_head(s: Seq<char>)
    requires
        s.len() > 0,
        s[0] != '\n',
    ensures
        collapse_blank_lines(s).len() > 0,
        collapse_blank_lines(s)[0] == s[0],
{
}

/// After the collapse no blank-line run longer than one remains: the text never holds
/// three line feeds in a row.
pub proof fn law_collapse_leaves_no_triple_newline(s: Seq<char>)
    ensures
        !has_triple_nl(collapse_blank_lines(s)),
    decreases s.len(),
{
    if s.len() == 0 {
        return;
    }
    let r = collapse_blank_lines(s);
    if s[0] != '\n' {
        let rest = collapse_blank_lines(s.drop_first());
        law_collapse_leaves_no_triple_newline(s.drop_first());
        assert(r == seq![s[0]] + rest);
        assert forall|i: int| 0 <= i && i + 2 < r.len() implies !(#[trigger] r[i] == '\n' && r[i + 1]
            == '\n' && r[i + 2] == '\n') by {
            if i == 0 {
                assert(r[0] == s[0]);
            } else {
                assert(r[i] == rest[i - 1]);
                assert(r[i + 1] == rest[i]);
                assert(r[i + 2] == rest[i + 1]);
            }
        }
    } else {
        lemma_lead_nl_bound(s);
        let n = lead_nl(s);
        let piece: Seq<char> = if n >= 3 {
            seq!['\n', '\n']
        } else {
            s.take(n as int)
        };
        let t = s.skip(n as int);
        let rest = collapse_blank_lines(t);
        law_collapse_leaves_no_triple_newline(t);
        assert(r == piece + rest);
        assert(piece.len() <= 2);
        if t.len() > 0 {
            assert(t[0] == s[n as int]);
            assert(t[0] != '\n') by {
                if t[0] == '\n' {
                    assert(lead_nl(s) > n) by {
                        lemma_lead_nl_more(s, n as int);
                    }
                }
            }
            lemma_collapse_head(t);
        }
        assert forall|i: int| 0 <= i && i + 2 < r.len() implies !(#[trigger] r[i] == '\n' && r[i + 1]
            == '\n' && r[i + 2] == '\n') by {
            if i + 2 < piece.len() {
            } else if i >= piece.len() {
                assert(r[i] == rest[i - piece.len()]);
                assert(r[i + 1] == rest[i + 1 - piece.len()]);
                assert(r[i + 2] == rest[i + 2 - piece.len()]);
            } else {
                let k = piece.len() as int;
                assert(i <= k - 1 && k <= i + 2);
                assert(r[k] == rest[0]);
            }
        }
    }
}

proof fn lemma_lead_nl_more(s: Seq<char>, n: int)
    requires
        0 <= n < s.len(),
        forall|k: int| 0 <= k <= n ==> #[trigger] s[k] == '\n',
    ensures
        lead_nl(s) > n,
    decreases n,
{
    if n > 0 {
        assert forall|k: int| 0 <= k <= n - 1 implies #[trigger] s.drop_first()[k] == '\n' by {
            assert(s.drop_first()[k] == s[k + 1]);
        }
        lemma_lead_nl_more(s.drop_first(), n - 1);
    }
}

pub fn collapse_blank_lines_vec(s: &Vec<char>) -> (r: Vec<char>)
    ensures
        r@ == collapse_blank_lines(s@),
{
    let mut out: Vec<char> = Vec::new();
    let mut i: usize = 0;
    assert(s@.skip(0) =~= s@);
    assert(out@ + collapse_blank_lines(s@) =~= collapse_blank_lines(s@));
    while i < s.len()
        invariant
            i <= s@.len(),
            out@ + collapse_blank_lines(s@.skip(i as int)) == collapse_blank_lines(s@),
        decreases s@.len() - i,
    {
        let ghost rest = s@.skip(i as int);
        let ghost before = out@;
        assert(rest[0] == s@[i as int]);
        if s[i] != '\n' {
            out.push(s[i]);
            assert(rest.drop_first() =~= s@.skip(i + 1));
            assert(out@ + collapse_blank_lines(s@.skip(i + 1)) =~= before + collapse_blank_lines(
                rest,
            ));
            i += 1;
        } else {
            let mut j: usize = i;
            while j < s.len() && s[j] == '\n'
                invariant
                    i <= j <= s@.len(),
                    forall|k: int| i <= k < j ==> #[trigger] s@[k] == '\n',
                decreases s@.len() - j,
            {
                j += 1;
            }
            proof {
                assert forall|k: int| 0 <= k < j - i implies #[trigger] rest[k] == '\n' by {
                    assert(rest[k] == s@[k + i]);
                }
                if j < s.len() {
                    assert(rest[j - i] == s@[j as int]);
                }
                lemma_lead_nl_scan(rest, j - i);
            }
            if j - i >= 3 {
                out.push('\n');
                out.push('\n');
                assert(out@ =~= before + seq!['\n', '\n']);
            } else {
                let mut k: usize = i;
                while k < j
                    invariant
                        i <= k <= j,
                        j <= s@.len(),
                        forall|m: int| i <= m < j ==> #[trigger] s@[m] == '\n',
                        out@ == before + s@.subrange(i as int, k as int),
                    decreases j - k,
                {
                    out.push('\n');
                    assert(s@[k as int] == '\n');
                    assert(out@ =~= before + s@.subrange(i as int, k + 1));
                    k += 1;
                }
                assert(s@.subrange(i as int, j as int) =~= rest.take(j - i));
            }
            assert(rest.skip(j - i) =~= s@.skip(j as int));
            i = j;
        }
    }
    assert(s@.skip(s@.len() as int) =~= Seq::<char>::empty());
    assert(out@ + collapse_blank_lines(Seq::<char>::empty()) =~= out@);
    out
}

/// The markdown text of a parsed page: its body rendered, trimmed, with blank-line
/// runs collapsed; none without a body element.
pub open spec fn page_text(doc: Seq<HtmlNode>) -> Option<Seq<char>> {
    match first_named(doc, "body"@) {
        Some(b) => Some(collapse_blank_lines(trim(md_elem(b, 0)))),
        None => None,
    }
}

/// The page title: the trimmed text of the first `title` or `h1` element.
pub open spec fn page_title(doc: Seq<HtmlNode>) -> Option<Seq<char>> {
    match first_of(doc, "title"@, "h1"@) {
        Some(e) => Some(trim(text_of(e.children@))),
        None => None,
    }
}

pub open spec fn opt_text(o: Option<String>) -> Option<Seq<char>> {
    match o {
        Some(s) => Some(s@),
        None => None,
    }
}

/// The markdown of a parsed page whose body element is found.
pub fn markdown_of_document(doc: &Vec<HtmlNode>) -> (r: String)
    requires
        first_named(doc@, "body"@) is Some,
    ensures
        Some(r@) == page_text(doc@),
{
    match first_named_exec(doc, "body") {
        Some(body) => {
            let md = element_to_md(body, 0);
            let t = trim_vec(&chars_of(md.as_str()));
            string_of(&collapse_blank_lines_vec(&t))
        },
        None => String::new(),
    }
}

/// The markdown of a parsed page, if it has a body element.
pub fn page_text_of(doc: &Vec<HtmlNode>) -> (r: Option<String>)
    ensures
        opt_text(r) == page_text(doc@),
{
    match first_named_exec(doc, "body") {
        Some(_) => Some(markdown_of_document(doc)),
        None => None,
    }
}

/// The title of a parsed page, if it has a `title` or `h1` element.
pub fn page_title_of(doc: &Vec<HtmlNode>) -> (r: Option<String>)
    ensures
        opt_text(r) == page_title(doc@),
{
    match first_of_exec(doc, "title", "h1") {
        Some(e) => Some(string_of(&trim_vec(&text_exec(&e.children)))),
        None => None,
    }
}

} // verus!
