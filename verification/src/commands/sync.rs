//! Publishing the wiki to Confluence: the NORTHSTAR blueprint and the page bodies
//! that the sync writes.
use vstd::prelude::*;

use crate::text::{
    chars_of, collapse_ws, collapse_ws_vec, extend_chars, extend_str, fields, is_alphanumeric,
    join, join_vec, lines, lowercase, pieces, replace_all, replace_vec, slice_vec,
    spec_is_alphanumeric, spec_lowercase, spec_upper_char, split_char, split_fields, split_lines,
    starts_with, str_eq, string_of, trim, trim_end_char, trim_end_char_vec, trim_vec, upper_char,
    vec_starts_with, views, Sep,
};

verus! {

// ─── Markdown rendering (pulldown-cmark) ────────────────────────────────────

/// What pulldown-cmark renders for a markdown text with tables enabled.
pub uninterp spec fn spec_markdown_html(md: Seq<char>) -> Seq<char>;

/// `pulldown_cmark::html::push_html` over `Parser::new_ext(md, ENABLE_TABLES)`, into an
/// empty string: the HTML rendering of a markdown text.
#[verifier::external_body]
pub(crate) fn markdown_html(md: &str) -> (r: String)
    ensures
        r@ == spec_markdown_html(md@),
{
    let mut opts = pulldown_cmark::Options::empty();
    opts.insert(pulldown_cmark::Options::ENABLE_TABLES);
    let parser = pulldown_cmark::Parser::new_ext(md, opts);
    let mut out = String::new();
    pulldown_cmark::html::push_html(&mut out, parser);
    out
}

/// A markdown text as page HTML: the storage-format conversion when it succeeded
/// (`storage`), else pulldown-cmark's rendering with tables.
pub fn markdown_to_html(md: &str, storage: Option<String>) -> (r: String)
    ensures
        r@ == match storage {
            Some(s) => s@,
            None => spec_markdown_html(md@),
        },
{
    match storage {
        Some(s) => s,
        None => markdown_html(md),
    }
}

// ─── NORTHSTAR blueprint ────────────────────────────────────────────────────

/// A node of the published tree.
#[derive(Debug)]
pub struct TreeNode {
    /// Display title (e.g. "Account-tree").
    pub title: String,
    /// Filesystem slug (e.g. "account-tree").
    pub slug: String,
    /// HTML description for the Confluence page body.
    pub description_html: String,
    /// Confluence emoji icon value (e.g. "1f4e6"), from `**Icon:** 1f4e6`.
    pub icon: Option<String>,
    /// Named subtrees (from `####` headings).
    pub subtrees: Vec<TreeNode>,
}

/// A node without its subtrees.
pub struct NodeSpec {
    pub title: Seq<char>,
    pub slug: Seq<char>,
    pub description_html: Seq<char>,
    pub icon: Option<Seq<char>>,
}

/// A top-level node with its (childless) subtrees.
pub struct TreeSpec {
    pub node: NodeSpec,
    pub subtrees: Seq<NodeSpec>,
}

pub open spec fn opt_view(o: Option<String>) -> Option<Seq<char>> {
    match o {
        Some(s) => Some(s@),
        None => None,
    }
}

pub open spec fn node_of(n: TreeNode) -> NodeSpec {
    NodeSpec {
        title: n.title@,
        slug: n.slug@,
        description_html: n.description_html@,
        icon: opt_view(n.icon),
    }
}

/// A node with at most one level of subtrees, and its abstract value.
pub open spec fn tree_is(n: TreeNode, t: TreeSpec) -> bool {
    &&& node_of(n) == t.node
    &&& n.subtrees@.len() == t.subtrees.len()
    &&& forall|i: int|
        0 <= i < t.subtrees.len() ==> node_of(#[trigger] n.subtrees@[i]) == t.subtrees[i]
            && n.subtrees@[i].subtrees@.len() == 0
}

pub open spec fn trees_are(ns: Seq<TreeNode>, ts: Seq<TreeSpec>) -> bool {
    &&& ns.len() == ts.len()
    &&& forall|i: int| 0 <= i < ts.len() ==> tree_is(#[trigger] ns[i], ts[i])
}

/// Parser state after some lines of the document.
pub struct BlueprintState {
    pub in_blueprint: bool,
    pub done: bool,
    pub trees: Seq<TreeSpec>,
    pub tree: Option<TreeSpec>,
    pub sub: Option<NodeSpec>,
    pub desc: Seq<Seq<char>>,
}

/// Rendering of the description lines collected for a node: empty when they hold only
/// whitespace, else the markdown rendering of the lines joined by line feeds.
pub open spec fn desc_html(desc: Seq<Seq<char>>) -> Seq<char> {
    let md = join(desc, seq!['\n']);
    if trim(md).len() == 0 {
        seq![]
    } else {
        spec_markdown_html(md)
    }
}

/// Slug of a `###` tree title: lower-cased, spaces turned into hyphens.
pub open spec fn tree_slug(title: Seq<char>) -> Seq<char> {
    spec_lowercase(title).map_values(|c: char| if c == ' ' { '-' } else { c })
}

/// Slug of a `####` subtree title: lower-cased, each run of non-alphanumeric
/// characters collapsed to one hyphen, no hyphen at either end.
pub open spec fn subtree_slug(title: Seq<char>) -> Seq<char> {
    let mapped = spec_lowercase(title).map_values(
        |c: char| if spec_is_alphanumeric(c) { c } else { '-' },
    );
    join(fields(mapped, Sep::Ch('-')), seq!['-'])
}

pub open spec fn new_node(title: Seq<char>, slug: Seq<char>) -> NodeSpec {
    NodeSpec { title, slug, description_html: seq![], icon: None }
}

pub open spec fn with_desc(n: NodeSpec, d: Seq<char>) -> NodeSpec {
    NodeSpec { description_html: d, ..n }
}

pub open spec fn with_icon(n: NodeSpec, icon: Seq<char>) -> NodeSpec {
    NodeSpec { icon: Some(icon), ..n }
}

/// The current tree once the open subtree (or, without one, the collected description)
/// is attached to it.
pub open spec fn close_open(st: BlueprintState, only_if_blank: bool) -> Option<TreeSpec> {
    close_with(st.tree, st.sub, st.desc, only_if_blank)
}

pub open spec fn close_with(
    tree: Option<TreeSpec>,
    sub: Option<NodeSpec>,
    desc: Seq<Seq<char>>,
    only_if_blank: bool,
) -> Option<TreeSpec> {
    match tree {
        None => None,
        Some(t) => match sub {
            Some(s) => Some(
                TreeSpec { subtrees: t.subtrees.push(with_desc(s, desc_html(desc))), ..t },
            ),
            None => if only_if_blank && t.node.description_html.len() > 0 {
                Some(t)
            } else {
                Some(TreeSpec { node: with_desc(t.node, desc_html(desc)), ..t })
            },
        },
    }
}

pub open spec fn push_opt(ts: Seq<TreeSpec>, t: Option<TreeSpec>) -> Seq<TreeSpec> {
    match t {
        Some(x) => ts.push(x),
        None => ts,
    }
}

/// How one line of the NORTHSTAR document moves the parser.
pub open spec fn blueprint_step(st: BlueprintState, line: Seq<char>) -> BlueprintState {
    if st.done {
        st
    } else if starts_with(line, "## Published Tree Blueprint"@) {
        BlueprintState { in_blueprint: true, ..st }
    } else if st.in_blueprint && starts_with(line, "## "@) {
        BlueprintState { done: true, ..st }
    } else if !st.in_blueprint {
        st
    } else if starts_with(line, "### "@) {
        let title = trim(line.skip(4));
        BlueprintState {
            trees: push_opt(st.trees, close_open(st, false)),
            tree: Some(TreeSpec { node: new_node(title, tree_slug(title)), subtrees: seq![] }),
            sub: None,
            desc: seq![],
            ..st
        }
    } else if starts_with(line, "#### "@) {
        let title = trim(line.skip(5));
        BlueprintState {
            tree: close_open(st, true),
            sub: Some(new_node(title, subtree_slug(title))),
            desc: seq![],
            ..st
        }
    } else if starts_with(trim(line), "**Icon:**"@) {
        let icon = trim(trim(line).skip(9));
        match st.sub {
            Some(s) => BlueprintState { sub: Some(with_icon(s, icon)), ..st },
            None => match st.tree {
                Some(t) => BlueprintState {
                    tree: Some(TreeSpec { node: with_icon(t.node, icon), ..t }),
                    ..st
                },
                None => st,
            },
        }
    } else {
        BlueprintState { desc: st.desc.push(line), ..st }
    }
}

pub open spec fn blueprint_start() -> BlueprintState {
    BlueprintState {
        in_blueprint: false,
        done: false,
        trees: seq![],
        tree: None,
        sub: None,
        desc: seq![],
    }
}

pub open spec fn blueprint_run(ls: Seq<Seq<char>>) -> BlueprintState
    decreases ls.len(),
{
    if ls.len() == 0 {
        blueprint_start()
    } else {
        blueprint_step(blueprint_run(ls.drop_last()), ls.last())
    }
}

/// The trees of the `## Published Tree Blueprint` section: each `###` heading opens a
/// tree, each `####` heading a subtree of the current tree, `**Icon:** x` lines set the
/// icon of the innermost open node, other lines describe it; the next `##` heading ends
/// the section.
pub open spec fn blueprint_trees(md: Seq<char>) -> Seq<TreeSpec> {
    let st = blueprint_run(lines(md));
    push_opt(st.trees, close_open(st, false))
}

spec fn opt_tree_is(n: Option<TreeNode>, t: Option<TreeSpec>) -> bool {
    match (n, t) {
        (Some(a), Some(b)) => tree_is(a, b),
        (None, None) => true,
        _ => false,
    }
}

spec fn opt_node_is(n: Option<TreeNode>, t: Option<NodeSpec>) -> bool {
    match (n, t) {
        (Some(a), Some(b)) => node_of(a) == b && a.subtrees@.len() == 0,
        (None, None) => true,
        _ => false,
    }
}

fn flush_desc(desc: &mut Vec<Vec<char>>) -> (r: String)
    ensures
        r@ == desc_html(views(old(desc)@)),
        final(desc)@.len() == 0,
{
    let mut nl: Vec<char> = Vec::new();
    nl.push('\n');
    assert(nl@ =~= seq!['\n']);
    let md = join_vec(desc, &nl);
    *desc = Vec::new();
    let t = trim_vec(&md);
    if t.len() == 0 {
        String::new()
    } else {
        let s = string_of(&md);
        markdown_html(s.as_str())
    }
}

fn tree_slug_of(title: &Vec<char>) -> (r: String)
    ensures
        r@ == tree_slug(title@),
{
    let t = string_of(title);
    let low = chars_of(lowercase(t.as_str()).as_str());
    let ghost f = |c: char| if c == ' ' { '-' } else { c };
    let mut out: Vec<char> = Vec::new();
    let mut i: usize = 0;
    while i < low.len()
        invariant
            i <= low.len(),
            out@ == low@.take(i as int).map_values(f),
            f == (|c: char| if c == ' ' { '-' } else { c }),
        decreases low.len() - i,
    {
        let c = low[i];
        let m = if c == ' ' { '-' } else { c };
        out.push(m);
        assert(low@.take(i + 1).map_values(f) =~= low@.take(i as int).map_values(f).push(m));
        i += 1;
    }
    assert(low@.take(low@.len() as int) =~= low@);
    string_of(&out)
}

fn subtree_slug_of(title: &Vec<char>) -> (r: String)
    ensures
        r@ == subtree_slug(title@),
{
    let t = string_of(title);
    let low = chars_of(lowercase(t.as_str()).as_str());
    let ghost f = |c: char| if spec_is_alphanumeric(c) { c } else { '-' };
    let mut mapped: Vec<char> = Vec::new();
    let mut i: usize = 0;
    while i < low.len()
        invariant
            i <= low.len(),
            mapped@ == low@.take(i as int).map_values(f),
            f == (|c: char| if spec_is_alphanumeric(c) { c } else { '-' }),
        decreases low.len() - i,
    {
        let c = low[i];
        let m = if is_alphanumeric(c) { c } else { '-' };
        mapped.push(m);
        assert(low@.take(i + 1).map_values(f) =~= low@.take(i as int).map_values(f).push(m));
        i += 1;
    }
    assert(low@.take(low@.len() as int) =~= low@);
    let parts = split_fields(&mapped, Sep::Ch('-'));
    let mut dash: Vec<char> = Vec::new();
    dash.push('-');
    assert(dash@ =~= seq!['-']);
    let joined = join_vec(&parts, &dash);
    string_of(&joined)
}

fn new_leaf(title: &Vec<char>, slug: String) -> (n: TreeNode)
    ensures
        node_of(n) == new_node(title@, slug@),
        n.subtrees@.len() == 0,
{
    TreeNode {
        title: string_of(title),
        slug,
        description_html: String::new(),
        icon: None,
        subtrees: Vec::new(),
    }
}

/// Attaches the open subtree (or the collected description) to the current tree.
fn close_open_node(
    tree: Option<TreeNode>,
    sub: Option<TreeNode>,
    desc: &mut Vec<Vec<char>>,
    only_if_blank: bool,
    Ghost(ts): Ghost<Option<TreeSpec>>,
    Ghost(ss): Ghost<Option<NodeSpec>>,
) -> (r: Option<TreeNode>)
    requires
        opt_tree_is(tree, ts),
        opt_node_is(sub, ss),
    ensures
        opt_tree_is(r, close_with(ts, ss, views(old(desc)@), only_if_blank)),
        final(desc)@.len() == 0,
{
    let ghost d = views(desc@);
    match sub {
        Some(mut s) => {
            s.description_html = flush_desc(desc);
            match tree {
                Some(mut t) => {
                    let ghost tv = ts->0;
                    let ghost sv = with_desc(ss->0, desc_html(d));
                    let ghost old_subs = t.subtrees@;
                    assert(node_of(s) == sv);
                    t.subtrees.push(s);
                    proof {
                        let want = TreeSpec { subtrees: tv.subtrees.push(sv), ..tv };
                        assert forall|i: int| 0 <= i < want.subtrees.len() implies node_of(
                            #[trigger] t.subtrees@[i],
                        ) == want.subtrees[i] && t.subtrees@[i].subtrees@.len() == 0 by {
                            if i < tv.subtrees.len() {
                                assert(t.subtrees@[i] == old_subs[i]);
                            }
                        }
                        assert(node_of(t) == want.node);
                        assert(tree_is(t, want));
                        assert(close_with(ts, ss, d, only_if_blank) == Some(want));
                    }
                    Some(t)
                },
                None => None,
            }
        },
        None => {
            let html = flush_desc(desc);
            match tree {
                Some(mut t) => {
                    if !(only_if_blank && !t.description_html.as_str().is_empty()) {
                        t.description_html = html;
                    }
                    Some(t)
                },
                None => None,
            }
        },
    }
}

pub open spec fn no_blueprint_header(ls: Seq<Seq<char>>) -> bool {
    forall|i: int| 0 <= i < ls.len() ==> !starts_with(#[trigger] ls[i], "## Published Tree Blueprint"@)
}

proof fn lemma_run_without_header(pre: Seq<Seq<char>>)
    requires
        no_blueprint_header(pre),
    ensures
        blueprint_run(pre) == blueprint_start(),
    decreases pre.len(),
{
    if pre.len() > 0 {
        assert(no_blueprint_header(pre.drop_last())) by {
            assert forall|i: int| 0 <= i < pre.drop_last().len() implies !starts_with(
                #[trigger] pre.drop_last()[i],
                "## Published Tree Blueprint"@,
            ) by {
                assert(pre.drop_last()[i] == pre[i]);
            }
        }
        lemma_run_without_header(pre.drop_last());
        assert(!starts_with(pre[pre.len() - 1], "## Published Tree Blueprint"@));
    }
}

proof fn lemma_run_after_prefix(pre: Seq<Seq<char>>, ls: Seq<Seq<char>>)
    requires
        no_blueprint_header(pre),
    ensures
        blueprint_run(pre + ls) == blueprint_run(ls),
    decreases ls.len(),
{
    if ls.len() == 0 {
        assert(pre + ls =~= pre);
        lemma_run_without_header(pre);
    } else {
        lemma_run_after_prefix(pre, ls.drop_last());
        assert((pre + ls).drop_last() =~= pre + ls.drop_last());
        assert((pre + ls).last() == ls.last());
    }
}

/// Text before the blueprint header is ignored: a text none of whose lines opens the
/// `## Published Tree Blueprint` section has no trees, and put before a document, on
/// lines of its own, it leaves that document's trees as they were.
pub proof fn law_text_before_blueprint_header_ignored(p: Seq<char>, md: Seq<char>)
    requires
        no_blueprint_header(lines(p)),
    ensures
        blueprint_trees(p) == Seq::<TreeSpec>::empty(),
        blueprint_trees(p + "\n"@ + md) == blueprint_trees(md),
{
    lemma_run_without_header(lines(p));
    crate::text::lemma_lines_join(p, md);
    let pre = lines(p + "\n"@);
    assert forall|i: int| 0 <= i < pre.len() implies !starts_with(
        #[trigger] pre[i],
        "## Published Tree Blueprint"@,
    ) by {
        crate::text::lemma_lines_with_nl(p, i);
        let l = pre[i];
        let h = "## Published Tree Blueprint"@;
        if starts_with(l, h) {
            reveal_strlit("## Published Tree Blueprint");
            assert(l.len() > 0);
            let lp = lines(p);
            let j = choose|j: int|
                0 <= j < lp.len() && (#[trigger] lp[j]).len() >= l.len() && lp[j].take(
                    l.len() as int,
                ) == l;
            let m = lines(p)[j];
            assert(m.take(h.len() as int) =~= l.take(h.len() as int));
            assert(starts_with(m, h));
        }
    }
    lemma_run_after_prefix(pre, lines(md));
}

/// A document without the blueprint header has no trees.
pub proof fn law_no_header_no_trees(doc: Seq<char>)
    requires
        no_blueprint_header(lines(doc)),
    ensures
        blueprint_trees(doc) == Seq::<TreeSpec>::empty(),
{
    lemma_run_without_header(lines(doc));
}

/// Parses the `## Published Tree Blueprint` section of a NORTHSTAR document into the
/// published trees.
pub fn parse_northstar_blueprint(northstar_md: &str) -> (r: Vec<TreeNode>)
    ensures
        trees_are(r@, blueprint_trees(northstar_md@)),
{
    let text = chars_of(northstar_md);
    let ls = split_lines(&text);
    let ghost all = views(ls@);
    let mut in_blueprint = false;
    let mut done = false;
    let mut trees: Vec<TreeNode> = Vec::new();
    let mut tree: Option<TreeNode> = None;
    let mut sub: Option<TreeNode> = None;
    let mut desc: Vec<Vec<char>> = Vec::new();
    let section = chars_of("## Published Tree Blueprint");
    let h2 = chars_of("## ");
    let h3 = chars_of("### ");
    let h4 = chars_of("#### ");
    let icon_tag = chars_of("**Icon:**");
    proof {
        reveal_strlit("### ");
        reveal_strlit("#### ");
        reveal_strlit("**Icon:**");
    }
    let mut i: usize = 0;
    while i < ls.len()
        invariant
            i <= ls.len(),
            all == views(ls@),
            all == lines(text@),
            text@ == northstar_md@,
            section@ == "## Published Tree Blueprint"@,
            h2@ == "## "@,
            h3@ == "### "@,
            h4@ == "#### "@,
            icon_tag@ == "**Icon:**"@,
            h3@.len() == 4,
            h4@.len() == 5,
            icon_tag@.len() == 9,
            ({
                let st = blueprint_run(all.take(i as int));
                &&& in_blueprint == st.in_blueprint
                &&& done == st.done
                &&& trees_are(trees@, st.trees)
                &&& opt_tree_is(tree, st.tree)
                &&& opt_node_is(sub, st.sub)
                &&& views(desc@) == st.desc
            }),
        decreases ls.len() - i,
    {
        let ghost st = blueprint_run(all.take(i as int));
        let line = &ls[i];
        assert(all.take(i + 1).drop_last() =~= all.take(i as int));
        assert(all.take(i + 1).last() == line@);
        if done {
        } else if vec_starts_with(line, &section) {
            in_blueprint = true;
        } else if in_blueprint && vec_starts_with(line, &h2) {
            done = true;
        } else if !in_blueprint {
        } else if vec_starts_with(line, &h3) {
            let title = trim_vec(&slice_vec(line, 4, line.len()));
            assert(line@.subrange(4, line@.len() as int) =~= line@.skip(4));
            let closed = close_open_node(
                tree,
                sub,
                &mut desc,
                false,
                Ghost(st.tree),
                Ghost(st.sub),
            );
            match closed {
                Some(t) => {
                    let ghost before = trees@;
                    trees.push(t);
                    proof {
                        let want = st.trees.push(close_open(st, false)->0);
                        assert forall|k: int| 0 <= k < want.len() implies tree_is(
                            #[trigger] trees@[k],
                            want[k],
                        ) by {
                            if k < before.len() {
                                assert(trees@[k] == before[k]);
                            }
                        }
                    }
                },
                None => {},
            }
            let slug = tree_slug_of(&title);
            tree = Some(new_leaf(&title, slug));
            sub = None;
        } else if vec_starts_with(line, &h4) {
            let title = trim_vec(&slice_vec(line, 5, line.len()));
            assert(line@.subrange(5, line@.len() as int) =~= line@.skip(5));
            tree = close_open_node(tree, sub, &mut desc, true, Ghost(st.tree), Ghost(st.sub));
            let slug = subtree_slug_of(&title);
            sub = Some(new_leaf(&title, slug));
        } else {
            let tl = trim_vec(line);
            if vec_starts_with(&tl, &icon_tag) {
                let icon = trim_vec(&slice_vec(&tl, 9, tl.len()));
                assert(tl@.subrange(9, tl@.len() as int) =~= tl@.skip(9));
                let icon_s = string_of(&icon);
                match sub {
                    Some(mut s) => {
                        s.icon = Some(icon_s);
                        sub = Some(s);
                    },
                    None => match tree {
                        Some(mut t) => {
                            t.icon = Some(icon_s);
                            tree = Some(t);
                        },
                        None => {
                            tree = None;
                        },
                    },
                }
            } else {
                let ghost before = views(desc@);
                desc.push(slice_vec(line, 0, line.len()));
                assert(line@.subrange(0, line@.len() as int) =~= line@);
                assert(views(desc@) =~= before.push(line@));
            }
        }
        i += 1;
    }
    assert(all.take(ls.len() as int) =~= all);
    let ghost st = blueprint_run(all);
    let closed = close_open_node(tree, sub, &mut desc, false, Ghost(st.tree), Ghost(st.sub));
    match closed {
        Some(t) => {
            let ghost before = trees@;
            trees.push(t);
            proof {
                let want = st.trees.push(close_open(st, false)->0);
                assert forall|k: int| 0 <= k < want.len() implies tree_is(
                    #[trigger] trees@[k],
                    want[k],
                ) by {
                    if k < before.len() {
                        assert(trees@[k] == before[k]);
                    }
                }
            }
        },
        None => {},
    }
    trees
}

} // verus!

verus! {

// ─── Page bodies ────────────────────────────────────────────────────────────

/// The escaped form of one character for HTML text.
pub open spec fn escape_char(c: char) -> Seq<char> {
    if c == '&' {
        "&amp;"@
    } else if c == '<' {
        "&lt;"@
    } else if c == '>' {
        "&gt;"@
    } else {
        seq![c]
    }
}

/// `&`, `<` and `>` replaced by their entities.
pub open spec fn escape_html(s: Seq<char>) -> Seq<char>
    decreases s.len(),
{
    if s.len() == 0 {
        seq![]
    } else {
        escape_html(s.drop_last()) + escape_char(s.last())
    }
}

/// Escaped text holds no angle bracket, so it can neither open nor close a tag.
pub proof fn law_escaped_text_has_no_angle_brackets(s: Seq<char>)
    ensures
        forall|i: int|
            0 <= i < escape_html(s).len() ==> #[trigger] escape_html(s)[i] != '<'
                && escape_html(s)[i] != '>',
    decreases s.len(),
{
    if s.len() > 0 {
        law_escaped_text_has_no_angle_brackets(s.drop_last());
        reveal_strlit("&amp;");
        reveal_strlit("&lt;");
        reveal_strlit("&gt;");
        let a = escape_html(s.drop_last());
        let b = escape_char(s.last());
        assert(escape_html(s) == a + b);
        assert forall|i: int| 0 <= i < escape_html(s).len() implies #[trigger] escape_html(s)[i]
            != '<' && escape_html(s)[i] != '>' by {
            if i < a.len() {
                assert(escape_html(s)[i] == a[i]);
            } else {
                assert(escape_html(s)[i] == b[i - a.len()]);
            }
        }
    }
}

pub(crate) fn escape_vec(s: &Vec<char>) -> (r: Vec<char>)
    ensures
        r@ == escape_html(s@),
{
    let mut r: Vec<char> = Vec::new();
    let mut i: usize = 0;
    while i < s.len()
        invariant
            i <= s.len(),
            r@ == escape_html(s@.take(i as int)),
        decreases s.len() - i,
    {
        let c = s[i];
        let ghost before = r@;
        if c == '&' {
            extend_str(&mut r, "&amp;");
        } else if c == '<' {
            extend_str(&mut r, "&lt;");
        } else if c == '>' {
            extend_str(&mut r, "&gt;");
        } else {
            r.push(c);
        }
        assert(s@.take(i + 1).drop_last() =~= s@.take(i as int));
        assert(r@ =~= before + escape_char(c));
        i += 1;
    }
    assert(s@.take(s.len() as int) =~= s@);
    r
}

/// Escapes text for HTML.
pub fn html_escape(s: &str) -> (r: String)
    ensures
        r@ == escape_html(s@),
{
    string_of(&escape_vec(&chars_of(s)))
}

/// A page title from a slug: each hyphen-separated word capitalized, words joined by
/// spaces, and " Tree" turned back into "-tree".
pub open spec fn capitalized(w: Seq<char>) -> Seq<char> {
    if w.len() == 0 {
        seq![]
    } else {
        spec_upper_char(w[0]) + w.drop_first()
    }
}

pub open spec fn title_of(name: Seq<char>) -> Seq<char> {
    replace_all(
        join(pieces(name, '-').map_values(|w: Seq<char>| capitalized(w)), seq![' ']),
        " Tree"@,
        "-tree"@,
    )
}

fn to_title_chars(name: &Vec<char>) -> (r: Vec<char>)
    ensures
        r@ == title_of(name@),
{
    proof {
        reveal_strlit(" Tree");
    }
    let parts = split_char(name, '-');
    let ghost f = |w: Seq<char>| capitalized(w);
    let mut caps: Vec<Vec<char>> = Vec::new();
    let mut i: usize = 0;
    while i < parts.len()
        invariant
            i <= parts.len(),
            views(caps@) == views(parts@).take(i as int).map_values(f),
            f == (|w: Seq<char>| capitalized(w)),
        decreases parts.len() - i,
    {
        let w = &parts[i];
        let mut c: Vec<char> = Vec::new();
        if w.len() > 0 {
            let up = upper_char(w[0]);
            c = chars_of(up.as_str());
            extend_chars(&mut c, &slice_vec(w, 1, w.len()));
            assert(w@.subrange(1, w@.len() as int) =~= w@.drop_first());
        }
        assert(c@ == capitalized(w@));
        let ghost before = views(caps@);
        caps.push(c);
        assert(views(caps@) =~= before.push(capitalized(w@)));
        assert(views(parts@).take(i + 1).map_values(f) =~= views(parts@).take(i as int).map_values(
            f,
        ).push(f(parts@[i as int]@)));
        i += 1;
    }
    assert(views(parts@).take(parts.len() as int) =~= views(parts@));
    let mut sp: Vec<char> = Vec::new();
    sp.push(' ');
    assert(sp@ =~= seq![' ']);
    let joined = join_vec(&caps, &sp);
    replace_vec(&joined, &chars_of(" Tree"), &chars_of("-tree"))
}

/// Converts a slug or file name to a display title.
pub fn to_title(name: &str) -> (r: String)
    ensures
        r@ == title_of(name@),
{
    string_of(&to_title_chars(&chars_of(name)))
}

/// Flattens description HTML to one line of text: block and break tags dropped,
/// whitespace collapsed.
pub open spec fn inline_text(html: Seq<char>) -> Seq<char> {
    let a = replace_all(html, "<blockquote>"@, seq![]);
    let b = replace_all(a, "</blockquote>"@, " "@);
    let c = replace_all(b, "<p>"@, seq![]);
    let d = replace_all(c, "</p>"@, " "@);
    let e = replace_all(d, "<br/>"@, " "@);
    let f = replace_all(e, "<br />"@, " "@);
    collapse_ws(f)
}

fn inline_desc_chars(html: &Vec<char>) -> (r: Vec<char>)
    ensures
        r@ == inline_text(html@),
{
    proof {
        reveal_strlit("<blockquote>");
        reveal_strlit("</blockquote>");
        reveal_strlit("<p>");
        reveal_strlit("</p>");
        reveal_strlit("<br/>");
        reveal_strlit("<br />");
    }
    let empty: Vec<char> = Vec::new();
    let sp = chars_of(" ");
    let a = replace_vec(html, &chars_of("<blockquote>"), &empty);
    let b = replace_vec(&a, &chars_of("</blockquote>"), &sp);
    let c = replace_vec(&b, &chars_of("<p>"), &empty);
    let d = replace_vec(&c, &chars_of("</p>"), &sp);
    let e = replace_vec(&d, &chars_of("<br/>"), &sp);
    let f = replace_vec(&e, &chars_of("<br />"), &sp);
    assert(empty@ =~= Seq::<char>::empty());
    collapse_ws_vec(&f)
}

/// One-line text of a description.
pub fn inline_desc(html: &str) -> (r: String)
    ensures
        r@ == inline_text(html@),
{
    string_of(&inline_desc_chars(&chars_of(html)))
}

pub open spec fn page_link_html(space_key: Seq<char>, title: Seq<char>, label: Seq<char>) -> Seq<char> {
    "<ac:link><ri:page ri:space-key=\""@ + escape_html(space_key) + "\" ri:content-title=\""@
        + escape_html(title) + "\" /><ac:plain-text-link-body><![CDATA["@ + label
        + "]]></ac:plain-text-link-body></ac:link>"@
}

/// A Confluence link to the page with this title in the space.
pub fn page_link(space_key: &str, title: &str, label: &str) -> (r: String)
    ensures
        r@ == page_link_html(space_key@, title@, label@),
{
    let mut out = chars_of("<ac:link><ri:page ri:space-key=\"");
    extend_chars(&mut out, &escape_vec(&chars_of(space_key)));
    extend_str(&mut out, "\" ri:content-title=\"");
    extend_chars(&mut out, &escape_vec(&chars_of(title)));
    extend_str(&mut out, "\" /><ac:plain-text-link-body><![CDATA[");
    extend_str(&mut out, label);
    extend_str(&mut out, "]]></ac:plain-text-link-body></ac:link>");
    assert(out@ =~= page_link_html(space_key@, title@, label@));
    string_of(&out)
}

pub open spec fn attachment_link_html(base_url: Seq<char>, page_id: Seq<char>, filename: Seq<char>) -> Seq<char> {
    "<a href=\""@ + trim_end_char(base_url, '/') + "/wiki/download/attachments/"@
        + escape_html(page_id) + "/"@ + escape_html(filename) + "?api=v2"@ + "\">"@
        + escape_html(filename) + "</a>"@
}

/// A download link for an attachment of a page.
pub fn attachment_link(base_url: &str, page_id: &str, filename: &str) -> (r: String)
    ensures
        r@ == attachment_link_html(base_url@, page_id@, filename@),
{
    let mut out = chars_of("<a href=\"");
    extend_chars(&mut out, &trim_end_char_vec(&chars_of(base_url), '/'));
    extend_str(&mut out, "/wiki/download/attachments/");
    extend_chars(&mut out, &escape_vec(&chars_of(page_id)));
    extend_str(&mut out, "/");
    let f = escape_vec(&chars_of(filename));
    extend_chars(&mut out, &f);
    extend_str(&mut out, "?api=v2");
    extend_str(&mut out, "\">");
    extend_chars(&mut out, &f);
    extend_str(&mut out, "</a>");
    assert(out@ =~= attachment_link_html(base_url@, page_id@, filename@));
    string_of(&out)
}

/// Body of a pipeline page: summary, detail, and the maintenance note.
pub fn pipeline_body(summary: &str, detail: &str) -> (r: String)
    ensures
        r@ == "<p>"@ + summary@ + "</p><p>"@ + detail@
            + "</p><p>This page is maintained automatically by Curio.</p>"@,
{
    let mut out = chars_of("<p>");
    extend_str(&mut out, summary);
    extend_str(&mut out, "</p><p>");
    extend_str(&mut out, detail);
    extend_str(&mut out, "</p><p>This page is maintained automatically by Curio.</p>");
    string_of(&out)
}

/// A YAML text in a Confluence code macro.
pub fn render_yaml_for_confluence(yaml: &str) -> (r: String)
    ensures
        r@ == "<ac:structured-macro ac:name=\"code\"><ac:parameter ac:name=\"language\">yaml</ac:parameter><ac:plain-text-body><![CDATA["@
            + yaml@ + "]]></ac:plain-text-body></ac:structured-macro>"@,
{
    let mut out = chars_of(
        "<ac:structured-macro ac:name=\"code\"><ac:parameter ac:name=\"language\">yaml</ac:parameter><ac:plain-text-body><![CDATA[",
    );
    extend_str(&mut out, yaml);
    extend_str(&mut out, "]]></ac:plain-text-body></ac:structured-macro>");
    string_of(&out)
}

/// Body of the Published branch page.
pub fn published_root_body() -> (r: String)
    ensures
        r@ == "<p>Published knowledge from the Curio workspace. Tree pages below mirror the filesystem and NORTHSTAR blueprint.</p>"@,
{
    String::from_str(
        "<p>Published knowledge from the Curio workspace. Tree pages below mirror the filesystem and NORTHSTAR blueprint.</p>",
    )
}

/// Body of the Config branch page.
pub fn config_root_body() -> (r: String)
    ensures
        r@ == "<p>Administration, onboarding, and workspace reference pages for Curio. This branch is machine-maintained from <code>wiki/_admin</code> plus the workspace <code>NORTHSTAR.md</code>.</p><ul><li>Northstar: workspace charter plus published config YAML</li><li>CURIO Readme: workspace overview and operating model</li><li>Config: deterministic YAML for taxonomy and runtime settings</li><li>Getting Started: setup and first-run guide</li><li>Log: concise run history</li><li>Downloads: bundle snapshots for operators</li></ul>"@,
{
    String::from_str(
        "<p>Administration, onboarding, and workspace reference pages for Curio. This branch is machine-maintained from <code>wiki/_admin</code> plus the workspace <code>NORTHSTAR.md</code>.</p><ul><li>Northstar: workspace charter plus published config YAML</li><li>CURIO Readme: workspace overview and operating model</li><li>Config: deterministic YAML for taxonomy and runtime settings</li><li>Getting Started: setup and first-run guide</li><li>Log: concise run history</li><li>Downloads: bundle snapshots for operators</li></ul>",
    )
}

/// Body of the Downloads page.
pub fn downloads_root_body() -> (r: String)
    ensures
        r@ == "<p>Bundle snapshots for operators who need a direct download path instead of a Git checkout.</p><p>Curio refreshes these attachments during sync.</p>"@,
{
    String::from_str(
        "<p>Bundle snapshots for operators who need a direct download path instead of a Git checkout.</p><p>Curio refreshes these attachments during sync.</p>",
    )
}

pub open spec fn child_section_item(space_key: Seq<char>, c: TreeNode) -> Seq<char> {
    "<li><strong>"@ + page_link_html(space_key, c.title@, c.title@) + "</strong>"@ + if trim(
        c.description_html@,
    ).len() == 0 {
        seq![]
    } else {
        " — "@ + escape_html(inline_text(c.description_html@))
    } + "</li>"@
}

pub open spec fn child_section_items(space_key: Seq<char>, cs: Seq<TreeNode>) -> Seq<char>
    decreases cs.len(),
{
    if cs.len() == 0 {
        seq![]
    } else {
        child_section_items(space_key, cs.drop_last()) + child_section_item(space_key, cs.last())
    }
}

pub open spec fn branch_summary_html(
    space_key: Seq<char>,
    title: Seq<char>,
    description_html: Seq<char>,
    children: Seq<TreeNode>,
) -> Seq<char> {
    "<h1>"@ + escape_html(title) + "</h1>"@ + if trim(description_html).len() == 0 {
        seq![]
    } else {
        description_html
    } + if children.len() == 0 {
        seq![]
    } else {
        "<h2>Child Sections</h2><ul>"@ + child_section_items(space_key, children) + "</ul>"@
    }
}

/// Body of a published-tree branch page without an index page: title, description and
/// links to the child sections.
pub fn render_branch_summary_only(
    space_key: &str,
    title: &str,
    description_html: &str,
    children: &[TreeNode],
) -> (r: String)
    ensures
        r@ == branch_summary_html(space_key@, title@, description_html@, children@),
{
    let mut body = chars_of("<h1>");
    extend_chars(&mut body, &escape_vec(&chars_of(title)));
    extend_str(&mut body, "</h1>");
    if trim_vec(&chars_of(description_html)).len() > 0 {
        extend_str(&mut body, description_html);
    }
    let ghost head = body@;
    if children.len() > 0 {
        extend_str(&mut body, "<h2>Child Sections</h2><ul>");
        let ghost start = body@;
        let mut i: usize = 0;
        while i < children.len()
            invariant
                i <= children@.len(),
                body@ == start + child_section_items(space_key@, children@.take(i as int)),
            decreases children@.len() - i,
        {
            let child = &children[i];
            let link = page_link(space_key, child.title.as_str(), child.title.as_str());
            extend_str(&mut body, "<li><strong>");
            extend_str(&mut body, link.as_str());
            extend_str(&mut body, "</strong>");
            if trim_vec(&chars_of(child.description_html.as_str())).len() > 0 {
                extend_str(&mut body, " — ");
                let d = inline_desc_chars(&chars_of(child.description_html.as_str()));
                extend_chars(&mut body, &escape_vec(&d));
            }
            extend_str(&mut body, "</li>");
            assert(children@.take(i + 1).drop_last() =~= children@.take(i as int));
            assert(children@.take(i + 1).last() == children@[i as int]);
            assert(body@ =~= start + child_section_items(space_key@, children@.take(i + 1)));
            i += 1;
        }
        assert(children@.take(children@.len() as int) =~= children@);
        extend_str(&mut body, "</ul>");
    }
    assert(body@ =~= branch_summary_html(space_key@, title@, description_html@, children@));
    string_of(&body)
}

/// Built-in icons of the harness-managed page slugs.
pub open spec fn builtin_icon(slug: Seq<char>) -> Option<Seq<char>> {
    if slug == "curio"@ || slug == "northstar"@ {
        Some("1f9ed"@)
    } else if slug == "curio-readme"@ || slug == "readme"@ {
        Some("atlassian-info"@)
    } else if slug == "admin"@ || slug == "config"@ || slug == "settings"@ || slug
        == "workspace-config"@ {
        Some("2699"@)
    } else if slug == "getting-started"@ {
        Some("1f680"@)
    } else if slug == "log"@ {
        Some("1f4dd"@)
    } else if slug == "downloads"@ {
        Some("1f4e6"@)
    } else if slug == "intake"@ {
        Some("1f4e5"@)
    } else if slug == "staged"@ {
        Some("atlassian-logo_projects"@)
    } else if slug == "review"@ {
        Some("atlassian-logo_opsgenie"@)
    } else if slug == "published"@ {
        Some("atlassian-check_mark"@)
    } else {
        None
    }
}

/// The built-in icon for a harness-managed page slug.
pub fn page_icon_builtin(slug: &str) -> (r: Option<&'static str>)
    ensures
        match r {
            Some(s) => builtin_icon(slug@) == Some(s@),
            None => builtin_icon(slug@) is None,
        },
{
    if str_eq(slug, "curio") || str_eq(slug, "northstar") {
        Some("1f9ed")
    } else if str_eq(slug, "curio-readme") || str_eq(slug, "readme") {
        Some("atlassian-info")
    } else if str_eq(slug, "admin") || str_eq(slug, "config") || str_eq(slug, "settings")
        || str_eq(slug, "workspace-config") {
        Some("2699")
    } else if str_eq(slug, "getting-started") {
        Some("1f680")
    } else if str_eq(slug, "log") {
        Some("1f4dd")
    } else if str_eq(slug, "downloads") {
        Some("1f4e6")
    } else if str_eq(slug, "intake") {
        Some("1f4e5")
    } else if str_eq(slug, "staged") {
        Some("atlassian-logo_projects")
    } else if str_eq(slug, "review") {
        Some("atlassian-logo_opsgenie")
    } else if str_eq(slug, "published") {
        Some("atlassian-check_mark")
    } else {
        None
    }
}

/// Whether the character stream is inside a tag after these characters.
pub open spec fn in_tag_after(s: Seq<char>) -> bool
    decreases s.len(),
{
    if s.len() == 0 {
        false
    } else if s.last() == '<' {
        true
    } else if s.last() == '>' {
        false
    } else {
        in_tag_after(s.drop_last())
    }
}

/// The characters outside `<...>` tags (the angle brackets themselves dropped).
pub open spec fn untagged(s: Seq<char>) -> Seq<char>
    decreases s.len(),
{
    if s.len() == 0 {
        seq![]
    } else if s.last() == '<' || s.last() == '>' || in_tag_after(s.drop_last()) {
        untagged(s.drop_last())
    } else {
        untagged(s.drop_last()).push(s.last())
    }
}

/// Text of HTML with the tags removed and whitespace collapsed.
pub fn strip_html_tags(html: &str) -> (r: String)
    ensures
        r@ == collapse_ws(untagged(html@)),
{
    let s = chars_of(html);
    let mut out: Vec<char> = Vec::new();
    let mut in_tag = false;
    let mut i: usize = 0;
    while i < s.len()
        invariant
            i <= s.len(),
            out@ == untagged(s@.take(i as int)),
            in_tag == in_tag_after(s@.take(i as int)),
        decreases s.len() - i,
    {
        let ch = s[i];
        assert(s@.take(i + 1).drop_last() =~= s@.take(i as int));
        if ch == '<' {
            in_tag = true;
        } else if ch == '>' {
            in_tag = false;
        } else if !in_tag {
            out.push(ch);
        }
        i += 1;
    }
    assert(s@.take(s.len() as int) =~= s@);
    string_of(&collapse_ws_vec(&out))
}

/// Display title of a lane page: the lane and each path component, title-cased,
/// joined by " - ".
pub open spec fn lane_title(lane: Seq<char>, components: Seq<Seq<char>>) -> Seq<char> {
    title_of(lane) + " - "@ + join(components.map_values(|c: Seq<char>| title_of(c)), " - "@)
}

pub fn lane_display_title(lane: &str, components: &[String]) -> (r: String)
    ensures
        r@ == lane_title(lane@, components@.map_values(|s: String| s@)),
{
    let ghost comps = components@.map_values(|s: String| s@);
    let ghost f = |c: Seq<char>| title_of(c);
    let mut titles: Vec<Vec<char>> = Vec::new();
    let mut i: usize = 0;
    while i < components.len()
        invariant
            i <= components@.len(),
            comps == components@.map_values(|s: String| s@),
            f == (|c: Seq<char>| title_of(c)),
            views(titles@) == comps.take(i as int).map_values(f),
        decreases components@.len() - i,
    {
        let t = to_title_chars(&chars_of(components[i].as_str()));
        let ghost before = views(titles@);
        titles.push(t);
        assert(views(titles@) =~= before.push(title_of(comps[i as int])));
        assert(comps.take(i + 1).map_values(f) =~= comps.take(i as int).map_values(f).push(
            f(comps[i as int]),
        ));
        i += 1;
    }
    assert(comps.take(components@.len() as int) =~= comps);
    let mut out = to_title_chars(&chars_of(lane));
    extend_str(&mut out, " - ");
    let joined = join_vec(&titles, &chars_of(" - "));
    extend_chars(&mut out, &joined);
    string_of(&out)
}

} // verus!

verus! {

// ─── Published routes ───────────────────────────────────────────────────────

/// The routes of a node under a parent path: the node's own path (slugs joined by `/`)
/// and, recursively, those of its subtrees.
pub open spec fn node_routes(n: TreeNode, parent: Seq<Seq<char>>) -> Set<Seq<char>>
    decreases n,
{
    let path = parent.push(n.slug@);
    set![join(path, "/"@)].union(subtree_routes(n.subtrees@, path))
}

pub open spec fn subtree_routes(cs: Seq<TreeNode>, parent: Seq<Seq<char>>) -> Set<Seq<char>>
    decreases cs,
{
    if cs.len() == 0 {
        Set::empty()
    } else {
        subtree_routes(cs.drop_last(), parent).union(node_routes(cs.last(), parent))
    }
}

/// All valid published routes of the trees.
pub open spec fn published_routes(trees: Seq<TreeNode>) -> Set<Seq<char>> {
    subtree_routes(trees, seq![])
}

} // verus!

verus! {

pub open spec fn same_members(a: Seq<Seq<char>>, b: Set<Seq<char>>) -> bool {
    forall|x: Seq<char>| a.contains(x) <==> b.contains(x)
}

fn collect_valid_routes(
    node: &TreeNode,
    parent: &mut Vec<Vec<char>>,
    routes: &mut Vec<Vec<char>>,
)
    ensures
        views(final(parent)@) == views(old(parent)@),
        same_members(
            views(final(routes)@),
            views(old(routes)@).to_set().union(node_routes(*node, views(old(parent)@))),
        ),
    decreases node,
{
    let ghost p0 = views(parent@);
    let ghost r0 = views(routes@);
    parent.push(chars_of(node.slug.as_str()));
    let ghost path = views(parent@);
    assert(path =~= p0.push(node.slug@));
    let slash = chars_of("/");
    let here = join_vec(parent, &slash);
    routes.push(here);
    assert(views(routes@) =~= r0.push(join(path, "/"@)));
    proof {
        broadcast use vstd::seq_lib::group_seq_properties;
        assert(node.subtrees@.take(0) =~= Seq::<TreeNode>::empty());
        assert(subtree_routes(node.subtrees@.take(0), path) == Set::<Seq<char>>::empty());
    }
    let mut i: usize = 0;
    while i < node.subtrees.len()
        invariant
            i <= node.subtrees@.len(),
            views(parent@) == path,
            path == p0.push(node.slug@),
            slash@ == "/"@,
            same_members(
                views(routes@),
                r0.to_set().union(set![join(path, "/"@)]).union(
                    subtree_routes(node.subtrees@.take(i as int), path),
                ),
            ),
        decreases node.subtrees@.len() - i,
    {
        collect_valid_routes(&node.subtrees[i], parent, routes);
        assert(node.subtrees@.take(i + 1).drop_last() =~= node.subtrees@.take(i as int));
        assert(node.subtrees@.take(i + 1).last() == node.subtrees@[i as int]);
        i += 1;
    }
    assert(node.subtrees@.take(node.subtrees@.len() as int) =~= node.subtrees@);
    let ghost before_pop = parent@;
    parent.pop();
    assert(parent@ =~= before_pop.drop_last());
    assert forall|k: int| 0 <= k < p0.len() implies views(parent@)[k] == p0[k] by {
        assert(views(before_pop)[k] == path[k]);
    }
    assert(views(parent@) =~= p0);
    assert forall|x: Seq<char>| views(routes@).contains(x) <==> r0.to_set().union(
        node_routes(*node, p0),
    ).contains(x) by {}
}

/// The valid published routes of the trees (each route once per node that yields it).
pub fn valid_published_routes(trees: &[TreeNode]) -> (r: Vec<String>)
    ensures
        same_members(crate::curio_docs::strings(r@), published_routes(trees@)),
{
    let mut parent: Vec<Vec<char>> = Vec::new();
    let mut routes: Vec<Vec<char>> = Vec::new();
    let mut i: usize = 0;
    while i < trees.len()
        invariant
            i <= trees@.len(),
            views(parent@) == Seq::<Seq<char>>::empty(),
            same_members(views(routes@), subtree_routes(trees@.take(i as int), seq![])),
        decreases trees@.len() - i,
    {
        collect_valid_routes(&trees[i], &mut parent, &mut routes);
        assert(trees@.take(i + 1).drop_last() =~= trees@.take(i as int));
        assert(trees@.take(i + 1).last() == trees@[i as int]);
        assert(views(parent@) =~= seq![]);
        i += 1;
    }
    assert(trees@.take(trees@.len() as int) =~= trees@);
    let out = crate::curio_docs::to_strings(&routes);
    out
}

/// Whether a page's category path is one of the valid routes.
pub fn is_valid_route(routes: &Vec<String>, category: &[String]) -> (b: bool)
    ensures
        b == crate::curio_docs::strings(routes@).contains(
            join(crate::curio_docs::strings(category@), "/"@),
        ),
{
    let route = string_of(&crate::curio_docs::join_strings(category, "/"));
    let mut i: usize = 0;
    while i < routes.len()
        invariant
            i <= routes@.len(),
            route@ == join(crate::curio_docs::strings(category@), "/"@),
            forall|k: int| 0 <= k < i ==> routes@[k]@ != route@,
        decreases routes@.len() - i,
    {
        if str_eq(routes[i].as_str(), route.as_str()) {
            assert(crate::curio_docs::strings(routes@)[i as int] == route@);
            return true;
        }
        i += 1;
    }
    assert forall|k: int| 0 <= k < routes@.len() implies crate::curio_docs::strings(routes@)[k]
        != route@ by {}
    false
}

// ─── Tree of the managed Confluence space ───────────────────────────────────

/// The ids of the managed Curio pages.
#[derive(Clone, Debug)]
pub struct CurioConfluenceTree {
    pub root_id: String,
    pub staged_id: String,
    pub review_id: String,
    pub published_id: String,
    pub config_id: String,
    pub downloads_id: String,
}

/// The outcome of validating the managed tree.
#[derive(Clone, Debug)]
pub struct CurioTreeValidation {
    pub root_id: String,
    pub checked_pages: usize,
}

/// The title a published page is synced under: its frontmatter title, trimmed; none
/// when that is blank.
pub fn published_page_title(title: &str) -> (r: Option<String>)
    ensures
        match r {
            Some(t) => trim(title@).len() > 0 && t@ == trim(title@),
            None => trim(title@).len() == 0,
        },
{
    let t = crate::text::trim_str(title);
    if t.len() == 0 {
        None
    } else {
        Some(string_of(&t))
    }
}

/// The NORTHSTAR page: the charter rendered from markdown, then the configuration
/// YAML in a code block under a "Config" heading.
pub fn render_northstar_for_confluence(northstar_md: &str, config_yaml: &str) -> (r: String)
    ensures
        r@ == spec_markdown_html(northstar_md@)
            + "<h2>Config</h2><p>The YAML below is the deterministic Curio config used for taxonomy and runtime settings.</p>"@
            + "<ac:structured-macro ac:name=\"code\"><ac:parameter ac:name=\"language\">yaml</ac:parameter><ac:plain-text-body><![CDATA["@
            + config_yaml@ + "]]></ac:plain-text-body></ac:structured-macro>"@,
{
    let html = markdown_html(northstar_md);
    let mut out = chars_of(html.as_str());
    extend_str(
        &mut out,
        "<h2>Config</h2><p>The YAML below is the deterministic Curio config used for taxonomy and runtime settings.</p>",
    );
    let yaml = render_yaml_for_confluence(config_yaml);
    extend_str(&mut out, yaml.as_str());
    string_of(&out)
}

/// A published-tree node made from a taxonomy node: same title, slug and icon, the
/// description rendered from markdown (empty when blank), and its children likewise.
pub open spec fn node_converted(t: TreeNode, n: crate::commands::tree::TaxonomyNode) -> bool
    decreases n,
{
    &&& t.title@ == n.title@
    &&& t.slug@ == n.slug@
    &&& t.description_html@ == if trim(n.description_markdown@).len() == 0 {
        seq![]
    } else {
        spec_markdown_html(n.description_markdown@)
    }
    &&& opt_view(t.icon) == opt_view(n.icon)
    &&& t.subtrees@.len() == n.children@.len()
    &&& forall|i: int|
        0 <= i < n.children@.len() ==> node_converted(#[trigger] t.subtrees@[i], n.children@[i])
}

pub fn tree_node_from_taxonomy(node: &crate::commands::tree::TaxonomyNode) -> (t: TreeNode)
    ensures
        node_converted(t, *node),
    decreases node,
{
    let description_html = if crate::text::trim_str(node.description_markdown.as_str()).len() == 0 {
        String::new()
    } else {
        markdown_html(node.description_markdown.as_str())
    };
    let mut subtrees: Vec<TreeNode> = Vec::new();
    let mut i: usize = 0;
    while i < node.children.len()
        invariant
            i <= node.children@.len(),
            subtrees@.len() == i,
            forall|j: int| 0 <= j < i ==> node_converted(#[trigger] subtrees@[j], node.children@[j]),
        decreases node.children@.len() - i,
    {
        let child = tree_node_from_taxonomy(&node.children[i]);
        subtrees.push(child);
        i += 1;
    }
    TreeNode {
        title: node.title.clone(),
        slug: node.slug.clone(),
        description_html,
        icon: node.icon.clone(),
        subtrees,
    }
}

/// The published trees of a taxonomy, one per top-level node.
pub fn taxonomy_to_tree_nodes(nodes: &[crate::commands::tree::TaxonomyNode]) -> (r: Vec<TreeNode>)
    ensures
        r@.len() == nodes@.len(),
        forall|i: int| 0 <= i < nodes@.len() ==> node_converted(#[trigger] r@[i], nodes@[i]),
{
    let mut out: Vec<TreeNode> = Vec::new();
    let mut i: usize = 0;
    while i < nodes.len()
        invariant
            i <= nodes@.len(),
            out@.len() == i,
            forall|j: int| 0 <= j < i ==> node_converted(#[trigger] out@[j], nodes@[j]),
        decreases nodes@.len() - i,
    {
        out.push(tree_node_from_taxonomy(&nodes[i]));
        i += 1;
    }
    out
}

pub open spec fn release_dir(root: Seq<char>) -> Seq<char> {
    crate::harness::path_joined(crate::harness::path_joined(root, "target"@), "release"@)
}

pub open spec fn crate_release_dir(root: Seq<char>) -> Seq<char> {
    release_dir(crate::harness::path_joined(root, "curio-rs"@))
}

/// Where a locally built `curio` executable may be, in the order looked at: the
/// Windows builds (workspace, then crate), then the Unix builds.
pub open spec fn local_executables(root: Seq<char>) -> Seq<Seq<char>> {
    seq![
        crate::harness::path_joined(release_dir(root), "curio.exe"@),
        crate::harness::path_joined(crate_release_dir(root), "curio.exe"@),
        crate::harness::path_joined(release_dir(root), "curio"@),
        crate::harness::path_joined(crate_release_dir(root), "curio"@),
    ]
}

pub fn local_curio_candidates(harness_root: &str) -> (r: Vec<String>)
    ensures
        crate::harness::strings_view(r@) == local_executables(harness_root@),
{
    let target = crate::harness::path_join(harness_root, "target");
    let release = crate::harness::path_join(target.as_str(), "release");
    let crate_dir = crate::harness::path_join(harness_root, "curio-rs");
    let crate_target = crate::harness::path_join(crate_dir.as_str(), "target");
    let crate_release = crate::harness::path_join(crate_target.as_str(), "release");
    let r = vec![
        crate::harness::path_join(release.as_str(), "curio.exe"),
        crate::harness::path_join(crate_release.as_str(), "curio.exe"),
        crate::harness::path_join(release.as_str(), "curio"),
        crate::harness::path_join(crate_release.as_str(), "curio"),
    ];
    assert(crate::harness::strings_view(r@) =~= local_executables(harness_root@));
    r
}

/// The first candidate of `local_curio_candidates` that exists (`exists[i]` says
/// whether candidate `i` does).
pub fn find_local_curio_executable(harness_root: &str, exists: &[bool]) -> (r: Option<String>)
    requires
        exists@.len() == 4,
    ensures
        match r {
            Some(p) => exists|i: int|
                0 <= i < 4 && exists@[i] && p@ == local_executables(harness_root@)[i] && forall|
                    j: int,
                | 0 <= j < i ==> !exists@[j],
            None => forall|i: int| 0 <= i < 4 ==> !exists@[i],
        },
{
    let candidates = local_curio_candidates(harness_root);
    assert(crate::harness::strings_view(candidates@).len() == candidates@.len());
    let mut i: usize = 0;
    while i < 4
        invariant
            i <= 4,
            exists@.len() == 4,
            candidates@.len() == 4,
            crate::harness::strings_view(candidates@) == local_executables(harness_root@),
            forall|j: int| 0 <= j < i ==> !exists@[j],
        decreases 4 - i,
    {
        if exists[i] {
            assert(crate::harness::strings_view(candidates@)[i as int] == candidates@[i as int]@);
            return Some(candidates[i].clone());
        }
        i += 1;
    }
    None
}

} // verus!

verus! {

// ─── Checking what is about to be published ────────────────────────────────

/// A markdown file under the published directory, as the sync's input check sees it.
#[derive(Clone, Debug)]
pub struct PublishedFile {
    /// Its path relative to the published directory.
    pub rel_path: String,
    /// The first component of that path.
    pub top_dir: String,
    /// Its file name.
    pub name: String,
    /// Its front matter's title.
    pub title: String,
    /// Its front matter's category path.
    pub category: Vec<String>,
}

/// Files the check passes over: branch indexes, placeholders and sidecars.
pub open spec fn skipped_published_name(name: Seq<char>) -> bool {
    name == "index.md"@ || name == ".gitkeep"@ || crate::text::ends_with(name, ".analysis.json"@)
        || crate::text::ends_with(name, ".proposal.json"@)
}

/// What the check reports of one file.
pub open spec fn published_file_errors(f: PublishedFile, routes: Set<Seq<char>>) -> Seq<Seq<char>> {
    let rel = f.rel_path@;
    if skipped_published_name(f.name@) {
        seq![]
    } else if f.top_dir@ == "uncategorized"@ {
        seq![
            rel
                + " is under published/uncategorized, which is invalid. Send it to review with a subtree proposal instead."@,
        ]
    } else {
        (if trim(f.title@).len() == 0 {
            seq![rel + " is missing a frontmatter title"@]
        } else {
            Seq::<Seq<char>>::empty()
        }) + if f.category@.len() == 0 {
            seq![
                rel
                    + " has no category. Published content must already be curated into a NORTHSTAR route."@,
            ]
        } else if !routes.contains(join(crate::curio_docs::strings(f.category@), "/"@)) {
            seq![
                rel + " uses invalid published route '"@ + join(
                    crate::curio_docs::strings(f.category@),
                    "/"@,
                ) + "'. Update NORTHSTAR or move the page back to review."@,
            ]
        } else {
            Seq::<Seq<char>>::empty()
        }
    }
}

/// What the check reports of the files, in order.
pub open spec fn published_errors(fs: Seq<PublishedFile>, routes: Set<Seq<char>>) -> Seq<Seq<char>>
    decreases fs.len(),
{
    if fs.len() == 0 {
        seq![]
    } else {
        published_errors(fs.drop_last(), routes) + published_file_errors(fs.last(), routes)
    }
}

fn skipped_name(name: &str) -> (b: bool)
    ensures
        b == skipped_published_name(name@),
{
    str_eq(name, "index.md") || str_eq(name, ".gitkeep") || crate::text::str_ends_with(
        name,
        ".analysis.json",
    ) || crate::text::str_ends_with(name, ".proposal.json")
}

fn push_message(out: &mut Vec<String>, m: Vec<char>)
    ensures
        crate::curio_docs::strings(final(out)@) == crate::curio_docs::strings(old(out)@).push(m@),
{
    let ghost before = out@;
    out.push(string_of(&m));
    assert(crate::curio_docs::strings(out@) =~= crate::curio_docs::strings(before).push(m@));
}

fn message2(a: &str, b: &str) -> (r: Vec<char>)
    ensures
        r@ == a@ + b@,
{
    let mut m = chars_of(a);
    extend_str(&mut m, b);
    m
}

/// The problems that keep the published files from being synced: each file under
/// `uncategorized/`, each without a title, each without a category, and each whose
/// category is no route of the NORTHSTAR trees.
pub fn published_input_errors(files: &[PublishedFile], trees: &[TreeNode]) -> (r: Vec<String>)
    ensures
        crate::curio_docs::strings(r@) == published_errors(files@, published_routes(trees@)),
{
    let routes = valid_published_routes(trees);
    let ghost rs = published_routes(trees@);
    let mut out: Vec<String> = Vec::new();
    let mut i: usize = 0;
    assert(files@.take(0) =~= Seq::<PublishedFile>::empty());
    while i < files.len()
        invariant
            i <= files@.len(),
            rs == published_routes(trees@),
            same_members(crate::curio_docs::strings(routes@), rs),
            crate::curio_docs::strings(out@) == published_errors(files@.take(i as int), rs),
        decreases files@.len() - i,
    {
        let f = &files[i];
        assert(files@.take(i + 1).drop_last() =~= files@.take(i as int));
        assert(files@.take(i + 1).last() == *f);
        let ghost before = crate::curio_docs::strings(out@);
        let rel = f.rel_path.as_str();
        if skipped_name(f.name.as_str()) {
            assert(published_file_errors(*f, rs) =~= Seq::<Seq<char>>::empty());
        } else if str_eq(f.top_dir.as_str(), "uncategorized") {
            push_message(
                &mut out,
                message2(
                    rel,
                    " is under published/uncategorized, which is invalid. Send it to review with a subtree proposal instead.",
                ),
            );
        } else {
            let blank = trim_vec(&chars_of(f.title.as_str())).len() == 0;
            if blank {
                push_message(&mut out, message2(rel, " is missing a frontmatter title"));
            }
            if f.category.len() == 0 {
                push_message(
                    &mut out,
                    message2(
                        rel,
                        " has no category. Published content must already be curated into a NORTHSTAR route.",
                    ),
                );
            } else {
                let route = crate::curio_docs::join_strings(f.category.as_slice(), "/");
                let ok = is_valid_route(&routes, f.category.as_slice());
                proof {
                    let x = join(crate::curio_docs::strings(f.category@), "/"@);
                    assert(crate::curio_docs::strings(routes@).contains(x) <==> rs.contains(x));
                }
                if !ok {
                    let mut m = message2(rel, " uses invalid published route '");
                    extend_chars(&mut m, &route);
                    extend_str(&mut m, "'. Update NORTHSTAR or move the page back to review.");
                    push_message(&mut out, m);
                }
            }
        }
        assert(crate::curio_docs::strings(out@) =~= before + published_file_errors(*f, rs));
        i += 1;
    }
    assert(files@.take(files@.len() as int) =~= files@);
    out
}

/// The sync's check of its published input: `Ok` when nothing is reported, else the
/// reports as one message.
pub fn validate_published_sync_inputs(files: &[PublishedFile], trees: &[TreeNode]) -> (r: Result<(), String>)
    ensures
        match r {
            Ok(()) => published_errors(files@, published_routes(trees@)).len() == 0,
            Err(m) => {
                let es = published_errors(files@, published_routes(trees@));
                &&& es.len() > 0
                &&& m@ == "Published sync validation failed:\n- "@ + join(es, "\n- "@)
            },
        },
{
    let errors = published_input_errors(files, trees);
    if errors.len() == 0 {
        Ok(())
    } else {
        let mut m = chars_of("Published sync validation failed:\n- ");
        let joined = crate::curio_docs::join_strings(errors.as_slice(), "\n- ");
        extend_chars(&mut m, &joined);
        Err(string_of(&m))
    }
}

// ─── Landing page of the managed space ──────────────────────────────────────

/// A source repository listed on the landing page.
#[derive(Clone, Debug)]
pub struct RelatedRepo {
    pub url: String,
    pub title: String,
    pub description: String,
}

pub open spec fn related_repo_item(r: RelatedRepo) -> Seq<char> {
    "<li><a href=\""@ + escape_html(r.url@) + "\">"@ + escape_html(r.title@) + "</a>"@ + (if trim(
        r.description@,
    ).len() == 0 {
        Seq::<char>::empty()
    } else {
        " — "@ + escape_html(r.description@)
    }) + "</li>"@
}

pub open spec fn related_repo_items(rs: Seq<RelatedRepo>) -> Seq<char>
    decreases rs.len(),
{
    if rs.len() == 0 {
        seq![]
    } else {
        related_repo_items(rs.drop_last()) + related_repo_item(rs.last())
    }
}

/// The "Source Repositories" section: none when there are no repositories.
pub open spec fn related_repos_html(rs: Seq<RelatedRepo>) -> Seq<char> {
    if rs.len() == 0 {
        seq![]
    } else {
        "<h2>Source Repositories</h2><ul>"@ + related_repo_items(rs) + "</ul>"@
    }
}

pub open spec fn space_link(space_key: Seq<char>, title: Seq<char>) -> Seq<char> {
    page_link_html(space_key, title, title)
}

/// The landing page of the managed space.
pub open spec fn curio_root_html(space_key: Seq<char>, rs: Seq<RelatedRepo>) -> Seq<char> {
    "<ac:image ac:layout=\"center\" ac:width=\"230\"><ri:attachment ri:filename=\"Curio_curated_intelligence_operator.png\" /></ac:image><h1>CURIO</h1><p>Curated Intelligence Operator is a Git-native knowledge curation system that turns raw source material into a governed, navigable Confluence space.</p><ac:structured-macro ac:name=\"info\"><ac:rich-text-body><p>Use CURIO as the landing page for teams who need a clear view of what is published, what is in-flight, how the workspace is configured, and where to start.</p></ac:rich-text-body></ac:structured-macro><h2>Why CURIO</h2><p>CURIO keeps Git as the source of truth while publishing a readable Confluence mirror for broader audiences. It helps teams capture intake, route content into an explicit taxonomy, review ambiguous material, and publish durable knowledge without losing provenance.</p><table><tbody><tr><th>Feature</th><th>Benefit</th></tr><tr><td>Git-native workspace</td><td>Auditable edits, repeatable automation, and durable source control.</td></tr><tr><td>Structured editorial pipeline</td><td>Separates intake, staging, review, and publication so quality gates stay visible.</td></tr><tr><td>Explicit taxonomy</td><td>Keeps published knowledge organized by clear branches instead of ad hoc page sprawl.</td></tr><tr><td>Confluence mirror</td><td>Lets less-technical users consume curated output without working in the repo.</td></tr></tbody></table><h2>Get Started</h2><p>New to CURIO? Start with "@ + space_link(space_key, "Getting Started"@) + " for setup, then use "@ + space_link(space_key, "Downloads"@)
        + " if you need a packaged bundle instead of a Git checkout. Read "@ + space_link(space_key, "Northstar"@) + " for the workspace charter and publishing model, or jump straight to "@ + space_link(space_key, "Published"@)
        + " to browse the curated output.</p><h2>Deployment Prerequisites</h2><ul><li>Confluence URL, account email, and API token available to Curio.</li><li>Access to the target Confluence space; space-admin rights are needed if Curio should repair the homepage setting automatically.</li><li>A local Git workspace for the Curio harness and the active knowledge base.</li><li>Curio CLI access for onboarding, sync, and editorial workflows.</li></ul>"@ + related_repos_html(rs) + "<h2>How It Works</h2><p>Content moves through a simple editorial loop: capture source material, route it into the right branch, review ambiguous or weak items, then publish only content that is useful and durable.</p><table><tbody><tr><th>Section</th><th>Purpose</th></tr><tr><td>"@ + space_link(space_key, "Published"@)
        + "</td><td>Published knowledge organized into explicit tree structures.</td></tr><tr><td>"@ + space_link(space_key, "Intake"@) + "</td><td>Fresh source material collected for processing.</td></tr><tr><td>"@ + space_link(space_key, "Staged"@)
        + "</td><td>Routed content awaiting final publication.</td></tr><tr><td>"@ + space_link(space_key, "Review"@) + "</td><td>Items needing human judgment.</td></tr><tr><td>"@ + space_link(space_key, "Admin"@)
        + "</td><td>Northstar, readme, config YAML, onboarding docs, and downloads that define the workspace.</td></tr></tbody></table>"@
}

fn push_space_link(out: &mut Vec<char>, space_key: &str, title: &str)
    ensures
        final(out)@ == old(out)@ + space_link(space_key@, title@),
{
    let l = page_link(space_key, title, title);
    extend_str(out, l.as_str());
}

/// The body of the landing page: what Curio is, where to start, what deploying it
/// takes, the operator's source repositories, and how content moves.
pub fn curio_root_body(space_key: &str, related: &[RelatedRepo]) -> (r: String)
    ensures
        r@ == curio_root_html(space_key@, related@),
{
    let mut repos: Vec<char> = Vec::new();
    if related.len() > 0 {
        extend_str(&mut repos, "<h2>Source Repositories</h2><ul>");
        let ghost head = repos@;
        let mut i: usize = 0;
        assert(related@.take(0) =~= Seq::<RelatedRepo>::empty());
        while i < related.len()
            invariant
                i <= related@.len(),
                repos@ == head + related_repo_items(related@.take(i as int)),
            decreases related@.len() - i,
        {
            let repo = &related[i];
            assert(related@.take(i + 1).drop_last() =~= related@.take(i as int));
            assert(related@.take(i + 1).last() == *repo);
            extend_str(&mut repos, "<li><a href=\"");
            extend_chars(&mut repos, &escape_vec(&chars_of(repo.url.as_str())));
            extend_str(&mut repos, "\">");
            extend_chars(&mut repos, &escape_vec(&chars_of(repo.title.as_str())));
            extend_str(&mut repos, "</a>");
            if trim_vec(&chars_of(repo.description.as_str())).len() > 0 {
                extend_str(&mut repos, " — ");
                extend_chars(&mut repos, &escape_vec(&chars_of(repo.description.as_str())));
            }
            extend_str(&mut repos, "</li>");
            assert(repos@ =~= head + related_repo_items(related@.take(i + 1)));
            i += 1;
        }
        assert(related@.take(related@.len() as int) =~= related@);
        extend_str(&mut repos, "</ul>");
    }
    assert(repos@ =~= related_repos_html(related@));
    let mut out = chars_of("<ac:image ac:layout=\"center\" ac:width=\"230\"><ri:attachment ri:filename=\"Curio_curated_intelligence_operator.png\" /></ac:image><h1>CURIO</h1><p>Curated Intelligence Operator is a Git-native knowledge curation system that turns raw source material into a governed, navigable Confluence space.</p><ac:structured-macro ac:name=\"info\"><ac:rich-text-body><p>Use CURIO as the landing page for teams who need a clear view of what is published, what is in-flight, how the workspace is configured, and where to start.</p></ac:rich-text-body></ac:structured-macro><h2>Why CURIO</h2><p>CURIO keeps Git as the source of truth while publishing a readable Confluence mirror for broader audiences. It helps teams capture intake, route content into an explicit taxonomy, review ambiguous material, and publish durable knowledge without losing provenance.</p><table><tbody><tr><th>Feature</th><th>Benefit</th></tr><tr><td>Git-native workspace</td><td>Auditable edits, repeatable automation, and durable source control.</td></tr><tr><td>Structured editorial pipeline</td><td>Separates intake, staging, review, and publication so quality gates stay visible.</td></tr><tr><td>Explicit taxonomy</td><td>Keeps published knowledge organized by clear branches instead of ad hoc page sprawl.</td></tr><tr><td>Confluence mirror</td><td>Lets less-technical users consume curated output without working in the repo.</td></tr></tbody></table><h2>Get Started</h2><p>New to CURIO? Start with ");
    push_space_link(&mut out, space_key, "Getting Started");
    extend_str(&mut out, " for setup, then use ");
    push_space_link(&mut out, space_key, "Downloads");
    extend_str(&mut out, " if you need a packaged bundle instead of a Git checkout. Read ");
    push_space_link(&mut out, space_key, "Northstar");
    extend_str(&mut out, " for the workspace charter and publishing model, or jump straight to ");
    push_space_link(&mut out, space_key, "Published");
    extend_str(&mut out, " to browse the curated output.</p><h2>Deployment Prerequisites</h2><ul><li>Confluence URL, account email, and API token available to Curio.</li><li>Access to the target Confluence space; space-admin rights are needed if Curio should repair the homepage setting automatically.</li><li>A local Git workspace for the Curio harness and the active knowledge base.</li><li>Curio CLI access for onboarding, sync, and editorial workflows.</li></ul>");
    extend_chars(&mut out, &repos);
    extend_str(&mut out, "<h2>How It Works</h2><p>Content moves through a simple editorial loop: capture source material, route it into the right branch, review ambiguous or weak items, then publish only content that is useful and durable.</p><table><tbody><tr><th>Section</th><th>Purpose</th></tr><tr><td>");
    push_space_link(&mut out, space_key, "Published");
    extend_str(&mut out, "</td><td>Published knowledge organized into explicit tree structures.</td></tr><tr><td>");
    push_space_link(&mut out, space_key, "Intake");
    extend_str(&mut out, "</td><td>Fresh source material collected for processing.</td></tr><tr><td>");
    push_space_link(&mut out, space_key, "Staged");
    extend_str(&mut out, "</td><td>Routed content awaiting final publication.</td></tr><tr><td>");
    push_space_link(&mut out, space_key, "Review");
    extend_str(&mut out, "</td><td>Items needing human judgment.</td></tr><tr><td>");
    push_space_link(&mut out, space_key, "Admin");
    extend_str(&mut out, "</td><td>Northstar, readme, config YAML, onboarding docs, and downloads that define the workspace.</td></tr></tbody></table>");
    assert(out@ =~= curio_root_html(space_key@, related@));
    string_of(&out)
}

// ─── Sharpening proposals page ──────────────────────────────────────────────

/// One sharpening proposal as its page shows it. The confidence comes already
/// written as a whole percentage.
#[derive(Clone, Debug)]
pub struct ProposalView {
    pub kind: Option<String>,
    pub recommended_action: Option<String>,
    pub affected_paths: Option<Vec<String>>,
    pub rationale: Option<String>,
    pub confidence_percent: Option<String>,
    pub expected_signal_gain: Option<String>,
}

pub open spec fn opt_row(o: Option<String>, th: Seq<char>, escaped: bool) -> Seq<char> {
    match o {
        Some(v) => "<tr><th>"@ + th + "</th><td>"@ + (if escaped {
            escape_html(v@)
        } else {
            v@
        }) + "</td></tr>"@,
        None => seq![],
    }
}

pub open spec fn proposal_callout(p: ProposalView) -> Seq<char> {
    "<ac:structured-macro ac:name=\"info\"><ac:rich-text-body><p><strong>"@ + escape_html(
        match p.kind {
            Some(k) => k@,
            None => "proposal"@,
        },
    ) + "</strong>: "@ + escape_html(
        match p.recommended_action {
            Some(a) => a@,
            None => seq![],
        },
    ) + "</p></ac:rich-text-body></ac:structured-macro>"@
}

pub open spec fn proposal_table(p: ProposalView) -> Seq<char> {
    "<table><tbody>"@ + (match p.affected_paths {
        Some(ps) => "<tr><th>Affected paths</th><td>"@ + join(crate::curio_docs::strings(ps@), "<br/>"@)
            + "</td></tr>"@,
        None => seq![],
    }) + opt_row(p.rationale, "Rationale"@, true) + (match p.confidence_percent {
        Some(c) => "<tr><th>Confidence</th><td>"@ + c@ + "%</td></tr>"@,
        None => seq![],
    }) + opt_row(p.expected_signal_gain, "Expected signal gain"@, true) + "</tbody></table>"@
}

pub open spec fn proposal_html(p: ProposalView) -> Seq<char> {
    proposal_callout(p) + proposal_table(p)
}

pub open spec fn proposals_html(ps: Seq<ProposalView>) -> Seq<char>
    decreases ps.len(),
{
    if ps.len() == 0 {
        seq![]
    } else {
        proposals_html(ps.drop_last()) + proposal_html(ps.last())
    }
}

/// The page of a sharpening proposal set.
pub open spec fn proposal_page_html(generated_at: Seq<char>, ps: Seq<ProposalView>) -> Seq<char> {
    "<h1>Sharpening Proposal Set</h1>"@ + (if generated_at.len() == 0 {
        Seq::<char>::empty()
    } else {
        "<p>Generated at "@ + escape_html(generated_at) + "</p>"@
    }) + proposals_html(ps)
}

fn push_escaped(out: &mut Vec<char>, s: &str)
    ensures
        final(out)@ == old(out)@ + escape_html(s@),
{
    extend_chars(out, &escape_vec(&chars_of(s)));
}

fn push_opt_row(out: &mut Vec<char>, o: &Option<String>, th: &str)
    ensures
        final(out)@ == old(out)@ + opt_row(*o, th@, true),
{
    match o {
        Some(v) => {
            extend_str(out, "<tr><th>");
            extend_str(out, th);
            extend_str(out, "</th><td>");
            push_escaped(out, v.as_str());
            extend_str(out, "</td></tr>");
        },
        None => {},
    }
}

fn push_callout(out: &mut Vec<char>, p: &ProposalView)
    ensures
        final(out)@ == old(out)@ + proposal_callout(*p),
{
    let ghost start = out@;
    extend_str(
        out,
        "<ac:structured-macro ac:name=\"info\"><ac:rich-text-body><p><strong>",
    );
    match &p.kind {
        Some(k) => push_escaped(out, k.as_str()),
        None => push_escaped(out, "proposal"),
    }
    extend_str(out, "</strong>: ");
    let ghost mid = out@;
    match &p.recommended_action {
        Some(a) => push_escaped(out, a.as_str()),
        None => {
            assert(escape_html(Seq::<char>::empty()) =~= Seq::<char>::empty());
        },
    }
    assert(out@ =~= mid + escape_html(
        match p.recommended_action {
            Some(a) => a@,
            None => seq![],
        },
    ));
    extend_str(out, "</p></ac:rich-text-body></ac:structured-macro>");
    assert(out@ =~= start + proposal_callout(*p));
}

fn push_table(out: &mut Vec<char>, p: &ProposalView)
    ensures
        final(out)@ == old(out)@ + proposal_table(*p),
{
    let ghost start = out@;
    extend_str(out, "<table><tbody>");
    match &p.affected_paths {
        Some(ps) => {
            extend_str(out, "<tr><th>Affected paths</th><td>");
            extend_chars(out, &crate::curio_docs::join_strings(ps.as_slice(), "<br/>"));
            extend_str(out, "</td></tr>");
        },
        None => {},
    }
    push_opt_row(out, &p.rationale, "Rationale");
    match &p.confidence_percent {
        Some(c) => {
            extend_str(out, "<tr><th>Confidence</th><td>");
            extend_str(out, c.as_str());
            extend_str(out, "%</td></tr>");
        },
        None => {},
    }
    push_opt_row(out, &p.expected_signal_gain, "Expected signal gain");
    extend_str(out, "</tbody></table>");
    assert(out@ =~= start + proposal_table(*p));
}

fn push_proposal(out: &mut Vec<char>, p: &ProposalView)
    ensures
        final(out)@ == old(out)@ + proposal_html(*p),
{
    let ghost start = out@;
    push_callout(out, p);
    push_table(out, p);
    assert(out@ =~= start + proposal_html(*p));
}

/// The page body of a sharpening proposal set: a heading, when it was generated,
/// and each proposal as a callout and a table of what it affects and why.
pub fn render_proposal_body(generated_at: &str, proposals: &[ProposalView]) -> (r: String)
    ensures
        r@ == proposal_page_html(generated_at@, proposals@),
{
    let mut out = chars_of("<h1>Sharpening Proposal Set</h1>");
    if chars_of(generated_at).len() > 0 {
        extend_str(&mut out, "<p>Generated at ");
        push_escaped(&mut out, generated_at);
        extend_str(&mut out, "</p>");
    }
    let ghost head = out@;
    let mut i: usize = 0;
    assert(proposals@.take(0) =~= Seq::<ProposalView>::empty());
    while i < proposals.len()
        invariant
            i <= proposals@.len(),
            out@ == head + proposals_html(proposals@.take(i as int)),
        decreases proposals@.len() - i,
    {
        assert(proposals@.take(i + 1).drop_last() =~= proposals@.take(i as int));
        assert(proposals@.take(i + 1).last() == proposals@[i as int]);
        push_proposal(&mut out, &proposals[i]);
        i += 1;
    }
    assert(proposals@.take(proposals@.len() as int) =~= proposals@);
    assert(out@ =~= proposal_page_html(generated_at@, proposals@));
    string_of(&out)
}

// ─── The published walk ─────────────────────────────────────────────────────

/// What the sync does with one entry of the published directory.
#[derive(Clone, Debug)]
pub enum SyncOp {
    /// Create or update the branch page of a directory, under the page of its parent
    /// directory.
    Branch {
        rel_path: String,
        parent_rel: String,
        name: String,
        title: String,
        description_html: String,
        icon: Option<String>,
    },
    /// Sync a markdown page under the page of its directory.
    Page { rel_path: String, parent_rel: String },
}

/// A [`SyncOp`] as plain values.
pub enum SyncStep {
    Branch(Seq<char>, Seq<char>, Seq<char>, Seq<char>, Seq<char>, Option<Seq<char>>),
    Page(Seq<char>, Seq<char>),
}

pub open spec fn op_view(o: SyncOp) -> SyncStep {
    match o {
        SyncOp::Branch { rel_path, parent_rel, name, title, description_html, icon } => SyncStep::Branch(
            rel_path@,
            parent_rel@,
            name@,
            title@,
            description_html@,
            match icon {
                Some(i) => Some(i@),
                None => None,
            },
        ),
        SyncOp::Page { rel_path, parent_rel } => SyncStep::Page(rel_path@, parent_rel@),
    }
}

pub open spec fn ops_view(os: Seq<SyncOp>) -> Seq<SyncStep> {
    os.map_values(|o: SyncOp| op_view(o))
}

/// The last tree with this slug (a later one with the same slug wins).
pub open spec fn last_tree(ts: Seq<TreeNode>, slug: Seq<char>) -> Option<TreeNode>
    decreases ts.len(),
{
    if ts.len() == 0 {
        None
    } else if ts.last().slug@ == slug {
        Some(ts.last())
    } else {
        last_tree(ts.drop_last(), slug)
    }
}

pub open spec fn node_info(t: TreeNode) -> (Seq<char>, Seq<char>, Option<Seq<char>>) {
    (
        t.title@,
        t.description_html@,
        match t.icon {
            Some(i) => Some(i@),
            None => None,
        },
    )
}

/// The title, description and icon of a directory's branch page: a top-level
/// directory takes its NORTHSTAR tree's, a second-level one its subtree's; any other,
/// or one NORTHSTAR does not name, its name as a title and nothing more.
pub open spec fn branch_info_of(segs: Seq<Seq<char>>, trees: Seq<TreeNode>) -> (Seq<char>, Seq<char>, Option<Seq<char>>) {
    let name = segs.last();
    let fallback = (title_of(name), Seq::<char>::empty(), None::<Seq<char>>);
    if segs.len() == 1 {
        match last_tree(trees, name) {
            Some(t) => node_info(t),
            None => fallback,
        }
    } else if segs.len() == 2 {
        match last_tree(trees, segs[0]) {
            Some(t) => match last_tree(t.subtrees@, name) {
                Some(u) => node_info(u),
                None => fallback,
            },
            None => fallback,
        }
    } else {
        fallback
    }
}

/// Entries the walk passes over: placeholders, branch indexes and sidecars, anything
/// under `uncategorized/`, and hidden or system names (starting with `.` or `_`).
pub open spec fn entry_skipped(rel: Seq<char>, is_dir: bool) -> bool {
    let segs = pieces(rel, '/');
    let name = segs.last();
    ||| !is_dir && (name == ".gitkeep"@ || name == "index.md"@ || crate::text::ends_with(
        name,
        ".analysis.json"@,
    ) || crate::text::ends_with(name, ".proposal.json"@))
    ||| segs[0] == "uncategorized"@
    ||| (name.len() > 0 && (name[0] == '.' || name[0] == '_'))
}

/// What the sync does with one entry (relative path with `/` separators, and whether
/// it is a directory).
pub open spec fn entry_ops(rel: Seq<char>, is_dir: bool, trees: Seq<TreeNode>) -> Seq<SyncStep> {
    let segs = pieces(rel, '/');
    let parent = join(segs.drop_last(), "/"@);
    if entry_skipped(rel, is_dir) {
        seq![]
    } else if is_dir {
        let info = branch_info_of(segs, trees);
        seq![SyncStep::Branch(rel, parent, segs.last(), info.0, info.1, info.2)]
    } else if crate::text::ends_with(segs.last(), ".md"@) {
        seq![SyncStep::Page(rel, parent)]
    } else {
        seq![]
    }
}

/// The sync's plan for the published directory, entry by entry in walk order.
pub open spec fn sync_plan_of(entries: Seq<(String, bool)>, trees: Seq<TreeNode>) -> Seq<SyncStep>
    decreases entries.len(),
{
    if entries.len() == 0 {
        seq![]
    } else {
        sync_plan_of(entries.drop_last(), trees) + entry_ops(
            entries.last().0@,
            entries.last().1,
            trees,
        )
    }
}

fn last_tree_exec<'a>(ts: &'a [TreeNode], slug: &Vec<char>) -> (r: Option<&'a TreeNode>)
    ensures
        match r {
            Some(t) => last_tree(ts@, slug@) == Some(*t),
            None => last_tree(ts@, slug@) is None,
        },
{
    let mut i: usize = ts.len();
    assert(ts@.take(ts@.len() as int) =~= ts@);
    while i > 0
        invariant
            i <= ts@.len(),
            last_tree(ts@, slug@) == last_tree(ts@.take(i as int), slug@),
        decreases i,
    {
        assert(ts@.take(i as int).drop_last() =~= ts@.take(i - 1));
        assert(ts@.take(i as int).last() == ts@[i - 1]);
        if crate::text::seq_eq(&chars_of(ts[i - 1].slug.as_str()), slug) {
            return Some(&ts[i - 1]);
        }
        i -= 1;
    }
    None
}

fn copy_opt(o: &Option<String>) -> (r: Option<String>)
    ensures
        match (r, *o) {
            (Some(a), Some(b)) => a@ == b@,
            (None, None) => true,
            _ => false,
        },
{
    match o {
        Some(s) => Some(String::from_str(s.as_str())),
        None => None,
    }
}

fn branch_op(rel: &str, parent: Vec<char>, segs: &Vec<Vec<char>>, trees: &[TreeNode]) -> (r: SyncOp)
    requires
        segs@.len() > 0,
    ensures
        op_view(r) == SyncStep::Branch(
            rel@,
            parent@,
            views(segs@).last(),
            branch_info_of(views(segs@), trees@).0,
            branch_info_of(views(segs@), trees@).1,
            branch_info_of(views(segs@), trees@).2,
        ),
{
    let n = segs.len();
    let name = &segs[n - 1];
    assert(views(segs@).last() == name@);
    let found: Option<&TreeNode> = if n == 1 {
        last_tree_exec(trees, name)
    } else if n == 2 {
        assert(views(segs@)[0] == segs@[0]@);
        match last_tree_exec(trees, &segs[0]) {
            Some(t) => last_tree_exec(t.subtrees.as_slice(), name),
            None => None,
        }
    } else {
        None
    };
    match found {
        Some(t) => SyncOp::Branch {
            rel_path: String::from_str(rel),
            parent_rel: string_of(&parent),
            name: string_of(name),
            title: String::from_str(t.title.as_str()),
            description_html: String::from_str(t.description_html.as_str()),
            icon: copy_opt(&t.icon),
        },
        None => SyncOp::Branch {
            rel_path: String::from_str(rel),
            parent_rel: string_of(&parent),
            name: string_of(name),
            title: to_title(string_of(name).as_str()),
            description_html: String::new(),
            icon: None,
        },
    }
}

fn entry_op(rel: &str, is_dir: bool, trees: &[TreeNode]) -> (r: Option<SyncOp>)
    ensures
        match r {
            Some(o) => entry_ops(rel@, is_dir, trees@) == seq![op_view(o)],
            None => entry_ops(rel@, is_dir, trees@) == Seq::<SyncStep>::empty(),
        },
{
    let segs = split_char(&chars_of(rel), '/');
    let ghost sv = views(segs@);
    assert(sv == pieces(rel@, '/'));
    proof {
        crate::text::lemma_pieces_nonempty(rel@, '/');
    }
    let n = segs.len();
    let name = &segs[n - 1];
    assert(sv.last() == name@);
    assert(sv[0] == segs@[0]@);
    let placeholder = !is_dir && (crate::text::seq_eq(name, &chars_of(".gitkeep"))
        || crate::text::seq_eq(name, &chars_of("index.md")) || crate::text::vec_ends_with(
        name,
        &chars_of(".analysis.json"),
    ) || crate::text::vec_ends_with(name, &chars_of(".proposal.json")));
    let uncategorized = crate::text::seq_eq(&segs[0], &chars_of("uncategorized"));
    let hidden = name.len() > 0 && (name[0] == '.' || name[0] == '_');
    if placeholder || uncategorized || hidden {
        return None;
    }
    let mut prefix: Vec<Vec<char>> = Vec::new();
    let mut k: usize = 0;
    while k + 1 < n
        invariant
            n == segs@.len(),
            k + 1 <= n,
            views(prefix@) == sv.take(k as int),
            sv == views(segs@),
        decreases n - k,
    {
        let ghost before = prefix@;
        let piece = slice_vec(&segs[k], 0, segs[k].len());
        assert(piece@ =~= segs@[k as int]@);
        assert(sv[k as int] == segs@[k as int]@);
        prefix.push(piece);
        assert(views(prefix@) =~= views(before).push(piece@));
        assert(sv.take(k + 1) =~= sv.take(k as int).push(sv[k as int]));
        assert(views(prefix@) =~= sv.take(k + 1));
        k += 1;
    }
    assert(sv.take(k as int) =~= sv.drop_last());
    let parent = join_vec(&prefix, &chars_of("/"));
    if is_dir {
        Some(branch_op(rel, parent, &segs, trees))
    } else if crate::text::vec_ends_with(name, &chars_of(".md")) {
        Some(SyncOp::Page { rel_path: String::from_str(rel), parent_rel: string_of(&parent) })
    } else {
        None
    }
}

/// The sync's plan for the published directory: for each entry of the sorted walk
/// (relative path with `/` separators, and whether it is a directory) that is not a
/// placeholder, a branch index, a sidecar, under `uncategorized/`, or hidden, a branch
/// page for a directory (titled from NORTHSTAR by depth) or a page for a markdown
/// file, each under its parent directory's page.
pub fn published_sync_plan(entries: &[(String, bool)], trees: &[TreeNode]) -> (r: Vec<SyncOp>)
    ensures
        ops_view(r@) == sync_plan_of(entries@, trees@),
{
    let mut out: Vec<SyncOp> = Vec::new();
    let mut i: usize = 0;
    assert(entries@.take(0) =~= Seq::<(String, bool)>::empty());
    while i < entries.len()
        invariant
            i <= entries@.len(),
            ops_view(out@) == sync_plan_of(entries@.take(i as int), trees@),
        decreases entries@.len() - i,
    {
        assert(entries@.take(i + 1).drop_last() =~= entries@.take(i as int));
        assert(entries@.take(i + 1).last() == entries@[i as int]);
        let ghost before = ops_view(out@);
        match entry_op(entries[i].0.as_str(), entries[i].1, trees) {
            Some(o) => {
                out.push(o);
                assert(ops_view(out@) =~= before + seq![op_view(out@[out@.len() - 1])]);
            },
            None => {},
        }
        assert(ops_view(out@) =~= sync_plan_of(entries@.take(i + 1), trees@));
        i += 1;
    }
    assert(entries@.take(entries@.len() as int) =~= entries@);
    out
}

/// Whether a page is left as it is: the page of that title exists and its recorded
/// content hash is the one of the text to write.
pub fn skip_unchanged(title_matches: bool, remote_hash: Option<&str>, local_hash: &str) -> (b: bool)
    ensures
        b == (title_matches && crate::curio_docs::opt_str(remote_hash) == Some(local_hash@)),
{
    title_matches && match remote_hash {
        Some(h) => str_eq(h, local_hash),
        None => false,
    }
}

/// The pages a full refresh deletes: those below the managed roots that this run did
/// not sync and whose sync property says Curio wrote them; none without a full
/// refresh.
pub open spec fn owned_unseen(candidates: Seq<(String, bool)>, synced: Seq<Seq<char>>, full_refresh: bool) -> Seq<Seq<char>>
    decreases candidates.len(),
{
    if !full_refresh || candidates.len() == 0 {
        seq![]
    } else {
        let (id, owned) = candidates.last();
        owned_unseen(candidates.drop_last(), synced, full_refresh) + if owned && !synced.contains(id@) {
            seq![id@]
        } else {
            Seq::<Seq<char>>::empty()
        }
    }
}

/// A full refresh deletes only pages Curio owns that this run did not sync: each
/// deleted id is a candidate marked owned and is not among the synced ids; and
/// nothing is deleted without a full refresh.
pub proof fn law_prune_only_owned_unseen(candidates: Seq<(String, bool)>, synced: Seq<Seq<char>>, full_refresh: bool)
    ensures
        !full_refresh ==> owned_unseen(candidates, synced, full_refresh).len() == 0,
        forall|k: int|
            0 <= k < owned_unseen(candidates, synced, full_refresh).len() ==> !synced.contains(
                #[trigger] owned_unseen(candidates, synced, full_refresh)[k],
            ) && exists|j: int|
                0 <= j < candidates.len() && candidates[j].1 && candidates[j].0@
                    == owned_unseen(candidates, synced, full_refresh)[k],
    decreases candidates.len(),
{
    if full_refresh && candidates.len() > 0 {
        let rest = candidates.drop_last();
        law_prune_only_owned_unseen(rest, synced, full_refresh);
        let o = owned_unseen(candidates, synced, full_refresh);
        let p = owned_unseen(rest, synced, full_refresh);
        assert forall|k: int| 0 <= k < o.len() implies !synced.contains(#[trigger] o[k]) && exists|j: int|
            0 <= j < candidates.len() && candidates[j].1 && candidates[j].0@ == o[k] by {
            if k < p.len() {
                assert(o[k] == p[k]);
                let j = choose|j: int| 0 <= j < rest.len() && rest[j].1 && rest[j].0@ == p[k];
                assert(candidates[j] == rest[j]);
            } else {
                let j = candidates.len() - 1;
                assert(candidates[j] == candidates.last());
            }
        }
    }
}

pub fn stale_pages_to_delete(candidates: &[(String, bool)], synced: &[String], full_refresh: bool) -> (r: Vec<String>)
    ensures
        crate::curio_docs::strings(r@) == owned_unseen(candidates@, crate::curio_docs::strings(synced@), full_refresh),
{
    let mut out: Vec<String> = Vec::new();
    if !full_refresh {
        return out;
    }
    let ghost sv = crate::curio_docs::strings(synced@);
    let mut i: usize = 0;
    assert(candidates@.take(0) =~= Seq::<(String, bool)>::empty());
    while i < candidates.len()
        invariant
            i <= candidates@.len(),
            full_refresh,
            sv == crate::curio_docs::strings(synced@),
            crate::curio_docs::strings(out@) == owned_unseen(candidates@.take(i as int), sv, full_refresh),
        decreases candidates@.len() - i,
    {
        assert(candidates@.take(i + 1).drop_last() =~= candidates@.take(i as int));
        assert(candidates@.take(i + 1).last() == candidates@[i as int]);
        let (id, owned) = &candidates[i];
        if *owned && !has_string(synced, id.as_str()) {
            let ghost before = out@;
            out.push(String::from_str(id.as_str()));
            assert(crate::curio_docs::strings(out@) =~= crate::curio_docs::strings(before).push(id@));
        }
        i += 1;
    }
    assert(candidates@.take(candidates@.len() as int) =~= candidates@);
    out
}

pub(crate) fn has_string(v: &[String], s: &str) -> (b: bool)
    ensures
        b == crate::curio_docs::strings(v@).contains(s@),
{
    let mut i: usize = 0;
    while i < v.len()
        invariant
            i <= v@.len(),
            forall|k: int| 0 <= k < i ==> v@[k]@ != s@,
        decreases v@.len() - i,
    {
        if str_eq(v[i].as_str(), s) {
            assert(crate::curio_docs::strings(v@)[i as int] == s@);
            return true;
        }
        i += 1;
    }
    assert forall|k: int| 0 <= k < crate::curio_docs::strings(v@).len() implies crate::curio_docs::strings(
        v@,
    )[k] != s@ by {}
    false
}

/// The closing line of a sync.
pub open spec fn sync_summary_of(upserted: u64, skipped: u64, errors: u64, dry_run: bool) -> Seq<char> {
    "Sync: "@ + crate::text::decimal(upserted as nat) + " upserted, "@ + crate::text::decimal(
        skipped as nat,
    ) + " skipped, "@ + crate::text::decimal(errors as nat) + " errors"@ + if dry_run {
        " (dry run)"@
    } else {
        Seq::<char>::empty()
    }
}

/// The audit-log line of a full refresh.
pub open spec fn sync_log_line_of(upserted: u64, skipped: u64, deleted: u64, preserved: u64, errors: u64) -> Seq<char> {
    "sync: "@ + crate::text::decimal(upserted as nat) + " upserted, "@ + crate::text::decimal(
        skipped as nat,
    ) + " skipped, "@ + crate::text::decimal(deleted as nat) + " owned stale deleted, "@
        + crate::text::decimal(preserved as nat) + " unowned preserved, "@ + crate::text::decimal(
        errors as nat,
    ) + " errors"@
}

pub fn sync_summary(upserted: u64, skipped: u64, errors: u64, dry_run: bool) -> (r: String)
    ensures
        r@ == sync_summary_of(upserted, skipped, errors, dry_run),
{
    let mut m = chars_of("Sync: ");
    extend_chars(&mut m, &crate::text::decimal_vec(upserted));
    extend_str(&mut m, " upserted, ");
    extend_chars(&mut m, &crate::text::decimal_vec(skipped));
    extend_str(&mut m, " skipped, ");
    extend_chars(&mut m, &crate::text::decimal_vec(errors));
    extend_str(&mut m, " errors");
    if dry_run {
        extend_str(&mut m, " (dry run)");
    }
    string_of(&m)
}

pub fn sync_log_line(upserted: u64, skipped: u64, deleted: u64, preserved: u64, errors: u64) -> (r: String)
    ensures
        r@ == sync_log_line_of(upserted, skipped, deleted, preserved, errors),
{
    let mut m = chars_of("sync: ");
    extend_chars(&mut m, &crate::text::decimal_vec(upserted));
    extend_str(&mut m, " upserted, ");
    extend_chars(&mut m, &crate::text::decimal_vec(skipped));
    extend_str(&mut m, " skipped, ");
    extend_chars(&mut m, &crate::text::decimal_vec(deleted));
    extend_str(&mut m, " owned stale deleted, ");
    extend_chars(&mut m, &crate::text::decimal_vec(preserved));
    extend_str(&mut m, " unowned preserved, ");
    extend_chars(&mut m, &crate::text::decimal_vec(errors));
    extend_str(&mut m, " errors");
    string_of(&m)
}

} // verus!
