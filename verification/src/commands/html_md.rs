//! Turning HTML (and Confluence storage format) into markdown for intake: a walk
//! over the element tree that renders each element once.
use vstd::prelude::*;

use crate::text::{
    chars_of, decimal, extend_chars, extend_str, is_ws, join, lines, lowercase, replace_all,
    replace_vec, spec_lowercase, split_lines, str_eq, string_of, trim, trim_end, trim_end_vec,
    trim_matches_char, trim_matches_char_vec, trim_vec, views,
};

verus! {

// ─── The element tree ───────────────────────────────────────────────────────

/// What a node that is neither an element nor a text is.
#[derive(Clone, Copy, Debug, PartialEq, Eq, Structural)]
pub enum OtherKind {
    Document,
    /// A document fragment: the parser puts a `<template>`'s contents under one.
    Fragment,
    Doctype,
    Comment,
    ProcessingInstruction,
}

/// A node of a parsed HTML document.
#[derive(Debug)]
pub enum HtmlNode {
    Element(HtmlElement),
    Text(String),
    /// Any other node, with its children (only a fragment or document has any).
    Other(OtherKind, Vec<HtmlNode>),
}

/// An element: its (local) name, its attributes in order, and its children.
#[derive(Debug)]
pub struct HtmlElement {
    pub name: String,
    pub attrs: Vec<(String, String)>,
    pub children: Vec<HtmlNode>,
}

/// The value of the first attribute named `key`.
pub open spec fn attr_of(attrs: Seq<(String, String)>, key: Seq<char>) -> Option<Seq<char>>
    decreases attrs.len(),
{
    if attrs.len() == 0 {
        None
    } else if attrs[0].0@ == key {
        Some(attrs[0].1@)
    } else {
        attr_of(attrs.drop_first(), key)
    }
}

/// All text under the nodes, in document order (`ElementRef::text`).
pub open spec fn text_of(cs: Seq<HtmlNode>) -> Seq<char>
    decreases cs,
{
    if cs.len() == 0 {
        seq![]
    } else {
        text_of(cs.drop_last()) + match cs.last() {
            HtmlNode::Text(t) => t@,
            HtmlNode::Element(e) => text_of(e.children@),
            HtmlNode::Other(_, kids) => text_of(kids@),
        }
    }
}

/// The first element under the nodes, in document order, that `wanted` accepts.
pub open spec fn first_named(cs: Seq<HtmlNode>, name: Seq<char>) -> Option<HtmlElement>
    decreases cs,
{
    if cs.len() == 0 {
        None
    } else {
        match cs[0] {
            HtmlNode::Element(e) => if e.name@ == name {
                Some(e)
            } else {
                match first_named(e.children@, name) {
                    Some(x) => Some(x),
                    None => first_named(cs.drop_first(), name),
                }
            },
            HtmlNode::Other(_, kids) => match first_named(kids@, name) {
                Some(x) => Some(x),
                None => first_named(cs.drop_first(), name),
            },
            HtmlNode::Text(_) => first_named(cs.drop_first(), name),
        }
    }
}

/// The first `ac:parameter` element under the nodes whose `ac:name` is `language`.
pub open spec fn first_language_param(cs: Seq<HtmlNode>) -> Option<HtmlElement>
    decreases cs,
{
    if cs.len() == 0 {
        None
    } else {
        match cs[0] {
            HtmlNode::Element(e) => if e.name@ == "ac:parameter"@ && attr_of(e.attrs@, "ac:name"@)
                == Some("language"@) {
                Some(e)
            } else {
                match first_language_param(e.children@) {
                    Some(x) => Some(x),
                    None => first_language_param(cs.drop_first()),
                }
            },
            HtmlNode::Other(_, kids) => match first_language_param(kids@) {
                Some(x) => Some(x),
                None => first_language_param(cs.drop_first()),
            },
            HtmlNode::Text(_) => first_language_param(cs.drop_first()),
        }
    }
}

// ─── Tables ─────────────────────────────────────────────────────────────────

/// The cells of a row: the text of each `td`/`th` child, `|` escaped, trimmed.
pub open spec fn row_cells(cs: Seq<HtmlNode>) -> Seq<Seq<char>>
    decreases cs.len(),
{
    if cs.len() == 0 {
        seq![]
    } else {
        row_cells(cs.drop_last()) + match cs.last() {
            HtmlNode::Element(c) => if c.name@ == "td"@ || c.name@ == "th"@ {
                seq![trim(replace_all(text_of(c.children@), "|"@, "\\|"@))]
            } else {
                seq![]
            },
            _ => seq![],
        }
    }
}

/// The rows with cells of every `tr` under the nodes, in document order.
pub open spec fn table_rows(cs: Seq<HtmlNode>) -> Seq<Seq<Seq<char>>>
    decreases cs,
{
    if cs.len() == 0 {
        seq![]
    } else {
        table_rows(cs.drop_last()) + match cs.last() {
            HtmlNode::Element(e) => (if e.name@ == "tr"@ && row_cells(e.children@).len() > 0 {
                seq![row_cells(e.children@)]
            } else {
                seq![]
            }) + table_rows(e.children@),
            HtmlNode::Other(_, kids) => table_rows(kids@),
            HtmlNode::Text(_) => seq![],
        }
    }
}

pub open spec fn max_cells(rows: Seq<Seq<Seq<char>>>) -> nat
    decreases rows.len(),
{
    if rows.len() == 0 {
        0
    } else {
        let m = max_cells(rows.drop_last());
        if rows.last().len() > m {
            rows.last().len()
        } else {
            m
        }
    }
}

pub open spec fn padded(row: Seq<Seq<char>>, cols: nat) -> Seq<Seq<char>> {
    Seq::new(cols, |j: int| if j < row.len() { row[j] } else { seq![] })
}

pub open spec fn table_line(cells: Seq<Seq<char>>) -> Seq<char> {
    "| "@ + join(cells, " | "@) + " |"@
}

pub open spec fn table_lines(rows: Seq<Seq<Seq<char>>>, cols: nat) -> Seq<char>
    decreases rows.len(),
{
    if rows.len() == 0 {
        seq![]
    } else {
        table_lines(rows.drop_last(), cols) + table_line(padded(rows.last(), cols)) + "\n"@ + (
        if rows.len() == 1 {
            table_line(Seq::new(cols, |j: int| "---"@)) + "\n"@
        } else {
            seq![]
        })
    }
}

/// A markdown table: a header row, a separator, the other rows, each padded to the
/// widest; nothing for no rows.
pub open spec fn table_md(rows: Seq<Seq<Seq<char>>>) -> Seq<char> {
    if rows.len() == 0 {
        seq![]
    } else {
        table_lines(rows, max_cells(rows)) + "\n"@
    }
}

// ─── Confluence macros and tasks ────────────────────────────────────────────

pub open spec fn callout_label(name: Seq<char>) -> Seq<char> {
    if name == "warning"@ {
        "⚠️ Warning"@
    } else if name == "note"@ {
        "📝 Note"@
    } else if name == "tip"@ {
        "💡 Tip"@
    } else {
        "ℹ️ Info"@
    }
}

pub open spec fn quoted_lines(ls: Seq<Seq<char>>) -> Seq<Seq<char>> {
    ls.map_values(|l: Seq<char>| "> "@ + l)
}

/// A structured macro from its name, the markdown of its bodies and its language
/// parameter: an index note for `children` and `pagetree`, nothing for an empty body,
/// a quoted callout for `info`, `note`, `warning` and `tip`, a fenced block for
/// `code`, else the body.
pub open spec fn macro_md(name: Option<Seq<char>>, body: Seq<char>, lang: Option<HtmlElement>) -> Seq<char> {
    let n = match name {
        Some(x) => x,
        None => seq![],
    };
    if n == "children"@ || n == "pagetree"@ {
        "*[Organized section — child pages listed separately]*\n\n"@
    } else if trim(body).len() == 0 {
        seq![]
    } else if n == "info"@ || n == "note"@ || n == "warning"@ || n == "tip"@ {
        "> **"@ + callout_label(n) + "**\n>\n"@ + join(quoted_lines(lines(trim(body))), "\n"@)
            + "\n\n"@
    } else if n == "code"@ {
        "```"@ + match lang {
            Some(p) => text_of(p.children@),
            None => seq![],
        } + "\n"@ + trim(body) + "\n```\n\n"@
    } else {
        trim(body) + "\n"@
    }
}

/// A task: checked when its status reads `complete`.
pub open spec fn task_md(cs: Seq<HtmlNode>) -> Seq<char> {
    let st = first_named(cs, "ac:task-status"@);
    let done = st is Some && spec_lowercase(trim(text_of(st->0.children@))) == "complete"@;
    let body = match first_named(cs, "ac:task-body"@) {
        Some(b) => text_of(b.children@),
        None => seq![],
    };
    "- ["@ + (if done {
        "x"@
    } else {
        " "@
    }) + "] "@ + trim(body) + "\n"@
}

/// A link: `<href>` when its text is blank or the address itself, else
/// `[text](href)`; the address defaults to `#`.
pub open spec fn link_md(href: Option<Seq<char>>, text: Seq<char>) -> Seq<char> {
    let h = match href {
        Some(x) => x,
        None => "#"@,
    };
    if trim(text).len() == 0 || trim(text) == h {
        "<"@ + h + ">"@
    } else {
        "["@ + trim(text) + "]("@ + h + ")"@
    }
}

pub open spec fn pre_md(code: Seq<char>) -> Seq<char> {
    if trim(code).len() == 0 {
        seq![]
    } else {
        "```\n"@ + trim_end(code) + "\n```\n\n"@
    }
}

pub open spec fn para_md(t: Seq<char>) -> Seq<char> {
    if trim(t).len() == 0 {
        seq![]
    } else {
        trim(t) + "\n\n"@
    }
}

pub open spec fn spaces(n: nat) -> Seq<char> {
    Seq::new(n, |i: int| ' ')
}

pub open spec fn bullet(ordered: bool, depth: nat, idx: nat) -> Seq<char> {
    spaces(3 * depth) + if ordered {
        decimal(idx) + ". "@
    } else {
        "- "@
    }
}

pub open spec fn skip_tag(t: Seq<char>) -> bool {
    t == "script"@ || t == "style"@ || t == "head"@ || t == "meta"@ || t == "link"@ || t
        == "noscript"@
}

pub open spec fn block_tag(t: Seq<char>) -> bool {
    t == "div"@ || t == "section"@ || t == "article"@ || t == "main"@ || t == "body"@ || t
        == "html"@ || t == "span"@ || t == "figure"@ || t == "figcaption"@ || t == "header"@ || t
        == "footer"@ || t == "nav"@ || t == "aside"@
}

pub open spec fn table_part(t: Seq<char>) -> bool {
    t == "tr"@ || t == "td"@ || t == "th"@ || t == "thead"@ || t == "tbody"@
}

pub open spec fn inline_name(n: Seq<char>) -> bool {
    n == "a"@ || n == "strong"@ || n == "b"@ || n == "em"@ || n == "i"@ || n == "code"@ || n
        == "span"@ || n == "br"@ || n == "sup"@ || n == "sub"@ || n == "u"@ || n == "s"@ || n
        == "del"@
}

// ─── Markdown of elements ───────────────────────────────────────────────────

/// The markdown of an element at list depth `depth`.
pub open spec fn md_elem(e: HtmlElement, depth: nat) -> Seq<char>
    decreases e,
{
    let tag = spec_lowercase(e.name@);
    let cs = e.children@;
    if skip_tag(tag) {
        seq![]
    } else if tag == "h1"@ {
        "# "@ + text_of(cs) + "\n\n"@
    } else if tag == "h2"@ {
        "## "@ + text_of(cs) + "\n\n"@
    } else if tag == "h3"@ {
        "### "@ + text_of(cs) + "\n\n"@
    } else if tag == "h4"@ {
        "#### "@ + text_of(cs) + "\n\n"@
    } else if tag == "h5"@ || tag == "h6"@ {
        "##### "@ + text_of(cs) + "\n\n"@
    } else if tag == "p"@ {
        para_md(md_inline(cs, depth))
    } else if tag == "ul"@ || tag == "ol"@ {
        let out = list_items(cs, tag == "ol"@, depth, 1);
        if out.len() == 0 {
            seq![]
        } else {
            out + "\n"@
        }
    } else if tag == "li"@ {
        seq![]
    } else if tag == "pre"@ {
        pre_md(text_of(cs))
    } else if tag == "code"@ {
        "`"@ + trim(text_of(cs)) + "`"@
    } else if tag == "strong"@ || tag == "b"@ {
        "**"@ + text_of(cs) + "**"@
    } else if tag == "em"@ || tag == "i"@ {
        "*"@ + text_of(cs) + "*"@
    } else if tag == "a"@ {
        link_md(attr_of(e.attrs@, "href"@), text_of(cs))
    } else if tag == "hr"@ {
        "---\n\n"@
    } else if tag == "br"@ {
        "\n"@
    } else if tag == "table"@ {
        table_md(table_rows(cs))
    } else if table_part(tag) {
        seq![]
    } else if block_tag(tag) {
        md_children(cs, depth)
    } else if tag == "ac:link"@ {
        let lt = first_named(cs, "ac:link-title"@);
        let rp = first_named(cs, "ri:page"@);
        if lt is Some && trim(text_of(lt->0.children@)).len() > 0 {
            "["@ + trim(text_of(lt->0.children@)) + "]"@
        } else if rp is Some && attr_of(rp->0.attrs@, "ri:content-title"@) is Some {
            "["@ + attr_of(rp->0.attrs@, "ri:content-title"@)->0 + "]"@
        } else {
            md_children(cs, depth)
        }
    } else if tag == "ri:page"@ {
        match attr_of(e.attrs@, "ri:content-title"@) {
            Some(ct) => ct,
            None => seq![],
        }
    } else if tag == "ri:attachment"@ || tag == "ri:space"@ || tag == "ri:user"@ {
        seq![]
    } else if tag == "ac:structured-macro"@ {
        macro_md(attr_of(e.attrs@, "ac:name"@), bodies_md(cs, depth), first_language_param(cs))
    } else if tag == "ac:rich-text-body"@ || tag == "ac:plain-text-body"@ || tag == "ac:task-list"@ {
        md_children(cs, depth)
    } else if tag == "ac:task"@ {
        task_md(cs)
    } else if tag == "ac:task-status"@ || tag == "ac:task-body"@ {
        seq![]
    } else {
        md_children(cs, depth)
    }
}

/// The markdown of the children of a block: text trimmed and followed by a space,
/// elements rendered.
pub open spec fn md_children(cs: Seq<HtmlNode>, depth: nat) -> Seq<char>
    decreases cs,
{
    if cs.len() == 0 {
        seq![]
    } else {
        md_children(cs.drop_last(), depth) + match cs.last() {
            HtmlNode::Text(t) => {
                let s = trim(trim_matches_char(t@, '\n'));
                if s.len() > 0 {
                    s + " "@
                } else {
                    seq![]
                }
            },
            HtmlNode::Element(e) => md_elem(e, depth),
            HtmlNode::Other(..) => seq![],
        }
    }
}

/// The markdown of inline content: text without its surrounding newlines, inline
/// elements rendered, other elements as their trimmed text.
pub open spec fn md_inline(cs: Seq<HtmlNode>, depth: nat) -> Seq<char>
    decreases cs,
{
    if cs.len() == 0 {
        seq![]
    } else {
        md_inline(cs.drop_last(), depth) + match cs.last() {
            HtmlNode::Text(t) => trim_matches_char(t@, '\n'),
            HtmlNode::Element(e) => if inline_name(e.name@) {
                md_elem(e, depth)
            } else {
                trim(text_of(e.children@))
            },
            HtmlNode::Other(..) => seq![],
        }
    }
}

/// The items of a list from the `idx`th on: each `li` child with content gives a
/// bullet (numbered for ordered lists), its content on one line, then its nested
/// lists one level deeper.
pub open spec fn list_items(cs: Seq<HtmlNode>, ordered: bool, depth: nat, idx: nat) -> Seq<char>
    decreases cs,
{
    if cs.len() == 0 {
        seq![]
    } else {
        match cs[0] {
            HtmlNode::Element(li) => if li.name@ == "li"@ {
                let content = replace_all(trim(md_inline(li.children@, depth + 1)), "\n"@, " "@);
                (if content.len() > 0 {
                    bullet(ordered, depth, idx) + content + "\n"@ + list_subs(
                        li.children@,
                        depth + 1,
                    )
                } else {
                    seq![]
                }) + list_items(cs.drop_first(), ordered, depth, idx + 1)
            } else {
                list_items(cs.drop_first(), ordered, depth, idx)
            },
            _ => list_items(cs.drop_first(), ordered, depth, idx),
        }
    }
}

/// The nested lists among an item's children.
pub open spec fn list_subs(cs: Seq<HtmlNode>, depth: nat) -> Seq<char>
    decreases cs,
{
    if cs.len() == 0 {
        seq![]
    } else {
        list_subs(cs.drop_last(), depth) + match cs.last() {
            HtmlNode::Element(s) => if s.name@ == "ul"@ || s.name@ == "ol"@ {
                md_elem(s, depth)
            } else {
                seq![]
            },
            _ => seq![],
        }
    }
}

/// The markdown of every rich-text or plain-text body under the nodes, in document
/// order.
pub open spec fn bodies_md(cs: Seq<HtmlNode>, depth: nat) -> Seq<char>
    decreases cs,
{
    if cs.len() == 0 {
        seq![]
    } else {
        bodies_md(cs.drop_last(), depth) + match cs.last() {
            HtmlNode::Element(e) => (if e.name@ == "ac:rich-text-body"@ || e.name@
                == "ac:plain-text-body"@ {
                md_elem(e, depth)
            } else {
                seq![]
            }) + bodies_md(e.children@, depth),
            HtmlNode::Other(_, kids) => bodies_md(kids@, depth),
            HtmlNode::Text(_) => seq![],
        }
    }
}

// ─── Walking the tree ───────────────────────────────────────────────────────

fn attr_get<'a>(attrs: &'a Vec<(String, String)>, key: &str) -> (r: Option<&'a str>)
    ensures
        match r {
            Some(v) => attr_of(attrs@, key@) == Some(v@),
            None => attr_of(attrs@, key@) is None,
        },
{
    let mut i: usize = 0;
    assert(attrs@.skip(0) =~= attrs@);
    while i < attrs.len()
        invariant
            i <= attrs@.len(),
            attr_of(attrs@, key@) == attr_of(attrs@.skip(i as int), key@),
        decreases attrs@.len() - i,
    {
        assert(attrs@.skip(i as int)[0] == attrs@[i as int]);
        assert(attrs@.skip(i as int).drop_first() =~= attrs@.skip(i + 1));
        if str_eq(attrs[i].0.as_str(), key) {
            return Some(attrs[i].1.as_str());
        }
        i += 1;
    }
    None
}

pub(crate) fn text_exec(cs: &Vec<HtmlNode>) -> (r: Vec<char>)
    ensures
        r@ == text_of(cs@),
    decreases cs,
{
    let mut out: Vec<char> = Vec::new();
    let mut i: usize = 0;
    assert(cs@.take(0) =~= Seq::<HtmlNode>::empty());
    while i < cs.len()
        invariant
            i <= cs@.len(),
            out@ == text_of(cs@.take(i as int)),
        decreases cs@.len() - i,
    {
        assert(cs@.take(i + 1).drop_last() =~= cs@.take(i as int));
        assert(cs@.take(i + 1).last() == cs@[i as int]);
        match &cs[i] {
            HtmlNode::Text(t) => extend_str(&mut out, t.as_str()),
            HtmlNode::Element(e) => {
                let inner = text_exec(&e.children);
                extend_chars(&mut out, &inner);
            },
            HtmlNode::Other(_, kids) => {
                let inner = text_exec(kids);
                extend_chars(&mut out, &inner);
            },
        }
        i += 1;
    }
    assert(cs@.take(cs@.len() as int) =~= cs@);
    out
}

pub(crate) fn first_named_exec<'a>(cs: &'a Vec<HtmlNode>, name: &str) -> (r: Option<&'a HtmlElement>)
    ensures
        match r {
            Some(e) => first_named(cs@, name@) == Some(*e),
            None => first_named(cs@, name@) is None,
        },
    decreases cs,
{
    let mut i: usize = 0;
    assert(cs@.skip(0) =~= cs@);
    while i < cs.len()
        invariant
            i <= cs@.len(),
            first_named(cs@, name@) == first_named(cs@.skip(i as int), name@),
        decreases cs@.len() - i,
    {
        assert(cs@.skip(i as int)[0] == cs@[i as int]);
        assert(cs@.skip(i as int).drop_first() =~= cs@.skip(i + 1));
        match &cs[i] {
            HtmlNode::Element(e) => {
                if str_eq(e.name.as_str(), name) {
                    return Some(e);
                }
                match first_named_exec(&e.children, name) {
                    Some(x) => {
                        return Some(x);
                    },
                    None => {},
                }
            },
            HtmlNode::Other(_, kids) => match first_named_exec(kids, name) {
                Some(x) => {
                    return Some(x);
                },
                None => {},
            },
            HtmlNode::Text(_) => {},
        }
        i += 1;
    }
    None
}

fn first_language_param_exec<'a>(cs: &'a Vec<HtmlNode>) -> (r: Option<&'a HtmlElement>)
    ensures
        match r {
            Some(e) => first_language_param(cs@) == Some(*e),
            None => first_language_param(cs@) is None,
        },
    decreases cs,
{
    let mut i: usize = 0;
    assert(cs@.skip(0) =~= cs@);
    while i < cs.len()
        invariant
            i <= cs@.len(),
            first_language_param(cs@) == first_language_param(cs@.skip(i as int)),
        decreases cs@.len() - i,
    {
        assert(cs@.skip(i as int)[0] == cs@[i as int]);
        assert(cs@.skip(i as int).drop_first() =~= cs@.skip(i + 1));
        match &cs[i] {
            HtmlNode::Element(e) => {
                let is_param = str_eq(e.name.as_str(), "ac:parameter") && match attr_get(
                    &e.attrs,
                    "ac:name",
                ) {
                    Some(v) => str_eq(v, "language"),
                    None => false,
                };
                if is_param {
                    return Some(e);
                }
                match first_language_param_exec(&e.children) {
                    Some(x) => {
                        return Some(x);
                    },
                    None => {},
                }
            },
            HtmlNode::Other(_, kids) => match first_language_param_exec(kids) {
                Some(x) => {
                    return Some(x);
                },
                None => {},
            },
            HtmlNode::Text(_) => {},
        }
        i += 1;
    }
    None
}

pub open spec fn rows_view(v: Seq<Vec<Vec<char>>>) -> Seq<Seq<Seq<char>>> {
    v.map_values(|r: Vec<Vec<char>>| views(r@))
}

fn row_cells_exec(cs: &Vec<HtmlNode>) -> (r: Vec<Vec<char>>)
    ensures
        views(r@) == row_cells(cs@),
{
    let mut out: Vec<Vec<char>> = Vec::new();
    let mut i: usize = 0;
    assert(cs@.take(0) =~= Seq::<HtmlNode>::empty());
    assert(views(out@) =~= Seq::<Seq<char>>::empty());
    proof {
        reveal_strlit("|");
    }
    while i < cs.len()
        invariant
            i <= cs@.len(),
            "|"@ == seq!['|'],
            views(out@) == row_cells(cs@.take(i as int)),
        decreases cs@.len() - i,
    {
        assert(cs@.take(i + 1).drop_last() =~= cs@.take(i as int));
        assert(cs@.take(i + 1).last() == cs@[i as int]);
        match &cs[i] {
            HtmlNode::Element(c) => {
                if str_eq(c.name.as_str(), "td") || str_eq(c.name.as_str(), "th") {
                    let t = text_exec(&c.children);
                    let escaped = replace_vec(&t, &chars_of("|"), &chars_of("\\|"));
                    let cell = trim_vec(&escaped);
                    let ghost before = out@;
                    out.push(cell);
                    assert(views(out@) =~= views(before).push(cell@));
                }
            },
            _ => {},
        }
        assert(views(out@) =~= row_cells(cs@.take(i + 1)));
        i += 1;
    }
    assert(cs@.take(cs@.len() as int) =~= cs@);
    out
}

fn append_rows(out: &mut Vec<Vec<Vec<char>>>, inner: &Vec<Vec<Vec<char>>>)
    ensures
        rows_view(final(out)@) == rows_view(old(out)@) + rows_view(inner@),
{
    let ghost mid = rows_view(out@);
    let mut j: usize = 0;
    while j < inner.len()
        invariant
            j <= inner@.len(),
            rows_view(out@) == mid + rows_view(inner@).take(j as int),
        decreases inner@.len() - j,
    {
        let row = clone_rows(&inner[j]);
        let ghost before = out@;
        out.push(row);
        assert(rows_view(out@) =~= rows_view(before).push(views(row@)));
        assert(rows_view(inner@).take(j + 1) =~= rows_view(inner@).take(j as int).push(
            views(inner@[j as int]@),
        ));
        j += 1;
    }
    assert(rows_view(inner@).take(inner@.len() as int) =~= rows_view(inner@));
}

fn table_rows_exec(cs: &Vec<HtmlNode>) -> (r: Vec<Vec<Vec<char>>>)
    ensures
        rows_view(r@) == table_rows(cs@),
    decreases cs,
{
    let mut out: Vec<Vec<Vec<char>>> = Vec::new();
    let mut i: usize = 0;
    assert(cs@.take(0) =~= Seq::<HtmlNode>::empty());
    assert(rows_view(out@) =~= Seq::<Seq<Seq<char>>>::empty());
    while i < cs.len()
        invariant
            i <= cs@.len(),
            rows_view(out@) == table_rows(cs@.take(i as int)),
        decreases cs@.len() - i,
    {
        assert(cs@.take(i + 1).drop_last() =~= cs@.take(i as int));
        assert(cs@.take(i + 1).last() == cs@[i as int]);
        match &cs[i] {
            HtmlNode::Element(e) => {
                let ghost start = rows_view(out@);
                if str_eq(e.name.as_str(), "tr") {
                    let cells = row_cells_exec(&e.children);
                    if cells.len() > 0 {
                        let ghost before = out@;
                        out.push(cells);
                        assert(rows_view(out@) =~= rows_view(before).push(views(cells@)));
                    }
                }
                let inner = table_rows_exec(&e.children);
                append_rows(&mut out, &inner);
                assert(rows_view(out@) =~= start + ((if e.name@ == "tr"@ && row_cells(
                    e.children@,
                ).len() > 0 {
                    seq![row_cells(e.children@)]
                } else {
                    seq![]
                }) + table_rows(e.children@)));
            },
            HtmlNode::Other(_, kids) => {
                let inner = table_rows_exec(kids);
                append_rows(&mut out, &inner);
            },
            HtmlNode::Text(_) => {},
        }
        i += 1;
    }
    assert(cs@.take(cs@.len() as int) =~= cs@);
    out
}

fn clone_chars(v: &Vec<char>) -> (r: Vec<char>)
    ensures
        r@ == v@,
{
    let mut r: Vec<char> = Vec::new();
    extend_chars(&mut r, v);
    r
}

fn clone_rows(v: &Vec<Vec<char>>) -> (r: Vec<Vec<char>>)
    ensures
        views(r@) == views(v@),
{
    let mut r: Vec<Vec<char>> = Vec::new();
    let mut i: usize = 0;
    while i < v.len()
        invariant
            i <= v@.len(),
            views(r@) == views(v@).take(i as int),
        decreases v@.len() - i,
    {
        let c = clone_chars(&v[i]);
        let ghost before = r@;
        r.push(c);
        assert(views(r@) =~= views(before).push(c@));
        assert(views(v@).take(i + 1) =~= views(v@).take(i as int).push(v@[i as int]@));
        i += 1;
    }
    assert(views(v@).take(v@.len() as int) =~= views(v@));
    r
}


fn max_cells_exec(rows: &Vec<Vec<Vec<char>>>) -> (m: usize)
    ensures
        m == max_cells(rows_view(rows@)),
{
    let mut m: usize = 0;
    let mut i: usize = 0;
    let ghost rv = rows_view(rows@);
    assert(rv.take(0) =~= Seq::<Seq<Seq<char>>>::empty());
    while i < rows.len()
        invariant
            i <= rows@.len(),
            rv == rows_view(rows@),
            m == max_cells(rv.take(i as int)),
        decreases rows@.len() - i,
    {
        assert(rv.take(i + 1).drop_last() =~= rv.take(i as int));
        assert(rv.take(i + 1).last() == views(rows@[i as int]@));
        if rows[i].len() > m {
            m = rows[i].len();
        }
        i += 1;
    }
    assert(rv.take(rows@.len() as int) =~= rv);
    m
}

fn table_line_exec(cells: &Vec<Vec<char>>) -> (r: Vec<char>)
    ensures
        r@ == table_line(views(cells@)),
{
    let mut r: Vec<char> = Vec::new();
    extend_str(&mut r, "| ");
    let sep = chars_of(" | ");
    let body = crate::text::join_vec(cells, &sep);
    extend_chars(&mut r, &body);
    extend_str(&mut r, " |");
    r
}

fn padded_exec(row: &Vec<Vec<char>>, cols: usize) -> (r: Vec<Vec<char>>)
    ensures
        views(r@) == padded(views(row@), cols as nat),
{
    let mut r: Vec<Vec<char>> = Vec::new();
    let mut j: usize = 0;
    while j < cols
        invariant
            j <= cols,
            views(r@) == padded(views(row@), cols as nat).take(j as int),
        decreases cols - j,
    {
        let c = if j < row.len() {
            clone_chars(&row[j])
        } else {
            Vec::new()
        };
        let ghost before = r@;
        r.push(c);
        assert(views(r@) =~= views(before).push(c@));
        assert(padded(views(row@), cols as nat).take(j + 1) =~= padded(views(row@), cols as nat).take(
            j as int,
        ).push(c@));
        j += 1;
    }
    assert(padded(views(row@), cols as nat).take(cols as int) =~= padded(views(row@), cols as nat));
    r
}

fn separator_exec(cols: usize) -> (r: Vec<char>)
    ensures
        r@ == table_line(Seq::new(cols as nat, |j: int| "---"@)),
{
    let mut cells: Vec<Vec<char>> = Vec::new();
    let mut j: usize = 0;
    while j < cols
        invariant
            j <= cols,
            views(cells@) == Seq::new(j as nat, |k: int| "---"@),
        decreases cols - j,
    {
        let c = chars_of("---");
        let ghost before = cells@;
        cells.push(c);
        assert(views(cells@) =~= views(before).push(c@));
        assert(Seq::new((j + 1) as nat, |k: int| "---"@) =~= Seq::new(j as nat, |k: int| "---"@).push(
            "---"@,
        ));
        j += 1;
    }
    table_line_exec(&cells)
}

/// Renders collected table rows as a markdown table.
fn table_md_exec(rows: &Vec<Vec<Vec<char>>>) -> (r: Vec<char>)
    ensures
        r@ == table_md(rows_view(rows@)),
{
    let mut out: Vec<char> = Vec::new();
    if rows.len() == 0 {
        return out;
    }
    let cols = max_cells_exec(rows);
    let ghost rv = rows_view(rows@);
    let mut i: usize = 0;
    assert(rv.take(0) =~= Seq::<Seq<Seq<char>>>::empty());
    while i < rows.len()
        invariant
            i <= rows@.len(),
            rv == rows_view(rows@),
            cols == max_cells(rv),
            out@ == table_lines(rv.take(i as int), cols as nat),
        decreases rows@.len() - i,
    {
        assert(rv.take(i + 1).drop_last() =~= rv.take(i as int));
        assert(rv.take(i + 1).last() == views(rows@[i as int]@));
        let p = padded_exec(&rows[i], cols);
        let line = table_line_exec(&p);
        extend_chars(&mut out, &line);
        extend_str(&mut out, "\n");
        if i == 0 {
            let sep = separator_exec(cols);
            extend_chars(&mut out, &sep);
            extend_str(&mut out, "\n");
        }
        i += 1;
    }
    assert(rv.take(rows@.len() as int) =~= rv);
    extend_str(&mut out, "\n");
    out
}


pub open spec fn opt_str(o: Option<&str>) -> Option<Seq<char>> {
    match o {
        Some(x) => Some(x@),
        None => None,
    }
}

pub open spec fn opt_elem(o: Option<&HtmlElement>) -> Option<HtmlElement> {
    match o {
        Some(x) => Some(*x),
        None => None,
    }
}

fn callout_label_exec(n: &str) -> (r: Vec<char>)
    ensures
        r@ == callout_label(n@),
{
    if str_eq(n, "warning") {
        chars_of("⚠️ Warning")
    } else if str_eq(n, "note") {
        chars_of("📝 Note")
    } else if str_eq(n, "tip") {
        chars_of("💡 Tip")
    } else {
        chars_of("ℹ️ Info")
    }
}

fn quoted_exec(ls: &Vec<Vec<char>>) -> (r: Vec<Vec<char>>)
    ensures
        views(r@) == quoted_lines(views(ls@)),
{
    let mut r: Vec<Vec<char>> = Vec::new();
    let mut i: usize = 0;
    while i < ls.len()
        invariant
            i <= ls@.len(),
            views(r@) == quoted_lines(views(ls@)).take(i as int),
        decreases ls@.len() - i,
    {
        let mut l = chars_of("> ");
        extend_chars(&mut l, &ls[i]);
        let ghost before = r@;
        r.push(l);
        assert(views(r@) =~= views(before).push(l@));
        assert(quoted_lines(views(ls@)).take(i + 1) =~= quoted_lines(views(ls@)).take(i as int).push(
            l@,
        ));
        i += 1;
    }
    assert(quoted_lines(views(ls@)).take(ls@.len() as int) =~= quoted_lines(views(ls@)));
    r
}

/// Renders a structured macro from its name, rendered bodies and language parameter.
fn macro_md_exec(name: Option<&str>, body: &Vec<char>, lang: Option<&HtmlElement>) -> (r: Vec<char>)
    ensures
        r@ == macro_md(opt_str(name), body@, opt_elem(lang)),
{
    proof {
        reveal_strlit("");
    }
    let n: &str = match name {
        Some(x) => x,
        None => "",
    };
    assert(n@ == match opt_str(name) {
        Some(x) => x,
        None => Seq::<char>::empty(),
    });
    if str_eq(n, "children") || str_eq(n, "pagetree") {
        return chars_of("*[Organized section — child pages listed separately]*\n\n");
    }
    let tb = trim_vec(body);
    if tb.len() == 0 {
        return Vec::new();
    }
    let mut out: Vec<char> = Vec::new();
    if str_eq(n, "info") || str_eq(n, "note") || str_eq(n, "warning") || str_eq(n, "tip") {
        extend_str(&mut out, "> **");
        let label = callout_label_exec(n);
        extend_chars(&mut out, &label);
        extend_str(&mut out, "**\n>\n");
        let ls = split_lines(&tb);
        let q = quoted_exec(&ls);
        let joined = crate::text::join_vec(&q, &chars_of("\n"));
        extend_chars(&mut out, &joined);
        extend_str(&mut out, "\n\n");
    } else if str_eq(n, "code") {
        extend_str(&mut out, "```");
        match lang {
            Some(p) => {
                let t = text_exec(&p.children);
                extend_chars(&mut out, &t);
            },
            None => {},
        }
        extend_str(&mut out, "\n");
        extend_chars(&mut out, &tb);
        extend_str(&mut out, "\n```\n\n");
    } else {
        extend_chars(&mut out, &tb);
        extend_str(&mut out, "\n");
    }
    out
}

/// Renders a Confluence task as a checkbox item.
fn task_md_exec(cs: &Vec<HtmlNode>) -> (r: Vec<char>)
    ensures
        r@ == task_md(cs@),
{
    let done = match first_named_exec(cs, "ac:task-status") {
        Some(st) => {
            let t = trim_vec(&text_exec(&st.children));
            let ts = string_of(&t);
            let low = lowercase(ts.as_str());
            str_eq(low.as_str(), "complete")
        },
        None => false,
    };
    let body = match first_named_exec(cs, "ac:task-body") {
        Some(b) => text_exec(&b.children),
        None => Vec::new(),
    };
    let mut out = chars_of("- [");
    if done {
        extend_str(&mut out, "x");
    } else {
        extend_str(&mut out, " ");
    }
    extend_str(&mut out, "] ");
    let tb = trim_vec(&body);
    extend_chars(&mut out, &tb);
    extend_str(&mut out, "\n");
    out
}

fn link_md_exec(href: Option<&str>, text: &Vec<char>) -> (r: Vec<char>)
    ensures
        r@ == link_md(opt_str(href), text@),
{
    let h = match href {
        Some(x) => chars_of(x),
        None => chars_of("#"),
    };
    let t = trim_vec(text);
    let mut out: Vec<char> = Vec::new();
    if t.len() == 0 || crate::text::seq_eq(&t, &h) {
        extend_str(&mut out, "<");
        extend_chars(&mut out, &h);
        extend_str(&mut out, ">");
    } else {
        extend_str(&mut out, "[");
        extend_chars(&mut out, &t);
        extend_str(&mut out, "](");
        extend_chars(&mut out, &h);
        extend_str(&mut out, ")");
    }
    out
}

fn pre_md_exec(code: &Vec<char>) -> (r: Vec<char>)
    ensures
        r@ == pre_md(code@),
{
    let t = trim_vec(code);
    if t.len() == 0 {
        return Vec::new();
    }
    let mut out = chars_of("```\n");
    let te = trim_end_vec(code);
    extend_chars(&mut out, &te);
    extend_str(&mut out, "\n```\n\n");
    out
}

fn para_md_exec(t: &Vec<char>) -> (r: Vec<char>)
    ensures
        r@ == para_md(t@),
{
    let tt = trim_vec(t);
    if tt.len() == 0 {
        return Vec::new();
    }
    let mut out = tt;
    extend_str(&mut out, "\n\n");
    out
}

fn spaces_exec(n: usize) -> (r: Vec<char>)
    ensures
        r@ == spaces(n as nat),
{
    let mut r: Vec<char> = Vec::new();
    let mut i: usize = 0;
    while i < n
        invariant
            i <= n,
            r@ == spaces(i as nat),
        decreases n - i,
    {
        r.push(' ');
        assert(r@ =~= spaces((i + 1) as nat));
        i += 1;
    }
    r
}


fn skip_tag_exec(t: &str) -> (b: bool)
    ensures
        b == skip_tag(t@),
{
    str_eq(t, "script") || str_eq(t, "style") || str_eq(t, "head") || str_eq(t, "meta") || str_eq(
        t,
        "link",
    ) || str_eq(t, "noscript")
}

fn block_tag_exec(t: &str) -> (b: bool)
    ensures
        b == block_tag(t@),
{
    str_eq(t, "div") || str_eq(t, "section") || str_eq(t, "article") || str_eq(t, "main")
        || str_eq(t, "body") || str_eq(t, "html") || str_eq(t, "span") || str_eq(t, "figure")
        || str_eq(t, "figcaption") || str_eq(t, "header") || str_eq(t, "footer") || str_eq(
        t,
        "nav",
    ) || str_eq(t, "aside")
}

fn table_part_exec(t: &str) -> (b: bool)
    ensures
        b == table_part(t@),
{
    str_eq(t, "tr") || str_eq(t, "td") || str_eq(t, "th") || str_eq(t, "thead") || str_eq(
        t,
        "tbody",
    )
}

fn inline_name_exec(n: &str) -> (b: bool)
    ensures
        b == inline_name(n@),
{
    str_eq(n, "a") || str_eq(n, "strong") || str_eq(n, "b") || str_eq(n, "em") || str_eq(n, "i")
        || str_eq(n, "code") || str_eq(n, "span") || str_eq(n, "br") || str_eq(n, "sup") || str_eq(
        n,
        "sub",
    ) || str_eq(n, "u") || str_eq(n, "s") || str_eq(n, "del")
}

/// `prefix`, then the text of the nodes, then `suffix`.
fn wrapped_text(prefix: &str, cs: &Vec<HtmlNode>, suffix: &str) -> (r: Vec<char>)
    ensures
        r@ == prefix@ + text_of(cs@) + suffix@,
{
    let mut out = chars_of(prefix);
    let t = text_exec(cs);
    extend_chars(&mut out, &t);
    extend_str(&mut out, suffix);
    out
}

/// The markdown of the children of a block element.
fn children_to_md(cs: &Vec<HtmlNode>, Ghost(depth): Ghost<nat>, indent: &Vec<char>) -> (r: Vec<char>)
    requires
        indent@ == spaces(3 * depth),
    ensures
        r@ == md_children(cs@, depth),
    decreases cs,
{
    let mut out: Vec<char> = Vec::new();
    let mut i: usize = 0;
    assert(cs@.take(0) =~= Seq::<HtmlNode>::empty());
    while i < cs.len()
        invariant
            i <= cs@.len(),
            indent@ == spaces(3 * depth),
            out@ == md_children(cs@.take(i as int), depth),
        decreases cs@.len() - i,
    {
        assert(cs@.take(i + 1).drop_last() =~= cs@.take(i as int));
        assert(cs@.take(i + 1).last() == cs@[i as int]);
        match &cs[i] {
            HtmlNode::Text(t) => {
                let s = trim_vec(&trim_matches_char_vec(&chars_of(t.as_str()), '\n'));
                if s.len() > 0 {
                    extend_chars(&mut out, &s);
                    extend_str(&mut out, " ");
                }
            },
            HtmlNode::Element(e) => {
                let m = md_elem_exec(e, Ghost(depth), indent);
                extend_chars(&mut out, &m);
            },
            HtmlNode::Other(..) => {},
        }
        i += 1;
    }
    assert(cs@.take(cs@.len() as int) =~= cs@);
    out
}

/// The markdown of inline content.
fn inline_children(cs: &Vec<HtmlNode>, Ghost(depth): Ghost<nat>, indent: &Vec<char>) -> (r: Vec<char>)
    requires
        indent@ == spaces(3 * depth),
    ensures
        r@ == md_inline(cs@, depth),
    decreases cs,
{
    let mut out: Vec<char> = Vec::new();
    let mut i: usize = 0;
    assert(cs@.take(0) =~= Seq::<HtmlNode>::empty());
    while i < cs.len()
        invariant
            i <= cs@.len(),
            indent@ == spaces(3 * depth),
            out@ == md_inline(cs@.take(i as int), depth),
        decreases cs@.len() - i,
    {
        assert(cs@.take(i + 1).drop_last() =~= cs@.take(i as int));
        assert(cs@.take(i + 1).last() == cs@[i as int]);
        match &cs[i] {
            HtmlNode::Text(t) => {
                let s = trim_matches_char_vec(&chars_of(t.as_str()), '\n');
                extend_chars(&mut out, &s);
            },
            HtmlNode::Element(e) => {
                if inline_name_exec(e.name.as_str()) {
                    let m = md_elem_exec(e, Ghost(depth), indent);
                    extend_chars(&mut out, &m);
                } else {
                    let t = trim_vec(&text_exec(&e.children));
                    extend_chars(&mut out, &t);
                }
            },
            HtmlNode::Other(..) => {},
        }
        i += 1;
    }
    assert(cs@.take(cs@.len() as int) =~= cs@);
    out
}

/// The nested lists among an item's children.
fn list_subs_exec(cs: &Vec<HtmlNode>, Ghost(depth): Ghost<nat>, indent: &Vec<char>) -> (r: Vec<char>)
    requires
        indent@ == spaces(3 * depth),
    ensures
        r@ == list_subs(cs@, depth),
    decreases cs,
{
    let mut out: Vec<char> = Vec::new();
    let mut i: usize = 0;
    assert(cs@.take(0) =~= Seq::<HtmlNode>::empty());
    while i < cs.len()
        invariant
            i <= cs@.len(),
            indent@ == spaces(3 * depth),
            out@ == list_subs(cs@.take(i as int), depth),
        decreases cs@.len() - i,
    {
        assert(cs@.take(i + 1).drop_last() =~= cs@.take(i as int));
        assert(cs@.take(i + 1).last() == cs@[i as int]);
        match &cs[i] {
            HtmlNode::Element(s) => {
                if str_eq(s.name.as_str(), "ul") || str_eq(s.name.as_str(), "ol") {
                    let m = md_elem_exec(s, Ghost(depth), indent);
                    extend_chars(&mut out, &m);
                }
            },
            _ => {},
        }
        i += 1;
    }
    assert(cs@.take(cs@.len() as int) =~= cs@);
    out
}

/// The markdown of the macro bodies under the nodes.
fn bodies_md_exec(cs: &Vec<HtmlNode>, Ghost(depth): Ghost<nat>, indent: &Vec<char>) -> (r: Vec<char>)
    requires
        indent@ == spaces(3 * depth),
    ensures
        r@ == bodies_md(cs@, depth),
    decreases cs,
{
    let mut out: Vec<char> = Vec::new();
    let mut i: usize = 0;
    assert(cs@.take(0) =~= Seq::<HtmlNode>::empty());
    while i < cs.len()
        invariant
            i <= cs@.len(),
            indent@ == spaces(3 * depth),
            out@ == bodies_md(cs@.take(i as int), depth),
        decreases cs@.len() - i,
    {
        assert(cs@.take(i + 1).drop_last() =~= cs@.take(i as int));
        assert(cs@.take(i + 1).last() == cs@[i as int]);
        match &cs[i] {
            HtmlNode::Element(e) => {
                let ghost start = out@;
                if str_eq(e.name.as_str(), "ac:rich-text-body") || str_eq(
                    e.name.as_str(),
                    "ac:plain-text-body",
                ) {
                    let m = md_elem_exec(e, Ghost(depth), indent);
                    extend_chars(&mut out, &m);
                }
                let inner = bodies_md_exec(&e.children, Ghost(depth), indent);
                extend_chars(&mut out, &inner);
                assert(out@ =~= start + ((if e.name@ == "ac:rich-text-body"@ || e.name@
                    == "ac:plain-text-body"@ {
                    md_elem(*e, depth)
                } else {
                    seq![]
                }) + bodies_md(e.children@, depth)));
            },
            HtmlNode::Other(_, kids) => {
                let inner = bodies_md_exec(kids, Ghost(depth), indent);
                extend_chars(&mut out, &inner);
            },
            HtmlNode::Text(_) => {},
        }
        i += 1;
    }
    assert(cs@.take(cs@.len() as int) =~= cs@);
    out
}

/// The items of a list, numbered from one when `ordered`.
fn list_items_exec(cs: &Vec<HtmlNode>, ordered: bool, Ghost(depth): Ghost<nat>, indent: &Vec<char>) -> (r: Vec<char>)
    requires
        indent@ == spaces(3 * depth),
    ensures
        r@ == list_items(cs@, ordered, depth, 1),
    decreases cs,
{
    let mut plus = clone_chars(indent);
    extend_str(&mut plus, "   ");
    proof {
        reveal_strlit("   ");
        reveal_strlit("\n");
        assert(plus@ =~= spaces(3 * (depth + 1)));
    }
    let nl = chars_of("\n");
    let sp = chars_of(" ");
    let mut out: Vec<char> = Vec::new();
    let mut idx: u128 = 1;
    let mut i: usize = 0;
    assert(cs@.skip(0) =~= cs@);
    assert(out@ + list_items(cs@, ordered, depth, 1) =~= list_items(cs@, ordered, depth, 1));
    while i < cs.len()
        invariant
            i <= cs@.len(),
            1 <= idx <= i + 1,
            indent@ == spaces(3 * depth),
            plus@ == spaces(3 * (depth + 1)),
            nl@ == "\n"@,
            nl@.len() > 0,
            sp@ == " "@,
            out@ + list_items(cs@.skip(i as int), ordered, depth, idx as nat) == list_items(
                cs@,
                ordered,
                depth,
                1,
            ),
        decreases cs@.len() - i,
    {
        let ghost rest = cs@.skip(i as int);
        assert(rest[0] == cs@[i as int]);
        assert(rest.drop_first() =~= cs@.skip(i + 1));
        let ghost before = out@;
        match &cs[i] {
            HtmlNode::Element(li) => {
                if str_eq(li.name.as_str(), "li") {
                    let inl = inline_children(&li.children, Ghost(depth + 1), &plus);
                    let content = replace_vec(&trim_vec(&inl), &nl, &sp);
                    let ghost piece: Seq<char> = if content@.len() > 0 {
                        bullet(ordered, depth, idx as nat) + content@ + "\n"@ + list_subs(
                            li.children@,
                            depth + 1,
                        )
                    } else {
                        seq![]
                    };
                    if content.len() > 0 {
                        extend_chars(&mut out, indent);
                        if ordered {
                            let d = crate::text::decimal_vec_wide(idx);
                            extend_chars(&mut out, &d);
                            extend_str(&mut out, ". ");
                        } else {
                            extend_str(&mut out, "- ");
                        }
                        extend_chars(&mut out, &content);
                        extend_str(&mut out, "\n");
                        let subs = list_subs_exec(&li.children, Ghost(depth + 1), &plus);
                        extend_chars(&mut out, &subs);
                    }
                    assert(out@ =~= before + piece);
                    assert(before + list_items(rest, ordered, depth, idx as nat) =~= (before + piece)
                        + list_items(cs@.skip(i + 1), ordered, depth, (idx + 1) as nat));
                    idx += 1;
                } else {
                    assert(list_items(rest, ordered, depth, idx as nat) == list_items(
                        cs@.skip(i + 1),
                        ordered,
                        depth,
                        idx as nat,
                    ));
                }
            },
            _ => {
                assert(list_items(rest, ordered, depth, idx as nat) == list_items(
                    cs@.skip(i + 1),
                    ordered,
                    depth,
                    idx as nat,
                ));
            },
        }
        i += 1;
    }
    assert(cs@.skip(cs@.len() as int) =~= Seq::<HtmlNode>::empty());
    assert(out@ + list_items(Seq::<HtmlNode>::empty(), ordered, depth, idx as nat) =~= out@);
    out
}

/// The markdown of one element (see `md_elem`).
#[verifier::rlimit(60)]
fn md_elem_exec(e: &HtmlElement, Ghost(depth): Ghost<nat>, indent: &Vec<char>) -> (r: Vec<char>)
    requires
        indent@ == spaces(3 * depth),
    ensures
        r@ == md_elem(*e, depth),
    decreases e,
{
    let low = lowercase(e.name.as_str());
    let tag = low.as_str();
    let cs = &e.children;
    if skip_tag_exec(tag) {
        Vec::new()
    } else if str_eq(tag, "h1") {
        wrapped_text("# ", cs, "\n\n")
    } else if str_eq(tag, "h2") {
        wrapped_text("## ", cs, "\n\n")
    } else if str_eq(tag, "h3") {
        wrapped_text("### ", cs, "\n\n")
    } else if str_eq(tag, "h4") {
        wrapped_text("#### ", cs, "\n\n")
    } else if str_eq(tag, "h5") || str_eq(tag, "h6") {
        wrapped_text("##### ", cs, "\n\n")
    } else if str_eq(tag, "p") {
        let inl = inline_children(cs, Ghost(depth), indent);
        para_md_exec(&inl)
    } else if str_eq(tag, "ul") || str_eq(tag, "ol") {
        let mut out = list_items_exec(cs, str_eq(tag, "ol"), Ghost(depth), indent);
        if out.len() > 0 {
            extend_str(&mut out, "\n");
        }
        out
    } else if str_eq(tag, "li") {
        Vec::new()
    } else if str_eq(tag, "pre") {
        pre_md_exec(&text_exec(cs))
    } else if str_eq(tag, "code") {
        let mut out = chars_of("`");
        let t = trim_vec(&text_exec(cs));
        extend_chars(&mut out, &t);
        extend_str(&mut out, "`");
        out
    } else if str_eq(tag, "strong") || str_eq(tag, "b") {
        wrapped_text("**", cs, "**")
    } else if str_eq(tag, "em") || str_eq(tag, "i") {
        wrapped_text("*", cs, "*")
    } else if str_eq(tag, "a") {
        link_md_exec(attr_get(&e.attrs, "href"), &text_exec(cs))
    } else if str_eq(tag, "hr") {
        chars_of("---\n\n")
    } else if str_eq(tag, "br") {
        chars_of("\n")
    } else if str_eq(tag, "table") {
        table_md_exec(&table_rows_exec(cs))
    } else if table_part_exec(tag) {
        Vec::new()
    } else if block_tag_exec(tag) {
        children_to_md(cs, Ghost(depth), indent)
    } else if str_eq(tag, "ac:link") {
        match first_named_exec(cs, "ac:link-title") {
            Some(l) => {
                let t = trim_vec(&text_exec(&l.children));
                if t.len() > 0 {
                    let mut out = chars_of("[");
                    extend_chars(&mut out, &t);
                    extend_str(&mut out, "]");
                    return out;
                }
            },
            None => {},
        }
        match first_named_exec(cs, "ri:page") {
            Some(p) => match attr_get(&p.attrs, "ri:content-title") {
                Some(ct) => {
                    let mut out = chars_of("[");
                    extend_str(&mut out, ct);
                    extend_str(&mut out, "]");
                    return out;
                },
                None => {},
            },
            None => {},
        }
        children_to_md(cs, Ghost(depth), indent)
    } else if str_eq(tag, "ri:page") {
        match attr_get(&e.attrs, "ri:content-title") {
            Some(ct) => chars_of(ct),
            None => Vec::new(),
        }
    } else if str_eq(tag, "ri:attachment") || str_eq(tag, "ri:space") || str_eq(tag, "ri:user") {
        Vec::new()
    } else if str_eq(tag, "ac:structured-macro") {
        let bodies = bodies_md_exec(cs, Ghost(depth), indent);
        macro_md_exec(attr_get(&e.attrs, "ac:name"), &bodies, first_language_param_exec(cs))
    } else if str_eq(tag, "ac:rich-text-body") || str_eq(tag, "ac:plain-text-body") || str_eq(
        tag,
        "ac:task-list",
    ) {
        children_to_md(cs, Ghost(depth), indent)
    } else if str_eq(tag, "ac:task") {
        task_md_exec(cs)
    } else if str_eq(tag, "ac:task-status") || str_eq(tag, "ac:task-body") {
        Vec::new()
    } else {
        children_to_md(cs, Ghost(depth), indent)
    }
}

/// The markdown of an element at list depth `depth` (three spaces of indentation per
/// level).
pub fn element_to_md(e: &HtmlElement, depth: usize) -> (r: String)
    ensures
        r@ == md_elem(*e, depth as nat),
{
    let mut indent: Vec<char> = Vec::new();
    let mut k: usize = 0;
    while k < depth
        invariant
            k <= depth,
            indent@ == spaces(3 * k as nat),
        decreases depth - k,
    {
        indent.push(' ');
        indent.push(' ');
        indent.push(' ');
        assert(indent@ =~= spaces(3 * (k + 1) as nat));
        k += 1;
    }
    let r = md_elem_exec(e, Ghost(depth as nat), &indent);
    string_of(&r)
}


/// The first element under the nodes, in document order, named `a` or `b`.
pub open spec fn first_of(cs: Seq<HtmlNode>, a: Seq<char>, b: Seq<char>) -> Option<HtmlElement>
    decreases cs,
{
    if cs.len() == 0 {
        None
    } else {
        match cs[0] {
            HtmlNode::Element(e) => if e.name@ == a || e.name@ == b {
                Some(e)
            } else {
                match first_of(e.children@, a, b) {
                    Some(x) => Some(x),
                    None => first_of(cs.drop_first(), a, b),
                }
            },
            HtmlNode::Other(_, kids) => match first_of(kids@, a, b) {
                Some(x) => Some(x),
                None => first_of(cs.drop_first(), a, b),
            },
            HtmlNode::Text(_) => first_of(cs.drop_first(), a, b),
        }
    }
}

pub(crate) fn first_of_exec<'a>(cs: &'a Vec<HtmlNode>, a: &str, b: &str) -> (r: Option<&'a HtmlElement>)
    ensures
        match r {
            Some(e) => first_of(cs@, a@, b@) == Some(*e),
            None => first_of(cs@, a@, b@) is None,
        },
    decreases cs,
{
    let mut i: usize = 0;
    assert(cs@.skip(0) =~= cs@);
    while i < cs.len()
        invariant
            i <= cs@.len(),
            first_of(cs@, a@, b@) == first_of(cs@.skip(i as int), a@, b@),
        decreases cs@.len() - i,
    {
        assert(cs@.skip(i as int)[0] == cs@[i as int]);
        assert(cs@.skip(i as int).drop_first() =~= cs@.skip(i + 1));
        match &cs[i] {
            HtmlNode::Element(e) => {
                if str_eq(e.name.as_str(), a) || str_eq(e.name.as_str(), b) {
                    return Some(e);
                }
                match first_of_exec(&e.children, a, b) {
                    Some(x) => {
                        return Some(x);
                    },
                    None => {},
                }
            },
            HtmlNode::Other(_, kids) => match first_of_exec(kids, a, b) {
                Some(x) => {
                    return Some(x);
                },
                None => {},
            },
            HtmlNode::Text(_) => {},
        }
        i += 1;
    }
    None
}

/// A heading element `h1` to `h4` (its tag in any case) renders as that many `#`,
/// a space, its text and a blank line, at any list depth.
pub proof fn law_heading_level_is_hash_count(e: HtmlElement, depth: nat, n: nat)
    requires
        1 <= n <= 4,
        spec_lowercase(e.name@) == seq!['h', ((48 + n) as u32) as char],
    ensures
        md_elem(e, depth) == Seq::new(n, |i: int| '#') + seq![' '] + text_of(e.children@) + seq!['\n', '\n'],
{
    reveal_strlit("h1");
    reveal_strlit("h2");
    reveal_strlit("h3");
    reveal_strlit("h4");
    reveal_strlit("script");
    reveal_strlit("style");
    reveal_strlit("head");
    reveal_strlit("meta");
    reveal_strlit("link");
    reveal_strlit("noscript");
    reveal_strlit("# ");
    reveal_strlit("## ");
    reveal_strlit("### ");
    reveal_strlit("#### ");
    reveal_strlit("\n\n");
    let tag = spec_lowercase(e.name@);
    let t = text_of(e.children@);
    assert(!skip_tag(tag));
    if n == 1 {
        assert(tag == "h1"@);
        assert("# "@ =~= Seq::new(n, |i: int| '#') + seq![' ']);
    } else if n == 2 {
        assert(tag != "h1"@);
        assert(tag == "h2"@);
        assert("## "@ =~= Seq::new(n, |i: int| '#') + seq![' ']);
    } else if n == 3 {
        assert(tag != "h1"@ && tag != "h2"@);
        assert(tag == "h3"@);
        assert("### "@ =~= Seq::new(n, |i: int| '#') + seq![' ']);
    } else {
        assert(tag != "h1"@ && tag != "h2"@ && tag != "h3"@);
        assert(tag == "h4"@);
        assert("#### "@ =~= Seq::new(n, |i: int| '#') + seq![' ']);
    }
    assert("\n\n"@ =~= seq!['\n', '\n']);
}

/// `h5` and `h6` both render with five `#`, a space, their text and a blank line.
pub proof fn law_minor_headings_have_five_hashes(e: HtmlElement, depth: nat, n: nat)
    requires
        5 <= n <= 6,
        spec_lowercase(e.name@) == seq!['h', ((48 + n) as u32) as char],
    ensures
        md_elem(e, depth) == Seq::new(5, |i: int| '#') + seq![' '] + text_of(e.children@) + seq!['\n', '\n'],
{
    reveal_strlit("h1");
    reveal_strlit("h2");
    reveal_strlit("h3");
    reveal_strlit("h4");
    reveal_strlit("h5");
    reveal_strlit("h6");
    reveal_strlit("script");
    reveal_strlit("style");
    reveal_strlit("head");
    reveal_strlit("meta");
    reveal_strlit("link");
    reveal_strlit("noscript");
    reveal_strlit("##### ");
    reveal_strlit("\n\n");
    let tag = spec_lowercase(e.name@);
    assert(!skip_tag(tag));
    assert(tag != "h1"@ && tag != "h2"@ && tag != "h3"@ && tag != "h4"@);
    assert(tag == "h5"@ || tag == "h6"@);
    assert("##### "@ =~= Seq::new(5, |i: int| '#') + seq![' ']);
    assert("\n\n"@ =~= seq!['\n', '\n']);
}
} // verus!
