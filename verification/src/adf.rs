//! Atlassian Document Format: bodies for intake pages, written as compact JSON text
//! (object keys in sorted order, as `serde_json` writes its maps), and the plain text
//! of a page given in that format.
use vstd::prelude::*;

use crate::text::{
    chars_of, decimal, decimal_vec, extend_chars, extend_str, join, join_vec, lines, split_lines,
    string_of, trim, trim_vec, views,
};

verus! {

// ─── JSON text ──────────────────────────────────────────────────────────────

/// What `serde_json` writes for a string: the JSON string literal.
pub uninterp spec fn spec_json_string(s: Seq<char>) -> Seq<char>;

/// A JSON string literal, as `serde_json` writes it.
pub open spec fn json_str(s: Seq<char>) -> Seq<char> {
    spec_json_string(s)
}

/// A JSON array of already written values.
pub open spec fn json_array(items: Seq<Seq<char>>) -> Seq<char> {
    seq!['['] + join(items, seq![',']) + seq![']']
}

/// `serde_json::to_string` of a string: its JSON string literal. Serialising a
/// `str` into a `Vec` cannot fail; the error arm is never taken.
#[verifier::external_body]
fn json_string(s: &str) -> (r: String)
    ensures
        r@ == spec_json_string(s@),
{
    serde_json::to_string(s).unwrap_or_default()
}

pub(crate) fn push_json_str(out: &mut Vec<char>, s: &str)
    ensures
        final(out)@ == old(out)@ + json_str(s@),
{
    let j = json_string(s);
    extend_str(out, j.as_str());
}

fn push_json_array(out: &mut Vec<char>, items: &Vec<Vec<char>>)
    ensures
        final(out)@ == old(out)@ + json_array(views(items@)),
{
    let ghost start = out@;
    out.push('[');
    let mut sep: Vec<char> = Vec::new();
    sep.push(',');
    assert(sep@ =~= seq![',']);
    let body = join_vec(items, &sep);
    extend_chars(out, &body);
    out.push(']');
    assert(out@ =~= start + json_array(views(items@)));
}

// ─── Nodes ──────────────────────────────────────────────────────────────────

pub open spec fn text_node(t: Seq<char>) -> Seq<char> {
    "{\"text\":"@ + json_str(t) + ",\"type\":\"text\"}"@
}

pub open spec fn paragraph(t: Seq<char>) -> Seq<char> {
    "{\"content\":["@ + text_node(t) + "],\"type\":\"paragraph\"}"@
}

pub open spec fn heading(level: nat, t: Seq<char>) -> Seq<char> {
    "{\"attrs\":{\"level\":"@ + decimal(level) + "},\"content\":["@ + text_node(t)
        + "],\"type\":\"heading\"}"@
}

pub open spec fn link_paragraph(label: Seq<char>, link_text: Seq<char>, href: Seq<char>) -> Seq<char> {
    "{\"content\":["@ + text_node(label) + ",{\"marks\":[{\"attrs\":{\"href\":"@ + json_str(href)
        + "},\"type\":\"link\"}],\"text\":"@ + json_str(link_text)
        + ",\"type\":\"text\"}],\"type\":\"paragraph\"}"@
}

pub open spec fn table_cell(t: Seq<char>) -> Seq<char> {
    "{\"attrs\":{},\"content\":["@ + paragraph(t) + "],\"type\":\"tableCell\"}"@
}

pub open spec fn table_row(k: Seq<char>, v: Seq<char>) -> Seq<char> {
    "{\"content\":["@ + table_cell(k) + ","@ + table_cell(v) + "],\"type\":\"tableRow\"}"@
}

pub open spec fn table_rows(rows: Seq<(Seq<char>, Seq<char>)>) -> Seq<Seq<char>> {
    rows.map_values(|r: (Seq<char>, Seq<char>)| table_row(r.0, r.1))
}

pub open spec fn table(rows: Seq<(Seq<char>, Seq<char>)>) -> Seq<char> {
    "{\"attrs\":{\"isNumberColumnEnabled\":false,\"layout\":\"default\"},\"content\":"@
        + json_array(table_rows(rows)) + ",\"type\":\"table\"}"@
}

pub open spec fn list_item(t: Seq<char>) -> Seq<char> {
    "{\"content\":["@ + paragraph(t) + "],\"type\":\"listItem\"}"@
}

pub open spec fn bullet_list(items: Seq<Seq<char>>) -> Seq<char> {
    "{\"content\":"@ + json_array(items.map_values(|t: Seq<char>| list_item(t)))
        + ",\"type\":\"bulletList\"}"@
}

/// A document of the given nodes.
pub open spec fn doc(nodes: Seq<Seq<char>>) -> Seq<char> {
    "{\"content\":"@ + json_array(nodes) + ",\"type\":\"doc\",\"version\":1}"@
}

fn text_node_exec(out: &mut Vec<char>, t: &str)
    ensures
        final(out)@ == old(out)@ + text_node(t@),
{
    let ghost start = out@;
    extend_str(out, "{\"text\":");
    push_json_str(out, t);
    extend_str(out, ",\"type\":\"text\"}");
    assert(out@ =~= start + text_node(t@));
}

fn paragraph_exec(t: &str) -> (r: Vec<char>)
    ensures
        r@ == paragraph(t@),
{
    let mut out = chars_of("{\"content\":[");
    text_node_exec(&mut out, t);
    extend_str(&mut out, "],\"type\":\"paragraph\"}");
    assert(out@ =~= paragraph(t@));
    out
}

fn heading_exec(level: u64, t: &str) -> (r: Vec<char>)
    ensures
        r@ == heading(level as nat, t@),
{
    let mut out = chars_of("{\"attrs\":{\"level\":");
    extend_chars(&mut out, &decimal_vec(level));
    extend_str(&mut out, "},\"content\":[");
    text_node_exec(&mut out, t);
    extend_str(&mut out, "],\"type\":\"heading\"}");
    assert(out@ =~= heading(level as nat, t@));
    out
}

fn link_paragraph_exec(label: &str, link_text: &str, href: &str) -> (r: Vec<char>)
    ensures
        r@ == link_paragraph(label@, link_text@, href@),
{
    let mut out = chars_of("{\"content\":[");
    text_node_exec(&mut out, label);
    extend_str(&mut out, ",{\"marks\":[{\"attrs\":{\"href\":");
    push_json_str(&mut out, href);
    extend_str(&mut out, "},\"type\":\"link\"}],\"text\":");
    push_json_str(&mut out, link_text);
    extend_str(&mut out, ",\"type\":\"text\"}],\"type\":\"paragraph\"}");
    assert(out@ =~= link_paragraph(label@, link_text@, href@));
    out
}

fn table_cell_exec(out: &mut Vec<char>, t: &str)
    ensures
        final(out)@ == old(out)@ + table_cell(t@),
{
    let ghost start = out@;
    extend_str(out, "{\"attrs\":{},\"content\":[");
    extend_chars(out, &paragraph_exec(t));
    extend_str(out, "],\"type\":\"tableCell\"}");
    assert(out@ =~= start + table_cell(t@));
}

pub open spec fn pair_views(rows: Seq<(&str, &str)>) -> Seq<(Seq<char>, Seq<char>)> {
    rows.map_values(|r: (&str, &str)| (r.0@, r.1@))
}

fn table_exec(rows: &[(&str, &str)]) -> (r: Vec<char>)
    ensures
        r@ == table(pair_views(rows@)),
{
    let ghost want = table_rows(pair_views(rows@));
    let mut items: Vec<Vec<char>> = Vec::new();
    let mut i: usize = 0;
    while i < rows.len()
        invariant
            i <= rows@.len(),
            want == table_rows(pair_views(rows@)),
            views(items@) == want.take(i as int),
        decreases rows@.len() - i,
    {
        let (k, v) = rows[i];
        let mut row = chars_of("{\"content\":[");
        table_cell_exec(&mut row, k);
        extend_str(&mut row, ",");
        table_cell_exec(&mut row, v);
        extend_str(&mut row, "],\"type\":\"tableRow\"}");
        assert(row@ =~= table_row(k@, v@));
        let ghost before = items@;
        items.push(row);
        assert(views(items@) =~= views(before).push(row@));
        assert(want.take(i + 1) =~= want.take(i as int).push(want[i as int]));
        i += 1;
    }
    assert(want.take(rows@.len() as int) =~= want);
    let mut out = chars_of("{\"attrs\":{\"isNumberColumnEnabled\":false,\"layout\":\"default\"},\"content\":");
    push_json_array(&mut out, &items);
    extend_str(&mut out, ",\"type\":\"table\"}");
    assert(out@ =~= table(pair_views(rows@)));
    out
}

pub open spec fn str_views(items: Seq<&str>) -> Seq<Seq<char>> {
    items.map_values(|s: &str| s@)
}

fn bullet_list_exec(items: &[&str]) -> (r: Vec<char>)
    ensures
        r@ == bullet_list(str_views(items@)),
{
    let ghost want = str_views(items@).map_values(|t: Seq<char>| list_item(t));
    let mut nodes: Vec<Vec<char>> = Vec::new();
    let mut i: usize = 0;
    while i < items.len()
        invariant
            i <= items@.len(),
            want == str_views(items@).map_values(|t: Seq<char>| list_item(t)),
            views(nodes@) == want.take(i as int),
        decreases items@.len() - i,
    {
        let mut node = chars_of("{\"content\":[");
        extend_chars(&mut node, &paragraph_exec(items[i]));
        extend_str(&mut node, "],\"type\":\"listItem\"}");
        assert(node@ =~= list_item(items@[i as int]@));
        let ghost before = nodes@;
        nodes.push(node);
        assert(views(nodes@) =~= views(before).push(node@));
        assert(want.take(i + 1) =~= want.take(i as int).push(want[i as int]));
        i += 1;
    }
    assert(want.take(items@.len() as int) =~= want);
    let mut out = chars_of("{\"content\":");
    push_json_array(&mut out, &nodes);
    extend_str(&mut out, ",\"type\":\"bulletList\"}");
    assert(out@ =~= bullet_list(str_views(items@)));
    out
}

fn doc_exec(nodes: &Vec<Vec<char>>) -> (r: String)
    ensures
        r@ == doc(views(nodes@)),
{
    let mut out = chars_of("{\"content\":");
    push_json_array(&mut out, nodes);
    extend_str(&mut out, ",\"type\":\"doc\",\"version\":1}");
    assert(out@ =~= doc(views(nodes@)));
    string_of(&out)
}

fn push_node(nodes: &mut Vec<Vec<char>>, n: Vec<char>)
    ensures
        views(final(nodes)@) == views(old(nodes)@).push(n@),
{
    let ghost before = nodes@;
    nodes.push(n);
    assert(views(nodes@) =~= views(before).push(n@));
}

// ─── Bodies ─────────────────────────────────────────────────────────────────

/// The nodes of a reference card: title, status line, source (linked when it has an
/// address), summary, then the metadata table and the commands when there are any.
pub open spec fn reference_card_nodes(
    title: Seq<char>,
    source_id: Seq<char>,
    origin_url: Option<Seq<char>>,
    summary: Option<Seq<char>>,
    lane: Seq<char>,
    ingested_at: Seq<char>,
    rows: Seq<(Seq<char>, Seq<char>)>,
    commands: Seq<Seq<char>>,
) -> Seq<Seq<char>> {
    seq![
        heading(1, title),
        paragraph("Curio lane: "@ + lane + " | Source: "@ + source_id + " | "@ + ingested_at),
        heading(2, "Source"@),
        match origin_url {
            Some(url) => link_paragraph("Origin: "@, title, url),
            None => paragraph("Origin: "@ + source_id),
        },
        heading(2, "Summary"@),
        paragraph(
            match summary {
                Some(s) => s,
                None => "No summary available."@,
            },
        ),
    ] + (if rows.len() > 0 {
        seq![heading(2, "Metadata"@), table(rows)]
    } else {
        seq![]
    }) + (if commands.len() > 0 {
        seq![heading(2, "Commands"@), bullet_list(commands)]
    } else {
        seq![]
    })
}

pub open spec fn opt_str(o: Option<&str>) -> Option<Seq<char>> {
    match o {
        Some(s) => Some(s@),
        None => None,
    }
}

/// An ADF reference card for a Confluence page or web source: a link and summary with
/// the routing metadata, never the body itself.
pub fn build_reference_card_adf(
    title: &str,
    source_id: &str,
    origin_url: Option<&str>,
    summary: Option<&str>,
    lane: &str,
    ingested_at: &str,
    metadata_rows: &[(&str, &str)],
    commands: &[&str],
) -> (r: String)
    ensures
        r@ == doc(
            reference_card_nodes(
                title@,
                source_id@,
                opt_str(origin_url),
                opt_str(summary),
                lane@,
                ingested_at@,
                pair_views(metadata_rows@),
                str_views(commands@),
            ),
        ),
{
    let mut nodes: Vec<Vec<char>> = Vec::new();
    push_node(&mut nodes, heading_exec(1, title));
    let mut status = chars_of("Curio lane: ");
    extend_str(&mut status, lane);
    extend_str(&mut status, " | Source: ");
    extend_str(&mut status, source_id);
    extend_str(&mut status, " | ");
    extend_str(&mut status, ingested_at);
    let status_s = string_of(&status);
    push_node(&mut nodes, paragraph_exec(status_s.as_str()));
    push_node(&mut nodes, heading_exec(2, "Source"));
    match origin_url {
        Some(url) => push_node(&mut nodes, link_paragraph_exec("Origin: ", title, url)),
        None => {
            let mut o = chars_of("Origin: ");
            extend_str(&mut o, source_id);
            let o_s = string_of(&o);
            push_node(&mut nodes, paragraph_exec(o_s.as_str()));
        },
    }
    push_node(&mut nodes, heading_exec(2, "Summary"));
    let s: &str = match summary {
        Some(s) => s,
        None => "No summary available.",
    };
    push_node(&mut nodes, paragraph_exec(s));
    let ghost head = views(nodes@);
    if metadata_rows.len() > 0 {
        push_node(&mut nodes, heading_exec(2, "Metadata"));
        push_node(&mut nodes, table_exec(metadata_rows));
    }
    let ghost mid = views(nodes@);
    if commands.len() > 0 {
        push_node(&mut nodes, heading_exec(2, "Commands"));
        push_node(&mut nodes, bullet_list_exec(commands));
    }
    assert(views(nodes@) =~= reference_card_nodes(
        title@,
        source_id@,
        opt_str(origin_url),
        opt_str(summary),
        lane@,
        ingested_at@,
        pair_views(metadata_rows@),
        str_views(commands@),
    ));
    doc_exec(&nodes)
}

/// How many lines of a captured file are shown.
pub const MAX_CAPTURE_LINES: usize = 500;

/// A paragraph for each shown line that is not blank.
pub open spec fn line_paragraphs(ls: Seq<Seq<char>>) -> Seq<Seq<char>>
    decreases ls.len(),
{
    if ls.len() == 0 {
        seq![]
    } else {
        line_paragraphs(ls.drop_last()) + if trim(ls.last()).len() == 0 {
            Seq::<Seq<char>>::empty()
        } else {
            seq![paragraph(ls.last())]
        }
    }
}

pub open spec fn truncation_note(total: nat) -> Seq<char> {
    "— Content truncated at "@ + decimal(MAX_CAPTURE_LINES as nat) + " lines ("@ + decimal(total)
        + " total). Open the source file for the full content."@
}

/// The nodes of a captured file's page: title, status line, file metadata, then a
/// paragraph for each non-blank line of the first 500, and a note when lines were
/// left out.
pub open spec fn capture_nodes(
    title: Seq<char>,
    source_id: Seq<char>,
    lane: Seq<char>,
    ingested_at: Seq<char>,
    content: Seq<char>,
    mime: Seq<char>,
) -> Seq<Seq<char>> {
    let ls = lines(content);
    let shown = if ls.len() > MAX_CAPTURE_LINES {
        ls.take(MAX_CAPTURE_LINES as int)
    } else {
        ls
    };
    seq![
        heading(1, title),
        paragraph("Curio lane: "@ + lane + " | Captured file content."@),
        heading(2, "File Metadata"@),
        table(
            seq![
                ("Source"@, source_id),
                ("Type"@, mime),
                ("Ingested"@, ingested_at),
                ("Lines"@, decimal(ls.len())),
            ],
        ),
        heading(2, "Content"@),
    ] + line_paragraphs(shown) + if ls.len() > MAX_CAPTURE_LINES {
        seq![paragraph(truncation_note(ls.len()))]
    } else {
        Seq::<Seq<char>>::empty()
    }
}

/// An ADF body for a captured file: its metadata and its first lines.
pub fn build_capture_intake_adf(
    title: &str,
    source_id: &str,
    lane: &str,
    ingested_at: &str,
    content: &str,
    mime: &str,
) -> (r: String)
    ensures
        r@ == doc(capture_nodes(title@, source_id@, lane@, ingested_at@, content@, mime@)),
{
    let ls = split_lines(&chars_of(content));
    let ghost all = views(ls@);
    let n = ls.len();
    let mut nodes: Vec<Vec<char>> = Vec::new();
    push_node(&mut nodes, heading_exec(1, title));
    let mut status = chars_of("Curio lane: ");
    extend_str(&mut status, lane);
    extend_str(&mut status, " | Captured file content.");
    let status_s = string_of(&status);
    push_node(&mut nodes, paragraph_exec(status_s.as_str()));
    push_node(&mut nodes, heading_exec(2, "File Metadata"));
    let count = string_of(&decimal_vec(n as u64));
    let mut rows: Vec<(&str, &str)> = Vec::new();
    rows.push(("Source", source_id));
    rows.push(("Type", mime));
    rows.push(("Ingested", ingested_at));
    rows.push(("Lines", count.as_str()));
    let table_text = table_exec(rows.as_slice());
    assert(pair_views(rows@) =~= seq![
        ("Source"@, source_id@),
        ("Type"@, mime@),
        ("Ingested"@, ingested_at@),
        ("Lines"@, decimal(all.len())),
    ]);
    push_node(&mut nodes, table_text);
    push_node(&mut nodes, heading_exec(2, "Content"));
    let ghost head = views(nodes@);
    let shown: usize = if n > MAX_CAPTURE_LINES {
        MAX_CAPTURE_LINES
    } else {
        n
    };
    let mut i: usize = 0;
    assert(all.take(0) =~= Seq::<Seq<char>>::empty());
    while i < shown
        invariant
            i <= shown <= ls@.len(),
            all == views(ls@),
            views(nodes@) == head + line_paragraphs(all.take(i as int)),
        decreases shown - i,
    {
        assert(all.take(i + 1).drop_last() =~= all.take(i as int));
        assert(all.take(i + 1).last() == ls@[i as int]@);
        if trim_vec(&ls[i]).len() > 0 {
            let l = string_of(&ls[i]);
            push_node(&mut nodes, paragraph_exec(l.as_str()));
        }
        assert(views(nodes@) =~= head + line_paragraphs(all.take(i + 1)));
        i += 1;
    }
    if n > MAX_CAPTURE_LINES {
        let mut note = chars_of("— Content truncated at ");
        extend_chars(&mut note, &decimal_vec(MAX_CAPTURE_LINES as u64));
        extend_str(&mut note, " lines (");
        extend_chars(&mut note, &decimal_vec(n as u64));
        extend_str(&mut note, " total). Open the source file for the full content.");
        let note_s = string_of(&note);
        push_node(&mut nodes, paragraph_exec(note_s.as_str()));
    }
    let ghost shown_lines = if all.len() > MAX_CAPTURE_LINES {
        all.take(MAX_CAPTURE_LINES as int)
    } else {
        all
    };
    assert(all.take(shown as int) =~= shown_lines);
    assert(views(nodes@) =~= capture_nodes(title@, source_id@, lane@, ingested_at@, content@, mime@));
    doc_exec(&nodes)
}

// ─── Reading a document's text ──────────────────────────────────────────────

/// A parsed JSON value; an object keeps its members in order.
#[derive(Debug)]
pub enum JsonNode {
    Null,
    Bool(bool),
    /// A number, as written.
    Number(String),
    Str(String),
    Array(Vec<JsonNode>),
    Object(Vec<(String, JsonNode)>),
}

/// The index of the first member named `key`, or -1.
pub open spec fn member_index(fs: Seq<(String, JsonNode)>, key: Seq<char>) -> int
    decreases fs.len(),
{
    if fs.len() == 0 {
        -1
    } else if fs.last().0@ == key && member_index(fs.drop_last(), key) < 0 {
        fs.len() - 1
    } else {
        member_index(fs.drop_last(), key)
    }
}

/// The string member `key` of an object, if it has one.
pub open spec fn str_member(fs: Seq<(String, JsonNode)>, key: Seq<char>) -> Option<Seq<char>> {
    let k = member_index(fs, key);
    if 0 <= k < fs.len() {
        match fs[k].1 {
            JsonNode::Str(s) => Some(s@),
            _ => None,
        }
    } else {
        None
    }
}

/// The node types after whose content a line break goes.
pub open spec fn breaks_after(t: Option<Seq<char>>) -> bool {
    match t {
        Some(t) => t == "paragraph"@ || t == "heading"@ || t == "blockquote"@ || t == "listItem"@
            || t == "tableCell"@ || t == "panel"@ || t == "expand"@ || t == "codeBlock"@,
        None => false,
    }
}

/// The text of an ADF node: a text node gives its text, a hard break a line break,
/// any other object the text of its `content` array (followed by a line break for
/// block types), an array the text of its items; anything else nothing.
pub open spec fn adf_node(n: JsonNode) -> Seq<char>
    decreases n,
{
    match n {
        JsonNode::Object(fs) => {
            let t = str_member(fs@, "type"@);
            if t == Some("text"@) {
                match str_member(fs@, "text"@) {
                    Some(x) => x,
                    None => seq![],
                }
            } else if t == Some("hardBreak"@) {
                seq!['\n']
            } else {
                let k = member_index(fs@, "content"@);
                if 0 <= k < fs@.len() {
                    match fs@[k].1 {
                        JsonNode::Array(v) => adf_text(v@) + if breaks_after(t) {
                            seq!['\n']
                        } else {
                            Seq::<char>::empty()
                        },
                        _ => seq![],
                    }
                } else {
                    seq![]
                }
            }
        },
        JsonNode::Array(v) => adf_text(v@),
        _ => seq![],
    }
}

/// A block node (paragraph, heading, blockquote, list item, table cell, panel,
/// expand or code block) with a `content` array gives the text of its content and
/// then a line break, so the next block starts on a new line.
pub proof fn law_block_text_ends_with_break(fs: Vec<(String, JsonNode)>, t: Seq<char>)
    requires
        str_member(fs@, "type"@) == Some(t),
        t == "paragraph"@ || t == "heading"@ || t == "blockquote"@ || t == "listItem"@ || t
            == "tableCell"@ || t == "panel"@ || t == "expand"@ || t == "codeBlock"@,
        0 <= member_index(fs@, "content"@) < fs@.len(),
        fs@[member_index(fs@, "content"@)].1 is Array,
    ensures
        adf_node(JsonNode::Object(fs)) == adf_text(fs@[member_index(fs@, "content"@)].1->Array_0@)
            + seq!['\n'],
        adf_node(JsonNode::Object(fs)).len() > 0,
        adf_node(JsonNode::Object(fs)).last() == '\n',
{
    reveal_strlit("text");
    reveal_strlit("hardBreak");
    reveal_strlit("paragraph");
    reveal_strlit("heading");
    reveal_strlit("blockquote");
    reveal_strlit("listItem");
    reveal_strlit("tableCell");
    reveal_strlit("panel");
    reveal_strlit("expand");
    reveal_strlit("codeBlock");
    assert("text"@.len() == 4 && "hardBreak"@.len() == 9 && "hardBreak"@[0] == 'h');
    assert(t.len() != 4 && (t.len() != 9 || t[0] != 'h')) by {
        if t == "paragraph"@ {
        } else if t == "heading"@ {
        } else if t == "blockquote"@ {
        } else if t == "listItem"@ {
        } else if t == "tableCell"@ {
        } else if t == "panel"@ {
        } else if t == "expand"@ {
        } else {
            assert(t == "codeBlock"@);
        }
    }
    assert(t != "text"@);
    assert(t != "hardBreak"@);
    assert(Some(t) != Some("text"@));
    assert(Some(t) != Some("hardBreak"@));
}

/// The text of ADF nodes, one after another.
pub open spec fn adf_text(cs: Seq<JsonNode>) -> Seq<char>
    decreases cs,
{
    if cs.len() == 0 {
        seq![]
    } else {
        adf_text(cs.drop_last()) + adf_node(cs.last())
    }
}

fn member_index_exec(fs: &Vec<(String, JsonNode)>, key: &str) -> (r: Option<usize>)
    ensures
        match r {
            Some(k) => k < fs@.len() && member_index(fs@, key@) == k,
            None => member_index(fs@, key@) < 0,
        },
{
    let mut i: usize = 0;
    while i < fs.len()
        invariant
            i <= fs@.len(),
            member_index(fs@.take(i as int), key@) < 0,
        decreases fs@.len() - i,
    {
        assert(fs@.take(i + 1).drop_last() =~= fs@.take(i as int));
        if crate::text::str_eq(fs[i].0.as_str(), key) {
            proof {
                lemma_member_index_prefix(fs@, key@, i as int);
            }
            return Some(i);
        }
        i += 1;
    }
    assert(fs@.take(fs@.len() as int) =~= fs@);
    None
}

proof fn lemma_member_index_prefix(fs: Seq<(String, JsonNode)>, key: Seq<char>, i: int)
    requires
        0 <= i < fs.len(),
        fs[i].0@ == key,
        member_index(fs.take(i), key) < 0,
    ensures
        member_index(fs, key) == i,
    decreases fs.len(),
{
    if i < fs.len() - 1 {
        assert(fs.drop_last().take(i) =~= fs.take(i));
        lemma_member_index_prefix(fs.drop_last(), key, i);
    } else {
        assert(fs.drop_last() =~= fs.take(i));
    }
}

fn str_member_exec<'a>(fs: &'a Vec<(String, JsonNode)>, key: &str) -> (r: Option<&'a str>)
    ensures
        match r {
            Some(s) => str_member(fs@, key@) == Some(s@),
            None => str_member(fs@, key@) is None,
        },
{
    match member_index_exec(fs, key) {
        Some(k) => match &fs[k].1 {
            JsonNode::Str(s) => Some(s.as_str()),
            _ => None,
        },
        None => None,
    }
}

fn breaks_after_exec(t: Option<&str>) -> (b: bool)
    ensures
        b == breaks_after(
            match t {
                Some(s) => Some(s@),
                None => None,
            },
        ),
{
    match t {
        Some(t) => {
            let names: [&str; 8] = [
                "paragraph",
                "heading",
                "blockquote",
                "listItem",
                "tableCell",
                "panel",
                "expand",
                "codeBlock",
            ];
            crate::text::str_eq(t, names[0]) || crate::text::str_eq(t, names[1])
                || crate::text::str_eq(t, names[2]) || crate::text::str_eq(t, names[3])
                || crate::text::str_eq(t, names[4]) || crate::text::str_eq(t, names[5])
                || crate::text::str_eq(t, names[6]) || crate::text::str_eq(t, names[7])
        },
        None => false,
    }
}

fn opt_str_eq(o: Option<&str>, s: &str) -> (b: bool)
    ensures
        b == (match o {
            Some(x) => Some(x@),
            None => None,
        } == Some(s@)),
{
    match o {
        Some(x) => crate::text::str_eq(x, s),
        None => false,
    }
}

fn adf_node_exec(n: &JsonNode, out: &mut Vec<char>)
    ensures
        final(out)@ == old(out)@ + adf_node(*n),
    decreases n,
{
    let ghost start = out@;
    match n {
        JsonNode::Object(fs) => {
            let t = str_member_exec(fs, "type");
            if opt_str_eq(t, "text") {
                match str_member_exec(fs, "text") {
                    Some(x) => extend_str(out, x),
                    None => {},
                }
            } else if opt_str_eq(t, "hardBreak") {
                out.push('\n');
            } else {
                match member_index_exec(fs, "content") {
                    Some(k) => match &fs[k].1 {
                        JsonNode::Array(v) => {
                            adf_list_exec(v, out);
                            if breaks_after_exec(t) {
                                out.push('\n');
                            }
                        },
                        _ => {},
                    },
                    None => {},
                }
            }
        },
        JsonNode::Array(v) => adf_list_exec(v, out),
        _ => {},
    }
    assert(out@ =~= start + adf_node(*n));
}

fn adf_list_exec(cs: &Vec<JsonNode>, out: &mut Vec<char>)
    ensures
        final(out)@ == old(out)@ + adf_text(cs@),
    decreases cs,
{
    let ghost start = out@;
    let mut i: usize = 0;
    assert(cs@.take(0) =~= Seq::<JsonNode>::empty());
    while i < cs.len()
        invariant
            i <= cs@.len(),
            out@ == start + adf_text(cs@.take(i as int)),
        decreases cs@.len() - i,
    {
        assert(cs@.take(i + 1).drop_last() =~= cs@.take(i as int));
        assert(cs@.take(i + 1).last() == cs@[i as int]);
        adf_node_exec(&cs[i], out);
        assert(out@ =~= start + adf_text(cs@.take(i + 1)));
        i += 1;
    }
    assert(cs@.take(cs@.len() as int) =~= cs@);
}

/// The plain text of a page: its storage HTML's text with whitespace collapsed when
/// it has any; else nothing when its ADF value is blank; else the ADF value itself
/// when it is not JSON (`adf` is then `None`), or the text of the parsed document,
/// trimmed.
pub open spec fn page_text_of(storage: Seq<char>, adf_value: Seq<char>, adf: Option<JsonNode>) -> Seq<char> {
    if trim(storage).len() > 0 {
        crate::text::collapse_ws(crate::curio_docs::fragment_text_of(storage))
    } else if trim(adf_value).len() == 0 {
        seq![]
    } else {
        match adf {
            None => adf_value,
            Some(n) => trim(adf_node(n)),
        }
    }
}

pub fn extract_page_text(storage: &str, adf_value: &str, adf: Option<&JsonNode>) -> (r: String)
    ensures
        r@ == page_text_of(
            storage@,
            adf_value@,
            match adf {
                Some(n) => Some(*n),
                None => None,
            },
        ),
{
    if crate::text::trim_str(storage).len() > 0 {
        let raw = crate::curio_docs::fragment_text(storage);
        return string_of(&crate::text::collapse_ws_vec(&chars_of(raw.as_str())));
    }
    if crate::text::trim_str(adf_value).len() == 0 {
        return String::new();
    }
    match adf {
        None => String::from_str(adf_value),
        Some(n) => {
            let mut out: Vec<char> = Vec::new();
            adf_node_exec(n, &mut out);
            string_of(&trim_vec(&out))
        },
    }
}

} // verus!
