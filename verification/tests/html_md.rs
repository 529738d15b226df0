use curio::commands::html_doc::{collapse_blank_lines_vec, parse_document, page_text_of};
use curio::commands::html_md::{element_to_md, HtmlElement, HtmlNode, OtherKind};
use curio::commands::intake::{extract_text_from_html, extract_title_from_html};

fn el(name: &str, attrs: &[(&str, &str)], children: Vec<HtmlNode>) -> HtmlNode {
    HtmlNode::Element(elem(name, attrs, children))
}

fn elem(name: &str, attrs: &[(&str, &str)], children: Vec<HtmlNode>) -> HtmlElement {
    HtmlElement {
        name: name.to_string(),
        attrs: attrs.iter().map(|(k, v)| (k.to_string(), v.to_string())).collect(),
        children,
    }
}

fn text(t: &str) -> HtmlNode {
    HtmlNode::Text(t.to_string())
}

#[test]
fn headings_paragraphs_and_inline_marks() {
    let h2 = elem("H2", &[], vec![text("Title")]);
    assert_eq!(element_to_md(&h2, 0), "## Title\n\n");
    let p = elem(
        "p",
        &[],
        vec![text("\nHello "), el("strong", &[], vec![text("world")]), el("code", &[], vec![text(" x ")])],
    );
    assert_eq!(element_to_md(&p, 0), "Hello **world**`x`\n\n");
    let blank = elem("p", &[], vec![text("  \n ")]);
    assert_eq!(element_to_md(&blank, 0), "");
    let script = elem("script", &[], vec![text("alert(1)")]);
    assert_eq!(element_to_md(&script, 0), "");
}

#[test]
fn links_render_as_autolinks_or_labelled() {
    let a = elem("a", &[("href", "http://x")], vec![text("http://x")]);
    assert_eq!(element_to_md(&a, 0), "<http://x>");
    let a = elem("a", &[], vec![text(" t ")]);
    assert_eq!(element_to_md(&a, 0), "[t](#)");
}

#[test]
fn nested_lists_indent_three_spaces_per_level() {
    let ul = elem(
        "ul",
        &[],
        vec![
            el("li", &[], vec![text("one")]),
            el("li", &[], vec![text("two"), el("ul", &[], vec![el("li", &[], vec![text("sub")])])]),
        ],
    );
    assert_eq!(element_to_md(&ul, 0), "- one\n- twosub\n   - sub\n\n\n");
    let ol = elem("ol", &[], vec![el("li", &[], vec![]), el("li", &[], vec![text("b")])]);
    assert_eq!(element_to_md(&ol, 1), "   2. b\n\n");
}

#[test]
fn tables_get_a_header_separator_and_padding() {
    let table = elem(
        "table",
        &[],
        vec![el(
            "tbody",
            &[],
            vec![
                el("tr", &[], vec![el("th", &[], vec![text("A")]), el("th", &[], vec![text("B|C")])]),
                el("tr", &[], vec![el("td", &[], vec![text("1")])]),
            ],
        )],
    );
    assert_eq!(element_to_md(&table, 0), "| A | B\\|C |\n| --- | --- |\n| 1 |  |\n\n");
    let empty = elem("table", &[], vec![]);
    assert_eq!(element_to_md(&empty, 0), "");
}

#[test]
fn confluence_macros_tasks_and_links() {
    let info = elem(
        "ac:structured-macro",
        &[("ac:name", "warning")],
        vec![el("ac:rich-text-body", &[], vec![el("p", &[], vec![text("Line one")])])],
    );
    assert_eq!(element_to_md(&info, 0), "> **⚠️ Warning**\n>\n> Line one\n\n");
    let code = elem(
        "ac:structured-macro",
        &[("ac:name", "code")],
        vec![
            el("ac:parameter", &[("ac:name", "language")], vec![text("rust")]),
            el("ac:plain-text-body", &[], vec![text("let x = 1;")]),
        ],
    );
    assert_eq!(element_to_md(&code, 0), "```rust\nlet x = 1;\n```\n\n");
    let children = elem("ac:structured-macro", &[("ac:name", "children")], vec![]);
    assert_eq!(
        element_to_md(&children, 0),
        "*[Organized section — child pages listed separately]*\n\n"
    );
    let empty = elem("ac:structured-macro", &[("ac:name", "info")], vec![]);
    assert_eq!(element_to_md(&empty, 0), "");
    let task = elem(
        "ac:task",
        &[],
        vec![
            el("ac:task-status", &[], vec![text(" Complete ")]),
            el("ac:task-body", &[], vec![text(" Do it ")]),
        ],
    );
    assert_eq!(element_to_md(&task, 0), "- [x] Do it\n");
    let link = elem("ac:link", &[], vec![el("ri:page", &[("ri:content-title", "Target")], vec![])]);
    assert_eq!(element_to_md(&link, 0), "[Target]");
    let titled = elem(
        "ac:link",
        &[],
        vec![el("ac:link-title", &[], vec![text(" Shown ")]), el("ri:page", &[("ri:content-title", "T")], vec![])],
    );
    assert_eq!(element_to_md(&titled, 0), "[Shown]");
}

#[test]
fn blank_line_runs_collapse_to_one() {
    let v: Vec<char> = "a\n\n\n\nb\n\nc\n\n\n".chars().collect();
    let r: String = collapse_blank_lines_vec(&v).into_iter().collect();
    assert_eq!(r, "a\n\nb\n\nc\n\n");
}

#[test]
fn extract_text_renders_the_body() {
    assert_eq!(
        extract_text_from_html("<p>Hello <strong>world</strong></p>"),
        Some("Hello **world**".to_string())
    );
    assert_eq!(
        extract_text_from_html("<h1>T</h1><p>a</p><hr><ol><li>x</li><li>y</li></ol>"),
        Some("# T\n\na\n\n---\n\n1. x\n2. y".to_string())
    );
    assert_eq!(
        extract_text_from_html("<table><tr><th>A</th><th>B</th></tr><tr><td>1</td></tr></table>"),
        Some("| A | B |\n| --- | --- |\n| 1 |  |".to_string())
    );
    assert_eq!(extract_text_from_html("<pre>a\n\n\n\nb</pre>"), Some("```\na\n\nb\n```".to_string()));
    assert_eq!(
        extract_text_from_html(
            "<ac:structured-macro ac:name=\"info\"><ac:rich-text-body><p>Be careful</p></ac:rich-text-body></ac:structured-macro>"
        ),
        Some("> **ℹ️ Info**\n>\n> Be careful".to_string())
    );
}

#[test]
fn parsed_documents_have_a_body() {
    let doc = parse_document("plain words");
    assert_eq!(page_text_of(&doc), Some("plain words".to_string()));
    assert_eq!(page_text_of(&vec![]), None);
}

#[test]
fn extract_title_takes_first_title_or_h1() {
    assert_eq!(
        extract_title_from_html("<html><head><title> My Page </title></head><body><h1>H</h1></body></html>"),
        Some("My Page".to_string())
    );
    assert_eq!(extract_title_from_html("<p>x</p><h1> Head </h1>"), Some("Head".to_string()));
    assert_eq!(extract_title_from_html("<p>x</p>"), None);
}

fn find_template(ns: &[HtmlNode]) -> Option<&HtmlElement> {
    for n in ns {
        if let HtmlNode::Element(e) = n {
            if e.name == "template" {
                return Some(e);
            }
            if let Some(t) = find_template(&e.children) {
                return Some(t);
            }
        }
    }
    None
}

#[test]
fn template_contents_sit_under_a_fragment() {
    let doc = parse_document("<body><p>a</p><template><p>inside</p></template><p>b</p></body>");
    let t = find_template(&doc).expect("template element");
    assert_eq!(t.children.len(), 1);
    match &t.children[0] {
        HtmlNode::Other(OtherKind::Fragment, kids) => {
            assert_eq!(kids.len(), 1);
            assert!(matches!(&kids[0], HtmlNode::Element(e) if e.name == "p"));
        }
        other => panic!("fragment expected, got {other:?}"),
    }
    assert_eq!(element_to_md(t, 0), "");
    let text = extract_text_from_html("<body><p>a</p><template><p>inside</p></template><p>b</p></body>").unwrap();
    assert!(text.contains('a') && text.contains('b'));
}
