use curio::adf::{extract_page_text, JsonNode};

fn obj(members: Vec<(&str, JsonNode)>) -> JsonNode {
    JsonNode::Object(members.into_iter().map(|(k, v)| (k.to_string(), v)).collect())
}

fn s(x: &str) -> JsonNode {
    JsonNode::Str(x.to_string())
}

fn text(x: &str) -> JsonNode {
    obj(vec![("type", s("text")), ("text", s(x))])
}

#[test]
fn adf_documents_yield_their_text() {
    let doc = obj(vec![
        ("type", s("doc")),
        ("version", JsonNode::Number("1".into())),
        (
            "content",
            JsonNode::Array(vec![
                obj(vec![
                    ("type", s("paragraph")),
                    ("content", JsonNode::Array(vec![text("Hello"), obj(vec![("type", s("hardBreak"))]), text("world")])),
                ]),
                obj(vec![
                    ("type", s("bulletList")),
                    (
                        "content",
                        JsonNode::Array(vec![obj(vec![
                            ("type", s("listItem")),
                            ("content", JsonNode::Array(vec![text("item")])),
                        ])]),
                    ),
                ]),
                obj(vec![("type", s("mention")), ("content", JsonNode::Array(vec![text("x")]))]),
                JsonNode::Null,
            ]),
        ),
    ]);
    assert_eq!(extract_page_text("", "{...}", Some(&doc)), "Hello\nworld\nitem\nx");
}

#[test]
fn storage_html_wins_and_blank_adf_is_empty() {
    assert_eq!(extract_page_text("<p>Hi <b>there</b></p>\n<p>again</p>", "{}", None), "Hi there again");
    assert_eq!(extract_page_text("  ", "   ", None), "");
    assert_eq!(extract_page_text("", "not json", None), "not json");
    let para = obj(vec![("type", s("paragraph")), ("content", JsonNode::Array(vec![text("  padded  ")]))]);
    assert_eq!(extract_page_text("", "{..}", Some(&para)), "padded");
}
