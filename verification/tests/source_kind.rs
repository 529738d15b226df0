use curio::{PageStatus, SourceKind};

#[test]
fn confluence_page_is_reference() {
    let kind = SourceKind::ConfluencePage { page_id: "123".into(), webui_path: None };
    assert!(kind.is_reference());
}

#[test]
fn url_is_reference() {
    let kind = SourceKind::Url { url: "https://example.com".into() };
    assert!(kind.is_reference());
}

#[test]
fn file_is_not_reference() {
    let kind = SourceKind::File { path: "/tmp/notes.txt".into(), mime: "text/plain".into() };
    assert!(!kind.is_reference());
}

#[test]
fn from_source_id_confluence_page() {
    let kind = SourceKind::from_source_id("confluence-page:111:page:999");
    assert!(matches!(kind, SourceKind::ConfluencePage { ref page_id, .. } if page_id == "999"));
}

#[test]
fn from_source_id_confluence_folder() {
    let kind = SourceKind::from_source_id("confluence-folder:111:page:888");
    assert!(matches!(kind, SourceKind::ConfluencePage { ref page_id, .. } if page_id == "888"));
}

#[test]
fn from_source_id_confluence_space() {
    let kind = SourceKind::from_source_id("confluence-space:CURIO:page:777");
    assert!(matches!(kind, SourceKind::ConfluencePage { ref page_id, .. } if page_id == "777"));
}

#[test]
fn from_source_id_url() {
    let kind = SourceKind::from_source_id("url:https://example.com/docs");
    assert!(matches!(kind, SourceKind::Url { ref url } if url == "https://example.com/docs"));
}

#[test]
fn from_source_id_file() {
    let kind = SourceKind::from_source_id("file:/home/user/notes.txt");
    assert!(matches!(kind, SourceKind::File { ref path, .. } if path == "/home/user/notes.txt"));
}

#[test]
fn content_type_values() {
    assert_eq!(SourceKind::ConfluencePage { page_id: "1".into(), webui_path: None }.content_type(), "confluence_page");
    assert_eq!(SourceKind::Url { url: "https://x.com".into() }.content_type(), "web_page");
    assert_eq!(SourceKind::File { path: "f".into(), mime: "text/plain".into() }.content_type(), "text/plain");
}

#[test]
fn origin_url_confluence_with_webui_path() {
    let kind = SourceKind::ConfluencePage {
        page_id: "123".into(),
        webui_path: Some("/wiki/spaces/TEST/pages/123/Title".into()),
    };
    assert_eq!(
        kind.origin_url("https://company.atlassian.net"),
        Some("https://company.atlassian.net/wiki/spaces/TEST/pages/123/Title".into())
    );
}

#[test]
fn origin_url_url_source() {
    let kind = SourceKind::Url { url: "https://example.com".into() };
    assert_eq!(kind.origin_url("https://ignored"), Some("https://example.com".into()));
}

#[test]
fn origin_url_file_is_none() {
    let kind = SourceKind::File { path: "/tmp/f".into(), mime: "text/plain".into() };
    assert_eq!(kind.origin_url("https://ignored"), None);
}

#[test]
fn origin_url_confluence_without_webui_path() {
    let kind = SourceKind::ConfluencePage {
        page_id: "456".into(),
        webui_path: None,
    };
    assert_eq!(
        kind.origin_url("https://company.atlassian.net"),
        Some("https://company.atlassian.net/wiki/pages/viewpage.action?pageId=456".into())
    );
}

// ─── Further cases ─────────────────────────────────────────────────────────

#[test]
fn page_status_names() {
    assert_eq!(PageStatus::Intake.as_str(), "intake");
    assert_eq!(PageStatus::Staged.as_str(), "staged");
    assert_eq!(PageStatus::Review.as_str(), "review");
    assert_eq!(PageStatus::Published.as_str(), "published");
}

#[test]
fn from_source_id_unknown_is_file_path() {
    let kind = SourceKind::from_source_id("notes/readme.md");
    assert!(matches!(kind, SourceKind::File { ref path, ref mime }
        if path == "notes/readme.md" && mime == "application/octet-stream"));
}

#[test]
fn from_source_id_page_id_after_last_separator() {
    let kind = SourceKind::from_source_id("confluence-page:1:page:2:page:3");
    assert!(matches!(kind, SourceKind::ConfluencePage { ref page_id, .. } if page_id == "3"));
    let kind = SourceKind::from_source_id("confluence-space:CURIO");
    assert!(matches!(kind, SourceKind::ConfluencePage { ref page_id, .. } if page_id == "confluence-space:CURIO"));
}

#[test]
fn origin_url_trims_all_trailing_slashes() {
    let kind = SourceKind::ConfluencePage { page_id: "9".into(), webui_path: None };
    assert_eq!(
        kind.origin_url("https://x.net///"),
        Some("https://x.net/wiki/pages/viewpage.action?pageId=9".into())
    );
}
