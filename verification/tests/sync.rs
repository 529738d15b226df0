use curio::commands::sync::{
    attachment_link, find_local_curio_executable, html_escape, inline_desc, is_valid_route,
    lane_display_title, local_curio_candidates, page_icon_builtin, page_link,
    parse_northstar_blueprint, pipeline_body, published_page_title, render_northstar_for_confluence,
    render_yaml_for_confluence, strip_html_tags, taxonomy_to_tree_nodes, to_title,
    valid_published_routes,
};
use curio::commands::tree::TaxonomyNode;

#[test]
fn escaping_and_titles() {
    assert_eq!(html_escape("a<b>&c"), "a&lt;b&gt;&amp;c");
    assert_eq!(to_title("account-tree"), "Account-tree");
    assert_eq!(to_title("getting-started"), "Getting Started");
    assert_eq!(
        lane_display_title("review", &["ops".to_string(), "db-tools".to_string()]),
        "Review - Ops - Db Tools"
    );
    assert_eq!(inline_desc("<blockquote><p>Some  text</p></blockquote><p>more<br/>x</p>"), "Some text more x");
    assert_eq!(strip_html_tags("<p>Hello <b>you</b></p>\n<p>there</p>"), "Hello you there");
}

#[test]
fn links_and_static_bodies() {
    assert_eq!(
        page_link("K", "A&B", "label"),
        "<ac:link><ri:page ri:space-key=\"K\" ri:content-title=\"A&amp;B\" /><ac:plain-text-link-body><![CDATA[label]]></ac:plain-text-link-body></ac:link>"
    );
    assert_eq!(
        attachment_link("https://x.net/", "12", "a b.zip"),
        "<a href=\"https://x.net/wiki/download/attachments/12/a b.zip?api=v2\">a b.zip</a>"
    );
    assert_eq!(
        pipeline_body("S", "D"),
        "<p>S</p><p>D</p><p>This page is maintained automatically by Curio.</p>"
    );
    assert_eq!(
        render_yaml_for_confluence("a: 1"),
        "<ac:structured-macro ac:name=\"code\"><ac:parameter ac:name=\"language\">yaml</ac:parameter><ac:plain-text-body><![CDATA[a: 1]]></ac:plain-text-body></ac:structured-macro>"
    );
    assert_eq!(page_icon_builtin("published"), Some("atlassian-check_mark"));
    assert_eq!(page_icon_builtin("nothing-here"), None);
}

#[test]
fn northstar_page_renders_markdown_then_config() {
    let html = render_northstar_for_confluence("# Charter\n\nRoute *well*.", "k: v");
    assert!(html.starts_with("<h1>Charter</h1>\n<p>Route <em>well</em>.</p>\n<h2>Config</h2>"));
    assert!(html.ends_with("<![CDATA[k: v]]></ac:plain-text-body></ac:structured-macro>"));
}

#[test]
fn blueprint_trees_and_routes() {
    let md = "# North\n## Published Tree Blueprint\n### Account Tree\n**Icon:** 1f4e6\n#### Technical / CSE\n#### Billing\n### Ops\n## Next\n### Ignored\n";
    let trees = parse_northstar_blueprint(md);
    assert_eq!(trees.len(), 2);
    assert_eq!(trees[0].title, "Account Tree");
    assert_eq!(trees[0].slug, "account-tree");
    assert_eq!(trees[0].icon, Some("1f4e6".to_string()));
    let subs: Vec<&str> = trees[0].subtrees.iter().map(|s| s.slug.as_str()).collect();
    assert_eq!(subs, vec!["technical-cse", "billing"]);
    assert_eq!(trees[1].slug, "ops");
    let mut routes = valid_published_routes(&trees);
    routes.sort();
    assert_eq!(routes, vec!["account-tree", "account-tree/billing", "account-tree/technical-cse", "ops"]);
    assert!(is_valid_route(&routes, &["ops".to_string()]));
    assert!(!is_valid_route(&routes, &["ops".to_string(), "x".to_string()]));
}

#[test]
fn taxonomy_becomes_tree_nodes() {
    let nodes = vec![TaxonomyNode {
        title: "Ops".into(),
        slug: "ops".into(),
        description_markdown: "  ".into(),
        icon: None,
        children: vec![TaxonomyNode {
            title: "DB".into(),
            slug: "db".into(),
            description_markdown: "Databases".into(),
            icon: Some("x".into()),
            children: vec![],
        }],
    }];
    let trees = taxonomy_to_tree_nodes(&nodes);
    assert_eq!(trees[0].description_html, "");
    assert_eq!(trees[0].subtrees[0].description_html, "<p>Databases</p>\n");
    assert_eq!(trees[0].subtrees[0].icon, Some("x".to_string()));
}

#[test]
fn published_titles_and_local_binaries() {
    assert_eq!(published_page_title("  T  "), Some("T".to_string()));
    assert_eq!(published_page_title("   "), None);
    let c = local_curio_candidates("/h");
    assert_eq!(
        c,
        vec![
            "/h/target/release/curio.exe",
            "/h/curio-rs/target/release/curio.exe",
            "/h/target/release/curio",
            "/h/curio-rs/target/release/curio"
        ]
    );
    assert_eq!(find_local_curio_executable("/h", &[false, false, true, true]), Some("/h/target/release/curio".to_string()));
    assert_eq!(find_local_curio_executable("/h", &[false, false, false, false]), None);
}
