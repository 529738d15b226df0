//! Bodies of the Curio structure pages in Confluence storage format, routing of
//! new content into the index tree, and short summaries of page text.
use vstd::prelude::*;

use crate::text::{
    all_ascii_digits, chars_of, collapse_ws, collapse_ws_vec, decimal, decimal_vec, extend_chars,
    extend_str, is_all_ascii_digits, join, join_vec, slice_vec, split_ws, str_eq, string_of, trim,
    trim_matches_char, trim_matches_char_vec, trim_non_alnum, trim_non_alnum_vec, trim_vec,
    views, words, lines, split_lines, byte_len, byte_len_capped, char_width_of, starts_with,
    lemma_byte_len_concat, lemma_byte_len_take_mono, is_byte_boundary,
};

pub use crate::adf::{build_capture_intake_adf, build_reference_card_adf};

verus! {

pub const ADMIN_TITLE: &'static str = "Admin";
pub const README_TITLE: &'static str = "README";
pub const NORTHSTAR_TITLE: &'static str = "NORTHSTAR";
pub const TEMPLATES_TITLE: &'static str = "_templates";
pub const REGISTRY_TITLE: &'static str = "_registry";
pub const AUDIT_TITLE: &'static str = "_audit";
pub const EMOJI_TITLE_PUBLISHED: &'static str = "emoji-title-published";
pub const EMOJI_TITLE_DRAFT: &'static str = "emoji-title-draft";

/// Page ids of the core Curio pages.
pub struct CurioCorePages {
    pub readme_page_id: String,
    pub northstar_page_id: String,
    pub intake_page_id: String,
    pub staged_page_id: String,
    pub review_page_id: String,
    pub published_page_id: String,
    pub admin_page_id: String,
    pub templates_page_id: String,
    pub registry_page_id: String,
    pub audit_page_id: String,
}

/// One record of the Curio registry.
#[derive(Debug, Clone)]
pub struct RegistryRecord {
    pub key: String,
    pub item_type: String,
    pub title: String,
    pub page_id: String,
    pub parent_id: String,
    pub status: String,
    pub source_id: String,
    pub summary: String,
    pub updated_at: String,
}

/// One entry of the append-only Curio audit log.
#[derive(Debug, Clone)]
pub struct AuditEntry {
    pub actor: String,
    pub command: String,
    pub subject: String,
    pub action: String,
    pub rationale: String,
    pub source: String,
    pub result: String,
    pub detail_lines: Vec<String>,
}

/// One child of a branch page, as listed in the branch index.
#[derive(Debug, Clone)]
pub struct BranchChildEntry {
    pub page_id: String,
    pub title: String,
    pub child_type: String,
    pub summary: String,
    pub child_count: u32,
    pub status: String,
    pub labels: Vec<String>,
    pub updated_at: String,
}

// ─── HTML pieces ────────────────────────────────────────────────────────────

pub open spec fn strs(v: Seq<&str>) -> Seq<Seq<char>> {
    v.map_values(|s: &str| s@)
}

pub open spec fn strings(v: Seq<String>) -> Seq<Seq<char>> {
    v.map_values(|s: String| s@)
}

pub open spec fn opt_str(o: Option<&str>) -> Option<Seq<char>> {
    match o {
        Some(s) => Some(s@),
        None => None,
    }
}

/// `<li>` elements for each item, in order.
pub open spec fn list_items(items: Seq<Seq<char>>) -> Seq<char>
    decreases items.len(),
{
    if items.len() == 0 {
        seq![]
    } else {
        list_items(items.drop_last()) + "<li>"@ + items.last() + "</li>"@
    }
}

/// A `<h2>` section with an optional intro paragraph and a bullet list of the items
/// (no list when there are no items).
pub open spec fn section_html(
    heading: Seq<char>,
    intro: Option<Seq<char>>,
    items: Seq<Seq<char>>,
) -> Seq<char> {
    "<h2>"@ + heading + "</h2>"@ + match intro {
        Some(i) => "<p>"@ + i + "</p>"@,
        None => seq![],
    } + if items.len() > 0 {
        "<ul>"@ + list_items(items) + "</ul>"@
    } else {
        seq![]
    }
}

/// A table row with a header cell and a data cell.
pub open spec fn row_html(key: Seq<char>, value: Seq<char>) -> Seq<char> {
    "<tr><th>"@ + key + "</th><td>"@ + value + "</td></tr>"@
}

fn append_items(body: &mut Vec<char>, items: &[&str])
    ensures
        final(body)@ == old(body)@ + list_items(strs(items@)),
{
    let mut i: usize = 0;
    while i < items.len()
        invariant
            i <= items@.len(),
            body@ == old(body)@ + list_items(strs(items@).take(i as int)),
        decreases items@.len() - i,
    {
        let ghost before = body@;
        extend_str(body, "<li>");
        extend_str(body, items[i]);
        extend_str(body, "</li>");
        assert(strs(items@).take(i + 1).drop_last() =~= strs(items@).take(i as int));
        assert(strs(items@).take(i + 1).last() == items@[i as int]@);
        assert(body@ =~= old(body)@ + list_items(strs(items@).take(i + 1)));
        i += 1;
    }
    assert(strs(items@).take(items@.len() as int) =~= strs(items@));
}

fn append_section(body: &mut Vec<char>, heading: &str, intro: Option<&str>, items: &[&str])
    ensures
        final(body)@ == old(body)@ + section_html(heading@, opt_str(intro), strs(items@)),
{
    let ghost start = body@;
    extend_str(body, "<h2>");
    extend_str(body, heading);
    extend_str(body, "</h2>");
    let ghost after_heading = body@;
    match intro {
        Some(text) => {
            extend_str(body, "<p>");
            extend_str(body, text);
            extend_str(body, "</p>");
        },
        None => {},
    }
    let ghost after_intro = body@;
    if items.len() > 0 {
        extend_str(body, "<ul>");
        append_items(body, items);
        extend_str(body, "</ul>");
    }
    assert(body@ =~= start + section_html(heading@, opt_str(intro), strs(items@)));
}

fn write_row(body: &mut Vec<char>, key: &str, value: &str)
    ensures
        final(body)@ == old(body)@ + row_html(key@, value@),
{
    let ghost start = body@;
    extend_str(body, "<tr><th>");
    extend_str(body, key);
    extend_str(body, "</th><td>");
    extend_str(body, value);
    extend_str(body, "</td></tr>");
    assert(body@ =~= start + row_html(key@, value@));
}

// ─── Structure pages ────────────────────────────────────────────────────────

pub open spec fn readme_body(hero: Option<Seq<char>>) -> Seq<char> {
    readme_intro() + match hero {
        Some(h) => "<p>"@ + h + "</p>"@,
        None => seq![],
    } + readme_sections()
}

/// The first section of the README.
pub open spec fn readme_first_section() -> Seq<char> {
    section_html(
        "How To Use Curio"@,
        Some("The lane names tell you where work belongs."@),
        strs([
            "README is the guided starting point.",
            "Intake is for raw captures and incoming material.",
            "Staged is for content that is almost ready.",
            "Review is for uncertain or disputed work.",
            "Published is for the current approved answer.",
            "Admin holds the machine-managed branch for templates, registry, and audit.",
            "_templates holds reusable page patterns under Admin.",
            "_registry is the authoritative catalog of Curio records under Admin.",
            "_audit is the append-only history of Curio actions under Admin.",
        ]@),
    )
}

/// The README's sections, after its opening and hero image.
pub open spec fn readme_sections() -> Seq<char> {
    readme_first_section() + section_html(
        "What To Do First"@,
        Some("If you are new here, use the simplest lane that fits the work."@),
        strs([
            "If you want the operating contract, start in NORTHSTAR.",
            "If the content is new, put it in Intake.",
            "If you need a template, start in _templates and use `Template - Intake Page` unless another lane fits better.",
            "If you need to know where something lives, check _registry.",
            "If you want to see how Curio decided something, check _audit.",
        ]@),
    ) + section_html(
        "Operating Style"@,
        Some("Curio should feel professional, fun, and easy to trust."@),
        strs([
            "Keep page names clear and stable.",
            "Keep provenance visible.",
            "Prefer structured content over freeform notes.",
            "Make the next action obvious to a non-technical user.",
        ]@),
    )
}

/// The opening of the README, before its sections.
pub open spec fn readme_intro() -> Seq<char> {
    "<h1>README</h1>"@
        + "<p><strong>Start here.</strong> This is the human landing page for Curio.</p>"@
        + "<p>Curio turns Confluence into a working intelligence system. It captures raw material, stages it for review, preserves published answers, and keeps the workspace understandable for both people and agents.</p>"@
}

/// The README with a hero image is the README without one, with the image's
/// paragraph inserted once, right before the first occurrence of its first section's
/// heading ("How To Use Curio"), and nothing else changed; it opens with its
/// `README` heading.
pub proof fn law_readme_hero_inserted_once(h: Seq<char>)
    ensures
        readme_body(Some(h)) == readme_body(None).take(readme_intro().len() as int) + "<p>"@ + h
            + "</p>"@ + readme_body(None).skip(readme_intro().len() as int),
        crate::text::starts_with(
            readme_body(None).skip(readme_intro().len() as int),
            "<h2>"@ + "How To Use Curio"@ + "</h2>"@,
        ),
        crate::text::starts_with(readme_body(None), "<h1>README</h1>"@),
        forall|j: int|
            0 <= j < readme_intro().len() ==> !crate::text::starts_with(
                #[trigger] readme_body(None).skip(j),
                "<h2>"@ + "How To Use Curio"@ + "</h2>"@,
            ),
{
    let n = readme_intro().len() as int;
    let base = readme_body(None);
    assert(base =~= readme_intro() + readme_sections());
    assert(base.take(n) =~= readme_intro());
    assert(base.skip(n) =~= readme_sections());
    assert(readme_body(Some(h)) =~= readme_intro() + ("<p>"@ + h + "</p>"@) + readme_sections());
    lemma_readme_sections_open();
    let t = "<h1>README</h1>"@;
    assert(base.take(t.len() as int) =~= t);
    lemma_intro_has_no_two();
    let head = "<h2>"@ + "How To Use Curio"@ + "</h2>"@;
    reveal_strlit("<h2>");
    assert(head[0] == '<' && head[2] == '2');
    assert forall|j: int| 0 <= j < n implies !crate::text::starts_with(#[trigger] base.skip(j), head) by {
        if crate::text::starts_with(base.skip(j), head) {
            assert(base.skip(j).take(head.len() as int)[0] == head[0]);
            assert(base.skip(j).take(head.len() as int)[2] == head[2]);
            assert(base[j] == head[0]);
            assert(base[j + 2] == head[2]);
            assert(base[j] == readme_intro()[j]);
            if j + 2 < n {
                assert(base[j + 2] == readme_intro()[j + 2]);
            }
        }
    }
}

/// No digit `2` appears in the README's opening, so no `<h2>` heading starts there.
proof fn lemma_intro_has_no_two()
    ensures
        forall|k: int| 0 <= k < readme_intro().len() ==> readme_intro()[k] != '2',
        readme_intro().len() >= 2,
        readme_intro()[readme_intro().len() - 1] == '>',
        readme_intro()[readme_intro().len() - 2] == 'p',
{
    let a = "<h1>README</h1>"@;
    let b = "<p><strong>Start here.</strong> This is the human landing page for Curio.</p>"@;
    let c = "<p>Curio turns Confluence into a working intelligence system. It captures raw material, stages it for review, preserves published answers, and keeps the workspace understandable for both people and agents.</p>"@;
    reveal_strlit("<h1>README</h1>");
    reveal_strlit("<p><strong>Start here.</strong> This is the human landing page for Curio.</p>");
    reveal_strlit("<p>Curio turns Confluence into a working intelligence system. It captures raw material, stages it for review, preserves published answers, and keeps the workspace understandable for both people and agents.</p>");
    assert forall|k: int| 0 <= k < a.len() implies a[k] != '2' by {}
    assert forall|k: int| 0 <= k < b.len() implies b[k] != '2' by {}
    assert forall|k: int| 0 <= k < c.len() implies c[k] != '2' by {}
    let i = readme_intro();
    assert(i =~= a + b + c);
    assert forall|k: int| 0 <= k < i.len() implies i[k] != '2' by {
        if k < a.len() {
            assert(i[k] == a[k]);
        } else if k < a.len() + b.len() {
            assert(i[k] == b[k - a.len()]);
        } else {
            assert(i[k] == c[k - a.len() - b.len()]);
        }
    }
    assert(i[i.len() - 1] == c[c.len() - 1]);
    assert(i[i.len() - 2] == c[c.len() - 2]);
}

proof fn lemma_readme_sections_open()
    ensures
        crate::text::starts_with(readme_sections(), "<h2>"@ + "How To Use Curio"@ + "</h2>"@),
{
    let head = "<h2>"@ + "How To Use Curio"@ + "</h2>"@;
    let f = readme_first_section();
    assert(f.take(head.len() as int) =~= head);
    assert(readme_sections().take(head.len() as int) =~= head);
}

/// Body of the README landing page, with an optional hero image.
pub fn build_readme_body(hero_image_html: Option<&str>) -> (r: String)
    ensures
        r@ == readme_body(opt_str(hero_image_html)),
{
    let mut html: Vec<char> = Vec::new();
    extend_str(&mut html, "<h1>README</h1>");
    extend_str(
        &mut html,
        "<p><strong>Start here.</strong> This is the human landing page for Curio.</p>",
    );
    extend_str(
        &mut html,
        "<p>Curio turns Confluence into a working intelligence system. It captures raw material, stages it for review, preserves published answers, and keeps the workspace understandable for both people and agents.</p>",
    );
    match hero_image_html {
        Some(hero) => {
            extend_str(&mut html, "<p>");
            extend_str(&mut html, hero);
            extend_str(&mut html, "</p>");
        },
        None => {},
    }
    append_section(
        &mut html,
        "How To Use Curio",
        Some("The lane names tell you where work belongs."),
        &[
            "README is the guided starting point.",
            "Intake is for raw captures and incoming material.",
            "Staged is for content that is almost ready.",
            "Review is for uncertain or disputed work.",
            "Published is for the current approved answer.",
            "Admin holds the machine-managed branch for templates, registry, and audit.",
            "_templates holds reusable page patterns under Admin.",
            "_registry is the authoritative catalog of Curio records under Admin.",
            "_audit is the append-only history of Curio actions under Admin.",
        ],
    );
    append_section(
        &mut html,
        "What To Do First",
        Some("If you are new here, use the simplest lane that fits the work."),
        &[
            "If you want the operating contract, start in NORTHSTAR.",
            "If the content is new, put it in Intake.",
            "If you need a template, start in _templates and use `Template - Intake Page` unless another lane fits better.",
            "If you need to know where something lives, check _registry.",
            "If you want to see how Curio decided something, check _audit.",
        ],
    );
    append_section(
        &mut html,
        "Operating Style",
        Some("Curio should feel professional, fun, and easy to trust."),
        &[
            "Keep page names clear and stable.",
            "Keep provenance visible.",
            "Prefer structured content over freeform notes.",
            "Make the next action obvious to a non-technical user.",
        ],
    );
    assert(html@ =~= readme_body(opt_str(hero_image_html)));
    string_of(&html)
}

} // verus!

verus! {

fn append_intro_section(body: &mut Vec<char>, heading: &str, intro: Option<&str>)
    ensures
        final(body)@ == old(body)@ + section_html(heading@, opt_str(intro), seq![]),
{
    let ghost start = body@;
    extend_str(body, "<h2>");
    extend_str(body, heading);
    extend_str(body, "</h2>");
    match intro {
        Some(text) => {
            extend_str(body, "<p>");
            extend_str(body, text);
            extend_str(body, "</p>");
        },
        None => {},
    }
    assert(body@ =~= start + section_html(heading@, opt_str(intro), seq![]));
}

fn append_string_items(body: &mut Vec<char>, items: &[String])
    ensures
        final(body)@ == old(body)@ + list_items(strings(items@)),
{
    let mut i: usize = 0;
    while i < items.len()
        invariant
            i <= items@.len(),
            body@ == old(body)@ + list_items(strings(items@).take(i as int)),
        decreases items@.len() - i,
    {
        extend_str(body, "<li>");
        extend_str(body, items[i].as_str());
        extend_str(body, "</li>");
        assert(strings(items@).take(i + 1).drop_last() =~= strings(items@).take(i as int));
        assert(strings(items@).take(i + 1).last() == items@[i as int]@);
        assert(body@ =~= old(body)@ + list_items(strings(items@).take(i + 1)));
        i += 1;
    }
    assert(strings(items@).take(items@.len() as int) =~= strings(items@));
}

fn append_string_section(body: &mut Vec<char>, heading: &str, intro: Option<&str>, items: &[String])
    ensures
        final(body)@ == old(body)@ + section_html(heading@, opt_str(intro), strings(items@)),
{
    let ghost start = body@;
    extend_str(body, "<h2>");
    extend_str(body, heading);
    extend_str(body, "</h2>");
    match intro {
        Some(text) => {
            extend_str(body, "<p>");
            extend_str(body, text);
            extend_str(body, "</p>");
        },
        None => {},
    }
    if items.len() > 0 {
        extend_str(body, "<ul>");
        append_string_items(body, items);
        extend_str(body, "</ul>");
    }
    assert(body@ =~= start + section_html(heading@, opt_str(intro), strings(items@)));
}

pub open spec fn lifecycle_page(
    title: Seq<char>,
    intro: Seq<char>,
    purpose_heading: Seq<char>,
    purpose: Seq<char>,
    use_for: Seq<Seq<char>>,
    avoid: Seq<Seq<char>>,
    notes: Seq<Seq<char>>,
) -> Seq<char> {
    "<h1>"@ + title + "</h1>"@ + "<p>"@ + intro + "</p>"@ + section_html(
        purpose_heading,
        Some(purpose),
        seq![],
    ) + section_html("Use This For"@, None, use_for) + section_html(
        "Do Not Use This For"@,
        None,
        avoid,
    ) + section_html("Operating Notes"@, None, notes)
}

/// Body of a lane page (Intake, Staged, Review, Published).
pub fn build_lifecycle_page(
    title: &str,
    intro: &str,
    purpose_heading: &str,
    purpose: &str,
    use_for: &[&str],
    avoid: &[&str],
    notes: &[&str],
) -> (r: String)
    ensures
        r@ == lifecycle_page(
            title@,
            intro@,
            purpose_heading@,
            purpose@,
            strs(use_for@),
            strs(avoid@),
            strs(notes@),
        ),
{
    let mut html: Vec<char> = Vec::new();
    extend_str(&mut html, "<h1>");
    extend_str(&mut html, title);
    extend_str(&mut html, "</h1>");
    extend_str(&mut html, "<p>");
    extend_str(&mut html, intro);
    extend_str(&mut html, "</p>");
    append_intro_section(&mut html, purpose_heading, Some(purpose));
    append_section(&mut html, "Use This For", None, use_for);
    append_section(&mut html, "Do Not Use This For", None, avoid);
    append_section(&mut html, "Operating Notes", None, notes);
    assert(html@ =~= lifecycle_page(
        title@,
        intro@,
        purpose_heading@,
        purpose@,
        strs(use_for@),
        strs(avoid@),
        strs(notes@),
    ));
    string_of(&html)
}

pub open spec fn admin_root_body() -> Seq<char> {
    "<h1>Admin</h1>"@
        + "<p>This is Curio's machine-managed branch. It holds the pages that keep the workspace organized, indexed, and auditable.</p>"@
        + section_html(
        "What Lives Here"@,
        Some("Admin is for operational structure, not working content."@),
        strs(
            [
                "_templates for reusable page shapes.",
                "_registry for canonical records and routing indexes.",
                "_audit for append-only action history.",
            ]@,
        ),
    ) + section_html(
        "How To Use It"@,
        Some(
            "Most users should not create content directly under Admin unless Curio or an administrator is maintaining the workspace."@,
        ),
        strs(
            [
                "Let Curio manage the structure here.",
                "Use the registry and audit pages to inspect system state.",
                "Use templates when creating new content patterns.",
            ]@,
        ),
    )
}

/// Body of the Admin branch page.
pub fn build_admin_root_body() -> (r: String)
    ensures
        r@ == admin_root_body(),
{
    let mut html: Vec<char> = Vec::new();
    extend_str(&mut html, "<h1>Admin</h1>");
    extend_str(
        &mut html,
        "<p>This is Curio's machine-managed branch. It holds the pages that keep the workspace organized, indexed, and auditable.</p>",
    );
    append_section(
        &mut html,
        "What Lives Here",
        Some("Admin is for operational structure, not working content."),
        &[
            "_templates for reusable page shapes.",
            "_registry for canonical records and routing indexes.",
            "_audit for append-only action history.",
        ],
    );
    append_section(
        &mut html,
        "How To Use It",
        Some(
            "Most users should not create content directly under Admin unless Curio or an administrator is maintaining the workspace.",
        ),
        &[
            "Let Curio manage the structure here.",
            "Use the registry and audit pages to inspect system state.",
            "Use templates when creating new content patterns.",
        ],
    );
    assert(html@ =~= admin_root_body());
    string_of(&html)
}

pub open spec fn templates_root_body() -> Seq<char> {
    "<h1>_templates</h1>"@
        + "<p>This area holds Curio's reusable page patterns. It lives under Admin because it is machine-managed structure, not user-facing work.</p>"@
        + section_html(
        "What Goes Here"@,
        Some("Templates are safe starting points, not live work."@),
        strs(
            [
                "Human-friendly page scaffolds.",
                "Example bodies for intake and review content.",
                "Registry and audit record formats.",
                "Reusable phrasing for sales, operations, and publishing pages.",
            ]@,
        ),
    ) + section_html(
        "Default Template"@,
        Some(
            "Curio should favor the intake template unless a different lane is clearly better."@,
        ),
        strs(
            [
                "Use `Template - Intake Page` for new raw captures, notes, and source material.",
                "Use `Template - Staged Page` for near-final work that needs approval.",
                "Use `Template - Review Page` for disputes, ambiguity, or policy questions.",
                "Use `Template - Published Page` for canonical answers and deliverables.",
            ]@,
        ),
    ) + section_html(
        "How To Use It"@,
        Some("Pick the template that matches the job, then fill in the live data."@),
        strs(
            [
                "Use the template pages as starting points when creating new content.",
                "Do not treat templates as source-of-truth pages.",
                "If a pattern becomes common, add it here instead of copying it by hand.",
            ]@,
        ),
    )
}

/// Body of the `_templates` branch page.
pub fn build_templates_root_body() -> (r: String)
    ensures
        r@ == templates_root_body(),
{
    let mut html: Vec<char> = Vec::new();
    extend_str(&mut html, "<h1>_templates</h1>");
    extend_str(
        &mut html,
        "<p>This area holds Curio's reusable page patterns. It lives under Admin because it is machine-managed structure, not user-facing work.</p>",
    );
    append_section(
        &mut html,
        "What Goes Here",
        Some("Templates are safe starting points, not live work."),
        &[
            "Human-friendly page scaffolds.",
            "Example bodies for intake and review content.",
            "Registry and audit record formats.",
            "Reusable phrasing for sales, operations, and publishing pages.",
        ],
    );
    append_section(
        &mut html,
        "Default Template",
        Some("Curio should favor the intake template unless a different lane is clearly better."),
        &[
            "Use `Template - Intake Page` for new raw captures, notes, and source material.",
            "Use `Template - Staged Page` for near-final work that needs approval.",
            "Use `Template - Review Page` for disputes, ambiguity, or policy questions.",
            "Use `Template - Published Page` for canonical answers and deliverables.",
        ],
    );
    append_section(
        &mut html,
        "How To Use It",
        Some("Pick the template that matches the job, then fill in the live data."),
        &[
            "Use the template pages as starting points when creating new content.",
            "Do not treat templates as source-of-truth pages.",
            "If a pattern becomes common, add it here instead of copying it by hand.",
        ],
    );
    assert(html@ =~= templates_root_body());
    string_of(&html)
}

pub open spec fn published_branch_page(
    title: Seq<char>,
    what_it_is: Seq<char>,
    what_it_is_not: Seq<char>,
    metadata: Seq<Seq<char>>,
) -> Seq<char> {
    "<h1>"@ + title + "</h1>"@
        + "<p>This page is part of the Published tree defined by NORTHSTAR.</p>"@ + section_html(
        "What It Is"@,
        Some(what_it_is),
        seq![],
    ) + section_html("What It Is Not"@, Some(what_it_is_not), seq![]) + section_html(
        "Useful Metadata"@,
        Some("Keep these fields visible so the branch stays useful to humans and agents."@),
        metadata,
    ) + section_html(
        "Related Navigation"@,
        Some("Use these pages to move from the charter into the operating tree."@),
        strs(["NORTHSTAR", "README", "_registry", "_audit"]@),
    )
}

/// Body of a branch page of the Published tree.
pub fn build_published_branch_page(
    title: &str,
    what_it_is: &str,
    what_it_is_not: &str,
    metadata: &[&str],
) -> (r: String)
    ensures
        r@ == published_branch_page(title@, what_it_is@, what_it_is_not@, strs(metadata@)),
{
    let mut html: Vec<char> = Vec::new();
    extend_str(&mut html, "<h1>");
    extend_str(&mut html, title);
    extend_str(&mut html, "</h1>");
    extend_str(&mut html, "<p>This page is part of the Published tree defined by NORTHSTAR.</p>");
    append_intro_section(&mut html, "What It Is", Some(what_it_is));
    append_intro_section(&mut html, "What It Is Not", Some(what_it_is_not));
    append_section(
        &mut html,
        "Useful Metadata",
        Some("Keep these fields visible so the branch stays useful to humans and agents."),
        metadata,
    );
    append_section(
        &mut html,
        "Related Navigation",
        Some("Use these pages to move from the charter into the operating tree."),
        &["NORTHSTAR", "README", "_registry", "_audit"],
    );
    assert(html@ =~= published_branch_page(
        title@,
        what_it_is@,
        what_it_is_not@,
        strs(metadata@),
    ));
    string_of(&html)
}

} // verus!

verus! {

pub open spec fn join_strs(parts: Seq<Seq<char>>, sep: Seq<char>) -> Seq<char> {
    crate::text::join(parts, sep)
}

pub(crate) fn join_strings(parts: &[String], sep: &str) -> (r: Vec<char>)
    ensures
        r@ == join_strs(strings(parts@), sep@),
{
    let mut r: Vec<char> = Vec::new();
    let mut i: usize = 0;
    while i < parts.len()
        invariant
            i <= parts@.len(),
            r@ == join_strs(strings(parts@).take(i as int), sep@),
        decreases parts@.len() - i,
    {
        let ghost p = strings(parts@);
        assert(p.take(i + 1).drop_last() =~= p.take(i as int));
        assert(p.take(i + 1).last() == parts@[i as int]@);
        if i > 0 {
            extend_str(&mut r, sep);
        } else {
            assert(p.take(1) =~= seq![parts@[0]@]);
        }
        extend_str(&mut r, parts[i].as_str());
        i += 1;
    }
    assert(strings(parts@).take(parts@.len() as int) =~= strings(parts@));
    r
}

pub open spec fn child_link(c: BranchChildEntry) -> Seq<char> {
    "<ac:link><ri:content-entity ri:content-id=\""@ + c.page_id@
        + "\"/><ac:plain-text-link-body><![CDATA["@ + c.title@
        + "]]></ac:plain-text-link-body></ac:link>"@
}

pub open spec fn child_row(c: BranchChildEntry) -> Seq<char> {
    "<tr><td>"@ + child_link(c) + "</td><td>"@ + c.child_type@ + "</td><td>"@ + c.summary@
        + "</td><td>"@ + decimal(c.child_count as nat) + "</td><td>"@ + c.status@
        + "</td></tr>"@
}

pub open spec fn child_rows(cs: Seq<BranchChildEntry>) -> Seq<char>
    decreases cs.len(),
{
    if cs.len() == 0 {
        seq![]
    } else {
        child_rows(cs.drop_last()) + child_row(cs.last())
    }
}

/// Breadcrumb of a branch: the root label, then the path segments, joined by `&gt;`.
pub open spec fn breadcrumb(root_label: Seq<char>, path: Seq<Seq<char>>) -> Seq<char> {
    if path.len() == 0 {
        root_label
    } else {
        root_label + " &gt; "@ + join_strs(path, " &gt; "@)
    }
}

pub open spec fn branch_index_body(
    branch_title: Seq<char>,
    branch_path: Seq<Seq<char>>,
    root_label: Seq<char>,
    children: Seq<BranchChildEntry>,
    total_descendants: nat,
) -> Seq<char> {
    "<h1>"@ + branch_title + "</h1>"@ + "<p>Branch in <strong>"@ + root_label
        + "</strong> tree. Path: "@ + breadcrumb(root_label, branch_path) + ".</p>"@ + "<p>"@
        + decimal(children.len()) + " direct children. "@ + decimal(total_descendants)
        + " total descendants.</p>"@ + if children.len() == 0 {
        "<p><em>No children yet.</em></p>"@
    } else {
        "<h2>Child Index</h2>"@
            + "<table><tr><th>Page</th><th>Type</th><th>Summary</th><th>Children</th><th>Status</th></tr>"@
            + child_rows(children) + "</table>"@
    } + "<h2>Navigation</h2>"@ + "<ul><li>Tree root: <strong>"@ + root_label
        + "</strong></li></ul>"@
}

fn push_child_row(html: &mut Vec<char>, child: &BranchChildEntry)
    ensures
        final(html)@ == old(html)@ + child_row(*child),
{
    let ghost start = html@;
    extend_str(html, "<tr><td>");
    extend_str(html, "<ac:link><ri:content-entity ri:content-id=\"");
    extend_str(html, child.page_id.as_str());
    extend_str(html, "\"/><ac:plain-text-link-body><![CDATA[");
    extend_str(html, child.title.as_str());
    extend_str(html, "]]></ac:plain-text-link-body></ac:link>");
    extend_str(html, "</td><td>");
    extend_str(html, child.child_type.as_str());
    extend_str(html, "</td><td>");
    extend_str(html, child.summary.as_str());
    extend_str(html, "</td><td>");
    extend_chars(html, &decimal_vec(child.child_count as u64));
    extend_str(html, "</td><td>");
    extend_str(html, child.status.as_str());
    extend_str(html, "</td></tr>");
    assert(html@ =~= start + child_row(*child));
}

/// Human-readable routing table for a branch page.
pub fn build_branch_index_body(
    branch_title: &str,
    branch_path: &[String],
    root_label: &str,
    children: &[BranchChildEntry],
    total_descendants: u32,
) -> (r: String)
    ensures
        r@ == branch_index_body(
            branch_title@,
            strings(branch_path@),
            root_label@,
            children@,
            total_descendants as nat,
        ),
{
    let mut html: Vec<char> = Vec::new();
    extend_str(&mut html, "<h1>");
    extend_str(&mut html, branch_title);
    extend_str(&mut html, "</h1>");
    let crumb = if branch_path.len() == 0 {
        chars_of(root_label)
    } else {
        let mut c = chars_of(root_label);
        extend_str(&mut c, " &gt; ");
        let joined = join_strings(branch_path, " &gt; ");
        extend_chars(&mut c, &joined);
        c
    };
    extend_str(&mut html, "<p>Branch in <strong>");
    extend_str(&mut html, root_label);
    extend_str(&mut html, "</strong> tree. Path: ");
    extend_chars(&mut html, &crumb);
    extend_str(&mut html, ".</p>");
    extend_str(&mut html, "<p>");
    extend_chars(&mut html, &decimal_vec(children.len() as u64));
    extend_str(&mut html, " direct children. ");
    extend_chars(&mut html, &decimal_vec(total_descendants as u64));
    extend_str(&mut html, " total descendants.</p>");
    let ghost head = html@;
    if children.len() == 0 {
        extend_str(&mut html, "<p><em>No children yet.</em></p>");
    } else {
        extend_str(&mut html, "<h2>Child Index</h2>");
        extend_str(
            &mut html,
            "<table><tr><th>Page</th><th>Type</th><th>Summary</th><th>Children</th><th>Status</th></tr>",
        );
        let ghost before_rows = html@;
        let mut i: usize = 0;
        while i < children.len()
            invariant
                i <= children@.len(),
                html@ == before_rows + child_rows(children@.take(i as int)),
            decreases children@.len() - i,
        {
            push_child_row(&mut html, &children[i]);
            assert(children@.take(i + 1).drop_last() =~= children@.take(i as int));
            assert(children@.take(i + 1).last() == children@[i as int]);
            assert(html@ =~= before_rows + child_rows(children@.take(i + 1)));
            i += 1;
        }
        assert(children@.take(children@.len() as int) =~= children@);
        extend_str(&mut html, "</table>");
    }
    extend_str(&mut html, "<h2>Navigation</h2>");
    extend_str(&mut html, "<ul><li>Tree root: <strong>");
    extend_str(&mut html, root_label);
    extend_str(&mut html, "</strong></li></ul>");
    assert(crumb@ == breadcrumb(root_label@, strings(branch_path@)));
    assert(html@ =~= branch_index_body(
        branch_title@,
        strings(branch_path@),
        root_label@,
        children@,
        total_descendants as nat,
    ));
    string_of(&html)
}

pub open spec fn tree_branch_body(root_label: Seq<char>, path: Seq<Seq<char>>, segment: Seq<char>) -> Seq<char> {
    "<h1>"@ + segment + "</h1><p>This branch lives under <strong>"@ + root_label
        + "</strong>.</p>"@ + section_html(
        "Path"@,
        Some("This page is part of the Curio index tree."@),
        path,
    ) + section_html(
        "Usage"@,
        Some("Curio creates child pages under this branch as routing and content evolve."@),
        strs(
            [
                "Keep child names stable when possible.",
                "Use this branch to expose discoverable child pages and canonical records.",
            ]@,
        ),
    )
}

/// Body of an index-tree branch page.
pub fn build_tree_branch_body(root_label: &str, path: &[String], segment: &str) -> (r: String)
    ensures
        r@ == tree_branch_body(root_label@, strings(path@), segment@),
{
    let mut html: Vec<char> = Vec::new();
    extend_str(&mut html, "<h1>");
    extend_str(&mut html, segment);
    extend_str(&mut html, "</h1><p>This branch lives under <strong>");
    extend_str(&mut html, root_label);
    extend_str(&mut html, "</strong>.</p>");
    append_string_section(
        &mut html,
        "Path",
        Some("This page is part of the Curio index tree."),
        path,
    );
    append_section(
        &mut html,
        "Usage",
        Some("Curio creates child pages under this branch as routing and content evolve."),
        &[
            "Keep child names stable when possible.",
            "Use this branch to expose discoverable child pages and canonical records.",
        ],
    );
    assert(html@ =~= tree_branch_body(root_label@, strings(path@), segment@));
    string_of(&html)
}

pub open spec fn template_page(
    title: Seq<char>,
    purpose: Seq<char>,
    audience: Seq<char>,
    when_to_use: Seq<Seq<char>>,
    example_bullets: Seq<Seq<char>>,
) -> Seq<char> {
    "<h1>"@ + title + "</h1>"@ + "<p>"@ + purpose + "</p>"@ + section_html(
        "Audience"@,
        Some(audience),
        seq![],
    ) + section_html("When To Use"@, None, when_to_use) + section_html(
        "Example Fields"@,
        None,
        example_bullets,
    )
}

/// Body of a template page under `_templates`.
pub fn build_template_page(
    title: &str,
    purpose: &str,
    audience: &str,
    when_to_use: &[&str],
    example_bullets: &[&str],
) -> (r: String)
    ensures
        r@ == template_page(title@, purpose@, audience@, strs(when_to_use@), strs(example_bullets@)),
{
    let mut html: Vec<char> = Vec::new();
    extend_str(&mut html, "<h1>");
    extend_str(&mut html, title);
    extend_str(&mut html, "</h1>");
    extend_str(&mut html, "<p>");
    extend_str(&mut html, purpose);
    extend_str(&mut html, "</p>");
    append_intro_section(&mut html, "Audience", Some(audience));
    append_section(&mut html, "When To Use", None, when_to_use);
    append_section(&mut html, "Example Fields", None, example_bullets);
    assert(html@ =~= template_page(
        title@,
        purpose@,
        audience@,
        strs(when_to_use@),
        strs(example_bullets@),
    ));
    string_of(&html)
}

pub open spec fn registry_root_body() -> Seq<char> {
    "<h1>_registry</h1>"@
        + "<p>The registry is Curio's master index. It lives under Admin because the index itself is machine-managed structure.</p>"@
        + section_html(
        "Registry Contract"@,
        Some(
            "The registry is hybrid: Curio seeds it and keeps it updated, while humans can inspect it at any time."@,
        ),
        strs(
            [
                "Every core page gets a record.",
                "Every created content page should get a record.",
                "Every record should show the current status and source.",
                "Records should be easy to scan and easy to audit.",
            ]@,
        ),
    ) + section_html(
        "Navigation Branches"@,
        Some("The registry is organized as a tree of branch pages, not a single flat list."@),
        strs(
            [
                "Index - Templates",
                "Index - Published",
                "Index - By Account",
                "Index - By Product",
                "Index - By Audience",
                "Index - By Use Case",
                "Index - By Topic",
            ]@,
        ),
    ) + section_html(
        "How To Read Records"@,
        Some("Each record page is the source of truth for one Curio artifact."@),
        strs(
            [
                "Page ID",
                "Title",
                "Type",
                "Status",
                "Source",
                "Current parent",
                "Latest update time",
            ]@,
        ),
    )
}

/// Body of the `_registry` branch page.
pub fn build_registry_root_body() -> (r: String)
    ensures
        r@ == registry_root_body(),
{
    let mut html: Vec<char> = Vec::new();
    extend_str(&mut html, "<h1>_registry</h1>");
    extend_str(
        &mut html,
        "<p>The registry is Curio's master index. It lives under Admin because the index itself is machine-managed structure.</p>",
    );
    append_section(
        &mut html,
        "Registry Contract",
        Some(
            "The registry is hybrid: Curio seeds it and keeps it updated, while humans can inspect it at any time.",
        ),
        &[
            "Every core page gets a record.",
            "Every created content page should get a record.",
            "Every record should show the current status and source.",
            "Records should be easy to scan and easy to audit.",
        ],
    );
    append_section(
        &mut html,
        "Navigation Branches",
        Some("The registry is organized as a tree of branch pages, not a single flat list."),
        &[
            "Index - Templates",
            "Index - Published",
            "Index - By Account",
            "Index - By Product",
            "Index - By Audience",
            "Index - By Use Case",
            "Index - By Topic",
        ],
    );
    append_section(
        &mut html,
        "How To Read Records",
        Some("Each record page is the source of truth for one Curio artifact."),
        &["Page ID", "Title", "Type", "Status", "Source", "Current parent", "Latest update time"],
    );
    assert(html@ =~= registry_root_body());
    string_of(&html)
}

pub open spec fn registry_record_body(r: RegistryRecord, registry_path: Seq<Seq<char>>) -> Seq<char> {
    "<h1>Record - "@ + r.key@ + "</h1>"@
        + "<p>This is a machine-maintained record page in the Curio registry.</p>"@ + "<table>"@
        + row_html("Key"@, r.key@) + row_html("Title"@, r.title@) + row_html(
        "Type"@,
        r.item_type@,
    ) + row_html("Status"@, r.status@) + row_html("Page ID"@, r.page_id@) + row_html(
        "Source"@,
        r.source_id@,
    ) + row_html("Current Parent"@, r.parent_id@) + row_html(
        "Registry Path"@,
        join_strs(registry_path, " / "@),
    ) + row_html("Summary"@, r.summary@) + row_html("Updated At"@, r.updated_at@)
        + "</table>"@
}

/// Body of a registry record page with no registry path.
pub fn build_registry_record_body(record: &RegistryRecord) -> (r: String)
    ensures
        r@ == registry_record_body(*record, seq![]),
{
    let empty: Vec<String> = Vec::new();
    let r = build_registry_record_body_with_path(record, empty.as_slice());
    assert(strings(empty@) =~= Seq::<Seq<char>>::empty());
    r
}

/// Body of a registry record page, showing where the record sits in the registry.
pub fn build_registry_record_body_with_path(record: &RegistryRecord, registry_path: &[String]) -> (r: String)
    ensures
        r@ == registry_record_body(*record, strings(registry_path@)),
{
    let mut html: Vec<char> = Vec::new();
    extend_str(&mut html, "<h1>Record - ");
    extend_str(&mut html, record.key.as_str());
    extend_str(&mut html, "</h1>");
    extend_str(
        &mut html,
        "<p>This is a machine-maintained record page in the Curio registry.</p>",
    );
    extend_str(&mut html, "<table>");
    write_row(&mut html, "Key", record.key.as_str());
    write_row(&mut html, "Title", record.title.as_str());
    write_row(&mut html, "Type", record.item_type.as_str());
    write_row(&mut html, "Status", record.status.as_str());
    write_row(&mut html, "Page ID", record.page_id.as_str());
    write_row(&mut html, "Source", record.source_id.as_str());
    write_row(&mut html, "Current Parent", record.parent_id.as_str());
    let path = string_of(&join_strings(registry_path, " / "));
    write_row(&mut html, "Registry Path", path.as_str());
    write_row(&mut html, "Summary", record.summary.as_str());
    write_row(&mut html, "Updated At", record.updated_at.as_str());
    extend_str(&mut html, "</table>");
    assert(html@ =~= registry_record_body(*record, strings(registry_path@)));
    string_of(&html)
}

pub open spec fn audit_root_body() -> Seq<char> {
    "<h1>_audit</h1>"@
        + "<p>The audit log is append-only. It lives under Admin because the history is operational state, not user-facing content.</p>"@
        + section_html(
        "What Gets Logged"@,
        Some("Log the interesting parts of the action, not just the result."@),
        strs(
            [
                "Timestamp",
                "Command",
                "Subject",
                "Source inputs",
                "Decision or rationale",
                "Affected pages",
                "Dry-run or live-run outcome",
            ]@,
        ),
    )
}

/// Body of the `_audit` branch page.
pub fn build_audit_root_body() -> (r: String)
    ensures
        r@ == audit_root_body(),
{
    let mut html: Vec<char> = Vec::new();
    extend_str(&mut html, "<h1>_audit</h1>");
    extend_str(
        &mut html,
        "<p>The audit log is append-only. It lives under Admin because the history is operational state, not user-facing content.</p>",
    );
    append_section(
        &mut html,
        "What Gets Logged",
        Some("Log the interesting parts of the action, not just the result."),
        &[
            "Timestamp",
            "Command",
            "Subject",
            "Source inputs",
            "Decision or rationale",
            "Affected pages",
            "Dry-run or live-run outcome",
        ],
    );
    assert(html@ =~= audit_root_body());
    string_of(&html)
}

pub open spec fn audit_entry_body(e: AuditEntry, stamp: Seq<char>) -> Seq<char> {
    "<h1>Audit - "@ + stamp + "</h1>"@
        + "<p>This entry records a single Curio action and is intended to remain immutable.</p>"@
        + "<table>"@ + row_html("Actor"@, e.actor@) + row_html("Command"@, e.command@)
        + row_html("Subject"@, e.subject@) + row_html("Action"@, e.action@) + row_html(
        "Source"@,
        e.source@,
    ) + row_html("Rationale"@, e.rationale@) + row_html("Result"@, e.result@) + "</table>"@
        + if e.detail_lines@.len() > 0 {
        section_html("Details"@, None, strings(e.detail_lines@))
    } else {
        seq![]
    }
}

/// Body of one audit entry page.
pub fn build_audit_entry_body(entry: &AuditEntry, stamp: &str) -> (r: String)
    ensures
        r@ == audit_entry_body(*entry, stamp@),
{
    let mut html: Vec<char> = Vec::new();
    extend_str(&mut html, "<h1>Audit - ");
    extend_str(&mut html, stamp);
    extend_str(&mut html, "</h1>");
    extend_str(
        &mut html,
        "<p>This entry records a single Curio action and is intended to remain immutable.</p>",
    );
    extend_str(&mut html, "<table>");
    write_row(&mut html, "Actor", entry.actor.as_str());
    write_row(&mut html, "Command", entry.command.as_str());
    write_row(&mut html, "Subject", entry.subject.as_str());
    write_row(&mut html, "Action", entry.action.as_str());
    write_row(&mut html, "Source", entry.source.as_str());
    write_row(&mut html, "Rationale", entry.rationale.as_str());
    write_row(&mut html, "Result", entry.result.as_str());
    extend_str(&mut html, "</table>");
    if entry.detail_lines.len() > 0 {
        append_string_section(&mut html, "Details", None, entry.detail_lines.as_slice());
    }
    assert(html@ =~= audit_entry_body(*entry, stamp@));
    string_of(&html)
}

/// Emoji content properties (published, draft) that give a structure page its icon.
pub open spec fn title_emoji(title: Seq<char>) -> (Option<Seq<char>>, Option<Seq<char>>) {
    if title == "README"@ {
        (Some("atlassian-info"@), None)
    } else if title == "NORTHSTAR"@ {
        (Some("1f9ed"@), None)
    } else if title == "Intake"@ {
        (Some("1f4e5"@), None)
    } else if title == "Staged"@ {
        (Some("atlassian-logo_projects"@), None)
    } else if title == "Review"@ {
        (Some("atlassian-logo_opsgenie"@), None)
    } else if title == "Published"@ {
        (Some("atlassian-check_mark"@), None)
    } else if title == "Admin"@ {
        (Some("2699"@), Some("2699"@))
    } else if title == "_templates"@ {
        (Some("1f4d1"@), None)
    } else if title == "_registry"@ {
        (Some("atlassian-logo_admin"@), None)
    } else if title == "_audit"@ {
        (Some("1f4dc"@), None)
    } else {
        (None, None)
    }
}

pub fn title_emoji_values(title: &str) -> (r: (Option<&'static str>, Option<&'static str>))
    ensures
        opt_str(r.0) == title_emoji(title@).0,
        opt_str(r.1) == title_emoji(title@).1,
{
    if str_eq(title, "README") {
        (Some("atlassian-info"), None)
    } else if str_eq(title, "NORTHSTAR") {
        (Some("1f9ed"), None)
    } else if str_eq(title, "Intake") {
        (Some("1f4e5"), None)
    } else if str_eq(title, "Staged") {
        (Some("atlassian-logo_projects"), None)
    } else if str_eq(title, "Review") {
        (Some("atlassian-logo_opsgenie"), None)
    } else if str_eq(title, "Published") {
        (Some("atlassian-check_mark"), None)
    } else if str_eq(title, "Admin") {
        (Some("2699"), Some("2699"))
    } else if str_eq(title, "_templates") {
        (Some("1f4d1"), None)
    } else if str_eq(title, "_registry") {
        (Some("atlassian-logo_admin"), None)
    } else if str_eq(title, "_audit") {
        (Some("1f4dc"), None)
    } else {
        (None, None)
    }
}

} // verus!

verus! {

// ─── Routing ────────────────────────────────────────────────────────────────

pub open spec fn is_route_punct(c: char) -> bool {
    c == '/' || c == '\\' || c == ':' || c == '|' || c == '[' || c == ']' || c == '{' || c
        == '}' || c == '(' || c == ')'
}

/// A path segment made safe for a page title: path and bracket punctuation become
/// spaces, whitespace runs collapse, and hyphens at either end are dropped.
pub open spec fn sanitize(s: Seq<char>) -> Seq<char> {
    let spaced = s.map_values(|c: char| if is_route_punct(c) { ' ' } else { c });
    trim(trim_matches_char(trim(collapse_ws(spaced)), '-'))
}

fn sanitize_chars(input: &Vec<char>) -> (r: Vec<char>)
    ensures
        r@ == sanitize(input@),
{
    let ghost f = |c: char| if is_route_punct(c) { ' ' } else { c };
    let mut spaced: Vec<char> = Vec::new();
    let mut i: usize = 0;
    while i < input.len()
        invariant
            i <= input.len(),
            spaced@ == input@.take(i as int).map_values(f),
            f == (|c: char| if is_route_punct(c) { ' ' } else { c }),
        decreases input.len() - i,
    {
        let c = input[i];
        let m = if c == '/' || c == '\\' || c == ':' || c == '|' || c == '[' || c == ']' || c
            == '{' || c == '}' || c == '(' || c == ')' {
            ' '
        } else {
            c
        };
        spaced.push(m);
        assert(input@.take(i + 1).map_values(f) =~= input@.take(i as int).map_values(f).push(m));
        i += 1;
    }
    assert(input@.take(input@.len() as int) =~= input@);
    let collapsed = collapse_ws_vec(&spaced);
    let t1 = trim_vec(&collapsed);
    let t2 = trim_matches_char_vec(&t1, '-');
    trim_vec(&t2)
}

/// Cleans one path segment.
pub fn sanitize_segment(input: &str) -> (r: String)
    ensures
        r@ == sanitize(input@),
{
    string_of(&sanitize_chars(&chars_of(input)))
}

pub open spec fn min_nat(a: nat, b: nat) -> nat {
    if a <= b { a } else { b }
}

/// A branch label: the first `max_words` words of the sanitized input, or "General".
pub open spec fn short_label(s: Seq<char>, max_words: nat) -> Seq<char> {
    let t = sanitize(s);
    if t.len() == 0 {
        "General"@
    } else {
        let w = words(t);
        join(w.take(min_nat(max_words, w.len()) as int), seq![' '])
    }
}

fn shorten_branch_label(input: &Vec<char>, max_words: usize) -> (r: Vec<char>)
    ensures
        r@ == short_label(input@, max_words as nat),
{
    let t = sanitize_chars(input);
    if t.len() == 0 {
        return chars_of("General");
    }
    let w = split_ws(&t);
    let n = if max_words <= w.len() { max_words } else { w.len() };
    let mut kept: Vec<Vec<char>> = Vec::new();
    let mut i: usize = 0;
    while i < n
        invariant
            n <= w.len(),
            i <= n,
            views(kept@) == views(w@).take(i as int),
        decreases n - i,
    {
        let ghost before = views(kept@);
        let piece = slice_vec(&w[i], 0, w[i].len());
        assert(piece@ =~= w@[i as int]@);
        kept.push(piece);
        assert(views(kept@) =~= before.push(w@[i as int]@));
        assert(views(w@).take(i + 1) =~= views(w@).take(i as int).push(w@[i as int]@));
        i += 1;
    }
    let mut sp: Vec<char> = Vec::new();
    sp.push(' ');
    assert(sp@ =~= seq![' ']);
    join_vec(&kept, &sp)
}

/// Whether a word survives date stripping: it is not a run of six or more ASCII digits
/// once its non-alphanumeric ends are trimmed.
pub open spec fn keeps_token(t: Seq<char>) -> bool {
    let compact = trim_non_alnum(t);
    !(compact.len() >= 6 && all_ascii_digits(compact))
}

pub open spec fn kept_tokens(ws: Seq<Seq<char>>) -> Seq<Seq<char>>
    decreases ws.len(),
{
    if ws.len() == 0 {
        seq![]
    } else if keeps_token(ws.last()) {
        kept_tokens(ws.drop_last()).push(ws.last())
    } else {
        kept_tokens(ws.drop_last())
    }
}

/// The words of `s` without date-like numbers, or `None` when nothing is left.
pub open spec fn strip_date(s: Seq<char>) -> Option<Seq<char>> {
    let j = join(kept_tokens(words(s)), seq![' ']);
    if j.len() == 0 {
        None
    } else {
        Some(j)
    }
}

fn strip_date_suffix(input: &Vec<char>) -> (r: Option<Vec<char>>)
    ensures
        match r {
            Some(v) => strip_date(input@) == Some(v@),
            None => strip_date(input@) is None,
        },
{
    let ws = split_ws(input);
    let mut kept: Vec<Vec<char>> = Vec::new();
    let mut i: usize = 0;
    while i < ws.len()
        invariant
            i <= ws.len(),
            views(kept@) == kept_tokens(views(ws@).take(i as int)),
        decreases ws.len() - i,
    {
        let tok = &ws[i];
        let compact = trim_non_alnum_vec(tok);
        let ghost before = views(kept@);
        assert(views(ws@).take(i + 1).drop_last() =~= views(ws@).take(i as int));
        assert(views(ws@).take(i + 1).last() == tok@);
        if !(compact.len() >= 6 && is_all_ascii_digits(&compact)) {
            kept.push(slice_vec(tok, 0, tok.len()));
            assert(tok@.subrange(0, tok@.len() as int) =~= tok@);
            assert(views(kept@) =~= before.push(tok@));
        }
        i += 1;
    }
    assert(views(ws@).take(ws@.len() as int) =~= views(ws@));
    let mut sp: Vec<char> = Vec::new();
    sp.push(' ');
    assert(sp@ =~= seq![' ']);
    let joined = join_vec(&kept, &sp);
    if joined.len() == 0 {
        None
    } else {
        Some(joined)
    }
}

/// Routing hints supplied with new content: the string-valued metadata entries and the
/// string items of a `target_path` array, when one was given.
#[derive(Debug, Clone)]
pub struct RouteHints {
    pub strings: Vec<(String, String)>,
    pub target_path: Option<Vec<String>>,
}

pub open spec fn hint_lookup(entries: Seq<(String, String)>, key: Seq<char>) -> Option<Seq<char>>
    decreases entries.len(),
{
    if entries.len() == 0 {
        None
    } else if entries[0].0@ == key {
        Some(entries[0].1@)
    } else {
        hint_lookup(entries.drop_first(), key)
    }
}

/// The first of the keys whose hint value is non-empty once sanitized, sanitized.
pub open spec fn first_hint_in(entries: Seq<(String, String)>, keys: Seq<Seq<char>>) -> Option<
    Seq<char>,
>
    decreases keys.len(),
{
    if keys.len() == 0 {
        None
    } else {
        match hint_lookup(entries, keys[0]) {
            Some(v) => if sanitize(v).len() > 0 {
                Some(sanitize(v))
            } else {
                first_hint_in(entries, keys.drop_first())
            },
            None => first_hint_in(entries, keys.drop_first()),
        }
    }
}

pub open spec fn first_hint(h: Option<RouteHints>, keys: Seq<Seq<char>>) -> Option<Seq<char>> {
    match h {
        Some(h) => first_hint_in(h.strings@, keys),
        None => None,
    }
}

fn lookup_hint(entries: &Vec<(String, String)>, key: &str) -> (r: Option<usize>)
    ensures
        match r {
            Some(i) => i < entries@.len() && hint_lookup(entries@, key@) == Some(
                entries@[i as int].1@,
            ),
            None => hint_lookup(entries@, key@) is None,
        },
{
    let mut i: usize = 0;
    assert(entries@.skip(0) =~= entries@);
    while i < entries.len()
        invariant
            i <= entries@.len(),
            hint_lookup(entries@.skip(i as int), key@) == hint_lookup(entries@, key@),
        decreases entries@.len() - i,
    {
        assert(entries@.skip(i as int)[0] == entries@[i as int]);
        if str_eq(entries[i].0.as_str(), key) {
            return Some(i);
        }
        assert(entries@.skip(i as int).drop_first() =~= entries@.skip(i + 1));
        i += 1;
    }
    None
}

fn first_hint_exec(hints: Option<&RouteHints>, keys: &[&str]) -> (r: Option<Vec<char>>)
    ensures
        match r {
            Some(v) => first_hint(opt_hints(hints), strs(keys@)) == Some(v@),
            None => first_hint(opt_hints(hints), strs(keys@)) is None,
        },
{
    let h = match hints {
        Some(h) => h,
        None => return None,
    };
    assert(opt_hints(hints) == Some(*h));
    let mut i: usize = 0;
    assert(strs(keys@).skip(0) =~= strs(keys@));
    while i < keys.len()
        invariant
            i <= keys@.len(),
            opt_hints(hints) == Some(*h),
            first_hint_in(h.strings@, strs(keys@).skip(i as int)) == first_hint_in(
                h.strings@,
                strs(keys@),
            ),
        decreases keys@.len() - i,
    {
        let ghost rest = strs(keys@).skip(i as int);
        assert(rest[0] == keys@[i as int]@);
        assert(rest.drop_first() =~= strs(keys@).skip(i + 1));
        match lookup_hint(&h.strings, keys[i]) {
            Some(k) => {
                let cleaned = sanitize_chars(&chars_of(h.strings[k].1.as_str()));
                if cleaned.len() > 0 {
                    assert(first_hint_in(h.strings@, rest) == Some(cleaned@));
                    return Some(cleaned);
                }
                assert(first_hint_in(h.strings@, rest) == first_hint_in(
                    h.strings@,
                    rest.drop_first(),
                ));
            },
            None => {
                assert(first_hint_in(h.strings@, rest) == first_hint_in(
                    h.strings@,
                    rest.drop_first(),
                ));
            },
        }
        i += 1;
    }
    None
}

pub open spec fn opt_hints(h: Option<&RouteHints>) -> Option<RouteHints> {
    match h {
        Some(x) => Some(*x),
        None => None,
    }
}

/// The sanitized, non-empty segments of a path.
pub open spec fn clean_segments(items: Seq<Seq<char>>) -> Seq<Seq<char>>
    decreases items.len(),
{
    if items.len() == 0 {
        seq![]
    } else if sanitize(items.last()).len() > 0 {
        clean_segments(items.drop_last()).push(sanitize(items.last()))
    } else {
        clean_segments(items.drop_last())
    }
}

pub open spec fn explicit_target(h: Option<RouteHints>) -> Seq<Seq<char>> {
    match h {
        Some(h) => match h.target_path {
            Some(v) => clean_segments(strings(v@)),
            None => seq![],
        },
        None => seq![],
    }
}

/// Where new content should be routed in the index tree, and on what grounds.
#[derive(Debug, Clone)]
pub struct RoutePlan {
    pub target_path: Vec<String>,
    pub registry_path: Vec<String>,
    pub rationale: String,
    pub validation_requirements: Vec<String>,
    pub sibling_context: Vec<String>,
    /// Confidence in hundredths.
    pub confidence_pct: u32,
    pub snapshot_hash: Option<String>,
}

/// Abstract route: the target path, the basis named in the rationale (empty for an
/// explicit target) and the confidence in hundredths.
pub struct RouteSpec {
    pub path: Seq<Seq<char>>,
    pub basis: Seq<char>,
    pub confidence: nat,
}

/// The route inferred from a title and its hints.
///
/// An explicit `target_path` wins. Otherwise the first hint found among account (with
/// use case, else the topic, below it), product, audience and use case picks a
/// `By ...` branch with the topic below it; with none of them the route is
/// `By Topic / <topic>`. The topic is the topic hint, else the title without date-like
/// numbers, shortened to four words, or "General".
pub open spec fn route_of(title: Seq<char>, h: Option<RouteHints>) -> RouteSpec {
    let et = explicit_target(h);
    if et.len() > 0 {
        RouteSpec { path: et, basis: seq![], confidence: 98 }
    } else {
        route_from_hints(
            first_hint(h, strs(["account", "client", "customer"]@)),
            first_hint(h, strs(["use_case", "usecase"]@)),
            first_hint(h, strs(["product"]@)),
            first_hint(h, strs(["audience", "persona"]@)),
            first_hint(h, strs(["topic", "subject", "theme"]@)),
            sanitize(trim(title)),
        )
    }
}

/// The topic branch: the topic hint, else the title without date-like numbers,
/// shortened to four words; "General" when the title is empty.
pub open spec fn topic_branch_of(topic: Option<Seq<char>>, fallback: Seq<char>) -> Seq<char> {
    let candidate = match topic {
        Some(t) => Some(t),
        None => strip_date(fallback),
    };
    match candidate {
        Some(v) => if v.len() > 0 {
            short_label(v, 4)
        } else if fallback.len() == 0 {
            "General"@
        } else {
            short_label(fallback, 4)
        },
        None => if fallback.len() == 0 {
            "General"@
        } else {
            short_label(fallback, 4)
        },
    }
}

pub open spec fn route_from_hints(
    account: Option<Seq<char>>,
    use_case: Option<Seq<char>>,
    product: Option<Seq<char>>,
    audience: Option<Seq<char>>,
    topic: Option<Seq<char>>,
    fallback: Seq<char>,
) -> RouteSpec {
    let topic_branch = topic_branch_of(topic, fallback);
    match account {
        Some(a) => RouteSpec {
            path: seq![
                "By Account"@,
                short_label(a, 4),
                match use_case {
                    Some(u) => short_label(u, 4),
                    None => topic_branch,
                },
            ],
            basis: "account"@,
            confidence: 90,
        },
        None => match product {
            Some(p) => RouteSpec {
                path: seq!["By Product"@, short_label(p, 4), topic_branch],
                basis: "product"@,
                confidence: 86,
            },
            None => match audience {
                Some(a) => RouteSpec {
                    path: seq!["By Audience"@, short_label(a, 4), topic_branch],
                    basis: "audience"@,
                    confidence: 82,
                },
                None => match use_case {
                    Some(u) => RouteSpec {
                        path: seq!["By Use Case"@, short_label(u, 4), topic_branch],
                        basis: "use_case"@,
                        confidence: 80,
                    },
                    None => RouteSpec {
                        path: seq!["By Topic"@, topic_branch],
                        basis: "topic"@,
                        confidence: if topic is Some { 72 } else { 58 },
                    },
                },
            },
        },
    }
}

/// Without an explicit target, a route inferred from an account, product, audience
/// or use-case hint has three segments: its `By ...` branch, the hint shortened to
/// four words, and then the use case (for an account that has one) or the topic
/// branch; a route from the topic alone has the `By Topic` branch and the topic
/// branch. An account hint wins over a product hint, a product over an audience, an
/// audience over a use case.
pub proof fn law_inferred_route_has_topic_branch(
    account: Option<Seq<char>>,
    use_case: Option<Seq<char>>,
    product: Option<Seq<char>>,
    audience: Option<Seq<char>>,
    topic: Option<Seq<char>>,
    fallback: Seq<char>,
)
    ensures
        ({
            let r = route_from_hints(account, use_case, product, audience, topic, fallback);
            let tb = topic_branch_of(topic, fallback);
            &&& account matches Some(a) ==> r.path.len() == 3 && r.path[0] == "By Account"@ && r.path[1]
                == short_label(a, 4) && r.path[2] == match use_case {
                Some(u) => short_label(u, 4),
                None => tb,
            } && r.confidence == 90
            &&& account is None && product is Some ==> r.path.len() == 3 && r.path[0] == "By Product"@
                && r.path[1] == short_label(product->0, 4) && r.path[2] == tb && r.confidence == 86
            &&& account is None && product is None && audience is Some ==> r.path.len() == 3
                && r.path[0] == "By Audience"@ && r.path[1] == short_label(audience->0, 4) && r.path[2]
                == tb && r.confidence == 82
            &&& account is None && product is None && audience is None && use_case is Some
                ==> r.path.len() == 3 && r.path[0] == "By Use Case"@ && r.path[1] == short_label(
                use_case->0,
                4,
            ) && r.path[2] == tb && r.confidence == 80
            &&& account is None && product is None && audience is None && use_case is None
                ==> r.path == seq!["By Topic"@, tb]
        }),
{
}

pub open spec fn plan_is(p: RoutePlan, r: RouteSpec) -> bool {
    &&& strings(p.target_path@) == r.path
    &&& strings(p.registry_path@) == r.path
    &&& p.confidence_pct == r.confidence
    &&& p.snapshot_hash is None
    &&& strings(p.validation_requirements@) == seq!["sibling_alignment"@, "pre_change_snapshot"@]
    &&& if r.basis.len() == 0 {
        &&& p.rationale@ == "Explicit target path supplied in metadata."@
        &&& strings(p.sibling_context@) == seq!["explicit_target_path"@]
    } else {
        &&& p.rationale@ == "Route inferred from "@ + r.basis + " metadata/title."@
        &&& strings(p.sibling_context@) == seq![
            "basis="@ + r.basis,
            "confidence=0."@ + decimal(r.confidence),
        ]
    }
}

pub(crate) fn to_strings(v: &Vec<Vec<char>>) -> (r: Vec<String>)
    ensures
        strings(r@) == views(v@),
{
    let mut r: Vec<String> = Vec::new();
    let mut i: usize = 0;
    while i < v.len()
        invariant
            i <= v.len(),
            strings(r@) == views(v@).take(i as int),
        decreases v.len() - i,
    {
        let ghost before = strings(r@);
        r.push(string_of(&v[i]));
        assert(strings(r@) =~= before.push(v@[i as int]@));
        assert(views(v@).take(i + 1) =~= views(v@).take(i as int).push(v@[i as int]@));
        i += 1;
    }
    assert(views(v@).take(v.len() as int) =~= views(v@));
    r
}

fn lit_strings2(a: &str, b: &str) -> (r: Vec<String>)
    ensures
        strings(r@) == seq![a@, b@],
{
    let mut r: Vec<String> = Vec::new();
    r.push(String::from_str(a));
    r.push(String::from_str(b));
    assert(strings(r@) =~= seq![a@, b@]);
    r
}

fn plan_from(path: Vec<Vec<char>>, basis: &str, confidence: u32) -> (p: RoutePlan)
    requires
        10 <= confidence < 100,
    ensures
        plan_is(p, RouteSpec { path: views(path@), basis: basis@, confidence: confidence as nat }),
{
    let target = to_strings(&path);
    let registry = to_strings(&path);
    let reqs = lit_strings2("sibling_alignment", "pre_change_snapshot");
    if basis.is_empty() {
        let mut ctx: Vec<String> = Vec::new();
        ctx.push(String::from_str("explicit_target_path"));
        assert(strings(ctx@) =~= seq!["explicit_target_path"@]);
        RoutePlan {
            target_path: target,
            registry_path: registry,
            rationale: String::from_str("Explicit target path supplied in metadata."),
            validation_requirements: reqs,
            sibling_context: ctx,
            confidence_pct: confidence,
            snapshot_hash: None,
        }
    } else {
        let mut rationale: Vec<char> = chars_of("Route inferred from ");
        extend_str(&mut rationale, basis);
        extend_str(&mut rationale, " metadata/title.");
        let mut b: Vec<char> = chars_of("basis=");
        extend_str(&mut b, basis);
        let mut c: Vec<char> = chars_of("confidence=0.");
        extend_chars(&mut c, &decimal_vec(confidence as u64));
        let mut ctx: Vec<String> = Vec::new();
        ctx.push(string_of(&b));
        ctx.push(string_of(&c));
        assert(strings(ctx@) =~= seq!["basis="@ + basis@, "confidence=0."@ + decimal(confidence as nat)]);
        RoutePlan {
            target_path: target,
            registry_path: registry,
            rationale: string_of(&rationale),
            validation_requirements: reqs,
            sibling_context: ctx,
            confidence_pct: confidence,
            snapshot_hash: None,
        }
    }
}

fn clean_segments_exec(items: &Vec<String>) -> (r: Vec<Vec<char>>)
    ensures
        views(r@) == clean_segments(strings(items@)),
{
    let mut r: Vec<Vec<char>> = Vec::new();
    let mut i: usize = 0;
    while i < items.len()
        invariant
            i <= items.len(),
            views(r@) == clean_segments(strings(items@).take(i as int)),
        decreases items.len() - i,
    {
        let cleaned = sanitize_chars(&chars_of(items[i].as_str()));
        assert(strings(items@).take(i + 1).drop_last() =~= strings(items@).take(i as int));
        assert(strings(items@).take(i + 1).last() == items@[i as int]@);
        let ghost before = views(r@);
        if cleaned.len() > 0 {
            r.push(cleaned);
            assert(views(r@) =~= before.push(sanitize(items@[i as int]@)));
        }
        i += 1;
    }
    assert(strings(items@).take(items.len() as int) =~= strings(items@));
    r
}

pub open spec fn opt_view(o: Option<Vec<char>>) -> Option<Seq<char>> {
    match o {
        Some(v) => Some(v@),
        None => None,
    }
}

fn topic_branch_exec(topic: Option<Vec<char>>, fallback: &Vec<char>) -> (r: Vec<char>)
    ensures
        r@ == topic_branch_of(opt_view(topic), fallback@),
{
    let candidate = match topic {
        Some(t) => Some(t),
        None => strip_date_suffix(fallback),
    };
    match candidate {
        Some(v) => if v.len() > 0 {
            shorten_branch_label(&v, 4)
        } else if fallback.len() == 0 {
            chars_of("General")
        } else {
            shorten_branch_label(fallback, 4)
        },
        None => if fallback.len() == 0 {
            chars_of("General")
        } else {
            shorten_branch_label(fallback, 4)
        },
    }
}

fn route_from_hints_exec(
    account: Option<Vec<char>>,
    use_case: Option<Vec<char>>,
    product: Option<Vec<char>>,
    audience: Option<Vec<char>>,
    topic: Option<Vec<char>>,
    fallback: &Vec<char>,
) -> (p: RoutePlan)
    ensures
        plan_is(
            p,
            route_from_hints(
                opt_view(account),
                opt_view(use_case),
                opt_view(product),
                opt_view(audience),
                opt_view(topic),
                fallback@,
            ),
        ),
{
    let has_topic = topic.is_some();
    let ghost tv = opt_view(topic);
    let topic_branch = topic_branch_exec(topic, fallback);
    let mut path: Vec<Vec<char>> = Vec::new();
    match account {
        Some(a) => {
            let ghost uv = opt_view(use_case);
            let third = match use_case {
                Some(u) => shorten_branch_label(&u, 4),
                None => topic_branch,
            };
            assert(third@ == match uv {
                Some(u) => short_label(u, 4),
                None => topic_branch_of(tv, fallback@),
            });
            path.push(chars_of("By Account"));
            path.push(shorten_branch_label(&a, 4));
            path.push(third);
            assert(views(path@) =~= route_from_hints(
                Some(a@),
                uv,
                opt_view(product),
                opt_view(audience),
                tv,
                fallback@,
            ).path);
            plan_from(path, "account", 90)
        },
        None => match product {
            Some(p) => {
                path.push(chars_of("By Product"));
                path.push(shorten_branch_label(&p, 4));
                path.push(topic_branch);
                assert(views(path@) =~= seq!["By Product"@, path@[1]@, path@[2]@]);
                plan_from(path, "product", 86)
            },
            None => match audience {
                Some(a) => {
                    path.push(chars_of("By Audience"));
                    path.push(shorten_branch_label(&a, 4));
                    path.push(topic_branch);
                    assert(views(path@) =~= seq!["By Audience"@, path@[1]@, path@[2]@]);
                    plan_from(path, "audience", 82)
                },
                None => match use_case {
                    Some(u) => {
                        path.push(chars_of("By Use Case"));
                        path.push(shorten_branch_label(&u, 4));
                        path.push(topic_branch);
                        assert(views(path@) =~= seq!["By Use Case"@, path@[1]@, path@[2]@]);
                        plan_from(path, "use_case", 80)
                    },
                    None => {
                        path.push(chars_of("By Topic"));
                        path.push(topic_branch);
                        assert(views(path@) =~= seq!["By Topic"@, path@[1]@]);
                        plan_from(path, "topic", if has_topic { 72 } else { 58 })
                    },
                },
            },
        },
    }
}

/// Infers where new content belongs in the index tree from its title and routing hints.
pub fn infer_route_plan(title: Option<&str>, hints: Option<&RouteHints>) -> (p: RoutePlan)
    ensures
        plan_is(
            p,
            route_of(
                match title {
                    Some(t) => t@,
                    None => seq![],
                },
                opt_hints(hints),
            ),
        ),
{
    let ghost h = opt_hints(hints);
    let title_text: Vec<char> = match title {
        Some(t) => trim_vec(&chars_of(t)),
        None => {
            let v: Vec<char> = Vec::new();
            assert(trim(seq![]) =~= v@) by {
                assert(crate::text::lead_ws(Seq::<char>::empty()) == 0);
                assert(crate::text::trail_ws(Seq::<char>::empty()) == 0);
            }
            v
        },
    };
    let explicit: Vec<Vec<char>> = match hints {
        Some(hs) => match &hs.target_path {
            Some(v) => clean_segments_exec(v),
            None => Vec::new(),
        },
        None => Vec::new(),
    };
    assert(views(explicit@) == explicit_target(h)) by {
        if explicit@.len() == 0 {
            assert(views(explicit@) =~= Seq::<Seq<char>>::empty());
        }
    }
    if explicit.len() > 0 {
        proof {
            reveal_strlit("");
        }
        return plan_from(explicit, "", 98);
    }
    let account = first_hint_exec(hints, &["account", "client", "customer"]);
    let use_case = first_hint_exec(hints, &["use_case", "usecase"]);
    let product = first_hint_exec(hints, &["product"]);
    let audience = first_hint_exec(hints, &["audience", "persona"]);
    let topic = first_hint_exec(hints, &["topic", "subject", "theme"]);
    let fallback = sanitize_chars(&title_text);
    route_from_hints_exec(account, use_case, product, audience, topic, &fallback)
}

} // verus!

verus! {

// ─── Summaries ──────────────────────────────────────────────────────────────

/// Position of the last occurrence of `c` in `s`.
pub open spec fn last_index_of(s: Seq<char>, c: char) -> Option<int>
    decreases s.len(),
{
    if s.len() == 0 {
        None
    } else if s.last() == c {
        Some(s.len() - 1)
    } else {
        last_index_of(s.drop_last(), c)
    }
}

/// `s` cut to at most `max_chars` characters: when it is longer, the first `max_chars`
/// characters up to their last space (all of them if there is none), then an ellipsis.
pub open spec fn truncated(s: Seq<char>, max_chars: nat) -> Seq<char> {
    if s.len() <= max_chars {
        s
    } else {
        let cut = s.take(max_chars as int);
        let kept = match last_index_of(cut, ' ') {
            Some(i) => cut.take(i),
            None => cut,
        };
        kept.push('…')
    }
}

fn truncate_chars(s: &Vec<char>, max_chars: usize) -> (r: Vec<char>)
    ensures
        r@ == truncated(s@, max_chars as nat),
{
    if s.len() <= max_chars {
        return slice_vec(s, 0, s.len());
    }
    let cut = slice_vec(s, 0, max_chars);
    assert(cut@ =~= s@.take(max_chars as int));
    let mut j: usize = cut.len();
    assert(cut@.take(cut.len() as int) =~= cut@);
    while j > 0 && cut[j - 1] != ' '
        invariant
            j <= cut.len(),
            last_index_of(cut@.take(j as int), ' ') == last_index_of(cut@, ' '),
        decreases j,
    {
        assert(cut@.take(j as int).drop_last() =~= cut@.take(j - 1));
        j -= 1;
    }
    let mut kept = if j == 0 {
        assert(cut@.take(0) =~= Seq::<char>::empty());
        slice_vec(&cut, 0, cut.len())
    } else {
        slice_vec(&cut, 0, j - 1)
    };
    kept.push('…');
    kept
}

/// Shortens a summary to `max_chars` characters at a word boundary.
pub fn truncate_summary(s: &str, max_chars: usize) -> (r: String)
    ensures
        r@ == truncated(s@, max_chars as nat),
{
    string_of(&truncate_chars(&chars_of(s), max_chars))
}

/// The number of characters of `s` that are not whitespace.
pub open spec fn nonws_count(s: Seq<char>) -> nat
    decreases s.len(),
{
    if s.len() == 0 {
        0
    } else {
        nonws_count(s.drop_last()) + if crate::text::is_ws(s.last()) {
            0nat
        } else {
            1nat
        }
    }
}

fn nonws_count_exec(s: &Vec<char>) -> (r: usize)
    ensures
        r == nonws_count(s@),
{
    let mut n: usize = 0;
    let mut i: usize = 0;
    while i < s.len()
        invariant
            i <= s@.len(),
            n == nonws_count(s@.take(i as int)),
            n <= i,
        decreases s@.len() - i,
    {
        assert(s@.take(i + 1).drop_last() =~= s@.take(i as int));
        if !crate::text::is_whitespace(s[i]) {
            n += 1;
        }
        i += 1;
    }
    assert(s@.take(s@.len() as int) =~= s@);
    n
}

/// Index of the first line with at least 20 characters that are not whitespace.
pub open spec fn first_long_line(ls: Seq<Seq<char>>) -> Option<int>
    decreases ls.len(),
{
    if ls.len() == 0 {
        None
    } else if nonws_count(ls[0]) >= 20 {
        Some(0)
    } else {
        match first_long_line(ls.drop_first()) {
            Some(i) => Some(i + 1),
            None => None,
        }
    }
}

pub open spec fn text_summary(text: Seq<char>, max_chars: nat) -> Option<Seq<char>> {
    let ls = lines(text);
    match first_long_line(ls) {
        Some(i) => Some(truncated(trim(ls[i]), max_chars)),
        None => None,
    }
}

/// A short summary of plain text: its first line of at least 20 characters that are
/// not whitespace, trimmed and truncated to `max_chars`.
pub fn extract_summary_from_text(text: &str, max_chars: usize) -> (r: Option<String>)
    ensures
        match r {
            Some(s) => text_summary(text@, max_chars as nat) == Some(s@),
            None => text_summary(text@, max_chars as nat) is None,
        },
{
    let ls = split_lines(&chars_of(text));
    let ghost all = views(ls@);
    let mut i: usize = 0;
    assert(all.skip(0) =~= all);
    while i < ls.len()
        invariant
            i <= ls.len(),
            all == views(ls@),
            all == lines(text@),
            match first_long_line(all.skip(i as int)) {
                Some(k) => first_long_line(all) == Some(k + i),
                None => first_long_line(all) is None,
            },
        decreases ls.len() - i,
    {
        let t = trim_vec(&ls[i]);
        assert(all.skip(i as int)[0] == ls@[i as int]@);
        assert(all.skip(i as int).drop_first() =~= all.skip(i + 1));
        if nonws_count_exec(&ls[i]) >= 20 {
            return Some(string_of(&truncate_chars(&t, max_chars)));
        }
        i += 1;
    }
    assert(all.skip(ls.len() as int) =~= Seq::<Seq<char>>::empty());
    None
}

/// What scraper yields for an HTML fragment: the text nodes under its root element,
/// in document order.
pub uninterp spec fn spec_fragment_texts(html: Seq<char>) -> Seq<Seq<char>>;

/// `scraper::Html::parse_fragment(html).root_element().text()`: the texts of the
/// parsed fragment, in order.
#[verifier::external_body]
fn fragment_texts(html: &str) -> (r: Vec<String>)
    ensures
        strings(r@) == spec_fragment_texts(html@),
{
    let fragment = scraper::Html::parse_fragment(html);
    fragment.root_element().text().map(|t| t.to_string()).collect()
}

/// The text of an HTML fragment: its text nodes joined by single spaces.
pub open spec fn fragment_text_of(html: Seq<char>) -> Seq<char> {
    join_strs(spec_fragment_texts(html), " "@)
}

pub fn fragment_text(html: &str) -> (r: String)
    ensures
        r@ == fragment_text_of(html@),
{
    let texts = fragment_texts(html);
    string_of(&join_strings(texts.as_slice(), " "))
}

pub open spec fn html_summary(html: Seq<char>, max_chars: nat) -> Option<Seq<char>> {
    let cleaned = collapse_ws(fragment_text_of(html));
    if cleaned.len() < 20 {
        None
    } else {
        Some(truncated(cleaned, max_chars))
    }
}

/// A short summary of Confluence storage HTML: its text with whitespace collapsed,
/// `None` when that is shorter than 20 characters, else truncated to `max_chars`.
pub fn extract_summary_from_html(html: &str, max_chars: usize) -> (r: Option<String>)
    ensures
        match r {
            Some(s) => html_summary(html@, max_chars as nat) == Some(s@),
            None => html_summary(html@, max_chars as nat) is None,
        },
{
    let raw = fragment_text(html);
    let cleaned = collapse_ws_vec(&chars_of(raw.as_str()));
    if cleaned.len() < 20 {
        return None;
    }
    Some(string_of(&truncate_chars(&cleaned, max_chars)))
}

/// Year and month buckets of an audit stamp (`YYYYMMDD...`): its first four bytes and
/// the two after them, or `unknown/unknown` for a stamp shorter than six bytes.
pub fn audit_bucket_path(stamp: &str) -> (r: Vec<String>)
    requires
        byte_len(stamp@) >= 6 ==> is_byte_boundary(stamp@, 4) && is_byte_boundary(stamp@, 6),
    ensures
        r@.len() == 2,
        byte_len(stamp@) >= 6 ==> starts_with(stamp@, r@[0]@ + r@[1]@) && byte_len(r@[0]@) == 4
            && byte_len(r@[1]@) == 2,
        byte_len(stamp@) < 6 ==> r@[0]@ == "unknown"@ && r@[1]@ == "unknown"@,
{
    let s = chars_of(stamp);
    let mut r: Vec<String> = Vec::new();
    if byte_len_capped(&s, 6) < 6 {
        r.push(String::from_str("unknown"));
        r.push(String::from_str("unknown"));
        return r;
    }
    let mut i: usize = 0;
    let mut bytes: u64 = 0;
    let mut k4: Option<usize> = None;
    assert(s@.take(s@.len() as int) =~= s@);
    while bytes < 6
        invariant
            i <= s.len(),
            s@ == stamp@,
            byte_len(s@) >= 6,
            s@.take(s@.len() as int) == s@,
            bytes == byte_len(s@.take(i as int)),
            forall|j: int| 0 <= j < i ==> byte_len(#[trigger] s@.take(j)) < 6,
            match k4 {
                Some(k) => k <= i && byte_len(s@.take(k as int)) == 4,
                None => forall|j: int| 0 <= j < i ==> byte_len(#[trigger] s@.take(j)) != 4,
            },
        decreases s.len() - i,
    {
        if i == s.len() {
            assert(false);
        }
        if bytes == 4 {
            k4 = Some(i);
        }
        assert(s@.take(i + 1).drop_last() =~= s@.take(i as int));
        let w = char_width_of(s[i]);
        bytes = bytes + w;
        i += 1;
    }
    if bytes == 4 {
        k4 = Some(i);
    }
    proof {
        let k = choose|k: int| 0 <= k <= stamp@.len() && #[trigger] byte_len(stamp@.take(k)) == 6;
        if k > i {
            lemma_byte_len_take_mono(s@, i as int, k);
        }
        assert(k == i);
        let k_4 = choose|k: int| 0 <= k <= stamp@.len() && #[trigger] byte_len(stamp@.take(k)) == 4;
        if k_4 > i {
            lemma_byte_len_take_mono(s@, i as int, k_4);
        }
    }
    let four = match k4 {
        Some(k) => k,
        None => {
            assert(false);
            0
        },
    };
    let year = slice_vec(&s, 0, four);
    let month = slice_vec(&s, four, i);
    proof {
        assert(year@ =~= s@.take(four as int));
        assert(year@ + month@ =~= s@.take(i as int));
        lemma_byte_len_concat(year@, month@);
    }
    r.push(string_of(&year));
    r.push(string_of(&month));
    r
}

} // verus!


