//! Curio: a curated-knowledge workspace for Confluence-backed wikis.
use vstd::prelude::*;

pub mod acl;
pub mod adf;
pub mod audit_store;
pub mod cli;
pub mod commands;
pub mod config;
pub mod confluence;
pub mod confluence_flow;
pub mod curio_docs;
pub mod embeddings;
pub mod error;
pub mod git_ops;
pub mod harness;
pub mod llm;
pub mod heal_types;
pub mod order;
pub mod text;

use crate::text::{
    chars_of, extend_str, slice_vec, split_last, split_last_vec, starts_with, string_of,
    trim_end_char, trim_end_char_vec, vec_starts_with,
};

verus! {

// ─── Wiki core types ───────────────────────────────────────────────────────

/// Lifecycle lane of a wiki page.
#[derive(Debug, Clone, Copy, PartialEq, Eq)]
pub enum PageStatus {
    Intake,
    Staged,
    Review,
    Published,
}

pub open spec fn page_status_name(s: PageStatus) -> Seq<char> {
    match s {
        PageStatus::Intake => "intake"@,
        PageStatus::Staged => "staged"@,
        PageStatus::Review => "review"@,
        PageStatus::Published => "published"@,
    }
}

impl PageStatus {
    /// The snake-case name used in frontmatter and labels.
    pub fn as_str(&self) -> (s: &'static str)
        ensures
            s@ == page_status_name(*self),
    {
        match self {
            PageStatus::Intake => "intake",
            PageStatus::Staged => "staged",
            PageStatus::Review => "review",
            PageStatus::Published => "published",
        }
    }
}

/// Where a wiki page came from.
#[derive(Debug, Clone)]
pub struct SourceRef {
    /// "url" | "file" | "confluence_page" | "slack_message"
    pub kind: String,
    pub id: String,
    pub origin_url: Option<String>,
    pub summary: Option<String>,
}

// ─── Source kind ───────────────────────────────────────────────────────────

/// Discriminates the three source types that drive pipeline branching.
#[derive(Debug, Clone)]
pub enum SourceKind {
    ConfluencePage {
        page_id: String,
        /// The `/wiki/spaces/...` path of the page, joined to the Confluence base URL
        /// to produce the clickable link.
        webui_path: Option<String>,
    },
    Url { url: String },
    File { path: String, mime: String },
}

/// Abstract value of a [`SourceKind`].
pub enum SourceKindView {
    ConfluencePage { page_id: Seq<char>, webui_path: Option<Seq<char>> },
    Url { url: Seq<char> },
    File { path: Seq<char>, mime: Seq<char> },
}

impl View for SourceKind {
    type V = SourceKindView;

    open spec fn view(&self) -> SourceKindView {
        match self {
            SourceKind::ConfluencePage { page_id, webui_path } => SourceKindView::ConfluencePage {
                page_id: page_id@,
                webui_path: match webui_path {
                    Some(p) => Some(p@),
                    None => None,
                },
            },
            SourceKind::Url { url } => SourceKindView::Url { url: url@ },
            SourceKind::File { path, mime } => SourceKindView::File { path: path@, mime: mime@ },
        }
    }
}

pub open spec fn generic_mime() -> Seq<char> {
    "application/octet-stream"@
}

/// Whether the source id names a Confluence page, folder or space.
pub open spec fn is_confluence_source_id(id: Seq<char>) -> bool {
    ||| starts_with(id, "confluence-page:"@)
    ||| starts_with(id, "confluence-folder:"@)
    ||| starts_with(id, "confluence-space:"@)
}

/// The source kind a source id denotes.
///
/// `confluence-{page,folder,space}:{root}:page:{page_id}` → a Confluence page whose id is
/// the piece after the last `:page:`; `url:{url}` → a URL; `file:{path}` → a file;
/// anything else is treated as a file path.
pub open spec fn source_kind_of(id: Seq<char>) -> SourceKindView {
    if is_confluence_source_id(id) {
        SourceKindView::ConfluencePage { page_id: split_last(id, ":page:"@), webui_path: None }
    } else if starts_with(id, "url:"@) {
        SourceKindView::Url { url: id.skip(4) }
    } else if starts_with(id, "file:"@) {
        SourceKindView::File { path: id.skip(5), mime: generic_mime() }
    } else {
        SourceKindView::File { path: id, mime: generic_mime() }
    }
}

pub open spec fn is_reference_kind(k: SourceKindView) -> bool {
    !(k is File)
}

pub open spec fn content_type_of(k: SourceKindView) -> Seq<char> {
    match k {
        SourceKindView::ConfluencePage { .. } => "confluence_page"@,
        SourceKindView::Url { .. } => "web_page"@,
        SourceKindView::File { mime, .. } => mime,
    }
}

/// Clickable origin of a source; files have none.
pub open spec fn origin_url_of(k: SourceKindView, base: Seq<char>) -> Option<Seq<char>> {
    let root = trim_end_char(base, '/');
    match k {
        SourceKindView::ConfluencePage { page_id, webui_path } => match webui_path {
            Some(path) => Some(root + path),
            None => Some(root + "/wiki/pages/viewpage.action?pageId="@ + page_id),
        },
        SourceKindView::Url { url } => Some(url),
        SourceKindView::File { .. } => None,
    }
}

impl SourceKind {
    /// True for sources with a durable origin URL: Curio writes a reference card, not a copy.
    pub fn is_reference(&self) -> (b: bool)
        ensures
            b == is_reference_kind(self@),
    {
        match self {
            SourceKind::ConfluencePage { .. } => true,
            SourceKind::Url { .. } => true,
            SourceKind::File { .. } => false,
        }
    }

    /// The label-safe content type stored in metadata and Confluence labels.
    pub fn content_type(&self) -> (s: &str)
        ensures
            s@ == content_type_of(self@),
    {
        match self {
            SourceKind::ConfluencePage { .. } => "confluence_page",
            SourceKind::Url { .. } => "web_page",
            SourceKind::File { mime, .. } => mime.as_str(),
        }
    }

    /// Infers the source kind from a source id string.
    pub fn from_source_id(source_id: &str) -> (k: Self)
        ensures
            k@ == source_kind_of(source_id@),
    {
        proof {
            reveal_strlit(":page:");
            reveal_strlit("url:");
            reveal_strlit("file:");
        }
        let id = chars_of(source_id);
        let is_confluence = vec_starts_with(&id, &chars_of("confluence-page:"))
            || vec_starts_with(&id, &chars_of("confluence-folder:"))
            || vec_starts_with(&id, &chars_of("confluence-space:"));
        if is_confluence {
            let page_id = split_last_vec(&id, &chars_of(":page:"));
            return SourceKind::ConfluencePage { page_id: string_of(&page_id), webui_path: None };
        }
        let url_prefix = chars_of("url:");
        if vec_starts_with(&id, &url_prefix) {
            let url = slice_vec(&id, url_prefix.len(), id.len());
            assert(url@ =~= id@.skip(4));
            return SourceKind::Url { url: string_of(&url) };
        }
        let file_prefix = chars_of("file:");
        if vec_starts_with(&id, &file_prefix) {
            let path = slice_vec(&id, file_prefix.len(), id.len());
            assert(path@ =~= id@.skip(5));
            return SourceKind::File {
                path: string_of(&path),
                mime: String::from_str("application/octet-stream"),
            };
        }
        SourceKind::File {
            path: String::from_str(source_id),
            mime: String::from_str("application/octet-stream"),
        }
    }

    /// The full clickable URL for the source origin, or `None` for files.
    pub fn origin_url(&self, confluence_base_url: &str) -> (r: Option<String>)
        ensures
            r matches Some(u) ==> origin_url_of(self@, confluence_base_url@) == Some(u@),
            r is None ==> origin_url_of(self@, confluence_base_url@) is None,
    {
        let base = trim_end_char_vec(&chars_of(confluence_base_url), '/');
        match self {
            SourceKind::ConfluencePage { page_id, webui_path } => {
                let mut out = base;
                match webui_path {
                    Some(path) => {
                        extend_str(&mut out, path.as_str());
                    },
                    None => {
                        extend_str(&mut out, "/wiki/pages/viewpage.action?pageId=");
                        extend_str(&mut out, page_id.as_str());
                    },
                }
                Some(string_of(&out))
            },
            SourceKind::Url { url } => Some(url.clone()),
            SourceKind::File { .. } => None,
        }
    }
}

/// A single piece of content to ingest, collected from any source.
#[derive(Debug, Clone)]
pub struct ContentItem {
    /// Extracted plain text, used for routing, deduplication hash, and analysis.
    pub text: String,
    /// Stable source identifier, e.g. `confluence-page:X:page:Y`, `url:https://...`, `file:/path`.
    pub source_id: String,
    /// Optional human hint for the subject key, overrides the title heuristic.
    pub subject_hint: Option<String>,
    /// Source type discriminant: drives reference vs capture pipeline branching.
    pub kind: SourceKind,
    /// Short summary extracted at collection time (at most about 300 characters).
    pub summary: Option<String>,
}

} // verus!
