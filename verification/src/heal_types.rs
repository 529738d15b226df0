//! The vocabulary of healing: the actions a heal run may take and the facts it is
//! given.
use vstd::prelude::*;

verus! {

/// What a heal action does to a page.
#[derive(Clone, Copy, Debug, PartialEq, Eq, Structural)]
pub enum HealKind {
    /// Rewrite the page body (new content required).
    Rewrite,
    /// Merge the merge sources into the page (new content required: the merged body).
    Merge,
    /// Archive the page (move to the review lane with status archive).
    Archive,
    /// Update only frontmatter (keywords, category, title): no body change.
    UpdateMetadata,
    /// Fix structural issues: repair broken cross references, populate missing keywords.
    FixStructure,
    /// No action: the page is healthy.
    NoAction,
}

/// A structural problem of a page.
#[derive(Clone, Debug)]
pub struct StructuralIssue {
    pub kind: String,
    pub slug: String,
    pub path: String,
    pub detail: String,
}

/// Where a heal run may look for more context.
#[derive(Clone, Debug)]
pub struct ExternalContext {
    pub confluence_space_key: String,
    /// Space key of the original source material (for searching).
    pub source_space_key: Option<String>,
}

} // verus!
