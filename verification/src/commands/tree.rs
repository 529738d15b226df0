//! `curio tree`: the published directories the taxonomy expects, and what to do with
//! directories it no longer names.
use vstd::prelude::*;

use crate::text::{chars_of, join, join_vec, views};

verus! {

/// A node of the workspace taxonomy (the published tree as configured).
#[derive(Debug)]
pub struct TaxonomyNode {
    pub title: String,
    pub slug: String,
    pub description_markdown: String,
    pub icon: Option<String>,
    pub children: Vec<TaxonomyNode>,
}

/// The slug paths of a node and its descendants, under a parent path.
pub open spec fn taxonomy_paths(n: TaxonomyNode, parent: Seq<Seq<char>>) -> Set<Seq<char>>
    decreases n,
{
    let path = parent.push(n.slug@);
    set![join(path, "/"@)].union(children_paths(n.children@, path))
}

pub open spec fn children_paths(cs: Seq<TaxonomyNode>, parent: Seq<Seq<char>>) -> Set<Seq<char>>
    decreases cs,
{
    if cs.len() == 0 {
        Set::empty()
    } else {
        children_paths(cs.drop_last(), parent).union(taxonomy_paths(cs.last(), parent))
    }
}

pub open spec fn seq_members(a: Seq<Seq<char>>, b: Set<Seq<char>>) -> bool {
    forall|x: Seq<char>| a.contains(x) <==> b.contains(x)
}

fn collect_paths(node: &TaxonomyNode, prefix: &mut Vec<Vec<char>>, out: &mut Vec<Vec<char>>)
    ensures
        views(final(prefix)@) == views(old(prefix)@),
        seq_members(
            views(final(out)@),
            views(old(out)@).to_set().union(taxonomy_paths(*node, views(old(prefix)@))),
        ),
    decreases node,
{
    let ghost p0 = views(prefix@);
    let ghost o0 = views(out@);
    prefix.push(chars_of(node.slug.as_str()));
    let ghost path = views(prefix@);
    assert(path =~= p0.push(node.slug@));
    let slash = chars_of("/");
    out.push(join_vec(prefix, &slash));
    assert(views(out@) =~= o0.push(join(path, "/"@)));
    proof {
        broadcast use vstd::seq_lib::group_seq_properties;
        assert(node.children@.take(0) =~= Seq::<TaxonomyNode>::empty());
        assert(children_paths(node.children@.take(0), path) == Set::<Seq<char>>::empty());
    }
    let mut i: usize = 0;
    while i < node.children.len()
        invariant
            i <= node.children@.len(),
            views(prefix@) == path,
            path == p0.push(node.slug@),
            slash@ == "/"@,
            seq_members(
                views(out@),
                o0.to_set().union(set![join(path, "/"@)]).union(
                    children_paths(node.children@.take(i as int), path),
                ),
            ),
        decreases node.children@.len() - i,
    {
        collect_paths(&node.children[i], prefix, out);
        assert(node.children@.take(i + 1).drop_last() =~= node.children@.take(i as int));
        assert(node.children@.take(i + 1).last() == node.children@[i as int]);
        i += 1;
    }
    assert(node.children@.take(node.children@.len() as int) =~= node.children@);
    let ghost before_pop = prefix@;
    prefix.pop();
    assert(prefix@ =~= before_pop.drop_last());
    assert forall|k: int| 0 <= k < p0.len() implies views(prefix@)[k] == p0[k] by {
        assert(views(before_pop)[k] == path[k]);
    }
    assert(views(prefix@) =~= p0);
}

/// The slug paths (`tree/subtree/...`) that the taxonomy expects under `published/`,
/// parents before their children.
pub fn collect_expected_paths(nodes: &[TaxonomyNode]) -> (r: Vec<String>)
    ensures
        seq_members(crate::curio_docs::strings(r@), children_paths(nodes@, seq![])),
{
    let mut prefix: Vec<Vec<char>> = Vec::new();
    let mut out: Vec<Vec<char>> = Vec::new();
    let mut i: usize = 0;
    while i < nodes.len()
        invariant
            i <= nodes@.len(),
            views(prefix@) == Seq::<Seq<char>>::empty(),
            seq_members(views(out@), children_paths(nodes@.take(i as int), seq![])),
        decreases nodes@.len() - i,
    {
        collect_paths(&nodes[i], &mut prefix, &mut out);
        assert(nodes@.take(i + 1).drop_last() =~= nodes@.take(i as int));
        assert(nodes@.take(i + 1).last() == nodes@[i as int]);
        assert(views(prefix@) =~= seq![]);
        i += 1;
    }
    assert(nodes@.take(nodes@.len() as int) =~= nodes@);
    crate::curio_docs::to_strings(&out)
}

/// What `curio tree` does with a directory under `published/`.
#[derive(Debug, Clone, Copy, PartialEq, Eq)]
pub enum PruneAction {
    /// The taxonomy expects it (or it is a hidden `_` folder): leave it.
    Keep,
    /// Not expected and empty: remove it.
    Remove,
    /// Not expected but holding content: leave it for a person to move.
    Skip,
}

/// The action for a directory: hidden `_` folders and expected paths are kept; an
/// unexpected directory is removed when empty, otherwise skipped.
pub open spec fn prune_action_of(name: Seq<char>, key_expected: bool, is_empty: bool) -> PruneAction {
    if name.len() > 0 && name[0] == '_' {
        PruneAction::Keep
    } else if key_expected {
        PruneAction::Keep
    } else if is_empty {
        PruneAction::Remove
    } else {
        PruneAction::Skip
    }
}

/// Decides what to do with one directory under `published/`, given its name, whether
/// its slug path is expected and whether it is empty.
pub fn prune_action(name: &str, key_expected: bool, is_empty: bool) -> (a: PruneAction)
    ensures
        a == prune_action_of(name@, key_expected, is_empty),
{
    let n = chars_of(name);
    if n.len() > 0 && n[0] == '_' {
        PruneAction::Keep
    } else if key_expected {
        PruneAction::Keep
    } else if is_empty {
        PruneAction::Remove
    } else {
        PruneAction::Skip
    }
}

} // verus!
