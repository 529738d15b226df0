//! Provider-neutral, fail-closed source authorization snapshots.
use vstd::prelude::*;

verus! {

#[derive(Debug, Clone, Copy, PartialEq, Eq)]
pub enum PrincipalKind {
    User,
    Group,
    Service,
    Public,
}

#[derive(Debug, Clone)]
pub struct Principal {
    pub kind: PrincipalKind,
    pub id: String,
    pub label: Option<String>,
}

/// Who may and may not read one source, as captured at one revision.
#[derive(Debug, Clone)]
pub struct AclSnapshot {
    pub source_id: String,
    pub source_revision: String,
    pub captured_at: String,
    pub allow: Vec<Principal>,
    pub deny: Vec<Principal>,
}

/// The identities of the reader asking for access.
#[derive(Debug, Clone)]
pub struct AccessContext {
    pub principal_ids: Vec<String>,
    pub group_ids: Vec<String>,
    pub service_ids: Vec<String>,
}

pub open spec fn ids(v: Seq<String>) -> Seq<Seq<char>> {
    v.map_values(|s: String| s@)
}

/// Whether the reader is the principal (or the principal is public).
pub open spec fn principal_matches(a: AccessContext, p: Principal) -> bool {
    match p.kind {
        PrincipalKind::Public => true,
        PrincipalKind::User => ids(a.principal_ids@).contains(p.id@),
        PrincipalKind::Group => ids(a.group_ids@).contains(p.id@),
        PrincipalKind::Service => ids(a.service_ids@).contains(p.id@),
    }
}

pub open spec fn any_matches(a: AccessContext, ps: Seq<Principal>) -> bool {
    exists|i: int| 0 <= i < ps.len() && principal_matches(a, #[trigger] ps[i])
}

/// Read decision: no snapshot means an unrestricted legacy or public page; a present
/// snapshot is authoritative: a reader without identity is refused, a matching deny
/// wins, and otherwise some allow entry must match (an empty allow list restricts).
pub open spec fn read_allowed(snapshot: Option<AclSnapshot>, access: Option<AccessContext>) -> bool {
    match snapshot {
        None => true,
        Some(s) => match access {
            None => false,
            Some(a) => !any_matches(a, s.deny@) && any_matches(a, s.allow@),
        },
    }
}

impl AccessContext {
    /// A reader known only by its user ids.
    pub fn new(principal_ids: Vec<String>) -> (a: Self)
        ensures
            a.principal_ids@ == principal_ids@,
            a.group_ids@.len() == 0,
            a.service_ids@.len() == 0,
    {
        AccessContext { principal_ids, group_ids: Vec::new(), service_ids: Vec::new() }
    }

    fn contains_id(list: &Vec<String>, id: &String) -> (b: bool)
        ensures
            b == ids(list@).contains(id@),
    {
        let mut i: usize = 0;
        while i < list.len()
            invariant
                i <= list.len(),
                forall|k: int| 0 <= k < i ==> list@[k]@ != id@,
            decreases list.len() - i,
        {
            if list[i] == *id {
                assert(ids(list@)[i as int] == id@);
                return true;
            }
            i += 1;
        }
        assert forall|k: int| 0 <= k < ids(list@).len() implies ids(list@)[k] != id@ by {
            assert(ids(list@)[k] == list@[k]@);
        }
        false
    }

    fn matches(&self, principal: &Principal) -> (b: bool)
        ensures
            b == principal_matches(*self, *principal),
    {
        match principal.kind {
            PrincipalKind::Public => true,
            PrincipalKind::User => Self::contains_id(&self.principal_ids, &principal.id),
            PrincipalKind::Group => Self::contains_id(&self.group_ids, &principal.id),
            PrincipalKind::Service => Self::contains_id(&self.service_ids, &principal.id),
        }
    }

    fn matches_any(&self, list: &Vec<Principal>) -> (b: bool)
        ensures
            b == any_matches(*self, list@),
    {
        let mut i: usize = 0;
        while i < list.len()
            invariant
                i <= list.len(),
                forall|k: int| 0 <= k < i ==> !principal_matches(*self, #[trigger] list@[k]),
            decreases list.len() - i,
        {
            if self.matches(&list[i]) {
                return true;
            }
            i += 1;
        }
        false
    }
}

impl Default for AccessContext {
    fn default() -> (a: Self)
        ensures
            a.principal_ids@.len() == 0,
            a.group_ids@.len() == 0,
            a.service_ids@.len() == 0,
    {
        AccessContext { principal_ids: Vec::new(), group_ids: Vec::new(), service_ids: Vec::new() }
    }
}

/// Whether the reader may read a source with the given snapshot.
pub fn can_read(snapshot: Option<&AclSnapshot>, access: Option<&AccessContext>) -> (b: bool)
    ensures
        b == read_allowed(
            match snapshot {
                Some(s) => Some(*s),
                None => None,
            },
            match access {
                Some(a) => Some(*a),
                None => None,
            },
        ),
{
    let snapshot = match snapshot {
        Some(s) => s,
        None => return true,
    };
    let access = match access {
        Some(a) => a,
        None => return false,
    };
    if access.matches_any(&snapshot.deny) {
        return false;
    }
    access.matches_any(&snapshot.allow)
}

/// Index of the first snapshot recorded for `source_id`.
pub fn find_snapshot(snapshots: &Vec<AclSnapshot>, source_id: &str) -> (r: Option<usize>)
    ensures
        match r {
            Some(i) => i < snapshots@.len() && snapshots@[i as int].source_id@ == source_id@
                && forall|k: int| 0 <= k < i ==> snapshots@[k].source_id@ != source_id@,
            None => forall|k: int|
                0 <= k < snapshots@.len() ==> snapshots@[k].source_id@ != source_id@,
        },
{
    let mut i: usize = 0;
    while i < snapshots.len()
        invariant
            i <= snapshots.len(),
            forall|k: int| 0 <= k < i ==> snapshots@[k].source_id@ != source_id@,
        decreases snapshots.len() - i,
    {
        if crate::text::str_eq(snapshots[i].source_id.as_str(), source_id) {
            return Some(i);
        }
        i += 1;
    }
    None
}

// ─── Laws ──────────────────────────────────────────────────────────────────

/// A page without a snapshot is readable by anyone, even an anonymous reader.
pub proof fn law_no_snapshot_is_public(access: Option<AccessContext>)
    ensures
        read_allowed(None, access),
{
}

/// A present snapshot fails closed: a reader without identity is refused.
pub proof fn law_missing_identity_fails_closed(s: AclSnapshot)
    ensures
        !read_allowed(Some(s), None),
{
}

/// Denies win: a reader matched by any deny entry is refused, whatever the allow list says.
pub proof fn law_deny_wins(s: AclSnapshot, a: AccessContext, i: int)
    requires
        0 <= i < s.deny@.len(),
        principal_matches(a, s.deny@[i]),
    ensures
        !read_allowed(Some(s), Some(a)),
{
}

/// An empty allow list admits nobody.
pub proof fn law_empty_allow_is_restricted(s: AclSnapshot, a: AccessContext)
    requires
        s.allow@.len() == 0,
    ensures
        !read_allowed(Some(s), Some(a)),
{
}

/// A public allow entry admits every identified reader that no deny entry matches.
pub proof fn law_public_allow_admits(s: AclSnapshot, a: AccessContext, i: int)
    requires
        0 <= i < s.allow@.len(),
        s.allow@[i].kind == PrincipalKind::Public,
        !any_matches(a, s.deny@),
    ensures
        read_allowed(Some(s), Some(a)),
{
    assert(principal_matches(a, s.allow@[i]));
}

} // verus!
