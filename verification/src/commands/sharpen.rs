//! `curio sharpen`: what the sharpening manifest lists of the published corpus (pages
//! by title, duplicate titles and contents, oversized pages) and which stored
//! proposal sets are dropped.
use vstd::prelude::*;

use crate::harness::strings_view;
use crate::order::{key_sorted, sort_by_key, TextKeyed};
use crate::text::{chars_of, split_ws, str_eq, words};

verus! {

/// Pages with more words than this are listed for a split.
pub const OVERSIZED_WORDS: usize = 1800;

/// The stored proposal sets kept after a new one is written.
pub const KEEP_PROPOSAL_SETS: usize = 20;

/// The number of whitespace-separated words of a page body.
pub fn word_count(body: &str) -> (r: usize)
    ensures
        r == words(body@).len(),
{
    split_ws(&chars_of(body)).len()
}

/// Whether a page with this many words is listed for a split.
pub fn is_oversized(word_count: usize) -> (b: bool)
    ensures
        b == (word_count > OVERSIZED_WORDS),
{
    word_count > OVERSIZED_WORDS
}

// ─── Pages by title ─────────────────────────────────────────────────────────

/// A page's title with its position in the walk.
#[derive(Clone, Debug)]
pub struct TitledIndex {
    pub title: String,
    pub index: usize,
}

impl TextKeyed for TitledIndex {
    open spec fn key_view(&self) -> Seq<char> {
        self.title@
    }

    fn key(&self) -> (r: &str) {
        self.title.as_str()
    }
}

/// Whether `order` lists each position of `n` items once.
pub open spec fn is_permutation(order: Seq<usize>, n: nat) -> bool {
    &&& order.len() == n
    &&& forall|i: int| 0 <= i < order.len() ==> (#[trigger] order[i]) < n
    &&& forall|i: int, j: int| 0 <= i < j < order.len() ==> order[i] != order[j]
}

/// The order the manifest lists pages in: ascending by title (pages with equal titles
/// in an order left open).
pub fn page_order(titles: &[String]) -> (r: Vec<usize>)
    ensures
        is_permutation(r@, titles@.len()),
        forall|i: int, j: int|
            0 <= i < j < r@.len() ==> crate::order::lex_le(
                #[trigger] titles@[r@[i] as int]@,
                #[trigger] titles@[r@[j] as int]@,
            ),
{
    broadcast use vstd::seq_lib::group_to_multiset_ensures, vstd::multiset::group_multiset_axioms;

    let mut items: Vec<TitledIndex> = Vec::new();
    let mut i: usize = 0;
    while i < titles.len()
        invariant
            i <= titles@.len(),
            items@.len() == i,
            forall|k: int|
                0 <= k < i ==> (#[trigger] items@[k]).index == k && items@[k].title@ == titles@[k]@,
        decreases titles@.len() - i,
    {
        items.push(TitledIndex { title: String::from_str(titles[i].as_str()), index: i });
        i += 1;
    }
    let ghost before = items@;
    let sorted = sort_by_key(items);
    let mut out: Vec<usize> = Vec::new();
    let mut j: usize = 0;
    while j < sorted.len()
        invariant
            j <= sorted@.len(),
            out@.len() == j,
            forall|k: int| 0 <= k < j ==> (#[trigger] out@[k]) == sorted@[k].index,
        decreases sorted@.len() - j,
    {
        out.push(sorted[j].index);
        j += 1;
    }
    proof {
        assert(sorted@.len() == before.len()) by {
            assert(sorted@.to_multiset().len() == before.to_multiset().len());
        }
        assert forall|k: int| 0 <= k < sorted@.len() implies #[trigger] before.contains(sorted@[k]) by {
            assert(sorted@.to_multiset().count(sorted@[k]) > 0);
        }
        assert forall|k: int| 0 <= k < out@.len() implies (#[trigger] out@[k]) < titles@.len()
            && sorted@[k].title@ == titles@[out@[k] as int]@ by {
            assert(before.contains(sorted@[k]));
            let w = choose|w: int| 0 <= w < before.len() && before[w] == sorted@[k];
            assert(before[w].index == w);
        }
        assert forall|a: int, b: int| 0 <= a < b < out@.len() implies out@[a] != out@[b] by {
            if out@[a] == out@[b] {
                let x = sorted@[a];
                let y = sorted@[b];
                assert(before.contains(x));
                assert(before.contains(y));
                let wx = choose|w: int| 0 <= w < before.len() && before[w] == x;
                let wy = choose|w: int| 0 <= w < before.len() && before[w] == y;
                assert(before[wx].index == wx);
                assert(before[wy].index == wy);
                assert(x == y);
                assert(sorted@.to_multiset().count(x) >= 2) by {
                    lemma_two_positions(sorted@, a, b);
                }
                lemma_distinct_count(before, wx);
            }
        }
        assert forall|a: int, b: int| 0 <= a < b < out@.len() implies crate::order::lex_le(
            #[trigger] titles@[out@[a] as int]@,
            #[trigger] titles@[out@[b] as int]@,
        ) by {
            assert(key_sorted(sorted@));
            assert(crate::order::lex_le(sorted@[a].key_view(), sorted@[b].key_view()));
        }
    }
    out
}

proof fn lemma_two_positions<T>(s: Seq<T>, a: int, b: int)
    requires
        0 <= a < b < s.len(),
        s[a] == s[b],
    ensures
        s.to_multiset().count(s[a]) >= 2,
    decreases s.len(),
{
    broadcast use vstd::seq_lib::group_to_multiset_ensures;

    if b == s.len() - 1 {
        let t = s.drop_last();
        assert(s =~= t.push(s[b]));
        assert(t[a] == s[a]);
        assert(t.contains(s[a]));
        assert(t.to_multiset().count(s[a]) >= 1);
    } else {
        let t = s.drop_last();
        assert(s =~= t.push(s.last()));
        assert(t[a] == s[a] && t[b] == s[b]);
        lemma_two_positions(t, a, b);
    }
}

proof fn lemma_distinct_count(s: Seq<TitledIndex>, w: int)
    requires
        0 <= w < s.len(),
        forall|k: int| 0 <= k < s.len() ==> (#[trigger] s[k]).index == k,
    ensures
        s.to_multiset().count(s[w]) == 1,
    decreases s.len(),
{
    broadcast use vstd::seq_lib::group_to_multiset_ensures;

    let t = s.drop_last();
    assert(s =~= t.push(s.last()));
    if w == s.len() - 1 {
        assert forall|k: int| 0 <= k < t.len() implies t[k] != s[w] by {
            assert(t[k].index == k);
        }
        assert(!t.contains(s[w]));
        assert(t.to_multiset().count(s[w]) == 0);
    } else {
        assert forall|k: int| 0 <= k < t.len() implies (#[trigger] t[k]).index == k by {
            assert(t[k] == s[k]);
        }
        lemma_distinct_count(t, w);
        assert(t[w] == s[w]);
        assert(s.last().index == s.len() - 1);
        assert(s.last() != s[w]);
    }
}

// ─── Duplicates ─────────────────────────────────────────────────────────────

/// The distinct keys, in the order they first occur.
pub open spec fn distinct_keys(ks: Seq<Seq<char>>) -> Seq<Seq<char>>
    decreases ks.len(),
{
    if ks.len() == 0 {
        seq![]
    } else {
        let d = distinct_keys(ks.drop_last());
        if d.contains(ks.last()) {
            d
        } else {
            d.push(ks.last())
        }
    }
}

/// The paths whose key is `k`, in order.
pub open spec fn paths_for(ks: Seq<Seq<char>>, ps: Seq<Seq<char>>, k: Seq<char>) -> Seq<Seq<char>>
    decreases ks.len(),
{
    if ks.len() == 0 || ps.len() == 0 {
        seq![]
    } else {
        paths_for(ks.drop_last(), ps.drop_last(), k) + if ks.last() == k {
            seq![ps.last()]
        } else {
            Seq::<Seq<char>>::empty()
        }
    }
}

pub open spec fn all_groups(ks: Seq<Seq<char>>, ps: Seq<Seq<char>>) -> Seq<(Seq<char>, Seq<Seq<char>>)> {
    distinct_keys(ks).map_values(|k: Seq<char>| (k, paths_for(ks, ps, k)))
}

pub open spec fn shared_groups(gs: Seq<(Seq<char>, Seq<Seq<char>>)>) -> Seq<(Seq<char>, Seq<Seq<char>>)>
    decreases gs.len(),
{
    if gs.len() == 0 {
        seq![]
    } else {
        shared_groups(gs.drop_last()) + if gs.last().1.len() > 1 {
            seq![gs.last()]
        } else {
            Seq::<(Seq<char>, Seq<Seq<char>>)>::empty()
        }
    }
}

/// The keys (titles or content hashes) that more than one page shares, each with
/// those pages' paths; keys in the order they first occur.
pub open spec fn duplicates_of(ks: Seq<Seq<char>>, ps: Seq<Seq<char>>) -> Seq<(Seq<char>, Seq<Seq<char>>)> {
    shared_groups(all_groups(ks, ps))
}

/// A key shared by pages, with their paths.
#[derive(Clone, Debug)]
pub struct DuplicateGroup {
    pub key: String,
    pub paths: Vec<String>,
}

pub open spec fn group_view(g: DuplicateGroup) -> (Seq<char>, Seq<Seq<char>>) {
    (g.key@, strings_view(g.paths@))
}

pub open spec fn groups_view(gs: Seq<DuplicateGroup>) -> Seq<(Seq<char>, Seq<Seq<char>>)> {
    gs.map_values(|g: DuplicateGroup| group_view(g))
}

proof fn lemma_distinct_keys_contains(ks: Seq<Seq<char>>, k: Seq<char>)
    ensures
        distinct_keys(ks).contains(k) <==> ks.contains(k),
    decreases ks.len(),
{
    if ks.len() > 0 {
        let t = ks.drop_last();
        let d = distinct_keys(t);
        lemma_distinct_keys_contains(t, k);
        if t.contains(k) {
            let i = choose|i: int| 0 <= i < t.len() && t[i] == k;
            assert(ks[i] == k);
        }
        if ks.contains(k) {
            let i = choose|i: int| 0 <= i < ks.len() && ks[i] == k;
            if i < ks.len() - 1 {
                assert(t[i] == k);
            } else {
                assert(k == ks.last());
            }
        }
        if !d.contains(ks.last()) {
            assert(d.push(ks.last())[d.len() as int] == ks.last());
            if d.contains(k) {
                let i = choose|i: int| 0 <= i < d.len() && d[i] == k;
                assert(d.push(ks.last())[i] == k);
            }
            if d.push(ks.last()).contains(k) {
                let i = choose|i: int| 0 <= i < d.len() + 1 && d.push(ks.last())[i] == k;
                if i < d.len() {
                    assert(d[i] == k);
                }
            }
        }
        if ks.contains(k) && k == ks.last() {
            assert(distinct_keys(ks).contains(ks.last()));
        }
    }
}

proof fn lemma_distinct_keys_unique(ks: Seq<Seq<char>>)
    ensures
        forall|a: int, b: int|
            0 <= a < b < distinct_keys(ks).len() ==> distinct_keys(ks)[a] != distinct_keys(ks)[b],
    decreases ks.len(),
{
    if ks.len() > 0 {
        let t = ks.drop_last();
        let d = distinct_keys(t);
        lemma_distinct_keys_unique(t);
        if !d.contains(ks.last()) {
            let e = d.push(ks.last());
            assert forall|a: int, b: int| 0 <= a < b < e.len() implies e[a] != e[b] by {
                if b == d.len() {
                    assert(e[a] == d[a]);
                    assert(d.contains(d[a]));
                } else {
                    assert(e[a] == d[a] && e[b] == d[b]);
                }
            }
        }
    }
}

proof fn lemma_paths_for_step(ks: Seq<Seq<char>>, ps: Seq<Seq<char>>, k: Seq<char>, p: Seq<char>, q: Seq<char>)
    requires
        ks.len() == ps.len(),
    ensures
        paths_for(ks.push(k), ps.push(p), q) == paths_for(ks, ps, q) + if k == q {
            seq![p]
        } else {
            Seq::<Seq<char>>::empty()
        },
{
    assert(ks.push(k).drop_last() =~= ks);
    assert(ps.push(p).drop_last() =~= ps);
}

proof fn lemma_paths_for_absent(ks: Seq<Seq<char>>, ps: Seq<Seq<char>>, k: Seq<char>)
    requires
        !ks.contains(k),
    ensures
        paths_for(ks, ps, k) == Seq::<Seq<char>>::empty(),
    decreases ks.len(),
{
    if ks.len() > 0 && ps.len() > 0 {
        assert(!ks.drop_last().contains(k)) by {
            if ks.drop_last().contains(k) {
                let i = choose|i: int| 0 <= i < ks.drop_last().len() && ks.drop_last()[i] == k;
                assert(ks[i] == k);
            }
        }
        lemma_paths_for_absent(ks.drop_last(), ps.drop_last(), k);
        assert(ks.last() != k) by {
            assert(ks[ks.len() - 1] == ks.last());
        }
    }
}

proof fn lemma_shared_groups_push(gs: Seq<(Seq<char>, Seq<Seq<char>>)>, g: (Seq<char>, Seq<Seq<char>>))
    ensures
        shared_groups(gs.push(g)) == shared_groups(gs) + if g.1.len() > 1 {
            seq![g]
        } else {
            Seq::<(Seq<char>, Seq<Seq<char>>)>::empty()
        },
{
    assert(gs.push(g).drop_last() =~= gs);
}

fn copy_strings(v: &Vec<String>) -> (r: Vec<String>)
    ensures
        strings_view(r@) == strings_view(v@),
{
    let mut r: Vec<String> = Vec::new();
    let mut i: usize = 0;
    while i < v.len()
        invariant
            i <= v@.len(),
            strings_view(r@) == strings_view(v@).take(i as int),
        decreases v@.len() - i,
    {
        let ghost before = r@;
        let x = String::from_str(v[i].as_str());
        assert(x@ == strings_view(v@)[i as int]);
        r.push(x);
        assert(strings_view(r@) =~= strings_view(before).push(x@));
        assert(strings_view(v@).take(i + 1) =~= strings_view(v@).take(i as int).push(x@));
        assert(strings_view(r@) =~= strings_view(v@).take(i + 1));
        i += 1;
    }
    assert(strings_view(v@).take(v@.len() as int) =~= strings_view(v@));
    r
}

fn find_group(groups: &Vec<DuplicateGroup>, key: &str) -> (r: Option<usize>)
    ensures
        match r {
            Some(j) => j < groups@.len() && groups@[j as int].key@ == key@,
            None => forall|j: int| 0 <= j < groups@.len() ==> groups@[j].key@ != key@,
        },
{
    let mut j: usize = 0;
    while j < groups.len()
        invariant
            j <= groups@.len(),
            forall|k: int| 0 <= k < j ==> groups@[k].key@ != key@,
        decreases groups@.len() - j,
    {
        if str_eq(groups[j].key.as_str(), key) {
            return Some(j);
        }
        j += 1;
    }
    None
}

/// The keys that more than one page shares (a title or a content hash each), with
/// the paths of the pages that share them, keys in the order they first occur.
pub fn duplicate_groups(keys: &[String], paths: &[String]) -> (r: Vec<DuplicateGroup>)
    requires
        keys@.len() == paths@.len(),
    ensures
        groups_view(r@) == duplicates_of(strings_view(keys@), strings_view(paths@)),
{
    let ghost ks = strings_view(keys@);
    let ghost ps = strings_view(paths@);
    let mut groups: Vec<DuplicateGroup> = Vec::new();
    let mut i: usize = 0;
    assert(ks.take(0) =~= Seq::<Seq<char>>::empty());
    assert(groups_view(groups@) =~= all_groups(ks.take(0), ps.take(0)));
    while i < keys.len()
        invariant
            i <= keys@.len(),
            keys@.len() == paths@.len(),
            ks == strings_view(keys@),
            ps == strings_view(paths@),
            groups_view(groups@) == all_groups(ks.take(i as int), ps.take(i as int)),
        decreases keys@.len() - i,
    {
        let ghost k0 = ks.take(i as int);
        let ghost p0 = ps.take(i as int);
        let ghost g0 = groups_view(groups@);
        let k = keys[i].as_str();
        let p = paths[i].as_str();
        assert(ks.take(i + 1) =~= k0.push(k@));
        assert(ps.take(i + 1) =~= p0.push(p@));
        proof {
            assert forall|q: Seq<char>| #![trigger paths_for(k0.push(k@), p0.push(p@), q)]
                paths_for(k0.push(k@), p0.push(p@), q) == paths_for(k0, p0, q) + if k@ == q {
                    seq![p@]
                } else {
                    Seq::<Seq<char>>::empty()
                } by {
                lemma_paths_for_step(k0, p0, k@, p@, q);
            }
            lemma_distinct_keys_contains(k0, k@);
            assert(k0.push(k@).drop_last() =~= k0);
        }
        match find_group(&groups, k) {
            Some(j) => {
                proof {
                    assert(g0.len() == groups@.len());
                    assert(all_groups(k0, p0).len() == distinct_keys(k0).len());
                    assert(groups_view(groups@)[j as int] == group_view(groups@[j as int]));
                    assert(g0[j as int].0 == k@);
                    assert(all_groups(k0, p0)[j as int] == (
                        distinct_keys(k0)[j as int],
                        paths_for(k0, p0, distinct_keys(k0)[j as int]),
                    ));
                    assert(distinct_keys(k0)[j as int] == k@);
                    assert(distinct_keys(k0).contains(k@));
                    assert(distinct_keys(k0.push(k@)) == distinct_keys(k0));
                }
                let ghost before = groups@;
                let mut g = groups.remove(j);
                g.paths.push(String::from_str(p));
                groups.insert(j, g);
                proof {
                    lemma_distinct_keys_unique(k0);
                    let d = distinct_keys(k0);
                    let kn = k0.push(k@);
                    let pn = p0.push(p@);
                    assert(groups@.len() == before.len());
                    assert(strings_view(groups@[j as int].paths@) =~= strings_view(
                        before[j as int].paths@,
                    ).push(p@));
                    assert forall|m: int| 0 <= m < groups@.len() implies #[trigger] groups_view(groups@)[m]
                        == all_groups(kn, pn)[m] by {
                        assert(groups_view(groups@)[m] == group_view(groups@[m]));
                        assert(all_groups(kn, pn)[m] == (d[m], paths_for(kn, pn, d[m])));
                        assert(paths_for(kn, pn, d[m]) == paths_for(k0, p0, d[m]) + if k@ == d[m] {
                            seq![p@]
                        } else {
                            Seq::<Seq<char>>::empty()
                        });
                        assert(g0[m] == group_view(before[m]));
                        assert(all_groups(k0, p0)[m] == (d[m], paths_for(k0, p0, d[m])));
                        if m != j {
                            assert(groups@[m] == before[m]);
                            assert(d[m] != k@);
                            assert(paths_for(kn, pn, d[m]) =~= paths_for(k0, p0, d[m]));
                        } else {
                            assert(groups@[m].key == before[m].key);
                        }
                    }
                    assert(groups_view(groups@) =~= all_groups(kn, pn));
                }
            },
            None => {
                proof {
                    assert(!distinct_keys(k0).contains(k@)) by {
                        if distinct_keys(k0).contains(k@) {
                            let m = choose|m: int| 0 <= m < distinct_keys(k0).len() && distinct_keys(k0)[m] == k@;
                            assert(g0.len() == groups@.len());
                            assert(all_groups(k0, p0).len() == distinct_keys(k0).len());
                            assert(all_groups(k0, p0)[m].0 == distinct_keys(k0)[m]);
                            assert(groups_view(groups@)[m] == group_view(groups@[m]));
                            assert(groups@[m].key@ != k@);
                        }
                    }
                    assert(!k0.contains(k@));
                    lemma_paths_for_absent(k0, p0, k@);
                    assert(distinct_keys(k0.push(k@)) == distinct_keys(k0).push(k@));
                }
                let ghost before = groups@;
                let mut ps_new: Vec<String> = Vec::new();
                ps_new.push(String::from_str(p));
                groups.push(DuplicateGroup { key: String::from_str(k), paths: ps_new });
                proof {
                    let d = distinct_keys(k0);
                    let kn = k0.push(k@);
                    let pn = p0.push(p@);
                    assert(strings_view(groups@[groups@.len() - 1].paths@) =~= seq![p@]);
                    assert(groups@.len() == before.len() + 1);
                    assert(g0.len() == before.len());
                    assert(all_groups(k0, p0).len() == d.len());
                    assert(distinct_keys(kn).len() == d.len() + 1);
                    assert forall|m: int| 0 <= m < groups@.len() implies #[trigger] groups_view(groups@)[m]
                        == all_groups(kn, pn)[m] by {
                        assert(groups_view(groups@)[m] == group_view(groups@[m]));
                        assert(distinct_keys(kn)[m] == d.push(k@)[m]);
                        assert(all_groups(kn, pn)[m] == (d.push(k@)[m], paths_for(kn, pn, d.push(k@)[m])));
                        if m < before.len() {
                            assert(groups@[m] == before[m]);
                            assert(g0[m] == group_view(before[m]));
                            assert(all_groups(k0, p0)[m] == (d[m], paths_for(k0, p0, d[m])));
                            assert(d.contains(d[m]));
                            assert(d[m] != k@);
                            assert(paths_for(kn, pn, d[m]) == paths_for(k0, p0, d[m]) + Seq::<Seq<char>>::empty());
                            assert(paths_for(kn, pn, d[m]) =~= paths_for(k0, p0, d[m]));
                        } else {
                            assert(paths_for(kn, pn, k@) == paths_for(k0, p0, k@) + seq![p@]);
                            assert(paths_for(kn, pn, k@) =~= seq![p@]);
                        }
                    }
                    assert(groups_view(groups@) =~= all_groups(kn, pn));
                }
            },
        }
        i += 1;
    }
    assert(ks.take(keys@.len() as int) =~= ks);
    assert(ps.take(keys@.len() as int) =~= ps);
    let ghost all = groups_view(groups@);
    let mut out: Vec<DuplicateGroup> = Vec::new();
    let mut m: usize = 0;
    assert(all.take(0) =~= Seq::<(Seq<char>, Seq<Seq<char>>)>::empty());
    while m < groups.len()
        invariant
            m <= groups@.len(),
            all == groups_view(groups@),
            groups_view(out@) == shared_groups(all.take(m as int)),
        decreases groups@.len() - m,
    {
        proof {
            assert(all.take(m + 1) =~= all.take(m as int).push(all[m as int]));
            lemma_shared_groups_push(all.take(m as int), all[m as int]);
        }
        if groups[m].paths.len() > 1 {
            let ghost before = out@;
            let g = DuplicateGroup {
                key: String::from_str(groups[m].key.as_str()),
                paths: copy_strings(&groups[m].paths),
            };
            out.push(g);
            assert(groups_view(out@) =~= groups_view(before).push(all[m as int]));
        }
        m += 1;
    }
    assert(all.take(groups@.len() as int) =~= all);
    out
}

// ─── The proposal store ─────────────────────────────────────────────────────

/// The stored proposal sets to remove so that `keep` remain: the first by file name
/// (names are timestamps, so the oldest).
pub fn stale_proposal_sets(names: &[String], keep: usize) -> (r: Vec<String>)
    ensures
        r@.len() == if names@.len() > keep {
            names@.len() - keep
        } else {
            0
        },
        exists|s: Seq<String>|
            s.to_multiset() == names@.to_multiset() && crate::order::text_sorted(s) && r@ == s.take(
                r@.len() as int,
            ),
{
    let sorted = crate::order::sorted_titles(names);
    proof {
        broadcast use vstd::seq_lib::group_to_multiset_ensures;

        assert(sorted@.len() == names@.len()) by {
            assert(sorted@.to_multiset().len() == names@.to_multiset().len());
        }
    }
    let n: usize = if names.len() > keep {
        names.len() - keep
    } else {
        0
    };
    let mut out: Vec<String> = Vec::new();
    let mut i: usize = 0;
    while i < n
        invariant
            i <= n,
            n <= sorted@.len(),
            out@ == sorted@.take(i as int),
        decreases n - i,
    {
        out.push(sorted[i].clone());
        assert(out@ =~= sorted@.take(i + 1));
        i += 1;
    }
    assert(out@ == sorted@.take(out@.len() as int));
    out
}

} // verus!
