//! The order of text: lexicographic by character, which for UTF-8 strings is the
//! order `str` compares them in (byte by byte), and sorting by it.
use vstd::prelude::*;

use vstd::multiset::Multiset;

use crate::text::chars_of;

verus! {

/// `a <= b`, comparing character codes from the left; a proper prefix comes first.
pub open spec fn lex_le(a: Seq<char>, b: Seq<char>) -> bool
    decreases a.len(),
{
    if a.len() == 0 {
        true
    } else if b.len() == 0 {
        false
    } else if a[0] != b[0] {
        a[0] < b[0]
    } else {
        lex_le(a.drop_first(), b.drop_first())
    }
}

pub proof fn lemma_lex_total(a: Seq<char>, b: Seq<char>)
    ensures
        lex_le(a, b) || lex_le(b, a),
    decreases a.len(),
{
    if a.len() > 0 && b.len() > 0 && a[0] == b[0] {
        lemma_lex_total(a.drop_first(), b.drop_first());
    }
}

pub proof fn lemma_lex_trans(a: Seq<char>, b: Seq<char>, c: Seq<char>)
    requires
        lex_le(a, b),
        lex_le(b, c),
    ensures
        lex_le(a, c),
    decreases a.len(),
{
    if a.len() > 0 && b.len() > 0 && c.len() > 0 && a[0] == b[0] && b[0] == c[0] {
        lemma_lex_trans(a.drop_first(), b.drop_first(), c.drop_first());
    }
}

pub proof fn lemma_lex_antisym(a: Seq<char>, b: Seq<char>)
    requires
        lex_le(a, b),
        lex_le(b, a),
    ensures
        a == b,
    decreases a.len(),
{
    if a.len() > 0 && b.len() > 0 && a[0] == b[0] {
        lemma_lex_antisym(a.drop_first(), b.drop_first());
        assert(a =~= seq![a[0]] + a.drop_first());
        assert(b =~= seq![b[0]] + b.drop_first());
    } else if a.len() == 0 && b.len() == 0 {
        assert(a =~= b);
    }
}

pub proof fn lemma_lex_refl(a: Seq<char>)
    ensures
        lex_le(a, a),
    decreases a.len(),
{
    if a.len() > 0 {
        lemma_lex_refl(a.drop_first());
    }
}

/// Whether `a <= b` in the order of text.
pub fn text_le(a: &str, b: &str) -> (r: bool)
    ensures
        r == lex_le(a@, b@),
{
    let av = chars_of(a);
    let bv = chars_of(b);
    let mut i: usize = 0;
    assert(av@.skip(0) =~= av@ && bv@.skip(0) =~= bv@);
    while i < av.len() && i < bv.len() && av[i] == bv[i]
        invariant
            i <= av.len(),
            i <= bv.len(),
            lex_le(av@, bv@) == lex_le(av@.skip(i as int), bv@.skip(i as int)),
        decreases av.len() - i,
    {
        assert(av@.skip(i as int).drop_first() =~= av@.skip(i + 1));
        assert(bv@.skip(i as int).drop_first() =~= bv@.skip(i + 1));
        i += 1;
    }
    assert(av@ == a@ && bv@ == b@);
    if i == av.len() {
        true
    } else if i == bv.len() {
        false
    } else {
        assert(av@.skip(i as int)[0] == av@[i as int]);
        assert(bv@.skip(i as int)[0] == bv@[i as int]);
        av[i] < bv[i]
    }
}

/// An item sorted by a text key.
pub trait TextKeyed {
    spec fn key_view(&self) -> Seq<char>;

    fn key(&self) -> (r: &str)
        ensures
            r@ == self.key_view(),
    ;
}

impl TextKeyed for String {
    open spec fn key_view(&self) -> Seq<char> {
        self@
    }

    fn key(&self) -> (r: &str) {
        self.as_str()
    }
}

pub open spec fn key_sorted<T: TextKeyed>(s: Seq<T>) -> bool {
    forall|i: int, j: int|
        0 <= i < j < s.len() ==> lex_le(#[trigger] s[i].key_view(), #[trigger] s[j].key_view())
}

pub open spec fn text_sorted(s: Seq<String>) -> bool {
    key_sorted(s)
}

/// The index of an item of `v[from..]` with the least key.
fn least_from<T: TextKeyed>(v: &Vec<T>, from: usize) -> (m: usize)
    requires
        from < v.len(),
    ensures
        from <= m < v.len(),
        forall|k: int|
            from <= k < v.len() ==> lex_le(v@[m as int].key_view(), #[trigger] v@[k].key_view()),
{
    let mut m = from;
    let mut j = from + 1;
    proof {
        lemma_lex_refl(v@[from as int].key_view());
    }
    while j < v.len()
        invariant
            from <= m < j <= v.len(),
            forall|k: int|
                from <= k < j ==> lex_le(v@[m as int].key_view(), #[trigger] v@[k].key_view()),
        decreases v.len() - j,
    {
        if !text_le(v[m].key(), v[j].key()) {
            proof {
                lemma_lex_total(v@[m as int].key_view(), v@[j as int].key_view());
                assert forall|k: int| from <= k < j + 1 implies lex_le(
                    v@[j as int].key_view(),
                    #[trigger] v@[k].key_view(),
                ) by {
                    if k < j {
                        lemma_lex_trans(
                            v@[j as int].key_view(),
                            v@[m as int].key_view(),
                            v@[k].key_view(),
                        );
                    } else {
                        lemma_lex_refl(v@[k].key_view());
                    }
                }
            }
            m = j;
        }
        j += 1;
    }
    m
}

/// The items in ascending order of their keys; of items with equal keys, which
/// comes first is left open.
pub fn sort_by_key<T: TextKeyed>(v: Vec<T>) -> (r: Vec<T>)
    ensures
        r@.to_multiset() == v@.to_multiset(),
        key_sorted(r@),
{
    broadcast use vstd::seq_lib::group_to_multiset_ensures, vstd::multiset::group_multiset_axioms,
        vstd::multiset::group_multiset_properties;

    let mut rest = v;
    let mut out: Vec<T> = Vec::new();
    let ghost all = rest@.to_multiset();
    assert(out@.to_multiset() =~= Multiset::<T>::empty());
    while rest.len() > 0
        invariant
            out@.to_multiset().add(rest@.to_multiset()) == all,
            key_sorted(out@),
            forall|i: int, k: int|
                0 <= i < out@.len() && 0 <= k < rest@.len() ==> lex_le(
                    #[trigger] out@[i].key_view(),
                    #[trigger] rest@[k].key_view(),
                ),
        decreases rest.len(),
    {
        let m = least_from(&rest, 0);
        let ghost before = rest@;
        let item = rest.remove(m);
        proof {
            assert(rest@ =~= before.remove(m as int));
            assert forall|k: int| 0 <= k < rest@.len() implies lex_le(
                item.key_view(),
                #[trigger] rest@[k].key_view(),
            ) by {
                if k < m {
                    assert(rest@[k] == before[k]);
                } else {
                    assert(rest@[k] == before[k + 1]);
                }
            }
        }
        let ghost out_before = out@;
        out.push(item);
        proof {
            assert(out@ =~= out_before.push(item));
            assert forall|i: int, k: int|
                0 <= i < out@.len() && 0 <= k < rest@.len() implies lex_le(
                #[trigger] out@[i].key_view(),
                #[trigger] rest@[k].key_view(),
            ) by {
                if i < out_before.len() {
                    if k < m {
                        assert(rest@[k] == before[k]);
                    } else {
                        assert(rest@[k] == before[k + 1]);
                    }
                }
            }
            assert forall|i: int, j: int| 0 <= i < j < out@.len() implies lex_le(
                #[trigger] out@[i].key_view(),
                #[trigger] out@[j].key_view(),
            ) by {
                if j == out_before.len() {
                    assert(out@[i] == out_before[i]);
                    assert(lex_le(out_before[i].key_view(), before[m as int].key_view()));
                }
            }
            assert(item == before[m as int]);
            vstd::seq_lib::to_multiset_remove(before, m as int);
            assert(before.contains(item));
            vstd::seq_lib::to_multiset_contains(before, item);
            assert(before.to_multiset().count(item) > 0);
            vstd::seq_lib::to_multiset_build(out_before, item);
            assert(out@.to_multiset().add(rest@.to_multiset()) =~= all);
        }
    }
    assert(rest@.to_multiset() =~= Multiset::<T>::empty());
    assert(out@.to_multiset().add(rest@.to_multiset()) =~= out@.to_multiset());
    out
}

/// Titles in ascending order (`slice::sort` on the collected set).
pub fn sorted_titles(titles: &[String]) -> (r: Vec<String>)
    ensures
        r@.to_multiset() == titles@.to_multiset(),
        text_sorted(r@),
{
    let mut v: Vec<String> = Vec::new();
    let mut i: usize = 0;
    while i < titles.len()
        invariant
            i <= titles@.len(),
            v@ == titles@.take(i as int),
        decreases titles@.len() - i,
    {
        v.push(titles[i].clone());
        assert(v@ =~= titles@.take(i + 1));
        i += 1;
    }
    assert(titles@.take(titles@.len() as int) =~= titles@);
    sort_by_key(v)
}

} // verus!
