//! Character-level text helpers shared by the renderers and parsers.
//!
//! Text is handled as `Seq<char>` in specifications and as `Vec<char>` /
//! `String` in executable code.
use vstd::prelude::*;

verus! {

// ─── Whitespace ─────────────────────────────────────────────────────────────

/// Unicode `White_Space` property, the set `char::is_whitespace` tests.
pub open spec fn is_ws(c: char) -> bool {
    ||| c == ' '
    ||| ('\u{9}' <= c && c <= '\u{d}')
    ||| c == '\u{85}'
    ||| c == '\u{a0}'
    ||| c == '\u{1680}'
    ||| ('\u{2000}' <= c && c <= '\u{200a}')
    ||| c == '\u{2028}'
    ||| c == '\u{2029}'
    ||| c == '\u{202f}'
    ||| c == '\u{205f}'
    ||| c == '\u{3000}'
}

pub fn is_whitespace(c: char) -> (b: bool)
    ensures
        b == is_ws(c),
{
    c == ' ' || ('\u{9}' <= c && c <= '\u{d}') || c == '\u{85}' || c == '\u{a0}' || c
        == '\u{1680}' || ('\u{2000}' <= c && c <= '\u{200a}') || c == '\u{2028}' || c
        == '\u{2029}' || c == '\u{202f}' || c == '\u{205f}' || c == '\u{3000}'
}

pub open spec fn is_ascii_digit(c: char) -> bool {
    '0' <= c && c <= '9'
}

pub open spec fn is_ascii_alnum(c: char) -> bool {
    ||| ('0' <= c && c <= '9')
    ||| ('a' <= c && c <= 'z')
    ||| ('A' <= c && c <= 'Z')
}

pub fn ascii_alnum(c: char) -> (b: bool)
    ensures
        b == is_ascii_alnum(c),
{
    ('0' <= c && c <= '9') || ('a' <= c && c <= 'z') || ('A' <= c && c <= 'Z')
}

/// ASCII lower-casing of one character (`char::to_ascii_lowercase`).
pub open spec fn ascii_lower(c: char) -> char {
    if 'A' <= c && c <= 'Z' {
        ((c as u32) + 32) as char
    } else {
        c
    }
}

pub fn to_ascii_lower(c: char) -> (r: char)
    ensures
        r == ascii_lower(c),
{
    if 'A' <= c && c <= 'Z' {
        let v: u32 = (c as u32) + 32;
        assert(0x61 <= v <= 0x7a);
        char_from_ascii(v)
    } else {
        c
    }
}

fn char_from_ascii(v: u32) -> (c: char)
    requires
        v < 128,
    ensures
        c == v as char,
{
    let b: u8 = v as u8;
    b as char
}

/// ASCII upper-casing of one character (`char::to_ascii_uppercase`).
pub open spec fn ascii_upper(c: char) -> char {
    if 'a' <= c && c <= 'z' {
        ((c as u32) - 32) as char
    } else {
        c
    }
}

pub open spec fn ascii_upper_seq(s: Seq<char>) -> Seq<char> {
    s.map_values(|c: char| ascii_upper(c))
}

pub fn to_ascii_upper(c: char) -> (r: char)
    ensures
        r == ascii_upper(c),
{
    if 'a' <= c && c <= 'z' {
        let x: u32 = (c as u32) - 32;
        assert(0x41 <= x <= 0x5a);
        char_from_ascii(x)
    } else {
        c
    }
}

/// `str::to_ascii_uppercase`.
pub fn to_ascii_upper_str(s: &str) -> (r: Vec<char>)
    ensures
        r@ == ascii_upper_seq(s@),
{
    let v = chars_of(s);
    let mut out: Vec<char> = Vec::new();
    let mut i: usize = 0;
    while i < v.len()
        invariant
            i <= v@.len(),
            v@ == s@,
            out@ == ascii_upper_seq(s@.take(i as int)),
        decreases v@.len() - i,
    {
        out.push(to_ascii_upper(v[i]));
        assert(out@ =~= ascii_upper_seq(s@.take(i + 1)));
        i += 1;
    }
    assert(s@.take(v@.len() as int) =~= s@);
    out
}

pub open spec fn ascii_lower_seq(s: Seq<char>) -> Seq<char> {
    s.map_values(|c: char| ascii_lower(c))
}

// ─── Building strings ───────────────────────────────────────────────────────

/// Appends one character (`String::push`).
#[verifier::external_body]
pub(crate) fn push_char(s: &mut String, c: char)
    ensures
        final(s)@ == old(s)@.push(c),
{
    s.push(c);
}

/// Collects the characters of `s` in order.
pub fn chars_of(s: &str) -> (v: Vec<char>)
    ensures
        v@ == s@,
{
    let mut v: Vec<char> = Vec::new();
    for c in it: s.chars()
        invariant
            v@ == it.seq().take(it.index() as int),
            it.seq() == s@,
    {
        v.push(c);
    }
    v
}

/// Builds a `String` holding exactly the characters of `v`.
pub fn string_of(v: &Vec<char>) -> (s: String)
    ensures
        s@ == v@,
{
    let mut s = String::new();
    let mut i: usize = 0;
    while i < v.len()
        invariant
            i <= v.len(),
            s@ == v@.take(i as int),
        decreases v.len() - i,
    {
        push_char(&mut s, v[i]);
        assert(v@.take(i as int).push(v@[i as int]) =~= v@.take(i + 1));
        i += 1;
    }
    assert(v@.take(v.len() as int) =~= v@);
    s
}

/// Appends the characters of `v` to `s`.
pub fn push_chars(s: &mut String, v: &Vec<char>)
    ensures
        final(s)@ == old(s)@ + v@,
{
    let mut i: usize = 0;
    while i < v.len()
        invariant
            i <= v.len(),
            s@ == old(s)@ + v@.take(i as int),
        decreases v.len() - i,
    {
        push_char(s, v[i]);
        assert(v@.take(i as int).push(v@[i as int]) =~= v@.take(i + 1));
        i += 1;
    }
    assert(v@.take(v.len() as int) =~= v@);
}

/// Appends the characters of `other` to the vector.
pub fn extend_chars(v: &mut Vec<char>, other: &Vec<char>)
    ensures
        final(v)@ == old(v)@ + other@,
{
    let mut i: usize = 0;
    while i < other.len()
        invariant
            i <= other.len(),
            v@ == old(v)@ + other@.take(i as int),
        decreases other.len() - i,
    {
        v.push(other[i]);
        assert(other@.take(i as int).push(other@[i as int]) =~= other@.take(i + 1));
        i += 1;
    }
    assert(other@.take(other.len() as int) =~= other@);
}

/// Appends a string slice to the vector.
pub fn extend_str(v: &mut Vec<char>, other: &str)
    ensures
        final(v)@ == old(v)@ + other@,
{
    let cs = chars_of(other);
    extend_chars(v, &cs);
}

// ─── Comparing ──────────────────────────────────────────────────────────────

pub fn seq_eq(a: &Vec<char>, b: &Vec<char>) -> (r: bool)
    ensures
        r == (a@ == b@),
{
    if a.len() != b.len() {
        return false;
    }
    let mut i: usize = 0;
    while i < a.len()
        invariant
            a.len() == b.len(),
            i <= a.len(),
            forall|k: int| 0 <= k < i ==> a@[k] == b@[k],
        decreases a.len() - i,
    {
        if a[i] != b[i] {
            return false;
        }
        i += 1;
    }
    assert(a@ =~= b@);
    true
}

pub fn str_eq(a: &str, b: &str) -> (r: bool)
    ensures
        r == (a@ == b@),
{
    let av = chars_of(a);
    let bv = chars_of(b);
    seq_eq(&av, &bv)
}

/// Whether `s` has `p` at position `at`.
pub open spec fn has_at(s: Seq<char>, p: Seq<char>, at: int) -> bool {
    0 <= at && at + p.len() <= s.len() && s.subrange(at, at + p.len()) == p
}

pub open spec fn starts_with(s: Seq<char>, p: Seq<char>) -> bool {
    p.len() <= s.len() && s.take(p.len() as int) == p
}

pub open spec fn ends_with(s: Seq<char>, p: Seq<char>) -> bool {
    p.len() <= s.len() && s.skip(s.len() - p.len()) == p
}

pub fn matches_at(s: &Vec<char>, p: &Vec<char>, at: usize) -> (r: bool)
    ensures
        r == has_at(s@, p@, at as int),
{
    if at > s.len() || p.len() > s.len() - at {
        return false;
    }
    let mut k: usize = 0;
    while k < p.len()
        invariant
            at + p.len() <= s.len(),
            k <= p.len(),
            forall|j: int| 0 <= j < k ==> s@[at + j] == p@[j],
        decreases p.len() - k,
    {
        if s[at + k] != p[k] {
            assert(s@.subrange(at as int, at + p.len())[k as int] != p@[k as int]);
            return false;
        }
        k += 1;
    }
    assert(s@.subrange(at as int, at + p.len()) =~= p@);
    true
}

pub fn vec_starts_with(s: &Vec<char>, p: &Vec<char>) -> (r: bool)
    ensures
        r == starts_with(s@, p@),
{
    let r = matches_at(s, p, 0);
    if r {
        assert(s@.subrange(0, p@.len() as int) =~= s@.take(p@.len() as int));
    } else if p.len() <= s.len() {
        assert(s@.subrange(0, p@.len() as int) =~= s@.take(p@.len() as int));
    }
    r
}

pub fn vec_ends_with(s: &Vec<char>, p: &Vec<char>) -> (r: bool)
    ensures
        r == ends_with(s@, p@),
{
    if p.len() > s.len() {
        return false;
    }
    let at = s.len() - p.len();
    let r = matches_at(s, p, at);
    assert(s@.subrange(at as int, at + p@.len()) =~= s@.skip(at as int));
    r
}

pub fn str_starts_with(s: &str, p: &str) -> (r: bool)
    ensures
        r == starts_with(s@, p@),
{
    let sv = chars_of(s);
    let pv = chars_of(p);
    vec_starts_with(&sv, &pv)
}

pub fn str_ends_with(s: &str, p: &str) -> (r: bool)
    ensures
        r == ends_with(s@, p@),
{
    let sv = chars_of(s);
    let pv = chars_of(p);
    vec_ends_with(&sv, &pv)
}

/// Whether `c` occurs in `s`.
pub fn contains_char(s: &Vec<char>, c: char) -> (r: bool)
    ensures
        r == s@.contains(c),
{
    let mut i: usize = 0;
    while i < s.len()
        invariant
            i <= s.len(),
            forall|k: int| 0 <= k < i ==> s@[k] != c,
        decreases s.len() - i,
    {
        if s[i] == c {
            assert(s@[i as int] == c);
            return true;
        }
        i += 1;
    }
    false
}

/// Position of the first occurrence of `p` in `s`.
pub open spec fn first_match(s: Seq<char>, p: Seq<char>) -> Option<int> {
    if exists|i: int| has_at(s, p, i) {
        Some(choose|i: int| has_at(s, p, i) && forall|j: int| 0 <= j < i ==> !has_at(s, p, j))
    } else {
        None
    }
}

/// Finds the first position at which `p` occurs in `s` (`str::find`).
pub fn find(s: &Vec<char>, p: &Vec<char>) -> (r: Option<usize>)
    ensures
        match r {
            Some(i) => has_at(s@, p@, i as int) && forall|j: int| 0 <= j < i ==> !has_at(
                s@,
                p@,
                j,
            ),
            None => forall|j: int| !has_at(s@, p@, j),
        },
        r matches Some(i) ==> first_match(s@, p@) == Some(i as int),
        r is None ==> first_match(s@, p@) is None,
{
    if p.len() > s.len() {
        return None;
    }
    let last = s.len() - p.len();
    let mut i: usize = 0;
    loop
        invariant
            last == s.len() - p.len(),
            p.len() <= s.len(),
            i <= last,
            forall|j: int| 0 <= j < i ==> !has_at(s@, p@, j),
        decreases last - i,
    {
        if matches_at(s, p, i) {
            proof {
                let w = choose|k: int|
                    has_at(s@, p@, k) && forall|j: int| 0 <= j < k ==> !has_at(s@, p@, j);
                assert(has_at(s@, p@, i as int));
                if w < i {
                } else if w > i {
                    assert(!has_at(s@, p@, i as int));
                }
            }
            return Some(i);
        }
        if i == last {
            assert forall|j: int| !has_at(s@, p@, j) by {
                if 0 <= j <= i {
                } 
            }
            return None;
        }
        i += 1;
    }
}

// ─── Trimming ───────────────────────────────────────────────────────────────

/// Number of leading whitespace characters.
pub open spec fn lead_ws(s: Seq<char>) -> nat
    decreases s.len(),
{
    if s.len() > 0 && is_ws(s[0]) {
        1 + lead_ws(s.drop_first())
    } else {
        0
    }
}

/// Number of trailing whitespace characters.
pub open spec fn trail_ws(s: Seq<char>) -> nat
    decreases s.len(),
{
    if s.len() > 0 && is_ws(s.last()) {
        1 + trail_ws(s.drop_last())
    } else {
        0
    }
}

pub open spec fn trim_start(s: Seq<char>) -> Seq<char> {
    s.skip(lead_ws(s) as int)
}

pub open spec fn trim_end(s: Seq<char>) -> Seq<char> {
    s.take(s.len() - trail_ws(s))
}

/// `str::trim`: both ends stripped of whitespace.
pub open spec fn trim(s: Seq<char>) -> Seq<char> {
    trim_end(trim_start(s))
}

pub proof fn lemma_lead_ws_bound(s: Seq<char>)
    ensures
        lead_ws(s) <= s.len(),
        forall|k: int| 0 <= k < lead_ws(s) ==> is_ws(#[trigger] s[k]),
        lead_ws(s) < s.len() ==> !is_ws(s[lead_ws(s) as int]),
    decreases s.len(),
{
    if s.len() > 0 && is_ws(s[0]) {
        lemma_lead_ws_bound(s.drop_first());
        assert forall|k: int| 0 <= k < lead_ws(s) implies is_ws(#[trigger] s[k]) by {
            if k > 0 {
                assert(s[k] == s.drop_first()[k - 1]);
            }
        }
    }
}

pub proof fn lemma_trail_ws_bound(s: Seq<char>)
    ensures
        trail_ws(s) <= s.len(),
        forall|k: int| s.len() - trail_ws(s) <= k < s.len() ==> is_ws(#[trigger] s[k]),
        trail_ws(s) < s.len() ==> !is_ws(s[s.len() - trail_ws(s) - 1]),
    decreases s.len(),
{
    if s.len() > 0 && is_ws(s.last()) {
        lemma_trail_ws_bound(s.drop_last());
        assert forall|k: int| s.len() - trail_ws(s) <= k < s.len() implies is_ws(
            #[trigger] s[k],
        ) by {
            if k < s.len() - 1 {
                assert(s[k] == s.drop_last()[k]);
            }
        }
    }
}

/// Leading-whitespace count from a position, computed by scanning.
proof fn lemma_lead_ws_scan(s: Seq<char>, i: int)
    requires
        0 <= i <= s.len(),
        forall|k: int| 0 <= k < i ==> is_ws(#[trigger] s[k]),
        i == s.len() || !is_ws(s[i]),
    ensures
        lead_ws(s) == i,
    decreases i,
{
    if i > 0 {
        assert(is_ws(s[0]));
        assert forall|k: int| 0 <= k < i - 1 implies is_ws(#[trigger] s.drop_first()[k]) by {
            assert(s.drop_first()[k] == s[k + 1]);
        }
        if i < s.len() {
            assert(s.drop_first()[i - 1] == s[i]);
        }
        lemma_lead_ws_scan(s.drop_first(), i - 1);
    }
}

proof fn lemma_trail_ws_scan(s: Seq<char>, j: int)
    requires
        0 <= j <= s.len(),
        forall|k: int| j <= k < s.len() ==> is_ws(#[trigger] s[k]),
        j == 0 || !is_ws(s[j - 1]),
    ensures
        trail_ws(s) == s.len() - j,
    decreases s.len() - j,
{
    if j < s.len() {
        assert(is_ws(s.last()));
        assert forall|k: int| j <= k < s.len() - 1 implies is_ws(#[trigger] s.drop_last()[k]) by {
            assert(s.drop_last()[k] == s[k]);
        }
        if j > 0 {
            assert(s.drop_last()[j - 1] == s[j - 1]);
        }
        lemma_trail_ws_scan(s.drop_last(), j);
    }
}

/// `str::trim` on a character vector.
pub fn trim_vec(s: &Vec<char>) -> (r: Vec<char>)
    ensures
        r@ == trim(s@),
{
    let mut i: usize = 0;
    while i < s.len() && is_whitespace(s[i])
        invariant
            i <= s.len(),
            forall|k: int| 0 <= k < i ==> is_ws(#[trigger] s@[k]),
        decreases s.len() - i,
    {
        i += 1;
    }
    proof {
        lemma_lead_ws_scan(s@, i as int);
    }
    let mut j: usize = s.len();
    while j > i && is_whitespace(s[j - 1])
        invariant
            i <= j <= s.len(),
            forall|k: int| j <= k < s.len() ==> is_ws(#[trigger] s@[k]),
        decreases j,
    {
        j -= 1;
    }
    let ghost t = s@.skip(i as int);
    proof {
        assert forall|k: int| j - i <= k < t.len() implies is_ws(#[trigger] t[k]) by {
            assert(t[k] == s@[k + i]);
        }
        if j > i {
            assert(t[j - i - 1] == s@[j - 1]);
        }
        lemma_trail_ws_scan(t, j - i);
    }
    let r = slice_vec(s, i, j);
    assert(r@ =~= trim(s@));
    r
}

/// `str::trim_end` on a character vector.
pub fn trim_end_vec(s: &Vec<char>) -> (r: Vec<char>)
    ensures
        r@ == trim_end(s@),
{
    let mut j: usize = s.len();
    while j > 0 && is_whitespace(s[j - 1])
        invariant
            j <= s.len(),
            forall|k: int| j <= k < s.len() ==> is_ws(#[trigger] s@[k]),
        decreases j,
    {
        j -= 1;
    }
    proof {
        lemma_trail_ws_scan(s@, j as int);
    }
    let r = slice_vec(s, 0, j);
    assert(r@ =~= trim_end(s@));
    r
}

/// `str::trim_start` on a character vector.
pub fn trim_start_vec(s: &Vec<char>) -> (r: Vec<char>)
    ensures
        r@ == trim_start(s@),
{
    let mut i: usize = 0;
    while i < s.len() && is_whitespace(s[i])
        invariant
            i <= s.len(),
            forall|k: int| 0 <= k < i ==> is_ws(#[trigger] s@[k]),
        decreases s.len() - i,
    {
        i += 1;
    }
    proof {
        lemma_lead_ws_scan(s@, i as int);
    }
    let r = slice_vec(s, i, s.len());
    assert(r@ =~= trim_start(s@));
    r
}

pub fn trim_str(s: &str) -> (r: Vec<char>)
    ensures
        r@ == trim(s@),
{
    let v = chars_of(s);
    trim_vec(&v)
}

/// Copy of `s[from..to]`.
pub fn slice_vec(s: &Vec<char>, from: usize, to: usize) -> (r: Vec<char>)
    requires
        from <= to <= s.len(),
    ensures
        r@ == s@.subrange(from as int, to as int),
{
    let mut r: Vec<char> = Vec::new();
    let mut k: usize = from;
    while k < to
        invariant
            from <= k <= to <= s.len(),
            r@ == s@.subrange(from as int, k as int),
        decreases to - k,
    {
        r.push(s[k]);
        assert(s@.subrange(from as int, k as int).push(s@[k as int]) =~= s@.subrange(
            from as int,
            k + 1,
        ));
        k += 1;
    }
    r
}

// ─── Words and fields ───────────────────────────────────────────────────────

/// What separates the fields of a text.
#[derive(Clone, Copy)]
pub enum Sep {
    /// Any whitespace character.
    Ws,
    /// One given character.
    Ch(char),
}

pub open spec fn is_sep(m: Sep, c: char) -> bool {
    match m {
        Sep::Ws => is_ws(c),
        Sep::Ch(x) => c == x,
    }
}

fn sep_test(m: Sep, c: char) -> (b: bool)
    ensures
        b == is_sep(m, c),
{
    match m {
        Sep::Ws => is_whitespace(c),
        Sep::Ch(x) => c == x,
    }
}

/// Length of the run of non-separator characters that starts `s`.
pub open spec fn field_len(s: Seq<char>, m: Sep) -> nat
    decreases s.len(),
{
    if s.len() == 0 || is_sep(m, s[0]) {
        0
    } else {
        1 + field_len(s.drop_first(), m)
    }
}

pub proof fn lemma_field_len_bound(s: Seq<char>, m: Sep)
    ensures
        field_len(s, m) <= s.len(),
    decreases s.len(),
{
    if s.len() > 0 && !is_sep(m, s[0]) {
        lemma_field_len_bound(s.drop_first(), m);
    }
}

/// The non-empty runs of non-separator characters of `s`, in order
/// (`split_whitespace`, or `split(c).filter(|p| !p.is_empty())`).
pub open spec fn fields(s: Seq<char>, m: Sep) -> Seq<Seq<char>>
    decreases s.len(),
{
    if s.len() == 0 {
        seq![]
    } else if is_sep(m, s[0]) {
        fields(s.drop_first(), m)
    } else {
        proof {
            lemma_field_len_bound(s, m);
        }
        let n = field_len(s, m);
        seq![s.take(n as int)] + fields(s.skip(n as int), m)
    }
}

/// The whitespace-separated words of `s` (`str::split_whitespace`).
pub open spec fn words(s: Seq<char>) -> Seq<Seq<char>> {
    fields(s, Sep::Ws)
}

proof fn lemma_field_len_scan(s: Seq<char>, m: Sep, n: int)
    requires
        0 <= n <= s.len(),
        forall|k: int| 0 <= k < n ==> !is_sep(m, #[trigger] s[k]),
        n == s.len() || is_sep(m, s[n]),
    ensures
        field_len(s, m) == n,
    decreases n,
{
    if n > 0 {
        assert forall|k: int| 0 <= k < n - 1 implies !is_sep(m, #[trigger] s.drop_first()[k]) by {
            assert(s.drop_first()[k] == s[k + 1]);
        }
        if n < s.len() {
            assert(s.drop_first()[n - 1] == s[n]);
        }
        lemma_field_len_scan(s.drop_first(), m, n - 1);
    }
}

pub open spec fn views(v: Seq<Vec<char>>) -> Seq<Seq<char>> {
    v.map_values(|w: Vec<char>| w@)
}

/// Splits `s` into its fields.
pub fn split_fields(s: &Vec<char>, m: Sep) -> (r: Vec<Vec<char>>)
    ensures
        views(r@) == fields(s@, m),
{
    let mut r: Vec<Vec<char>> = Vec::new();
    let mut i: usize = 0;
    assert(s@.skip(0) =~= s@);
    while i < s.len()
        invariant
            i <= s.len(),
            views(r@) + fields(s@.skip(i as int), m) == fields(s@, m),
        decreases s.len() - i,
    {
        let ghost rest = s@.skip(i as int);
        if sep_test(m, s[i]) {
            assert(rest[0] == s@[i as int]);
            assert(rest.drop_first() =~= s@.skip(i + 1));
            i += 1;
        } else {
            let mut j: usize = i;
            while j < s.len() && !sep_test(m, s[j])
                invariant
                    i <= j <= s.len(),
                    forall|k: int| i <= k < j ==> !is_sep(m, #[trigger] s@[k]),
                decreases s.len() - j,
            {
                j += 1;
            }
            proof {
                assert forall|k: int| 0 <= k < j - i implies !is_sep(m, #[trigger] rest[k]) by {
                    assert(rest[k] == s@[k + i]);
                }
                if j < s.len() {
                    assert(rest[j - i] == s@[j as int]);
                }
                lemma_field_len_scan(rest, m, j - i);
                assert(rest[0] == s@[i as int]);
                assert(rest.take(j - i) =~= s@.subrange(i as int, j as int));
                assert(rest.skip(j - i) =~= s@.skip(j as int));
            }
            let w = slice_vec(s, i, j);
            let ghost before = views(r@);
            r.push(w);
            assert(views(r@) =~= before.push(w@));
            assert(fields(rest, m) == seq![rest.take(j - i)] + fields(rest.skip(j - i), m));
            assert(before.push(w@) + fields(s@.skip(j as int), m) =~= before + fields(rest, m));
            i = j;
        }
    }
    assert(s@.skip(s.len() as int) =~= Seq::<char>::empty());
    assert(views(r@) + fields(Seq::<char>::empty(), m) =~= views(r@));
    r
}

/// `str::split_whitespace` on a character vector.
pub fn split_ws(s: &Vec<char>) -> (r: Vec<Vec<char>>)
    ensures
        views(r@) == words(s@),
{
    split_fields(s, Sep::Ws)
}

// ─── Lines ──────────────────────────────────────────────────────────────────

/// Length of `s` up to its first line feed.
pub open spec fn nl_len(s: Seq<char>) -> nat
    decreases s.len(),
{
    if s.len() == 0 || s[0] == '\n' {
        0
    } else {
        1 + nl_len(s.drop_first())
    }
}

pub proof fn lemma_nl_len_bound(s: Seq<char>)
    ensures
        nl_len(s) <= s.len(),
        nl_len(s) < s.len() ==> s[nl_len(s) as int] == '\n',
    decreases s.len(),
{
    if s.len() > 0 && s[0] != '\n' {
        lemma_nl_len_bound(s.drop_first());
    }
}

proof fn lemma_nl_len_scan(s: Seq<char>, n: int)
    requires
        0 <= n <= s.len(),
        forall|k: int| 0 <= k < n ==> #[trigger] s[k] != '\n',
        n == s.len() || s[n] == '\n',
    ensures
        nl_len(s) == n,
    decreases n,
{
    if n > 0 {
        assert forall|k: int| 0 <= k < n - 1 implies #[trigger] s.drop_first()[k] != '\n' by {
            assert(s.drop_first()[k] == s[k + 1]);
        }
        if n < s.len() {
            assert(s.drop_first()[n - 1] == s[n]);
        }
        lemma_nl_len_scan(s.drop_first(), n - 1);
    }
}

/// A line without the carriage return that preceded its line feed.
pub open spec fn strip_cr(l: Seq<char>) -> Seq<char> {
    if l.len() > 0 && l.last() == '\r' {
        l.drop_last()
    } else {
        l
    }
}

/// The lines of `s` (`str::lines`): split at each line feed, a carriage return just
/// before a line feed is dropped, and a final line feed does not start an empty line.
pub open spec fn lines(s: Seq<char>) -> Seq<Seq<char>>
    decreases s.len(),
{
    if s.len() == 0 {
        seq![]
    } else {
        proof {
            lemma_nl_len_bound(s);
        }
        let n = nl_len(s);
        if n < s.len() {
            seq![strip_cr(s.take(n as int))] + lines(s.skip(n as int + 1))
        } else {
            seq![s]
        }
    }
}

proof fn lemma_nl_len_prefix(p: Seq<char>, rest: Seq<char>)
    ensures
        nl_len(p) < p.len() ==> nl_len(p + rest) == nl_len(p),
        nl_len(p) == p.len() ==> nl_len(p + rest) == p.len() + nl_len(rest),
    decreases p.len(),
{
    if p.len() > 0 {
        assert((p + rest)[0] == p[0]);
        if p[0] != '\n' {
            assert((p + rest).drop_first() =~= p.drop_first() + rest);
            lemma_nl_len_prefix(p.drop_first(), rest);
        }
    } else {
        assert(p + rest =~= rest);
    }
}

/// Text joined to more text by a line feed has the first text's lines (as if it
/// ended with that line feed), then the second's.
pub proof fn lemma_lines_join(p: Seq<char>, md: Seq<char>)
    ensures
        lines(p + "\n"@ + md) == lines(p + "\n"@) + lines(md),
    decreases p.len(),
{
    reveal_strlit("\n");
    let nl = "\n"@;
    let s = p + nl + md;
    let q = p + nl;
    lemma_nl_len_bound(p);
    lemma_nl_len_prefix(p, nl + md);
    lemma_nl_len_prefix(p, nl);
    assert(s =~= p + (nl + md));
    assert(nl_len(nl + md) == 0);
    assert(nl_len(nl) == 0);
    let k: int = nl_len(p) as int;
    if k < p.len() {
        assert(s.skip(k + 1) =~= p.skip(k + 1) + nl + md);
        assert(q.skip(k + 1) =~= p.skip(k + 1) + nl);
        assert(s.take(k) =~= p.take(k));
        assert(q.take(k) =~= p.take(k));
        lemma_nl_len_bound(s);
        lemma_nl_len_bound(q);
        lemma_lines_join(p.skip(k + 1), md);
        assert(lines(s) =~= seq![strip_cr(p.take(k))] + lines(p.skip(k + 1) + nl + md));
        assert(lines(q) =~= seq![strip_cr(p.take(k))] + lines(p.skip(k + 1) + nl));
    } else {
        assert(nl_len(s) == p.len());
        assert(nl_len(q) == p.len());
        assert(s.take(k) =~= p);
        assert(q.take(k) =~= p);
        assert(s.skip(k + 1) =~= md);
        assert(q.skip(k + 1) =~= Seq::<char>::empty());
        assert(lines(Seq::<char>::empty()) =~= Seq::<Seq<char>>::empty());
        assert(lines(q) == seq![strip_cr(q.take(k))] + lines(q.skip(k + 1)));
        assert(lines(q) =~= seq![strip_cr(p)]);
        assert(lines(s) == seq![strip_cr(s.take(k))] + lines(s.skip(k + 1)));
        assert(lines(s) =~= seq![strip_cr(p)] + lines(md));
    }
}

/// Each line of `p` followed by a line feed is a line of `p` or a prefix of one, or
/// empty.
pub proof fn lemma_lines_with_nl(p: Seq<char>, i: int)
    requires
        0 <= i < lines(p + "\n"@).len(),
    ensures
        lines(p + "\n"@)[i].len() == 0 || exists|j: int|
            0 <= j < lines(p).len() && (#[trigger] lines(p)[j]).len() >= lines(p + "\n"@)[i].len()
                && lines(p)[j].take(lines(p + "\n"@)[i].len() as int) == lines(p + "\n"@)[i],
    decreases p.len(),
{
    reveal_strlit("\n");
    let nl = "\n"@;
    let q = p + nl;
    lemma_nl_len_bound(p);
    lemma_nl_len_prefix(p, nl);
    assert(nl_len(nl) == 0);
    let k: int = nl_len(p) as int;
    lemma_nl_len_bound(q);
    if k < p.len() {
        assert(q.skip(k + 1) =~= p.skip(k + 1) + nl);
        assert(q.take(k) =~= p.take(k));
        assert(lines(q) =~= seq![strip_cr(p.take(k))] + lines(p.skip(k + 1) + nl));
        assert(lines(p) =~= seq![strip_cr(p.take(k))] + lines(p.skip(k + 1)));
        if i == 0 {
            let l = lines(q)[0];
            assert(lines(p)[0] == l);
            assert(l.take(l.len() as int) =~= l);
        } else {
            lemma_lines_with_nl(p.skip(k + 1), i - 1);
            let l = lines(q)[i];
            assert(l == lines(p.skip(k + 1) + nl)[i - 1]);
            if l.len() > 0 {
                let ls = lines(p.skip(k + 1));
                let j = choose|j: int|
                    0 <= j < ls.len() && (#[trigger] ls[j]).len() >= l.len() && ls[j].take(
                        l.len() as int,
                    ) == l;
                assert(lines(p)[j + 1] == lines(p.skip(k + 1))[j]);
            }
        }
    } else {
        assert(q.take(k) =~= p);
        assert(q.skip(k + 1) =~= Seq::<char>::empty());
        assert(lines(Seq::<char>::empty()) =~= Seq::<Seq<char>>::empty());
        assert(lines(q) == seq![strip_cr(q.take(k))] + lines(q.skip(k + 1)));
        assert(lines(q) =~= seq![strip_cr(p)]);
        let l = strip_cr(p);
        assert(lines(q)[i] == l);
        if p.len() > 0 {
            assert(lines(p) =~= seq![p]);
            assert(p.take(l.len() as int) =~= l);
            assert(lines(p)[0] == p);
        }
    }
}

/// Splits `s` into its lines.
pub fn split_lines(s: &Vec<char>) -> (r: Vec<Vec<char>>)
    ensures
        views(r@) == lines(s@),
{
    let mut r: Vec<Vec<char>> = Vec::new();
    let mut i: usize = 0;
    assert(s@.skip(0) =~= s@);
    while i < s.len()
        invariant
            i <= s.len(),
            views(r@) + lines(s@.skip(i as int)) == lines(s@),
        decreases s.len() - i,
    {
        let ghost rest = s@.skip(i as int);
        let mut j: usize = i;
        while j < s.len() && s[j] != '\n'
            invariant
                i <= j <= s.len(),
                forall|k: int| i <= k < j ==> #[trigger] s@[k] != '\n',
            decreases s.len() - j,
        {
            j += 1;
        }
        proof {
            assert forall|k: int| 0 <= k < j - i implies #[trigger] rest[k] != '\n' by {
                assert(rest[k] == s@[k + i]);
            }
            if j < s.len() {
                assert(rest[j - i] == s@[j as int]);
            }
            lemma_nl_len_scan(rest, j - i);
            assert(rest.take(j - i) =~= s@.subrange(i as int, j as int));
        }
        let ghost before = views(r@);
        if j < s.len() {
            let mut end = j;
            if end > i && s[end - 1] == '\r' {
                end = end - 1;
            }
            let w = slice_vec(s, i, end);
            assert(w@ == strip_cr(rest.take(j - i)));
            r.push(w);
            assert(views(r@) =~= before.push(w@));
            assert(rest.skip(j - i + 1) =~= s@.skip(j + 1));
            assert(before.push(w@) + lines(s@.skip(j + 1)) =~= before + lines(rest));
            i = j + 1;
        } else {
            let w = slice_vec(s, i, j);
            assert(w@ =~= rest);
            r.push(w);
            assert(views(r@) =~= before.push(w@));
            assert(s@.skip(j as int) =~= Seq::<char>::empty());
            assert(before.push(w@) + lines(s@.skip(j as int)) =~= before + lines(rest));
            i = j;
        }
    }
    assert(s@.skip(s.len() as int) =~= Seq::<char>::empty());
    assert(views(r@) + lines(Seq::<char>::empty()) =~= views(r@));
    r
}

/// Parts joined with a separator between consecutive parts.
pub open spec fn join(parts: Seq<Seq<char>>, sep: Seq<char>) -> Seq<char>
    decreases parts.len(),
{
    if parts.len() == 0 {
        seq![]
    } else if parts.len() == 1 {
        parts[0]
    } else {
        join(parts.drop_last(), sep) + sep + parts.last()
    }
}

/// Joins the parts with `sep` in between (`[..].join(sep)`).
pub fn join_vec(parts: &Vec<Vec<char>>, sep: &Vec<char>) -> (r: Vec<char>)
    ensures
        r@ == join(views(parts@), sep@),
{
    let mut r: Vec<char> = Vec::new();
    let mut i: usize = 0;
    while i < parts.len()
        invariant
            i <= parts.len(),
            r@ == join(views(parts@).take(i as int), sep@),
        decreases parts.len() - i,
    {
        let ghost p = views(parts@);
        assert(p.take(i + 1).drop_last() =~= p.take(i as int));
        assert(p.take(i + 1).last() == parts@[i as int]@);
        if i > 0 {
            extend_chars(&mut r, sep);
        } else {
            assert(p.take(1) =~= seq![parts@[0]@]);
        }
        extend_chars(&mut r, &parts[i]);
        i += 1;
    }
    assert(views(parts@).take(parts.len() as int) =~= views(parts@));
    r
}

/// Collapses whitespace runs to single spaces and trims the ends
/// (`split_whitespace().collect::<Vec<_>>().join(" ")`).
pub open spec fn collapse_ws(s: Seq<char>) -> Seq<char> {
    join(words(s), seq![' '])
}

pub fn collapse_ws_vec(s: &Vec<char>) -> (r: Vec<char>)
    ensures
        r@ == collapse_ws(s@),
{
    let ws = split_ws(s);
    let mut sep: Vec<char> = Vec::new();
    sep.push(' ');
    assert(sep@ =~= seq![' ']);
    join_vec(&ws, &sep)
}

/// The piece after the last separator when `s` is split on `pat`
/// (`s.split(pat).last()`), separators found left to right without overlap.
pub open spec fn split_last(s: Seq<char>, pat: Seq<char>) -> Seq<char>
    decreases s.len(),
{
    if pat.len() > 0 && first_match(s, pat) is Some {
        let i = first_match(s, pat)->0;
        if 0 <= i && i + pat.len() <= s.len() {
            split_last(s.skip(i + pat.len()), pat)
        } else {
            s
        }
    } else {
        s
    }
}

pub fn split_last_vec(s: &Vec<char>, pat: &Vec<char>) -> (r: Vec<char>)
    requires
        pat.len() > 0,
    ensures
        r@ == split_last(s@, pat@),
{
    let mut cur: Vec<char> = slice_vec(s, 0, s.len());
    assert(cur@ =~= s@);
    loop
        invariant
            pat.len() > 0,
            split_last(cur@, pat@) == split_last(s@, pat@),
        decreases cur.len(),
    {
        match find(&cur, pat) {
            Some(i) => {
                let next = slice_vec(&cur, i + pat.len(), cur.len());
                assert(next@ =~= cur@.skip(i + pat@.len()));
                cur = next;
            },
            None => {
                return cur;
            },
        }
    }
}

/// `s` without its trailing run of `c` (`str::trim_end_matches(c)`).
pub open spec fn trim_end_char(s: Seq<char>, c: char) -> Seq<char>
    decreases s.len(),
{
    if s.len() > 0 && s.last() == c {
        trim_end_char(s.drop_last(), c)
    } else {
        s
    }
}

pub fn trim_end_char_vec(s: &Vec<char>, c: char) -> (r: Vec<char>)
    ensures
        r@ == trim_end_char(s@, c),
{
    let mut j: usize = s.len();
    assert(s@.take(s.len() as int) =~= s@);
    while j > 0 && s[j - 1] == c
        invariant
            j <= s.len(),
            trim_end_char(s@.take(j as int), c) == trim_end_char(s@, c),
        decreases j,
    {
        assert(s@.take(j as int).drop_last() =~= s@.take(j - 1));
        j -= 1;
    }
    let r = slice_vec(s, 0, j);
    assert(r@ =~= s@.take(j as int));
    r
}

// ─── Escaping and replacing ─────────────────────────────────────────────────

/// Every non-overlapping occurrence of `pat` (scanning left to right)
/// replaced by `rep` (`str::replace`).
pub open spec fn replace_all(s: Seq<char>, pat: Seq<char>, rep: Seq<char>) -> Seq<char>
    recommends
        pat.len() > 0,
    decreases s.len(),
{
    if s.len() == 0 || pat.len() == 0 {
        s
    } else if starts_with(s, pat) {
        rep + replace_all(s.skip(pat.len() as int), pat, rep)
    } else {
        seq![s[0]] + replace_all(s.drop_first(), pat, rep)
    }
}

pub fn replace_vec(s: &Vec<char>, pat: &Vec<char>, rep: &Vec<char>) -> (r: Vec<char>)
    requires
        pat.len() > 0,
    ensures
        r@ == replace_all(s@, pat@, rep@),
{
    let mut r: Vec<char> = Vec::new();
    let mut i: usize = 0;
    assert(s@.skip(0) =~= s@);
    while i < s.len()
        invariant
            pat.len() > 0,
            i <= s.len(),
            r@ + replace_all(s@.skip(i as int), pat@, rep@) == replace_all(s@, pat@, rep@),
        decreases s.len() - i,
    {
        let ghost rest = s@.skip(i as int);
        let m = matches_at(s, pat, i);
        proof {
            if m {
                assert(rest.take(pat@.len() as int) =~= s@.subrange(i as int, i + pat@.len()));
            } else if pat@.len() <= rest.len() {
                assert(rest.take(pat@.len() as int) =~= s@.subrange(i as int, i + pat@.len()));
            }
        }
        if m {
            let ghost before = r@;
            extend_chars(&mut r, rep);
            assert(rest.skip(pat@.len() as int) =~= s@.skip(i + pat@.len()));
            assert(before + rep@ + replace_all(s@.skip(i + pat@.len()), pat@, rep@) =~= before
                + replace_all(rest, pat@, rep@));
            i += pat.len();
        } else {
            let ghost before = r@;
            r.push(s[i]);
            assert(rest[0] == s@[i as int]);
            assert(rest.drop_first() =~= s@.skip(i + 1));
            assert(before.push(s@[i as int]) + replace_all(s@.skip(i + 1), pat@, rep@)
                =~= before + replace_all(rest, pat@, rep@));
            i += 1;
        }
    }
    assert(s@.skip(s.len() as int) =~= Seq::<char>::empty());
    assert(r@ + Seq::<char>::empty() =~= r@);
    r
}

pub fn replace_str(s: &str, pat: &str, rep: &str) -> (r: Vec<char>)
    requires
        s@.len() >= 0,
        pat@.len() > 0,
    ensures
        r@ == replace_all(s@, pat@, rep@),
{
    let sv = chars_of(s);
    let pv = chars_of(pat);
    let rv = chars_of(rep);
    replace_vec(&sv, &pv, &rv)
}

} // verus!

verus! {

// ─── Unicode case and class (std) ───────────────────────────────────────────

/// What `str::to_lowercase` returns for a text.
pub uninterp spec fn spec_lowercase(s: Seq<char>) -> Seq<char>;

/// `str::to_lowercase`: Unicode lower-casing of a whole text.
#[verifier::external_body]
pub(crate) fn lowercase(s: &str) -> (r: String)
    ensures
        r@ == spec_lowercase(s@),
{
    s.to_lowercase()
}

/// What `char::is_alphanumeric` answers for a character.
pub uninterp spec fn spec_is_alphanumeric(c: char) -> bool;

/// `char::is_alphanumeric`: the Unicode Alphabetic or Numeric property.
#[verifier::external_body]
pub(crate) fn is_alphanumeric(c: char) -> (b: bool)
    ensures
        b == spec_is_alphanumeric(c),
{
    c.is_alphanumeric()
}

/// What `char::to_uppercase` yields for a character.
pub uninterp spec fn spec_upper_char(c: char) -> Seq<char>;

/// `char::to_uppercase`, collected: the Unicode upper-case mapping of one character.
#[verifier::external_body]
pub(crate) fn upper_char(c: char) -> (r: String)
    ensures
        r@ == spec_upper_char(c),
{
    c.to_uppercase().collect::<String>()
}

} // verus!

verus! {

// ─── Numbers ────────────────────────────────────────────────────────────────

pub open spec fn digit_char(d: nat) -> char {
    if d == 0 { '0' }
    else if d == 1 { '1' }
    else if d == 2 { '2' }
    else if d == 3 { '3' }
    else if d == 4 { '4' }
    else if d == 5 { '5' }
    else if d == 6 { '6' }
    else if d == 7 { '7' }
    else if d == 8 { '8' }
    else { '9' }
}

/// Decimal rendering of a number, as `format!("{}", n)` prints it.
pub open spec fn decimal(n: nat) -> Seq<char>
    decreases n,
{
    if n < 10 {
        seq![digit_char(n)]
    } else {
        decimal(n / 10).push(digit_char(n % 10))
    }
}

fn digit(d: u64) -> (c: char)
    requires
        d < 10,
    ensures
        c == digit_char(d as nat),
{
    if d == 0 { '0' }
    else if d == 1 { '1' }
    else if d == 2 { '2' }
    else if d == 3 { '3' }
    else if d == 4 { '4' }
    else if d == 5 { '5' }
    else if d == 6 { '6' }
    else if d == 7 { '7' }
    else if d == 8 { '8' }
    else { '9' }
}

pub fn decimal_vec(n: u64) -> (r: Vec<char>)
    ensures
        r@ == decimal(n as nat),
    decreases n,
{
    if n < 10 {
        let mut r: Vec<char> = Vec::new();
        r.push(digit(n));
        assert(r@ =~= seq![digit_char(n as nat)]);
        r
    } else {
        let mut r = decimal_vec(n / 10);
        r.push(digit(n % 10));
        r
    }
}

} // verus!

verus! {

// ─── Trimming by character class ────────────────────────────────────────────

/// `s` without its leading run of `c`.
pub open spec fn trim_start_char(s: Seq<char>, c: char) -> Seq<char>
    decreases s.len(),
{
    if s.len() > 0 && s[0] == c {
        trim_start_char(s.drop_first(), c)
    } else {
        s
    }
}

/// `str::trim_matches(c)` for one character.
pub open spec fn trim_matches_char(s: Seq<char>, c: char) -> Seq<char> {
    trim_end_char(trim_start_char(s, c), c)
}

pub fn trim_start_char_vec(s: &Vec<char>, c: char) -> (r: Vec<char>)
    ensures
        r@ == trim_start_char(s@, c),
{
    let mut i: usize = 0;
    assert(s@.skip(0) =~= s@);
    while i < s.len() && s[i] == c
        invariant
            i <= s.len(),
            trim_start_char(s@.skip(i as int), c) == trim_start_char(s@, c),
        decreases s.len() - i,
    {
        assert(s@.skip(i as int).drop_first() =~= s@.skip(i + 1));
        i += 1;
    }
    let r = slice_vec(s, i, s.len());
    assert(r@ =~= s@.skip(i as int));
    r
}

pub fn trim_matches_char_vec(s: &Vec<char>, c: char) -> (r: Vec<char>)
    ensures
        r@ == trim_matches_char(s@, c),
{
    let a = trim_start_char_vec(s, c);
    trim_end_char_vec(&a, c)
}

/// `s` without the leading and trailing characters that are not alphanumeric
/// (`str::trim_matches(|c: char| !c.is_alphanumeric())`).
pub open spec fn trim_non_alnum(s: Seq<char>) -> Seq<char> {
    trim_end_non_alnum(trim_start_non_alnum(s))
}

pub open spec fn trim_start_non_alnum(s: Seq<char>) -> Seq<char>
    decreases s.len(),
{
    if s.len() > 0 && !spec_is_alphanumeric(s[0]) {
        trim_start_non_alnum(s.drop_first())
    } else {
        s
    }
}

pub open spec fn trim_end_non_alnum(s: Seq<char>) -> Seq<char>
    decreases s.len(),
{
    if s.len() > 0 && !spec_is_alphanumeric(s.last()) {
        trim_end_non_alnum(s.drop_last())
    } else {
        s
    }
}

pub fn trim_non_alnum_vec(s: &Vec<char>) -> (r: Vec<char>)
    ensures
        r@ == trim_non_alnum(s@),
{
    let mut i: usize = 0;
    assert(s@.skip(0) =~= s@);
    while i < s.len() && !is_alphanumeric(s[i])
        invariant
            i <= s.len(),
            trim_start_non_alnum(s@.skip(i as int)) == trim_start_non_alnum(s@),
        decreases s.len() - i,
    {
        assert(s@.skip(i as int).drop_first() =~= s@.skip(i + 1));
        i += 1;
    }
    let a = slice_vec(s, i, s.len());
    assert(a@ =~= s@.skip(i as int));
    let mut j: usize = a.len();
    assert(a@.take(a.len() as int) =~= a@);
    while j > 0 && !is_alphanumeric(a[j - 1])
        invariant
            j <= a.len(),
            trim_end_non_alnum(a@.take(j as int)) == trim_end_non_alnum(a@),
        decreases j,
    {
        assert(a@.take(j as int).drop_last() =~= a@.take(j - 1));
        j -= 1;
    }
    let r = slice_vec(&a, 0, j);
    assert(r@ =~= a@.take(j as int));
    r
}

pub open spec fn all_ascii_digits(s: Seq<char>) -> bool {
    forall|i: int| 0 <= i < s.len() ==> is_ascii_digit(#[trigger] s[i])
}

pub fn is_all_ascii_digits(s: &Vec<char>) -> (b: bool)
    ensures
        b == all_ascii_digits(s@),
{
    let mut i: usize = 0;
    while i < s.len()
        invariant
            i <= s.len(),
            forall|k: int| 0 <= k < i ==> is_ascii_digit(#[trigger] s@[k]),
        decreases s.len() - i,
    {
        if !('0' <= s[i] && s[i] <= '9') {
            assert(!is_ascii_digit(s@[i as int]));
            return false;
        }
        i += 1;
    }
    true
}

} // verus!

verus! {

// ─── UTF-8 length ───────────────────────────────────────────────────────────

/// Number of bytes UTF-8 takes for a character.
pub open spec fn char_width(c: char) -> nat {
    if (c as u32) < 0x80 {
        1
    } else if (c as u32) < 0x800 {
        2
    } else if (c as u32) < 0x10000 {
        3
    } else {
        4
    }
}

/// Length in bytes of the UTF-8 encoding of `s` (`str::len`).
pub open spec fn byte_len(s: Seq<char>) -> nat
    decreases s.len(),
{
    if s.len() == 0 {
        0
    } else {
        byte_len(s.drop_last()) + char_width(s.last())
    }
}

pub fn char_width_of(c: char) -> (w: u64)
    ensures
        w == char_width(c),
{
    let v = c as u32;
    if v < 0x80 {
        1
    } else if v < 0x800 {
        2
    } else if v < 0x10000 {
        3
    } else {
        4
    }
}

/// `min(byte_len(s), cap)`.
pub fn byte_len_capped(s: &Vec<char>, cap: u64) -> (r: u64)
    ensures
        r == if byte_len(s@) < cap { byte_len(s@) } else { cap as nat },
{
    let mut total: u64 = 0;
    let mut i: usize = 0;
    while i < s.len()
        invariant
            i <= s.len(),
            total == if byte_len(s@.take(i as int)) < cap {
                byte_len(s@.take(i as int))
            } else {
                cap as nat
            },
        decreases s.len() - i,
    {
        assert(s@.take(i + 1).drop_last() =~= s@.take(i as int));
        let w = char_width_of(s[i]);
        if total < cap {
            if w >= cap - total {
                total = cap;
            } else {
                total = total + w;
            }
        }
        i += 1;
    }
    assert(s@.take(s.len() as int) =~= s@);
    total
}

} // verus!

verus! {

pub proof fn lemma_byte_len_concat(a: Seq<char>, b: Seq<char>)
    ensures
        byte_len(a + b) == byte_len(a) + byte_len(b),
    decreases b.len(),
{
    if b.len() == 0 {
        assert(a + b =~= a);
    } else {
        lemma_byte_len_concat(a, b.drop_last());
        assert((a + b).drop_last() =~= a + b.drop_last());
        assert((a + b).last() == b.last());
    }
}

/// Longer prefixes take strictly more bytes.
pub proof fn lemma_byte_len_take_mono(s: Seq<char>, a: int, b: int)
    requires
        0 <= a <= b <= s.len(),
    ensures
        byte_len(s.take(a)) + (b - a) <= byte_len(s.take(b)),
    decreases b - a,
{
    if a < b {
        lemma_byte_len_take_mono(s, a, b - 1);
        assert(s.take(b).drop_last() =~= s.take(b - 1));
    }
}

} // verus!

verus! {

// ─── Splitting on a character (keeping empty pieces) ───────────────────────

/// Length of `s` up to its first `c`.
pub open spec fn run_len(s: Seq<char>, c: char) -> nat
    decreases s.len(),
{
    if s.len() == 0 || s[0] == c {
        0
    } else {
        1 + run_len(s.drop_first(), c)
    }
}

pub proof fn lemma_run_len_bound(s: Seq<char>, c: char)
    ensures
        run_len(s, c) <= s.len(),
    decreases s.len(),
{
    if s.len() > 0 && s[0] != c {
        lemma_run_len_bound(s.drop_first(), c);
    }
}

proof fn lemma_run_len_scan(s: Seq<char>, c: char, n: int)
    requires
        0 <= n <= s.len(),
        forall|k: int| 0 <= k < n ==> #[trigger] s[k] != c,
        n == s.len() || s[n] == c,
    ensures
        run_len(s, c) == n,
    decreases n,
{
    if n > 0 {
        assert forall|k: int| 0 <= k < n - 1 implies #[trigger] s.drop_first()[k] != c by {
            assert(s.drop_first()[k] == s[k + 1]);
        }
        if n < s.len() {
            assert(s.drop_first()[n - 1] == s[n]);
        }
        lemma_run_len_scan(s.drop_first(), c, n - 1);
    }
}

/// `s.split(c)`: the pieces between occurrences of `c`, empty ones included.
pub open spec fn pieces(s: Seq<char>, c: char) -> Seq<Seq<char>>
    decreases s.len(),
{
    if s.len() == 0 {
        seq![s]
    } else {
        proof {
            lemma_run_len_bound(s, c);
        }
        let n = run_len(s, c);
        if n < s.len() {
            seq![s.take(n as int)] + pieces(s.skip(n as int + 1), c)
        } else {
            seq![s]
        }
    }
}

/// `split` always yields at least one piece.
pub proof fn lemma_pieces_nonempty(s: Seq<char>, c: char)
    ensures
        pieces(s, c).len() >= 1,
{
    if s.len() > 0 {
        lemma_run_len_bound(s, c);
    }
}

pub fn split_char(s: &Vec<char>, c: char) -> (r: Vec<Vec<char>>)
    ensures
        views(r@) == pieces(s@, c),
{
    let mut r: Vec<Vec<char>> = Vec::new();
    let mut i: usize = 0;
    assert(s@.skip(0) =~= s@);
    loop
        invariant
            i <= s.len(),
            views(r@) + pieces(s@.skip(i as int), c) == pieces(s@, c),
        decreases s.len() - i,
    {
        let ghost rest = s@.skip(i as int);
        let mut j: usize = i;
        while j < s.len() && s[j] != c
            invariant
                i <= j <= s.len(),
                forall|k: int| i <= k < j ==> #[trigger] s@[k] != c,
            decreases s.len() - j,
        {
            j += 1;
        }
        proof {
            assert forall|k: int| 0 <= k < j - i implies #[trigger] rest[k] != c by {
                assert(rest[k] == s@[k + i]);
            }
            if j < s.len() {
                assert(rest[j - i] == s@[j as int]);
            }
            lemma_run_len_scan(rest, c, j - i);
        }
        let w = slice_vec(s, i, j);
        let ghost before = views(r@);
        r.push(w);
        assert(views(r@) =~= before.push(w@));
        if j < s.len() {
            assert(rest.take(j - i) =~= w@);
            assert(rest.skip(j - i + 1) =~= s@.skip(j + 1));
            assert(before.push(w@) + pieces(s@.skip(j + 1), c) =~= before + pieces(rest, c));
            i = j + 1;
        } else {
            assert(w@ =~= rest);
            assert(views(r@) =~= before + pieces(rest, c));
            return r;
        }
    }
}

} // verus!

verus! {

// ─── Byte prefixes ──────────────────────────────────────────────────────────

/// Whether some prefix of `s` takes exactly `n` bytes.
pub open spec fn is_byte_boundary(s: Seq<char>, n: nat) -> bool {
    exists|k: int| 0 <= k <= s.len() && #[trigger] byte_len(s.take(k)) == n
}

pub open spec fn min_bytes(s: Seq<char>, n: nat) -> nat {
    if byte_len(s) < n {
        byte_len(s)
    } else {
        n
    }
}

/// The prefix of `s` that takes `min(byte_len(s), n)` bytes, where there is one.
pub open spec fn byte_prefix_of(s: Seq<char>, n: nat) -> Seq<char> {
    s.take(choose|k: int| 0 <= k <= s.len() && #[trigger] byte_len(s.take(k)) == min_bytes(s, n))
}

/// The prefix of `s` that takes `min(byte_len(s), n)` bytes: `&s[..s.len().min(n)]`,
/// which a caller may only ask where that length falls between two characters.
pub fn byte_prefix(s: &Vec<char>, n: u64) -> (r: Vec<char>)
    requires
        is_byte_boundary(s@, min_bytes(s@, n as nat)),
    ensures
        r@ == byte_prefix_of(s@, n as nat),
        r@ == s@.take(r@.len() as int),
        byte_len(r@) == min_bytes(s@, n as nat),
{
    let target = byte_len_capped(s, n);
    let mut i: usize = 0;
    let mut bytes: u64 = 0;
    assert(s@.take(0) =~= Seq::<char>::empty());
    while bytes < target
        invariant
            i <= s.len(),
            bytes == byte_len(s@.take(i as int)),
            target == min_bytes(s@, n as nat),
            is_byte_boundary(s@, target as nat),
            forall|j: int| 0 <= j < i ==> byte_len(#[trigger] s@.take(j)) < target,
        decreases s.len() - i,
    {
        proof {
            let k = choose|k: int| 0 <= k <= s@.len() && #[trigger] byte_len(s@.take(k)) == target;
            if k <= i {
                if k < i {
                    assert(byte_len(s@.take(k)) < target);
                }
                assert(false);
            }
            lemma_byte_len_take_mono(s@, i + 1, k);
            assert(s@.take(i + 1).drop_last() =~= s@.take(i as int));
        }
        let w = char_width_of(s[i]);
        bytes = bytes + w;
        i += 1;
    }
    proof {
        let k = choose|k: int| 0 <= k <= s@.len() && #[trigger] byte_len(s@.take(k)) == target;
        if k > i {
            lemma_byte_len_take_mono(s@, i as int, k);
        }
        if k < i {
            assert(byte_len(s@.take(k)) < target);
        }
        assert(k == i);
    }
    let r = slice_vec(s, 0, i);
    assert(r@ =~= s@.take(i as int));
    proof {
        let k = choose|k: int|
            0 <= k <= s@.len() && #[trigger] byte_len(s@.take(k)) == min_bytes(s@, n as nat);
        if k > i {
            lemma_byte_len_take_mono(s@, i as int, k);
        }
        if k < i {
            lemma_byte_len_take_mono(s@, k, i as int);
        }
    }
    r
}

} // verus!

verus! {

// ─── Parsing numbers ────────────────────────────────────────────────────────

pub open spec fn digit_value(c: char) -> nat {
    (c as u32 - '0' as u32) as nat
}

/// The number a run of ASCII digits denotes.
pub open spec fn digits_value(s: Seq<char>) -> nat
    decreases s.len(),
{
    if s.len() == 0 {
        0
    } else {
        digits_value(s.drop_last()) * 10 + digit_value(s.last())
    }
}

pub open spec fn all_digits(s: Seq<char>) -> bool {
    forall|i: int| 0 <= i < s.len() ==> is_ascii_digit(#[trigger] s[i])
}

/// The digits of a `u64` literal as `u64::from_str` reads it: an optional `+`, then
/// at least one ASCII digit.
pub open spec fn unsigned_digits(s: Seq<char>) -> Option<Seq<char>> {
    let d = if s.len() > 0 && s[0] == '+' {
        s.drop_first()
    } else {
        s
    };
    if d.len() > 0 && all_digits(d) {
        Some(d)
    } else {
        None
    }
}

/// What `u64::from_str` gives: the value of the digits, when they form one that fits.
pub open spec fn parsed_u64(s: Seq<char>) -> Option<u64> {
    match unsigned_digits(s) {
        Some(d) => if digits_value(d) <= u64::MAX {
            Some(digits_value(d) as u64)
        } else {
            None
        },
        None => None,
    }
}

proof fn lemma_digits_value_mono(s: Seq<char>, i: int)
    requires
        0 <= i <= s.len(),
    ensures
        digits_value(s.take(i)) <= digits_value(s),
    decreases s.len() - i,
{
    if i < s.len() {
        lemma_digits_value_mono(s, i + 1);
        assert(s.take(i + 1).drop_last() =~= s.take(i));
    } else {
        assert(s.take(i) =~= s);
    }
}

/// Parses a `u64` (`str::parse::<u64>`), giving `None` where it fails.
pub fn parse_u64(s: &str) -> (r: Option<u64>)
    ensures
        r == parsed_u64(s@),
{
    let v = chars_of(s);
    let start: usize = if v.len() > 0 && v[0] == '+' {
        1
    } else {
        0
    };
    let ghost d = v@.skip(start as int);
    assert(d =~= (if v@.len() > 0 && v@[0] == '+' { v@.drop_first() } else { v@ }));
    if start >= v.len() {
        return None;
    }
    let mut value: u64 = 0;
    let mut i: usize = start;
    while i < v.len()
        invariant
            start <= i <= v.len(),
            start < v.len(),
            v@ == s@,
            d == (if v@.len() > 0 && v@[0] == '+' { v@.drop_first() } else { v@ }),
            d == v@.skip(start as int),
            value == digits_value(d.take(i - start)),
            forall|k: int| 0 <= k < i - start ==> is_ascii_digit(#[trigger] d[k]),
        decreases v.len() - i,
    {
        let c = v[i];
        assert(d[i - start] == c);
        if !('0' <= c && c <= '9') {
            assert(!all_digits(d));
            return None;
        }
        let digit_v: u64 = (c as u32 - '0' as u32) as u64;
        assert(d.take(i - start + 1).drop_last() =~= d.take(i - start));
        assert(d.take(i - start + 1).last() == c);
        if value > (u64::MAX - digit_v) / 10 {
            proof {
                assert(digits_value(d.take(i - start + 1)) == value * 10 + digit_v);
                assert(value * 10 + digit_v > u64::MAX) by (nonlinear_arith)
                    requires
                        value > (u64::MAX - digit_v) / 10,
                        digit_v <= 9,
                ;
                if all_digits(d) {
                    lemma_digits_value_mono(d, i - start + 1);
                }
            }
            return None;
        }
        assert(value * 10 + digit_v <= u64::MAX) by (nonlinear_arith)
            requires
                value <= (u64::MAX - digit_v) / 10,
                digit_v <= 9,
        ;
        value = value * 10 + digit_v;
        i += 1;
    }
    assert(d.take(i - start) =~= d);
    Some(value)
}

} // verus!

verus! {

/// Whether `s` takes at most `n` bytes.
pub fn byte_len_le(s: &Vec<char>, n: usize) -> (b: bool)
    ensures
        b == (byte_len(s@) <= n),
{
    let mut total: u128 = 0;
    let mut i: usize = 0;
    while i < s.len()
        invariant
            i <= s.len(),
            total == byte_len(s@.take(i as int)),
            total <= n,
        decreases s.len() - i,
    {
        assert(s@.take(i + 1).drop_last() =~= s@.take(i as int));
        total = total + char_width_of(s[i]) as u128;
        if total > n as u128 {
            proof {
                lemma_byte_len_take_mono(s@, i + 1, s@.len() as int);
                assert(s@.take(s@.len() as int) =~= s@);
            }
            return false;
        }
        i += 1;
    }
    assert(s@.take(s@.len() as int) =~= s@);
    true
}

} // verus!

verus! {

/// Decimal digits of a wide number.
pub fn decimal_vec_wide(n: u128) -> (r: Vec<char>)
    ensures
        r@ == decimal(n as nat),
    decreases n,
{
    if n < 10 {
        let mut r: Vec<char> = Vec::new();
        r.push(digit((n % 10) as u64));
        assert(r@ =~= seq![digit_char(n as nat)]);
        r
    } else {
        let mut r = decimal_vec_wide(n / 10);
        r.push(digit((n % 10) as u64));
        r
    }
}

/// `s` with its first occurrence of `pat` replaced by `rep` (`str::replacen(.., 1)`).
pub open spec fn replace_first(s: Seq<char>, pat: Seq<char>, rep: Seq<char>) -> Seq<char> {
    match first_match(s, pat) {
        Some(i) => s.take(i) + rep + s.skip(i + pat.len()),
        None => s,
    }
}

pub fn replace_first_exec(s: &str, pat: &str, rep: &str) -> (r: String)
    requires
        pat@.len() > 0,
    ensures
        r@ == replace_first(s@, pat@, rep@),
{
    let sv = chars_of(s);
    let pv = chars_of(pat);
    match find(&sv, &pv) {
        Some(i) => {
            assert(has_at(sv@, pv@, i as int));
            let plen: usize = pv.len();
            assert(i + plen <= sv.len());
            let end: usize = i + plen;
            let mut out = slice_vec(&sv, 0, i);
            extend_str(&mut out, rep);
            let rest = slice_vec(&sv, end, sv.len());
            extend_chars(&mut out, &rest);
            assert(out@ =~= replace_first(s@, pat@, rep@));
            string_of(&out)
        },
        None => string_of(&sv),
    }
}

/// Whether `p` occurs in `s` (`str::contains`).
pub open spec fn contains_seq(s: Seq<char>, p: Seq<char>) -> bool {
    exists|i: int| has_at(s, p, i)
}

pub fn contains_vec(s: &Vec<char>, p: &str) -> (b: bool)
    ensures
        b == contains_seq(s@, p@),
{
    let pv = chars_of(p);
    if pv.len() == 0 {
        assert(s@.subrange(0, 0) =~= p@);
        assert(has_at(s@, p@, 0));
        return true;
    }
    match find(s, &pv) {
        Some(_) => true,
        None => false,
    }
}

pub fn str_contains(s: &str, p: &str) -> (b: bool)
    ensures
        b == contains_seq(s@, p@),
{
    contains_vec(&chars_of(s), p)
}

} // verus!
