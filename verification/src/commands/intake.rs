//! `curio intake`: recognising Confluence links among the sources handed to it.
use vstd::prelude::*;

use crate::text::{
    chars_of, find, first_match, has_at, is_ascii_digit, starts_with, string_of, trim_end_char,
    trim_end_char_vec, vec_starts_with,
};

use crate::commands::html_doc::{
    listing, opt_text, page_text, page_text_of, page_title, page_title_of, parse_document,
    spec_html_listing,
};
use crate::commands::html_md::HtmlNode;

verus! {

/// Whether a URL points into the configured Confluence site.
pub open spec fn is_confluence_link(url: Seq<char>, base: Seq<char>) -> bool {
    base.len() > 0 && starts_with(url, trim_end_char(base, '/'))
}

pub fn is_confluence_url(url: &str, confluence_base: &str) -> (b: bool)
    ensures
        b == is_confluence_link(url@, confluence_base@),
{
    let base = chars_of(confluence_base);
    if base.len() == 0 {
        return false;
    }
    let prefix = trim_end_char_vec(&base, '/');
    vec_starts_with(&chars_of(url), &prefix)
}

/// The run of ASCII digits at the start of `s`.
pub open spec fn leading_digits(s: Seq<char>) -> Seq<char>
    decreases s.len(),
{
    if s.len() > 0 && is_ascii_digit(s[0]) {
        seq![s[0]] + leading_digits(s.drop_first())
    } else {
        seq![]
    }
}

/// The digits right after the first occurrence of `marker`, if it occurs.
pub open spec fn digits_after(url: Seq<char>, marker: Seq<char>) -> Seq<char> {
    match first_match(url, marker) {
        Some(i) => leading_digits(url.skip(i + marker.len())),
        None => seq![],
    }
}

/// The page id a Confluence URL names: the digits after its first `/pages/`, or else
/// after its first `pageId=`.
pub open spec fn page_id_of(url: Seq<char>) -> Option<Seq<char>> {
    if digits_after(url, "/pages/"@).len() > 0 {
        Some(digits_after(url, "/pages/"@))
    } else if digits_after(url, "pageId="@).len() > 0 {
        Some(digits_after(url, "pageId="@))
    } else {
        None
    }
}

fn digits_from(v: &Vec<char>, start: usize) -> (r: Vec<char>)
    requires
        start <= v.len(),
    ensures
        r@ == leading_digits(v@.skip(start as int)),
{
    let mut end = start;
    while end < v.len() && '0' <= v[end] && v[end] <= '9'
        invariant
            start <= end <= v.len(),
            forall|k: int| start <= k < end ==> is_ascii_digit(#[trigger] v@[k]),
        decreases v.len() - end,
    {
        end += 1;
    }
    let r = crate::text::slice_vec(v, start, end);
    proof {
        lemma_leading_digits(v@.skip(start as int), (end - start) as int);
        assert(r@ =~= v@.skip(start as int).take(end - start));
    }
    r
}

proof fn lemma_leading_digits(s: Seq<char>, n: int)
    requires
        0 <= n <= s.len(),
        forall|k: int| 0 <= k < n ==> is_ascii_digit(#[trigger] s[k]),
        n == s.len() || !is_ascii_digit(s[n]),
    ensures
        leading_digits(s) == s.take(n),
    decreases n,
{
    if n == 0 {
        assert(s.take(0) =~= Seq::<char>::empty());
    } else {
        let t = s.drop_first();
        assert forall|k: int| 0 <= k < n - 1 implies is_ascii_digit(#[trigger] t[k]) by {
            assert(t[k] == s[k + 1]);
        }
        if n - 1 < t.len() {
            assert(t[n - 1] == s[n]);
        }
        lemma_leading_digits(t, n - 1);
        assert(seq![s[0]] + t.take(n - 1) =~= s.take(n));
    }
}

fn digits_after_exec(url: &Vec<char>, marker: &str) -> (r: Vec<char>)
    requires
        marker@.len() > 0,
    ensures
        r@ == digits_after(url@, marker@),
{
    let m = chars_of(marker);
    match find(url, &m) {
        Some(i) => {
            proof {
                assert(has_at(url@, m@, i as int));
                let k = choose|k: int|
                    has_at(url@, m@, k) && forall|j: int| 0 <= j < k ==> !has_at(url@, m@, j);
                assert(k == i);
            }
            assert(i + m.len() <= url.len());
            digits_from(url, i + m.len())
        },
        None => Vec::new(),
    }
}

/// The page id a Confluence URL names, if any.
pub fn extract_confluence_page_id(url: &str) -> (r: Option<String>)
    ensures
        match r {
            Some(s) => page_id_of(url@) == Some(s@),
            None => page_id_of(url@) is None,
        },
{
    proof {
        reveal_strlit("/pages/");
        reveal_strlit("pageId=");
    }
    let u = chars_of(url);
    let a = digits_after_exec(&u, "/pages/");
    if a.len() > 0 {
        return Some(string_of(&a));
    }
    let b = digits_after_exec(&u, "pageId=");
    if b.len() > 0 {
        return Some(string_of(&b));
    }
    None
}


/// The markdown text of an HTML page (Confluence storage format or a plain page): its
/// body rendered, trimmed, blank-line runs collapsed. `None` when the parsed page has
/// no body element.
pub fn extract_text_from_html(html: &str) -> (r: Option<String>)
    ensures
        exists|doc: Seq<HtmlNode>|
            listing(doc) == spec_html_listing(html@) && opt_text(r) == page_text(doc),
{
    let doc = parse_document(html);
    page_text_of(&doc)
}

/// The trimmed text of the first `title` or `h1` element of an HTML page.
pub fn extract_title_from_html(html: &str) -> (r: Option<String>)
    ensures
        exists|doc: Seq<HtmlNode>|
            listing(doc) == spec_html_listing(html@) && opt_text(r) == page_title(doc),
{
    let doc = parse_document(html);
    page_title_of(&doc)
}

} // verus!
