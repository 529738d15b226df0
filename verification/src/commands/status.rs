//! `curio status`: the pipeline's page counts, the last sync, and whether the index
//! is older than the published pages.
use vstd::prelude::*;

use crate::text::{
    chars_of, contains_seq, contains_vec, decimal, decimal_vec, extend_chars, extend_str, find, first_match, has_at, lines,
    slice_vec, split_lines, string_of,
};

verus! {

/// The last line of the log that mentions `sync:`.
pub open spec fn last_sync_line(ls: Seq<Seq<char>>) -> Option<Seq<char>>
    decreases ls.len(),
{
    if ls.len() == 0 {
        None
    } else if contains_seq(ls.last(), "sync:"@) {
        Some(ls.last())
    } else {
        last_sync_line(ls.drop_last())
    }
}

/// The text between a line's first `**` and the next one.
pub open spec fn bold_text(l: Seq<char>) -> Option<Seq<char>> {
    match first_match(l, "**"@) {
        Some(a) => match first_match(l.skip(a + 2), "**"@) {
            Some(b) => Some(l.subrange(a + 2, a + 2 + b)),
            None => None,
        },
        None => None,
    }
}

/// The last sync the log records: the bold timestamp of its last `sync:` line
/// (`- **2026-04-13T02:03:24Z** sync: ...`).
pub open spec fn last_sync_of(log: Seq<char>) -> Option<Seq<char>> {
    match last_sync_line(lines(log)) {
        Some(l) => bold_text(l),
        None => None,
    }
}

fn bold_text_exec(l: &Vec<char>) -> (r: Option<String>)
    ensures
        match r {
            Some(t) => bold_text(l@) == Some(t@),
            None => bold_text(l@) is None,
        },
{
    proof {
        reveal_strlit("**");
    }
    let stars = chars_of("**");
    assert(stars@.len() == 2);
    match find(l, &stars) {
        Some(a) => {
            assert(has_at(l@, stars@, a as int));
            let n = l.len();
            assert(a + 2 <= n);
            let start = a + 2;
            let rest = slice_vec(l, start, l.len());
            assert(rest@ =~= l@.skip(start as int));
            match find(&rest, &stars) {
                Some(b) => {
                    let t = slice_vec(l, start, start + b);
                    Some(string_of(&t))
                },
                None => None,
            }
        },
        None => None,
    }
}

pub fn last_sync_in_log(log: &str) -> (r: Option<String>)
    ensures
        match r {
            Some(t) => last_sync_of(log@) == Some(t@),
            None => last_sync_of(log@) is None,
        },
{
    let ls = split_lines(&chars_of(log));
    let ghost all = crate::text::views(ls@);
    let mut i: usize = ls.len();
    assert(all.take(ls@.len() as int) =~= all);
    while i > 0
        invariant
            i <= ls@.len(),
            all == crate::text::views(ls@),
            all == lines(log@),
            last_sync_line(all) == last_sync_line(all.take(i as int)),
        decreases i,
    {
        let ghost pre = all.take(i as int);
        assert(pre.drop_last() =~= all.take(i - 1));
        assert(pre.last() == ls@[i - 1]@);
        if contains_vec(&ls[i - 1], "sync:") {
            return bold_text_exec(&ls[i - 1]);
        }
        i -= 1;
    }
    assert(all.take(0) =~= Seq::<Seq<char>>::empty());
    None
}

/// Whether the index is stale: the registry exists and some published page was
/// modified after it (times as nanoseconds; `None` where a time could not be read).
pub open spec fn newer(page: Option<u128>, registry: u128) -> bool {
    page matches Some(t) && t > registry
}

pub open spec fn index_stale(registry: Option<u128>, pages: Seq<Option<u128>>) -> bool {
    match registry {
        Some(r) => exists|i: int| 0 <= i < pages.len() && newer(#[trigger] pages[i], r),
        None => false,
    }
}

pub fn is_index_stale(registry_mtime: Option<u128>, page_mtimes: &[Option<u128>]) -> (b: bool)
    ensures
        b == index_stale(registry_mtime, page_mtimes@),
{
    match registry_mtime {
        None => false,
        Some(r) => {
            let mut i: usize = 0;
            while i < page_mtimes.len()
                invariant
                    i <= page_mtimes@.len(),
                    registry_mtime == Some(r),
                    forall|j: int| 0 <= j < i ==> !newer(#[trigger] page_mtimes@[j], r),
                decreases page_mtimes@.len() - i,
            {
                match page_mtimes[i] {
                    Some(t) => {
                        if t > r {
                            assert(newer(page_mtimes@[i as int], r));
                            assert(index_stale(registry_mtime, page_mtimes@));
                            return true;
                        }
                    },
                    None => {},
                }
                i += 1;
            }
            false
        },
    }
}

pub open spec fn spaces(n: nat) -> Seq<char> {
    Seq::new(n, |i: int| ' ')
}

/// A count right-aligned in four columns (`{:>4}`).
pub open spec fn count4(n: nat) -> Seq<char> {
    let d = decimal(n);
    if d.len() < 4 {
        spaces((4 - d.len()) as nat) + d
    } else {
        d
    }
}

fn count4_exec(n: u64) -> (r: Vec<char>)
    ensures
        r@ == count4(n as nat),
{
    let d = decimal_vec(n);
    if d.len() < 4 {
        let mut r: Vec<char> = Vec::new();
        let k: usize = 4 - d.len();
        let mut i: usize = 0;
        while i < k
            invariant
                i <= k,
                r@ == spaces(i as nat),
            decreases k - i,
        {
            r.push(' ');
            assert(r@ =~= spaces((i + 1) as nat));
            i += 1;
        }
        extend_chars(&mut r, &d);
        r
    } else {
        d
    }
}

pub open spec fn stage_row(name: Seq<char>, n: nat, dir: Seq<char>) -> Seq<char> {
    "  "@ + name + count4(n) + "  (wiki/"@ + dir + "/)\n"@
}

/// What `curio status` prints.
pub open spec fn status_text_of(
    intake: nat,
    staged: nat,
    review: nat,
    published: nat,
    last_sync: Option<Seq<char>>,
    stale: bool,
) -> Seq<char> {
    "\n  Curio Pipeline\n  ──────────────────────────────────\n"@ + stage_row("intake      "@, intake, "intake"@)
        + stage_row("staged      "@, staged, "staged"@) + stage_row("review      "@, review, "review"@)
        + stage_row("published   "@, published, "published"@) + "\n"@ + (match last_sync {
        Some(ts) => "  last sync   "@ + ts + "\n"@,
        None => "  last sync   never\n"@,
    }) + (if stale {
        "\n  ⚠  Index may be stale — run `curio reindex` to rebuild\n"@
    } else {
        Seq::<char>::empty()
    }) + "\n"@
}

fn push_stage_row(out: &mut Vec<char>, name: &str, n: u64, dir: &str)
    ensures
        final(out)@ == old(out)@ + stage_row(name@, n as nat, dir@),
{
    extend_str(out, "  ");
    extend_str(out, name);
    extend_chars(out, &count4_exec(n));
    extend_str(out, "  (wiki/");
    extend_str(out, dir);
    extend_str(out, "/)\n");
}

pub fn status_text(
    intake: u64,
    staged: u64,
    review: u64,
    published: u64,
    last_sync: Option<&str>,
    stale: bool,
) -> (r: String)
    ensures
        r@ == status_text_of(
            intake as nat,
            staged as nat,
            review as nat,
            published as nat,
            match last_sync {
                Some(t) => Some(t@),
                None => None,
            },
            stale,
        ),
{
    let mut out = chars_of("\n  Curio Pipeline\n  ──────────────────────────────────\n");
    push_stage_row(&mut out, "intake      ", intake, "intake");
    push_stage_row(&mut out, "staged      ", staged, "staged");
    push_stage_row(&mut out, "review      ", review, "review");
    push_stage_row(&mut out, "published   ", published, "published");
    extend_str(&mut out, "\n");
    match last_sync {
        Some(ts) => {
            extend_str(&mut out, "  last sync   ");
            extend_str(&mut out, ts);
            extend_str(&mut out, "\n");
        },
        None => extend_str(&mut out, "  last sync   never\n"),
    }
    if stale {
        extend_str(&mut out, "\n  ⚠  Index may be stale — run `curio reindex` to rebuild\n");
    }
    extend_str(&mut out, "\n");
    string_of(&out)
}

} // verus!
