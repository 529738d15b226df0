//! The audit log of Curio actions (`audit.jsonl`): where it lives, how an entry is
//! classified, and how the log is compacted when it grows too long.
use vstd::prelude::*;

use crate::harness::{opt_view, parent_of, path_join, path_joined, spec_parent};
use crate::text::{
    ascii_lower, ascii_lower_seq, chars_of, decimal, decimal_vec, extend_chars, extend_str,
    replace_all, replace_vec, run_len, str_eq, string_of, to_ascii_lower, trim, trim_vec,
};

verus! {

/// Above this many entries the log is compacted.
pub const MAX_AUDIT_LINES: usize = 1000;

/// How many of the latest entries a compaction keeps.
pub const RETAIN_AUDIT_LINES: usize = 250;

/// Above this many bytes the log is compacted.
pub const MAX_AUDIT_BYTES: u64 = 524288;

/// One line of the audit log.
#[derive(Clone, Debug)]
pub struct AuditEntry {
    pub ts: String,
    pub kind: String,
    pub entry: String,
}

pub open spec fn entry_view(e: AuditEntry) -> (Seq<char>, Seq<char>, Seq<char>) {
    (e.ts@, e.kind@, e.entry@)
}

pub open spec fn entries_view(s: Seq<AuditEntry>) -> Seq<(Seq<char>, Seq<char>, Seq<char>)> {
    s.map_values(|e: AuditEntry| entry_view(e))
}

// ─── Where the log lives ────────────────────────────────────────────────────

/// The audit directory: the one `CURIO_AUDIT_DIR` names (with `${REPO_ROOT}` and
/// `$REPO_ROOT` expanded, relative to the repository root), or `_config` under the
/// wiki. The repository root is `CURIO_REPO_ROOT`, else the wiki's parent, else `.`.
pub open spec fn audit_dir_of(wiki: Seq<char>, audit_env: Option<Seq<char>>, root_env: Option<Seq<char>>) -> Seq<char> {
    if audit_env is Some && trim(audit_env->0).len() > 0 {
        let root = match root_env {
            Some(r) => r,
            None => match spec_parent(wiki) {
                Some(p) => p,
                None => "."@,
            },
        };
        let expanded = replace_all(
            replace_all(trim(audit_env->0), "${REPO_ROOT}"@, root),
            "$REPO_ROOT"@,
            root,
        );
        if expanded.len() > 0 && expanded[0] == '/' {
            expanded
        } else {
            path_joined(root, expanded)
        }
    } else {
        path_joined(wiki, "_config"@)
    }
}

pub open spec fn opt_str_view(o: Option<&str>) -> Option<Seq<char>> {
    match o {
        Some(s) => Some(s@),
        None => None,
    }
}

/// The audit directory, given the values of `CURIO_AUDIT_DIR` and `CURIO_REPO_ROOT`.
pub fn audit_dir(wiki_dir: &str, audit_env: Option<&str>, root_env: Option<&str>) -> (r: String)
    ensures
        r@ == audit_dir_of(wiki_dir@, opt_str_view(audit_env), opt_str_view(root_env)),
{
    if let Some(raw) = audit_env {
        let trimmed = trim_vec(&chars_of(raw));
        if trimmed.len() > 0 {
            let root: String = match root_env {
                Some(r) => String::from_str(r),
                None => match parent_of(wiki_dir) {
                    Some(p) => p,
                    None => String::from_str("."),
                },
            };
            let root_chars = chars_of(root.as_str());
            proof {
                reveal_strlit("${REPO_ROOT}");
                reveal_strlit("$REPO_ROOT");
            }
            let braced = replace_vec(&trimmed, &chars_of("${REPO_ROOT}"), &root_chars);
            let expanded = replace_vec(&braced, &chars_of("$REPO_ROOT"), &root_chars);
            if expanded.len() > 0 && expanded[0] == '/' {
                return string_of(&expanded);
            }
            let e = string_of(&expanded);
            return path_join(root.as_str(), e.as_str());
        }
    }
    path_join(wiki_dir, "_config")
}

/// The audit log: `audit.jsonl` in the audit directory.
pub fn audit_log_path(wiki_dir: &str, audit_env: Option<&str>, root_env: Option<&str>) -> (r: String)
    ensures
        r@ == path_joined(
            audit_dir_of(wiki_dir@, opt_str_view(audit_env), opt_str_view(root_env)),
            "audit.jsonl"@,
        ),
{
    let dir = audit_dir(wiki_dir, audit_env, root_env);
    path_join(dir.as_str(), "audit.jsonl")
}

/// Where the time of the last sync is kept.
pub fn sync_marker_path(wiki_dir: &str) -> (r: String)
    ensures
        r@ == path_joined(path_joined(wiki_dir@, "_config"@), "last-sync.txt"@),
{
    let dir = path_join(wiki_dir, "_config");
    path_join(dir.as_str(), "last-sync.txt")
}

/// Where older versions kept the audit log.
pub fn legacy_audit_log_path(wiki_dir: &str) -> (r: String)
    ensures
        r@ == path_joined(path_joined(wiki_dir@, ".curio"@), "audit.jsonl"@),
{
    let dir = path_join(wiki_dir, ".curio");
    path_join(dir.as_str(), "audit.jsonl")
}

// ─── Entries ────────────────────────────────────────────────────────────────

/// The kind of an entry: the text before its first `:`, trimmed and in ASCII lower
/// case, or `event` when there is no `:` or nothing before it.
pub open spec fn kind_of(entry: Seq<char>) -> Seq<char> {
    let n = run_len(entry, ':');
    if n < entry.len() && ascii_lower_seq(trim(entry.take(n as int))).len() > 0 {
        ascii_lower_seq(trim(entry.take(n as int)))
    } else {
        "event"@
    }
}

pub fn parse_kind(entry: &str) -> (r: String)
    ensures
        r@ == kind_of(entry@),
{
    let s = chars_of(entry);
    let mut i: usize = 0;
    assert(s@.skip(0) =~= s@);
    while i < s.len() && s[i] != ':'
        invariant
            i <= s.len(),
            run_len(s@, ':') == i + run_len(s@.skip(i as int), ':'),
        decreases s.len() - i,
    {
        assert(s@.skip(i as int)[0] == s@[i as int]);
        assert(s@.skip(i as int).drop_first() =~= s@.skip(i + 1));
        i += 1;
    }
    if i < s.len() {
        assert(s@.skip(i as int)[0] == s@[i as int]);
    } else {
        assert(s@.skip(i as int) =~= Seq::<char>::empty());
    }
    assert(s@ == entry@);
    if i == s.len() {
        return String::from_str("event");
    }
    let mut head: Vec<char> = Vec::new();
    let mut k: usize = 0;
    while k < i
        invariant
            k <= i < s.len(),
            head@ == s@.take(k as int),
        decreases i - k,
    {
        head.push(s[k]);
        assert(head@ =~= s@.take(k + 1));
        k += 1;
    }
    let t = trim_vec(&head);
    let mut lower: Vec<char> = Vec::new();
    let mut j: usize = 0;
    while j < t.len()
        invariant
            j <= t.len(),
            lower@ == ascii_lower_seq(t@).take(j as int),
        decreases t.len() - j,
    {
        lower.push(to_ascii_lower(t[j]));
        assert(lower@ =~= ascii_lower_seq(t@).take(j + 1));
        j += 1;
    }
    assert(lower@ =~= ascii_lower_seq(t@));
    if lower.len() == 0 {
        String::from_str("event")
    } else {
        string_of(&lower)
    }
}

/// A new entry stamped `ts`, classified by `parse_kind`.
pub fn new_entry(ts: &str, entry: &str) -> (e: AuditEntry)
    ensures
        entry_view(e) == (ts@, kind_of(entry@), entry@),
{
    AuditEntry { ts: String::from_str(ts), kind: parse_kind(entry), entry: String::from_str(entry) }
}

/// The stamp of the latest `sync` entry.
pub open spec fn last_sync_of(s: Seq<AuditEntry>) -> Option<Seq<char>>
    decreases s.len(),
{
    if s.len() == 0 {
        None
    } else if s.last().kind@ == "sync"@ {
        Some(s.last().ts@)
    } else {
        last_sync_of(s.drop_last())
    }
}

pub fn last_sync(entries: &Vec<AuditEntry>) -> (r: Option<String>)
    ensures
        opt_view(r) == last_sync_of(entries@),
{
    let mut i: usize = entries.len();
    assert(entries@.take(i as int) =~= entries@);
    while i > 0
        invariant
            i <= entries@.len(),
            last_sync_of(entries@) == last_sync_of(entries@.take(i as int)),
        decreases i,
    {
        assert(entries@.take(i as int).drop_last() =~= entries@.take(i - 1));
        assert(entries@.take(i as int).last() == entries@[i - 1]);
        if str_eq(entries[i - 1].kind.as_str(), "sync") {
            return Some(entries[i - 1].ts.clone());
        }
        i -= 1;
    }
    None
}

/// The time of the last sync: the marker file's text, trimmed, where it has some
/// (`marker` is that text, if the file exists), else the stamp of the latest `sync`
/// entry of the log.
pub fn read_last_sync(marker: Option<&str>, entries: &Vec<AuditEntry>) -> (r: Option<String>)
    ensures
        opt_view(r) == if marker is Some && trim(marker->0@).len() > 0 {
            Some(trim(marker->0@))
        } else {
            last_sync_of(entries@)
        },
{
    if let Some(raw) = marker {
        let t = trim_vec(&chars_of(raw));
        if t.len() > 0 {
            return Some(string_of(&t));
        }
    }
    last_sync(entries)
}

// ─── Compaction ─────────────────────────────────────────────────────────────

pub open spec fn needs_compaction(n: nat, bytes: nat) -> bool {
    n > MAX_AUDIT_LINES || bytes > MAX_AUDIT_BYTES
}

pub open spec fn retained_start(n: nat) -> nat {
    if n > RETAIN_AUDIT_LINES {
        (n - RETAIN_AUDIT_LINES) as nat
    } else {
        0
    }
}

/// The text of a compaction checkpoint.
pub open spec fn checkpoint_text(retained: nat, previous: nat, last_sync: Option<Seq<char>>) -> Seq<char> {
    "checkpoint: compacted audit log; retained "@ + decimal(retained) + " recent entries; previous entries="@
        + decimal(previous) + match last_sync {
        Some(ts) => "; last_sync="@ + ts,
        None => seq![],
    }
}

/// The log after a compaction, if it needs one (over `MAX_AUDIT_LINES` entries or
/// `MAX_AUDIT_BYTES` bytes): a checkpoint stamped `now` that counts what was kept and
/// dropped and names the last sync, then the latest `RETAIN_AUDIT_LINES` entries in
/// their order.
pub fn compact_entries(entries: &Vec<AuditEntry>, file_bytes: u64, now: &str) -> (r: Option<Vec<AuditEntry>>)
    ensures
        !needs_compaction(entries@.len(), file_bytes as nat) ==> r is None,
        needs_compaction(entries@.len(), file_bytes as nat) ==> r is Some && {
            let out = r->0@;
            let start = retained_start(entries@.len());
            &&& out.len() == entries@.len() - start + 1
            &&& entry_view(out[0]) == (
                now@,
                "checkpoint"@,
                checkpoint_text(
                    (entries@.len() - start) as nat,
                    start,
                    last_sync_of(entries@),
                ),
            )
            &&& entries_view(out.drop_first()) == entries_view(entries@.skip(start as int))
        },
{
    let n = entries.len();
    if n <= MAX_AUDIT_LINES && file_bytes <= MAX_AUDIT_BYTES {
        return None;
    }
    let start: usize = if n > RETAIN_AUDIT_LINES {
        n - RETAIN_AUDIT_LINES
    } else {
        0
    };
    let kept: usize = n - start;
    let last = last_sync(entries);
    let mut text = chars_of("checkpoint: compacted audit log; retained ");
    extend_chars(&mut text, &decimal_vec(kept as u64));
    extend_str(&mut text, " recent entries; previous entries=");
    extend_chars(&mut text, &decimal_vec(start as u64));
    match &last {
        Some(ts) => {
            extend_str(&mut text, "; last_sync=");
            extend_str(&mut text, ts.as_str());
        },
        None => {},
    }
    assert(text@ =~= checkpoint_text(kept as nat, start as nat, last_sync_of(entries@)));
    let mut out: Vec<AuditEntry> = Vec::new();
    out.push(
        AuditEntry {
            ts: String::from_str(now),
            kind: String::from_str("checkpoint"),
            entry: string_of(&text),
        },
    );
    let mut i: usize = start;
    while i < n
        invariant
            start <= i <= n,
            n == entries@.len(),
            out@.len() == i - start + 1,
            entry_view(out@[0]) == (
                now@,
                "checkpoint"@,
                checkpoint_text(kept as nat, start as nat, last_sync_of(entries@)),
            ),
            entries_view(out@.drop_first()) == entries_view(entries@.subrange(start as int, i as int)),
        decreases n - i,
    {
        let e = AuditEntry {
            ts: entries[i].ts.clone(),
            kind: entries[i].kind.clone(),
            entry: entries[i].entry.clone(),
        };
        let ghost before = out@;
        out.push(e);
        assert(out@.drop_first() =~= before.drop_first().push(e));
        assert(entries@.subrange(start as int, i + 1) =~= entries@.subrange(start as int, i as int).push(
            entries@[i as int],
        ));
        assert(entry_view(e) == entry_view(entries@[i as int]));
        assert(entries_view(before.drop_first().push(e)) =~= entries_view(before.drop_first()).push(
            entry_view(e),
        ));
        assert(entries_view(entries@.subrange(start as int, i as int).push(entries@[i as int]))
            =~= entries_view(entries@.subrange(start as int, i as int)).push(
            entry_view(entries@[i as int]),
        ));
        assert(entries_view(out@.drop_first()) =~= entries_view(
            entries@.subrange(start as int, i + 1),
        ));
        i += 1;
    }
    assert(entries@.subrange(start as int, n as int) =~= entries@.skip(start as int));
    Some(out)
}

/// A log needs migrating from its old place when the new log does not exist yet and
/// the old one does.
pub fn should_migrate_legacy(log_exists: bool, legacy_exists: bool) -> (b: bool)
    ensures
        b == (!log_exists && legacy_exists),
{
    !log_exists && legacy_exists
}

/// Whether an entry records a sync (after which the sync marker is written).
pub fn is_sync_entry(e: &AuditEntry) -> (b: bool)
    ensures
        b == (e.kind@ == "sync"@),
{
    str_eq(e.kind.as_str(), "sync")
}

} // verus!
