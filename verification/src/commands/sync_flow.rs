//! `curio sync` as a sequence of steps. Each step takes the state and what the
//! last action brought back, and gives the next state and the next action; the
//! caller performs the action (a Confluence call, a directory walk, a log write)
//! and hands back the outcome.
use vstd::prelude::*;

use crate::commands::sync::{
    has_string, owned_unseen, stale_pages_to_delete, sync_log_line, sync_log_line_of, sync_summary,
    sync_summary_of,
};
use crate::config::{config_error_message, ConfigError, ConnectionConfig};
use crate::curio_docs::strings;

verus! {

/// Where a sync run stands.
#[derive(Clone, Copy, Debug, PartialEq, Eq, Structural)]
pub enum SyncPhase {
    /// Nothing checked yet.
    Start,
    /// Waiting for the Confluence client and the managed page tree.
    Connecting,
    /// Waiting for the admin pages.
    Admin,
    /// Waiting for the download bundles.
    Downloads,
    /// Waiting for the published walk.
    Published,
    /// Waiting for the staged and review lanes, the proposals and the reconciliation
    /// index.
    Lanes,
    /// Waiting for the stale-page lookup of a full refresh.
    Pruning,
    /// Waiting for the deletions.
    Deleting,
    /// Waiting for the audit-log line.
    Logging,
    /// The run is over.
    Done,
}

/// The state of a sync run: its options, and the counts so far.
#[derive(Clone, Copy, Debug)]
pub struct SyncState {
    pub phase: SyncPhase,
    pub dry_run: bool,
    pub full_refresh: bool,
    pub docs_only: bool,
    pub downloads_only: bool,
    /// The admin directory exists.
    pub has_admin: bool,
    pub upserted: u64,
    pub skipped: u64,
    pub errors: u64,
    pub deleted: u64,
    pub preserved: u64,
}

/// What one part of the run pushed, skipped and failed.
#[derive(Clone, Copy, Debug)]
pub struct SyncTally {
    pub upserted: u64,
    pub skipped: u64,
    pub errors: u64,
}

/// What the caller brings back.
pub enum SyncEvent {
    /// The run begins: the connection settings and what exists on disk.
    Started { connection: ConnectionConfig, published_exists: bool, admin_exists: bool },
    /// The client and the managed tree are ready, or why not.
    Connected(Result<(), String>),
    /// A part of the run finished with its counts, or stopped with an error.
    PhaseDone(Result<SyncTally, String>),
    /// The pages found below the managed roots, each with whether Curio owns it; the
    /// ids this run synced; and how many of the lookups failed.
    StaleFound { candidates: Vec<(String, bool)>, synced: Vec<String>, lookup_errors: u64 },
    /// How many deletions succeeded and failed.
    Deleted { ok: u64, failed: u64 },
    /// The audit-log line was written, or why not.
    Logged(Result<(), String>),
}

/// What the caller does next.
pub enum SyncAction {
    /// Stop with this error.
    Fail(String),
    /// List what would be pushed, with no Confluence call, and stop.
    DryRun,
    /// Build the client and make sure the managed page tree exists.
    Connect,
    SyncAdminPages,
    RefreshDownloads,
    /// Walk the published directory ([`crate::commands::sync::published_sync_plan`]).
    SyncPublished,
    /// Sync the staged and review lanes, the proposals and the reconciliation index.
    SyncLanes,
    /// Look for pages below the managed roots.
    FindStale,
    /// Delete these pages.
    Delete(Vec<String>),
    /// Append this line to the audit log.
    WriteLog(String),
    /// Print this closing line; the run is over.
    Report(String),
    /// The event does not belong to this phase; nothing to do.
    Ignore,
}

/// A [`SyncAction`] as plain values.
pub enum SyncActionView {
    Fail(Seq<char>),
    DryRun,
    Connect,
    SyncAdminPages,
    RefreshDownloads,
    SyncPublished,
    SyncLanes,
    FindStale,
    Delete(Seq<Seq<char>>),
    WriteLog(Seq<char>),
    Report(Seq<char>),
    Ignore,
}

pub open spec fn sync_action_view(a: SyncAction) -> SyncActionView {
    match a {
        SyncAction::Fail(m) => SyncActionView::Fail(m@),
        SyncAction::DryRun => SyncActionView::DryRun,
        SyncAction::Connect => SyncActionView::Connect,
        SyncAction::SyncAdminPages => SyncActionView::SyncAdminPages,
        SyncAction::RefreshDownloads => SyncActionView::RefreshDownloads,
        SyncAction::SyncPublished => SyncActionView::SyncPublished,
        SyncAction::SyncLanes => SyncActionView::SyncLanes,
        SyncAction::FindStale => SyncActionView::FindStale,
        SyncAction::Delete(ids) => SyncActionView::Delete(strings(ids@)),
        SyncAction::WriteLog(l) => SyncActionView::WriteLog(l@),
        SyncAction::Report(l) => SyncActionView::Report(l@),
        SyncAction::Ignore => SyncActionView::Ignore,
    }
}

/// `a + b`, or `u64::MAX` where that does not fit.
pub open spec fn sat_add(a: u64, b: u64) -> u64 {
    if a + b > u64::MAX {
        u64::MAX
    } else {
        (a + b) as u64
    }
}

/// The state a run begins in.
pub open spec fn sync_start(dry_run: bool, full_refresh: bool, docs_only: bool, downloads_only: bool) -> SyncState {
    SyncState {
        phase: SyncPhase::Start,
        dry_run,
        full_refresh,
        docs_only,
        downloads_only,
        has_admin: false,
        upserted: 0,
        skipped: 0,
        errors: 0,
        deleted: 0,
        preserved: 0,
    }
}

pub open spec fn with_phase(st: SyncState, p: SyncPhase) -> SyncState {
    SyncState { phase: p, ..st }
}

pub open spec fn tallied(st: SyncState, t: SyncTally) -> SyncState {
    SyncState {
        upserted: sat_add(st.upserted, t.upserted),
        skipped: sat_add(st.skipped, t.skipped),
        errors: sat_add(st.errors, t.errors),
        ..st
    }
}

pub open spec fn failed(st: SyncState, m: Seq<char>) -> (SyncState, SyncActionView) {
    (with_phase(st, SyncPhase::Done), SyncActionView::Fail(m))
}

/// The end of the run: the closing line.
pub open spec fn finished(st: SyncState) -> (SyncState, SyncActionView) {
    (
        with_phase(st, SyncPhase::Done),
        SyncActionView::Report(sync_summary_of(st.upserted, st.skipped, st.errors, st.dry_run)),
    )
}

/// After the pages of the published lanes: the stale-page lookup on a full refresh,
/// else the end.
pub open spec fn after_lanes(st: SyncState) -> (SyncState, SyncActionView) {
    if st.full_refresh {
        (with_phase(st, SyncPhase::Pruning), SyncActionView::FindStale)
    } else {
        finished(st)
    }
}

/// After the download bundles: the published walk, unless only the downloads were
/// asked for.
pub open spec fn after_downloads(st: SyncState) -> (SyncState, SyncActionView) {
    if !st.downloads_only {
        (with_phase(st, SyncPhase::Published), SyncActionView::SyncPublished)
    } else {
        finished(st)
    }
}

/// After the admin pages: the download bundles, unless only the docs were asked for.
pub open spec fn after_admin(st: SyncState) -> (SyncState, SyncActionView) {
    if !st.docs_only {
        (with_phase(st, SyncPhase::Downloads), SyncActionView::RefreshDownloads)
    } else {
        after_downloads(st)
    }
}

/// Once connected: the admin pages when their directory exists.
pub open spec fn after_connect(st: SyncState) -> (SyncState, SyncActionView) {
    if st.has_admin {
        (with_phase(st, SyncPhase::Admin), SyncActionView::SyncAdminPages)
    } else {
        after_admin(st)
    }
}

/// How many of the candidates Curio does not own and this run did not sync.
pub open spec fn unowned_unseen(candidates: Seq<(String, bool)>, synced: Seq<Seq<char>>) -> nat
    decreases candidates.len(),
{
    if candidates.len() == 0 {
        0
    } else {
        let (id, owned) = candidates.last();
        unowned_unseen(candidates.drop_last(), synced) + if !owned && !synced.contains(id@) {
            1nat
        } else {
            0nat
        }
    }
}

pub open spec fn clamp(n: nat) -> u64 {
    if n > u64::MAX {
        u64::MAX
    } else {
        n as u64
    }
}

pub open spec fn log_step(st: SyncState) -> (SyncState, SyncActionView) {
    (
        with_phase(st, SyncPhase::Logging),
        SyncActionView::WriteLog(
            sync_log_line_of(st.upserted, st.skipped, st.deleted, st.preserved, st.errors),
        ),
    )
}

/// One step of a sync run.
///
/// The connection settings are checked first, then that `published/` exists; a dry
/// run stops there and makes no Confluence call. Then, in order: the client and the
/// managed tree; the admin pages when their directory exists; the download bundles
/// unless only the docs were asked for; and unless only the downloads were asked for,
/// the published walk, the lanes, and on a full refresh the stale pages: those Curio
/// owns and this run did not sync are deleted (none when a lookup failed), and a
/// line goes to the audit log. Each deletion counts as pushed. An error from a part
/// ends the run with that error.
pub open spec fn sync_step_of(st: SyncState, ev: SyncEvent) -> (SyncState, SyncActionView) {
    match (st.phase, ev) {
        (SyncPhase::Start, SyncEvent::Started { connection, published_exists, admin_exists }) => {
            if connection.confluence_url@.len() == 0 {
                failed(st, config_error_message(ConfigError::MissingConfluenceUrl))
            } else if connection.confluence_email@.len() == 0 {
                failed(st, config_error_message(ConfigError::MissingConfluenceEmail))
            } else if !published_exists {
                failed(st, "wiki/published/ not found. Run `curio init` first."@)
            } else if st.dry_run {
                (with_phase(st, SyncPhase::Done), SyncActionView::DryRun)
            } else {
                (
                    SyncState { phase: SyncPhase::Connecting, has_admin: admin_exists, ..st },
                    SyncActionView::Connect,
                )
            }
        },
        (SyncPhase::Connecting, SyncEvent::Connected(r)) => match r {
            Ok(()) => after_connect(st),
            Err(m) => failed(st, m@),
        },
        (SyncPhase::Admin, SyncEvent::PhaseDone(r)) => match r {
            Ok(t) => after_admin(tallied(st, t)),
            Err(m) => failed(st, m@),
        },
        (SyncPhase::Downloads, SyncEvent::PhaseDone(r)) => match r {
            Ok(t) => after_downloads(tallied(st, t)),
            Err(m) => failed(st, m@),
        },
        (SyncPhase::Published, SyncEvent::PhaseDone(r)) => match r {
            Ok(t) => (with_phase(tallied(st, t), SyncPhase::Lanes), SyncActionView::SyncLanes),
            Err(m) => failed(st, m@),
        },
        (SyncPhase::Lanes, SyncEvent::PhaseDone(r)) => match r {
            Ok(t) => after_lanes(tallied(st, t)),
            Err(m) => failed(st, m@),
        },
        (SyncPhase::Pruning, SyncEvent::StaleFound { candidates, synced, lookup_errors }) => {
            let sv = strings(synced@);
            let st1 = SyncState { preserved: clamp(unowned_unseen(candidates@, sv)), ..st };
            if lookup_errors > 0 {
                log_step(SyncState { errors: sat_add(st1.errors, lookup_errors), ..st1 })
            } else {
                (
                    with_phase(st1, SyncPhase::Deleting),
                    SyncActionView::Delete(owned_unseen(candidates@, sv, st.full_refresh)),
                )
            }
        },
        (SyncPhase::Deleting, SyncEvent::Deleted { ok, failed }) => log_step(
            SyncState {
                deleted: ok,
                upserted: sat_add(st.upserted, ok),
                errors: sat_add(st.errors, failed),
                ..st
            },
        ),
        (SyncPhase::Logging, SyncEvent::Logged(r)) => match r {
            Ok(()) => finished(st),
            Err(m) => failed(st, m@),
        },
        _ => (st, SyncActionView::Ignore),
    }
}

impl SyncState {
    /// The state a run begins in.
    pub fn new(dry_run: bool, full_refresh: bool, docs_only: bool, downloads_only: bool) -> (s: Self)
        ensures
            s == sync_start(dry_run, full_refresh, docs_only, downloads_only),
    {
        SyncState {
            phase: SyncPhase::Start,
            dry_run,
            full_refresh,
            docs_only,
            downloads_only,
            has_admin: false,
            upserted: 0,
            skipped: 0,
            errors: 0,
            deleted: 0,
            preserved: 0,
        }
    }
}

fn finish_exec(st: SyncState) -> (r: (SyncState, SyncAction))
    ensures
        (r.0, sync_action_view(r.1)) == finished(st),
{
    let line = sync_summary(st.upserted, st.skipped, st.errors, st.dry_run);
    (SyncState { phase: SyncPhase::Done, ..st }, SyncAction::Report(line))
}

fn fail_exec(st: SyncState, m: String) -> (r: (SyncState, SyncAction))
    ensures
        (r.0, sync_action_view(r.1)) == failed(st, m@),
{
    (SyncState { phase: SyncPhase::Done, ..st }, SyncAction::Fail(m))
}

fn log_exec(st: SyncState) -> (r: (SyncState, SyncAction))
    ensures
        (r.0, sync_action_view(r.1)) == log_step(st),
{
    let line = sync_log_line(st.upserted, st.skipped, st.deleted, st.preserved, st.errors);
    (SyncState { phase: SyncPhase::Logging, ..st }, SyncAction::WriteLog(line))
}

fn after_lanes_exec(st: SyncState) -> (r: (SyncState, SyncAction))
    ensures
        (r.0, sync_action_view(r.1)) == after_lanes(st),
{
    if st.full_refresh {
        (SyncState { phase: SyncPhase::Pruning, ..st }, SyncAction::FindStale)
    } else {
        finish_exec(st)
    }
}

fn after_downloads_exec(st: SyncState) -> (r: (SyncState, SyncAction))
    ensures
        (r.0, sync_action_view(r.1)) == after_downloads(st),
{
    if !st.downloads_only {
        (SyncState { phase: SyncPhase::Published, ..st }, SyncAction::SyncPublished)
    } else {
        finish_exec(st)
    }
}

fn after_admin_exec(st: SyncState) -> (r: (SyncState, SyncAction))
    ensures
        (r.0, sync_action_view(r.1)) == after_admin(st),
{
    if !st.docs_only {
        (SyncState { phase: SyncPhase::Downloads, ..st }, SyncAction::RefreshDownloads)
    } else {
        after_downloads_exec(st)
    }
}

fn after_connect_exec(st: SyncState) -> (r: (SyncState, SyncAction))
    ensures
        (r.0, sync_action_view(r.1)) == after_connect(st),
{
    if st.has_admin {
        (SyncState { phase: SyncPhase::Admin, ..st }, SyncAction::SyncAdminPages)
    } else {
        after_admin_exec(st)
    }
}

fn tally_exec(st: SyncState, t: SyncTally) -> (r: SyncState)
    ensures
        r == tallied(st, t),
{
    SyncState {
        upserted: st.upserted.saturating_add(t.upserted),
        skipped: st.skipped.saturating_add(t.skipped),
        errors: st.errors.saturating_add(t.errors),
        ..st
    }
}

fn count_unowned_unseen(candidates: &[(String, bool)], synced: &[String]) -> (r: u64)
    ensures
        r == clamp(unowned_unseen(candidates@, strings(synced@))),
{
    let ghost sv = strings(synced@);
    let mut n: u64 = 0;
    let mut i: usize = 0;
    assert(candidates@.take(0) =~= Seq::<(String, bool)>::empty());
    while i < candidates.len()
        invariant
            i <= candidates@.len(),
            sv == strings(synced@),
            n == clamp(unowned_unseen(candidates@.take(i as int), sv)),
        decreases candidates@.len() - i,
    {
        assert(candidates@.take(i + 1).drop_last() =~= candidates@.take(i as int));
        assert(candidates@.take(i + 1).last() == candidates@[i as int]);
        let (id, owned) = &candidates[i];
        if !*owned && !has_string(synced, id.as_str()) {
            n = n.saturating_add(1);
        }
        i += 1;
    }
    assert(candidates@.take(candidates@.len() as int) =~= candidates@);
    n
}

/// One step of a sync run: see [`sync_step_of`].
pub fn sync_step(st: &SyncState, ev: SyncEvent) -> (r: (SyncState, SyncAction))
    ensures
        (r.0, sync_action_view(r.1)) == sync_step_of(*st, ev),
{
    let st = *st;
    match (st.phase, ev) {
        (SyncPhase::Start, SyncEvent::Started { connection, published_exists, admin_exists }) => {
            match connection.require_confluence() {
                Err(e) => {
                    proof {
                        if connection.confluence_url@.len() == 0 {
                            assert(e == ConfigError::MissingConfluenceUrl);
                        } else {
                            assert(e == ConfigError::MissingConfluenceEmail);
                        }
                    }
                    let m = String::from_str(e.message());
                    fail_exec(st, m)
                },
                Ok(()) => {
                    if !published_exists {
                        fail_exec(st, String::from_str("wiki/published/ not found. Run `curio init` first."))
                    } else if st.dry_run {
                        (SyncState { phase: SyncPhase::Done, ..st }, SyncAction::DryRun)
                    } else {
                        (
                            SyncState { phase: SyncPhase::Connecting, has_admin: admin_exists, ..st },
                            SyncAction::Connect,
                        )
                    }
                },
            }
        },
        (SyncPhase::Connecting, SyncEvent::Connected(r)) => match r {
            Ok(()) => after_connect_exec(st),
            Err(m) => fail_exec(st, m),
        },
        (SyncPhase::Admin, SyncEvent::PhaseDone(r)) => match r {
            Ok(t) => after_admin_exec(tally_exec(st, t)),
            Err(m) => fail_exec(st, m),
        },
        (SyncPhase::Downloads, SyncEvent::PhaseDone(r)) => match r {
            Ok(t) => after_downloads_exec(tally_exec(st, t)),
            Err(m) => fail_exec(st, m),
        },
        (SyncPhase::Published, SyncEvent::PhaseDone(r)) => match r {
            Ok(t) => (SyncState { phase: SyncPhase::Lanes, ..tally_exec(st, t) }, SyncAction::SyncLanes),
            Err(m) => fail_exec(st, m),
        },
        (SyncPhase::Lanes, SyncEvent::PhaseDone(r)) => match r {
            Ok(t) => after_lanes_exec(tally_exec(st, t)),
            Err(m) => fail_exec(st, m),
        },
        (SyncPhase::Pruning, SyncEvent::StaleFound { candidates, synced, lookup_errors }) => {
            let preserved = count_unowned_unseen(candidates.as_slice(), synced.as_slice());
            let st1 = SyncState { preserved, ..st };
            if lookup_errors > 0 {
                log_exec(SyncState { errors: st1.errors.saturating_add(lookup_errors), ..st1 })
            } else {
                let ids = stale_pages_to_delete(candidates.as_slice(), synced.as_slice(), st.full_refresh);
                (SyncState { phase: SyncPhase::Deleting, ..st1 }, SyncAction::Delete(ids))
            }
        },
        (SyncPhase::Deleting, SyncEvent::Deleted { ok, failed }) => log_exec(
            SyncState {
                deleted: ok,
                upserted: st.upserted.saturating_add(ok),
                errors: st.errors.saturating_add(failed),
                ..st
            },
        ),
        (SyncPhase::Logging, SyncEvent::Logged(r)) => match r {
            Ok(()) => finish_exec(st),
            Err(m) => fail_exec(st, m),
        },
        _ => (st, SyncAction::Ignore),
    }
}

/// The connection settings are checked before anything else: a run whose Confluence
/// URL or email is missing fails at its first step, dry run or not.
pub proof fn law_connection_checked_first(st: SyncState, ev: SyncEvent)
    requires
        st.phase == SyncPhase::Start,
        ev matches SyncEvent::Started { connection, .. } && (connection.confluence_url@.len() == 0
            || connection.confluence_email@.len() == 0),
    ensures
        sync_step_of(st, ev).1 is Fail,
        sync_step_of(st, ev).0.phase == SyncPhase::Done,
{
}

/// A dry run makes no Confluence call: its first step ends the run with the
/// listing or an error, and an ended run ignores whatever comes after.
pub proof fn law_dry_run_stays_local(st: SyncState, ev: SyncEvent, later: SyncEvent)
    requires
        st.phase == SyncPhase::Start,
        st.dry_run,
    ensures
        sync_step_of(st, ev).1 is DryRun || sync_step_of(st, ev).1 is Fail || sync_step_of(st, ev).1 is Ignore,
        sync_step_of(st, ev).0.phase == SyncPhase::Done || sync_step_of(st, ev).0 == st,
        sync_step_of(sync_step_of(st, ev).0, later).1 is Ignore || sync_step_of(st, ev).0 == st,
{
}

/// Stale pages are looked for only on a full refresh, and the pages a step deletes
/// are all candidates Curio owns that the run did not sync.
pub proof fn law_prune_only_on_full_refresh(st: SyncState, ev: SyncEvent)
    ensures
        sync_step_of(st, ev).1 is FindStale ==> st.full_refresh,
        sync_step_of(st, ev).1 matches SyncActionView::Delete(ids) ==> (ids.len() > 0 ==> st.full_refresh)
            && (ev matches SyncEvent::StaleFound { candidates, synced, .. } && forall|k: int|
            0 <= k < ids.len() ==> !strings(synced@).contains(#[trigger] ids[k]) && exists|j: int|
                0 <= j < candidates@.len() && candidates@[j].1 && candidates@[j].0@ == ids[k]),
{
    if let SyncEvent::StaleFound { candidates, synced, .. } = ev {
        crate::commands::sync::law_prune_only_owned_unseen(candidates@, strings(synced@), st.full_refresh);
    }
}

} // verus!
