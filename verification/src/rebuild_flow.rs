//! The sequence of a targeted rebuild as a state machine: the caller does
//! the work each action names (a library sync, removals, an ingest, a
//! statistics reload) and hands back what came of it; the machine decides
//! what comes next, and at the end whether clients hear of a change.

use vstd::prelude::*;
use crate::ingest::{IngestStats, LibrarySyncResult};
use crate::rebuild::{data_change_seen, data_changed, needs_stats_reload, stats_reload_needed};

verus! {

/// Where a rebuild stands.
#[derive(Debug, Clone, Copy, PartialEq, Eq, Structural)]
pub enum RebuildStage {
    Start,
    Syncing,
    Deleting,
    Ingesting,
    ReloadingStats,
    Done,
    Failed,
}

/// What a rebuild has learnt so far.
#[derive(Debug, Clone, Copy, PartialEq, Eq)]
pub struct RebuildState {
    pub stage: RebuildStage,
    /// A statistics database changed.
    pub stats_changed: bool,
    /// The internal server runs (no static data is written).
    pub internal_server: bool,
    /// What the full library sync reported, where one ran.
    pub library_update: Option<LibrarySyncResult>,
    /// How many items were removed.
    pub deleted_count: u64,
    /// What the ingest of the changed books counted.
    pub ingest: IngestStats,
}

/// What came of the work the last action named.
#[derive(Debug, Clone, Copy, PartialEq, Eq)]
pub enum RebuildEvent {
    /// The rebuild begins: whether a statistics database changed, whether a
    /// full library sync is needed, and whether the internal server runs.
    Begin { stats_changed: bool, full_sync: bool, internal_server: bool },
    /// The full library sync ended: its report, or `None` where it failed.
    Synced(Option<LibrarySyncResult>),
    /// The removed books were handled: how many items went.
    Deleted(u64),
    /// The ingest ended: its counters, or `None` where it failed.
    Ingested(Option<IngestStats>),
    /// The statistics reload ended: whether new reading data was loaded.
    StatsReloaded(bool),
}

/// What to do next.
#[derive(Debug, Clone, Copy, PartialEq, Eq)]
pub enum RebuildAction {
    /// Sync the whole library with the database.
    SyncLibrary,
    /// Classify the changed paths and remove the items of books that went.
    DeleteRemoved,
    /// Ingest the changed books.
    IngestChanged,
    /// Reload the statistics.
    ReloadStats,
    /// End the rebuild: regenerate the share images where statistics were
    /// reloaded, refresh the site data, tell clients of a change where there
    /// was one, and write the static data again where no server runs.
    Finish { regenerate_images: bool, publish_change: bool, re_export: bool },
    /// End the rebuild with an error; clients hear of nothing.
    Fail,
    /// The event does not belong here; nothing to do.
    Ignore,
}

/// The finishing action once the statistics were (`reloaded`) or were not reloaded.
pub open spec fn finish(st: RebuildState, reloaded: bool) -> RebuildAction {
    RebuildAction::Finish {
        regenerate_images: reloaded,
        publish_change: data_change_seen(st.ingest, st.deleted_count, reloaded, st.library_update),
        re_export: !st.internal_server,
    }
}

/// The next state and action of a rebuild in state `st` on `ev`.
pub open spec fn rebuild_next(st: RebuildState, ev: RebuildEvent) -> (RebuildState, RebuildAction) {
    match (st.stage, ev) {
        (RebuildStage::Start, RebuildEvent::Begin { stats_changed, full_sync, internal_server }) => {
            let s2 = RebuildState { stats_changed, internal_server, ..st };
            if full_sync {
                (RebuildState { stage: RebuildStage::Syncing, ..s2 }, RebuildAction::SyncLibrary)
            } else {
                (RebuildState { stage: RebuildStage::Deleting, ..s2 }, RebuildAction::DeleteRemoved)
            }
        },
        (RebuildStage::Syncing, RebuildEvent::Synced(r)) => match r {
            Some(u) => (
                RebuildState { stage: RebuildStage::Deleting, library_update: Some(u), ..st },
                RebuildAction::DeleteRemoved,
            ),
            None => (RebuildState { stage: RebuildStage::Failed, ..st }, RebuildAction::Fail),
        },
        (RebuildStage::Deleting, RebuildEvent::Deleted(n)) => (
            RebuildState { stage: RebuildStage::Ingesting, deleted_count: n, ..st },
            RebuildAction::IngestChanged,
        ),
        (RebuildStage::Ingesting, RebuildEvent::Ingested(r)) => match r {
            Some(s) => {
                let s2 = RebuildState { ingest: s, ..st };
                if stats_reload_needed(s2.stats_changed, s, s2.deleted_count, s2.library_update) {
                    (RebuildState { stage: RebuildStage::ReloadingStats, ..s2 }, RebuildAction::ReloadStats)
                } else {
                    (RebuildState { stage: RebuildStage::Done, ..s2 }, finish(s2, false))
                }
            },
            None => (RebuildState { stage: RebuildStage::Failed, ..st }, RebuildAction::Fail),
        },
        (RebuildStage::ReloadingStats, RebuildEvent::StatsReloaded(loaded)) => (
            RebuildState { stage: RebuildStage::Done, ..st },
            finish(st, loaded),
        ),
        _ => (st, RebuildAction::Ignore),
    }
}

/// The state of a rebuild that has not begun.
pub fn rebuild_start() -> (r: RebuildState)
    ensures
        r.stage == RebuildStage::Start,
        r.library_update is None,
        r.deleted_count == 0,
        r.ingest@ == crate::ingest::zero_count(),
        !r.stats_changed,
        !r.internal_server,
{
    RebuildState {
        stage: RebuildStage::Start,
        stats_changed: false,
        internal_server: false,
        library_update: None,
        deleted_count: 0,
        ingest: IngestStats::zero(),
    }
}

/// One step of a rebuild: the next state and what to do, as `rebuild_next` states.
pub fn rebuild_step(state: &RebuildState, event: RebuildEvent) -> (r: (RebuildState, RebuildAction))
    ensures
        r == rebuild_next(*state, event),
{
    let st = *state;
    match (st.stage, event) {
        (RebuildStage::Start, RebuildEvent::Begin { stats_changed, full_sync, internal_server }) => {
            let s2 = RebuildState { stats_changed, internal_server, ..st };
            if full_sync {
                (RebuildState { stage: RebuildStage::Syncing, ..s2 }, RebuildAction::SyncLibrary)
            } else {
                (RebuildState { stage: RebuildStage::Deleting, ..s2 }, RebuildAction::DeleteRemoved)
            }
        },
        (RebuildStage::Syncing, RebuildEvent::Synced(r)) => match r {
            Some(u) => (
                RebuildState { stage: RebuildStage::Deleting, library_update: Some(u), ..st },
                RebuildAction::DeleteRemoved,
            ),
            None => (RebuildState { stage: RebuildStage::Failed, ..st }, RebuildAction::Fail),
        },
        (RebuildStage::Deleting, RebuildEvent::Deleted(n)) => (
            RebuildState { stage: RebuildStage::Ingesting, deleted_count: n, ..st },
            RebuildAction::IngestChanged,
        ),
        (RebuildStage::Ingesting, RebuildEvent::Ingested(r)) => match r {
            Some(s) => {
                let s2 = RebuildState { ingest: s, ..st };
                if needs_stats_reload(s2.stats_changed, &s, s2.deleted_count, &s2.library_update) {
                    (RebuildState { stage: RebuildStage::ReloadingStats, ..s2 }, RebuildAction::ReloadStats)
                } else {
                    let publish = data_changed(&s2.ingest, s2.deleted_count, false, &s2.library_update);
                    (
                        RebuildState { stage: RebuildStage::Done, ..s2 },
                        RebuildAction::Finish {
                            regenerate_images: false,
                            publish_change: publish,
                            re_export: !s2.internal_server,
                        },
                    )
                }
            },
            None => (RebuildState { stage: RebuildStage::Failed, ..st }, RebuildAction::Fail),
        },
        (RebuildStage::ReloadingStats, RebuildEvent::StatsReloaded(loaded)) => {
            let publish = data_changed(&st.ingest, st.deleted_count, loaded, &st.library_update);
            (
                RebuildState { stage: RebuildStage::Done, ..st },
                RebuildAction::Finish { regenerate_images: loaded, publish_change: publish, re_export: !st.internal_server },
            )
        },
        _ => (st, RebuildAction::Ignore),
    }
}

// ── Laws ──────────────────────────────────────────────────────────────

/// A rebuild that has ended, well or not.
pub open spec fn ended(st: RebuildState) -> bool {
    st.stage == RebuildStage::Done || st.stage == RebuildStage::Failed
}

/// An action that ends the rebuild.
pub open spec fn ends(a: RebuildAction) -> bool {
    a is Finish || a is Fail
}

/// The actions a rebuild in state `st` takes on the events `evs`, in order.
pub open spec fn actions_of(st: RebuildState, evs: Seq<RebuildEvent>) -> Seq<RebuildAction>
    decreases evs.len(),
{
    if evs.len() == 0 {
        Seq::empty()
    } else {
        let (s2, a) = rebuild_next(st, evs[0]);
        seq![a] + actions_of(s2, evs.drop_first())
    }
}

/// How many of `acts` end the rebuild.
pub open spec fn endings(acts: Seq<RebuildAction>) -> nat
    decreases acts.len(),
{
    if acts.len() == 0 {
        0
    } else {
        (if ends(acts[0]) { 1nat } else { 0nat }) + endings(acts.drop_first())
    }
}

/// An ended rebuild ignores every further event; an action that ends it
/// leaves it ended, and only such an action does.
pub proof fn ended_rebuilds_stay_ended(st: RebuildState, ev: RebuildEvent)
    ensures
        ended(st) ==> rebuild_next(st, ev) == (st, RebuildAction::Ignore),
        !ended(st) ==> (ends(rebuild_next(st, ev).1) <==> ended(rebuild_next(st, ev).0)),
{
}

/// A rebuild ends at most once, so clients hear of its change at most once;
/// an ended one takes no further action.
pub proof fn a_rebuild_ends_at_most_once(st: RebuildState, evs: Seq<RebuildEvent>)
    ensures
        endings(actions_of(st, evs)) <= 1,
        ended(st) ==> endings(actions_of(st, evs)) == 0,
    decreases evs.len(),
{
    if evs.len() > 0 {
        let (s2, a) = rebuild_next(st, evs[0]);
        let rest = actions_of(s2, evs.drop_first());
        a_rebuild_ends_at_most_once(s2, evs.drop_first());
        assert((seq![a] + rest).drop_first() =~= rest);
        assert((seq![a] + rest)[0] == a);
    }
}

/// A rebuild fails only when the library sync or the ingest failed; then
/// clients hear of nothing. It finishes only after the ingest (and the
/// statistics reload, where one is needed), and then tells clients of a
/// change exactly when `data_change_seen` holds.
pub proof fn failures_and_changes(st: RebuildState, ev: RebuildEvent)
    ensures
        rebuild_next(st, ev).1 is Fail ==> (st.stage == RebuildStage::Syncing && ev == RebuildEvent::Synced(None))
            || (st.stage == RebuildStage::Ingesting && ev == RebuildEvent::Ingested(None)),
        rebuild_next(st, ev).1 matches RebuildAction::Finish { publish_change, regenerate_images, re_export } ==> {
            &&& st.stage == RebuildStage::Ingesting || st.stage == RebuildStage::ReloadingStats
            &&& publish_change == data_change_seen(
                rebuild_next(st, ev).0.ingest,
                st.deleted_count,
                regenerate_images,
                st.library_update,
            )
            &&& re_export == !st.internal_server
        },
{
}


/// After the ingest, a rebuild reloads the statistics exactly when the
/// ingest invalidated statistics, a statistics database changed, an item was
/// deleted, or the full sync removed items or invalidated statistics;
/// otherwise it finishes without regenerating the share images.
pub proof fn ingest_decides_the_reload(st: RebuildState, s: IngestStats)
    requires
        st.stage == RebuildStage::Ingesting,
    ensures
        s.stats_invalidated > 0 ==> rebuild_next(st, RebuildEvent::Ingested(Some(s))).1 == RebuildAction::ReloadStats,
        st.stats_changed ==> rebuild_next(st, RebuildEvent::Ingested(Some(s))).1 == RebuildAction::ReloadStats,
        st.deleted_count > 0 ==> rebuild_next(st, RebuildEvent::Ingested(Some(s))).1 == RebuildAction::ReloadStats,
        !st.stats_changed && s.stats_invalidated == 0 && st.deleted_count == 0 && (st.library_update matches Some(u)
            ==> (u.removed == 0 && (u.ingest_stats matches Some(x) ==> x.stats_invalidated == 0))) ==> rebuild_next(
            st,
            RebuildEvent::Ingested(Some(s)),
        ).1 == finish(RebuildState { ingest: s, ..st }, false),
{
    crate::rebuild::statistics_reload_triggers(st.stats_changed, s, st.deleted_count, st.library_update);
}

} // verus!
