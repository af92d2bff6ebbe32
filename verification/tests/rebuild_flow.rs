use koshelf::ingest::{IngestStats, LibrarySyncResult};
use koshelf::rebuild_flow::{rebuild_start, rebuild_step, RebuildAction, RebuildEvent, RebuildStage};

fn run(events: &[RebuildEvent]) -> Vec<RebuildAction> {
    let mut st = rebuild_start();
    let mut actions = Vec::new();
    for ev in events {
        let (next, action) = rebuild_step(&st, *ev);
        st = next;
        actions.push(action);
    }
    actions
}

#[test]
fn targeted_rebuild_with_an_upsert_publishes_once() {
    let upserted = IngestStats { upserted: 1, ..IngestStats::default() };
    let actions = run(&[
        RebuildEvent::Begin { stats_changed: false, full_sync: false, internal_server: true },
        RebuildEvent::Deleted(0),
        RebuildEvent::Ingested(Some(upserted)),
        RebuildEvent::StatsReloaded(true),
    ]);
    assert_eq!(
        actions,
        vec![
            RebuildAction::DeleteRemoved,
            RebuildAction::IngestChanged,
            RebuildAction::Finish { regenerate_images: false, publish_change: true, re_export: false },
            RebuildAction::Ignore,
        ]
    );
}

#[test]
fn deletions_reload_stats_before_finishing() {
    let actions = run(&[
        RebuildEvent::Begin { stats_changed: false, full_sync: false, internal_server: false },
        RebuildEvent::Deleted(2),
        RebuildEvent::Ingested(Some(IngestStats::default())),
        RebuildEvent::StatsReloaded(false),
    ]);
    assert_eq!(actions[2], RebuildAction::ReloadStats);
    assert_eq!(actions[3], RebuildAction::Finish { regenerate_images: false, publish_change: true, re_export: true });
}

#[test]
fn nothing_changed_publishes_nothing() {
    let actions = run(&[
        RebuildEvent::Begin { stats_changed: false, full_sync: false, internal_server: false },
        RebuildEvent::Deleted(0),
        RebuildEvent::Ingested(Some(IngestStats::default())),
    ]);
    assert_eq!(actions[2], RebuildAction::Finish { regenerate_images: false, publish_change: false, re_export: true });
}

#[test]
fn failed_sync_ends_the_rebuild() {
    let actions = run(&[
        RebuildEvent::Begin { stats_changed: true, full_sync: true, internal_server: true },
        RebuildEvent::Synced(None),
        RebuildEvent::Deleted(0),
        RebuildEvent::Ingested(Some(IngestStats::default())),
    ]);
    assert_eq!(
        actions,
        vec![RebuildAction::SyncLibrary, RebuildAction::Fail, RebuildAction::Ignore, RebuildAction::Ignore]
    );
}

#[test]
fn full_sync_that_removed_items_reloads_and_publishes() {
    let update = LibrarySyncResult { removed: 1, ..LibrarySyncResult::default() };
    let mut st = rebuild_start();
    let steps = [
        RebuildEvent::Begin { stats_changed: false, full_sync: true, internal_server: true },
        RebuildEvent::Synced(Some(update)),
        RebuildEvent::Deleted(0),
        RebuildEvent::Ingested(Some(IngestStats::default())),
    ];
    let mut last = RebuildAction::Ignore;
    for ev in steps {
        let (next, action) = rebuild_step(&st, ev);
        st = next;
        last = action;
    }
    assert_eq!(last, RebuildAction::ReloadStats);
    let (done, finish) = rebuild_step(&st, RebuildEvent::StatsReloaded(true));
    assert_eq!(done.stage, RebuildStage::Done);
    assert_eq!(finish, RebuildAction::Finish { regenerate_images: true, publish_change: true, re_export: false });
}

#[test]
fn failed_ingest_ends_the_rebuild() {
    let actions = run(&[
        RebuildEvent::Begin { stats_changed: false, full_sync: false, internal_server: true },
        RebuildEvent::Deleted(3),
        RebuildEvent::Ingested(None),
        RebuildEvent::StatsReloaded(true),
    ]);
    assert_eq!(actions[2], RebuildAction::Fail);
    assert_eq!(actions[3], RebuildAction::Ignore);
}
