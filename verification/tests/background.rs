use zerofs::background::{
    start_garbage_collection, start_stats_reporting, GarbageCollection, GcAction, GcEvent,
    StatsAction, StatsEvent, StatsReporting,
};
use zerofs::machine::Machine;

#[test]
fn collections_and_pauses_alternate() {
    let (gc, action): (_, GcAction<&str>) = start_garbage_collection();
    assert_eq!(action, GcAction::Collect);
    let (gc, action) = gc.step(GcEvent::Collected(Ok(())));
    assert_eq!(
        action,
        Some(GcAction::Pause::<&str> {
            secs: 10,
            failure: None
        })
    );
    let (gc, action): (_, Option<GcAction<&str>>) = gc.step(GcEvent::PauseEnded);
    assert_eq!(action, Some(GcAction::Collect));
    assert_eq!(gc, GarbageCollection::Collecting);
}

#[test]
fn a_failed_collection_is_reported_and_the_task_goes_on() {
    let (gc, _): (_, GcAction<&str>) = start_garbage_collection();
    let (gc, action) = gc.step(GcEvent::Collected(Err("lost")));
    assert_eq!(
        action,
        Some(GcAction::Pause {
            secs: 10,
            failure: Some("lost")
        })
    );
    let (gc, action): (_, Option<GcAction<&str>>) = gc.step(GcEvent::PauseEnded);
    assert_eq!(action, Some(GcAction::Collect));
    assert_eq!(gc, GarbageCollection::Collecting);
}

#[test]
fn a_pause_does_not_end_a_running_collection() {
    let (gc, action): (_, Option<GcAction<&str>>) =
        GarbageCollection::Collecting.step(GcEvent::PauseEnded);
    assert_eq!(gc, GarbageCollection::Collecting);
    assert_eq!(action, None);
}

#[test]
fn statistics_are_reported_at_each_tick() {
    let (stats, action) = start_stats_reporting();
    assert_eq!(action, StatsAction::AwaitTick { period_secs: 5 });
    let (stats, action) = stats.step(StatsEvent::Tick);
    assert_eq!(action, Some(StatsAction::Report));
    let (stats, action) = stats.step(StatsEvent::Reported);
    assert_eq!(action, Some(StatsAction::AwaitTick { period_secs: 5 }));
    assert_eq!(stats, StatsReporting::AwaitingTick);
}

#[test]
fn a_report_is_not_interrupted_by_a_tick() {
    let (stats, action) = StatsReporting::Reporting.step(StatsEvent::Tick);
    assert_eq!(stats, StatsReporting::Reporting);
    assert_eq!(action, None);
}
