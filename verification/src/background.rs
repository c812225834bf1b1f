//! The tasks that run beside the servers until the process ends.

use vstd::prelude::*;

use crate::machine::{
    invariant_holds_on_every_trace, trace, trace_goes_on_event_by_event, Machine,
};

verus! {

/// Seconds between the end of a garbage collection and the start of the next.
pub const GC_PAUSE_SECS: u64 = 10;

/// Seconds between two reports of the statistics.
pub const STATS_INTERVAL_SECS: u64 = 5;

/// The garbage collection task.
#[derive(Debug, PartialEq, Eq)]
pub enum GarbageCollection {
    Collecting,
    Pausing,
}

/// How a step of the garbage collection went.
#[derive(Debug, PartialEq, Eq)]
pub enum GcEvent<E> {
    Collected(Result<(), E>),
    PauseEnded,
}

/// What the garbage collection does next.
#[derive(Debug, PartialEq, Eq)]
pub enum GcAction<E> {
    Collect,
    /// Report the failure of the collection, if it failed, and pause.
    Pause { secs: u64, failure: Option<E> },
}

impl<E> View for GcAction<E> {
    type V = GcAction<E>;

    open spec fn view(&self) -> GcAction<E> {
        *self
    }
}

impl<E> Machine<GcEvent<E>, GcAction<E>> for GarbageCollection {
    open spec fn next(self, event: GcEvent<E>) -> (Self, Option<GcAction<E>>) {
        match (self, event) {
            (GarbageCollection::Collecting, GcEvent::Collected(result)) => (
                GarbageCollection::Pausing,
                Some(
                    GcAction::Pause {
                        secs: 10,
                        failure: match result {
                            Ok(_) => None,
                            Err(e) => Some(e),
                        },
                    },
                ),
            ),
            (GarbageCollection::Pausing, GcEvent::PauseEnded) => (
                GarbageCollection::Collecting,
                Some(GcAction::Collect),
            ),
            _ => (self, None),
        }
    }

    fn step(self, event: GcEvent<E>) -> (out: (Self, Option<GcAction<E>>)) {
        match (self, event) {
            (GarbageCollection::Collecting, GcEvent::Collected(result)) => {
                let secs: u64 = GC_PAUSE_SECS;
                let failure = match result {
                    Ok(_) => None,
                    Err(e) => Some(e),
                };
                (GarbageCollection::Pausing, Some(GcAction::Pause { secs, failure }))
            },
            (GarbageCollection::Pausing, GcEvent::PauseEnded) => (
                GarbageCollection::Collecting,
                Some(GcAction::Collect),
            ),
            (unmoved, _) => (unmoved, None),
        }
    }
}

/// Begins the garbage collection: the first one runs at once.
pub fn start_garbage_collection<E>() -> (out: (GarbageCollection, GcAction<E>))
    ensures
        out.0 is Collecting,
        out.1 is Collect,
{
    (GarbageCollection::Collecting, GcAction::Collect)
}

/// The garbage collection never ends, whatever a collection reports: collections
/// and pauses of ten seconds take turns.
pub proof fn collections_and_pauses_take_turns<E>(events: Seq<GcEvent<E>>)
    ensures
        ({
            let (end, actions) = trace::<_, GcAction<E>, _>(GarbageCollection::Collecting, events);
            &&& end is Pausing <==> actions.len() % 2 == 1
            &&& forall|i: int| 0 <= i < actions.len() ==> match #[trigger] actions[i] {
                GcAction::Pause { secs, .. } => secs == 10 && i % 2 == 0,
                GcAction::Collect => i % 2 == 1,
            }
        }),
{
    let inv = |past: Seq<GcEvent<E>>, at: (GarbageCollection, Seq<GcAction<E>>)|
        {
            &&& at.0 is Pausing <==> at.1.len() % 2 == 1
            &&& forall|i: int| 0 <= i < at.1.len() ==> match #[trigger] at.1[i] {
                GcAction::Pause { secs, .. } => secs == 10 && i % 2 == 0,
                GcAction::Collect => i % 2 == 1,
            }
        };
    invariant_holds_on_every_trace::<_, GcAction<E>, _>(
        GarbageCollection::Collecting,
        events,
        inv,
    );
}

/// Whatever a collection reports, the task goes on to its pause, and from there
/// to the next collection; a failure is reported on the way.
pub proof fn failed_collection_does_not_end_the_task<E>(result: Result<(), E>)
    ensures
        ({
            let (pausing, pause) = Machine::<_, GcAction<E>>::next(
                GarbageCollection::Collecting,
                GcEvent::Collected(result),
            );
            let (again, collect) = Machine::<_, GcAction<E>>::next(
                pausing,
                GcEvent::<E>::PauseEnded,
            );
            &&& pause matches Some(GcAction::Pause { failure, .. }) && (result matches Err(e)
                ==> failure == Some(e)) && (result is Ok ==> failure is None)
            &&& again is Collecting
            &&& collect == Some(GcAction::<E>::Collect)
        }),
{
}

/// The task that reports statistics.
#[derive(Debug, PartialEq, Eq)]
pub enum StatsReporting {
    AwaitingTick,
    Reporting,
}

/// What happened to the reporting.
#[derive(Debug, PartialEq, Eq)]
pub enum StatsEvent {
    Tick,
    Reported,
}

/// What the reporting does next.
#[derive(Debug, PartialEq, Eq)]
pub enum StatsAction {
    AwaitTick { period_secs: u64 },
    Report,
}

impl View for StatsAction {
    type V = StatsAction;

    open spec fn view(&self) -> StatsAction {
        *self
    }
}

impl Machine<StatsEvent, StatsAction> for StatsReporting {
    open spec fn next(self, event: StatsEvent) -> (Self, Option<StatsAction>) {
        match (self, event) {
            (StatsReporting::AwaitingTick, StatsEvent::Tick) => (
                StatsReporting::Reporting,
                Some(StatsAction::Report),
            ),
            (StatsReporting::Reporting, StatsEvent::Reported) => (
                StatsReporting::AwaitingTick,
                Some(StatsAction::AwaitTick { period_secs: 5 }),
            ),
            _ => (self, None),
        }
    }

    fn step(self, event: StatsEvent) -> (out: (Self, Option<StatsAction>)) {
        match (self, event) {
            (StatsReporting::AwaitingTick, StatsEvent::Tick) => (
                StatsReporting::Reporting,
                Some(StatsAction::Report),
            ),
            (StatsReporting::Reporting, StatsEvent::Reported) => {
                let period_secs: u64 = STATS_INTERVAL_SECS;
                (StatsReporting::AwaitingTick, Some(StatsAction::AwaitTick { period_secs }))
            },
            (unmoved, _) => (unmoved, None),
        }
    }
}

/// Begins the reporting of statistics: it waits for its first tick.
pub fn start_stats_reporting() -> (out: (StatsReporting, StatsAction))
    ensures
        out.0 is AwaitingTick,
        out.1 == (StatsAction::AwaitTick { period_secs: 5 }),
{
    let period_secs: u64 = STATS_INTERVAL_SECS;
    (StatsReporting::AwaitingTick, StatsAction::AwaitTick { period_secs })
}

/// The reporting never ends: reports and waits for a tick take turns.
pub proof fn reports_and_ticks_take_turns(events: Seq<StatsEvent>)
    ensures
        ({
            let (end, actions) = trace::<_, StatsAction, _>(StatsReporting::AwaitingTick, events);
            &&& end is Reporting <==> actions.len() % 2 == 1
            &&& forall|i: int| 0 <= i < actions.len() ==> match #[trigger] actions[i] {
                StatsAction::Report => i % 2 == 0,
                StatsAction::AwaitTick { period_secs } => period_secs == 5 && i % 2 == 1,
            }
        }),
{
    let inv = |past: Seq<StatsEvent>, at: (StatsReporting, Seq<StatsAction>)|
        {
            &&& at.0 is Reporting <==> at.1.len() % 2 == 1
            &&& forall|i: int| 0 <= i < at.1.len() ==> match #[trigger] at.1[i] {
                StatsAction::Report => i % 2 == 0,
                StatsAction::AwaitTick { period_secs } => period_secs == 5 && i % 2 == 1,
            }
        };
    invariant_holds_on_every_trace::<_, StatsAction, _>(StatsReporting::AwaitingTick, events, inv);
}

/// One round of the garbage collection, whatever the collection reports: a pause of
/// ten seconds that reports exactly a failure, then the next collection, which is
/// where the task began.
pub proof fn every_collection_is_followed_by_a_pause_and_the_next_one<E>(result: Result<(), E>)
    ensures
        ({
            let (end, actions) = trace::<_, GcAction<E>, _>(
                GarbageCollection::Collecting,
                seq![GcEvent::Collected(result), GcEvent::PauseEnded],
            );
            let failure = match result {
                Ok(_) => None,
                Err(e) => Some(e),
            };
            &&& end is Collecting
            &&& actions == seq![GcAction::Pause { secs: 10, failure }, GcAction::Collect]
        }),
{
    let start = GarbageCollection::Collecting;
    let first = seq![GcEvent::Collected(result)];
    trace_goes_on_event_by_event::<_, GcAction<E>, _>(
        start,
        Seq::empty(),
        GcEvent::Collected(result),
    );
    trace_goes_on_event_by_event::<_, GcAction<E>, _>(start, first, GcEvent::PauseEnded);
    assert(first =~= Seq::empty().push(GcEvent::Collected(result)));
    assert(seq![GcEvent::Collected(result), GcEvent::PauseEnded] =~= first.push(
        GcEvent::PauseEnded,
    ));
}

/// The end of a pause means nothing to a collection, nor the end of a collection to
/// a pause.
pub proof fn garbage_collection_waits_for_its_own_end<E>(result: Result<(), E>)
    ensures
        Machine::<_, GcAction<E>>::next(
            GarbageCollection::Collecting,
            GcEvent::<E>::PauseEnded,
        ) == (GarbageCollection::Collecting, None::<GcAction<E>>),
        Machine::<_, GcAction<E>>::next(
            GarbageCollection::Pausing,
            GcEvent::Collected(result),
        ) == (GarbageCollection::Pausing, None::<GcAction<E>>),
{
}

/// One round of the reporting: a tick brings a report, and the report the wait for
/// the next tick, which is where the task began.
pub proof fn every_tick_is_followed_by_a_report_and_the_next_tick()
    ensures
        trace::<_, StatsAction, _>(
            StatsReporting::AwaitingTick,
            seq![StatsEvent::Tick, StatsEvent::Reported],
        ) == (
            StatsReporting::AwaitingTick,
            seq![StatsAction::Report, StatsAction::AwaitTick { period_secs: 5 }],
        ),
        Machine::<_, StatsAction>::next(StatsReporting::AwaitingTick, StatsEvent::Reported) == (
            StatsReporting::AwaitingTick,
            None::<StatsAction>,
        ),
        Machine::<_, StatsAction>::next(StatsReporting::Reporting, StatsEvent::Tick) == (
            StatsReporting::Reporting,
            None::<StatsAction>,
        ),
{
    let start = StatsReporting::AwaitingTick;
    let first = seq![StatsEvent::Tick];
    trace_goes_on_event_by_event::<_, StatsAction, _>(start, Seq::empty(), StatsEvent::Tick);
    trace_goes_on_event_by_event::<_, StatsAction, _>(start, first, StatsEvent::Reported);
    assert(first =~= Seq::empty().push(StatsEvent::Tick));
    assert(seq![StatsEvent::Tick, StatsEvent::Reported] =~= first.push(StatsEvent::Reported));
    assert(trace::<_, StatsAction, _>(start, first.push(StatsEvent::Reported)).1 =~= seq![
        StatsAction::Report,
        StatsAction::AwaitTick { period_secs: 5 },
    ]);
}

/// What is seen of an action of the two tasks is the action itself.
pub proof fn background_actions_are_seen_as_they_are<E>(gc: GcAction<E>, stats: StatsAction)
    ensures
        gc@ == gc,
        stats@ == stats,
{
}

} // verus!
