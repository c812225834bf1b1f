//! Keeping a read-only server up to date: every few seconds a new checkpoint is
//! made and its reader takes the place of the one before.

use vstd::prelude::*;

use crate::machine::{
    advance, invariant_holds_on_every_trace, lemma_push_contains, trace,
    trace_goes_on_event_by_event, Machine,
};
use crate::object_path::{is_encoding_of, object_path, to_object_path};

verus! {

/// Seconds between two refreshes.
pub const CHECKPOINT_REFRESH_INTERVAL_SECS: u64 = 10;

/// Seconds that a checkpoint lives: ten refreshes.
pub const CHECKPOINT_LIFETIME_SECS: u64 = CHECKPOINT_REFRESH_INTERVAL_SECS * 10;

/// What the refresh of a read-only database needs.
#[derive(Debug, PartialEq, Eq)]
pub struct CheckpointRefreshParams<S> {
    pub db_path: String,
    pub object_store: S,
}

/// The refresh task of the database at `db_path` in `object_store`.
#[derive(Debug, PartialEq, Eq)]
pub struct CheckpointRefresh<S> {
    pub db_path: String,
    pub object_store: S,
    pub stage: RefreshStage,
}

/// What the refresh waits for.
#[derive(Debug, PartialEq, Eq)]
pub enum RefreshStage {
    AwaitingTick,
    CreatingCheckpoint,
    OpeningReader,
    SwappingReader,
}

/// How a step went. `C` names a checkpoint, `R` is a reader.
#[derive(Debug, PartialEq, Eq)]
pub enum RefreshEvent<C, R, E> {
    Tick,
    CheckpointCreated(Result<C, E>),
    ReaderOpened(Result<R, E>),
    ReaderSwapped(Result<(), E>),
}

/// A step of a refresh that failed.
#[derive(Debug, PartialEq, Eq)]
pub enum RefreshFailure<E> {
    CreateCheckpoint(E),
    OpenReader(E),
    SwapReader(E),
}

/// What to do next, in the object store of the task.
#[derive(Debug, PartialEq, Eq)]
pub enum RefreshAction<C, R, E> {
    /// Report the failure of the last refresh, if it failed, and wait for the
    /// next tick.
    AwaitTick { period_secs: u64, failure: Option<RefreshFailure<E>> },
    CreateCheckpoint { db_path: String, lifetime_secs: u64 },
    OpenReader { db_path: String, checkpoint: C },
    SwapReader { reader: R },
}

impl<C, R, E> View for RefreshAction<C, R, E> {
    type V = RefreshAction<C, R, E>;

    open spec fn view(&self) -> RefreshAction<C, R, E> {
        *self
    }
}

impl<S> CheckpointRefresh<S> {
    /// The same task at another stage.
    pub open spec fn at(self, stage: RefreshStage) -> Self {
        CheckpointRefresh { stage, ..self }
    }

    /// The same task back at its tick, with what failed on the way.
    pub open spec fn back_to_tick<C, R, E>(self, failure: Option<RefreshFailure<E>>) -> (
        Self,
        Option<RefreshAction<C, R, E>>,
    ) {
        (
            self.at(RefreshStage::AwaitingTick),
            Some(RefreshAction::AwaitTick { period_secs: 10, failure }),
        )
    }

    fn wait<C, R, E>(self, failure: Option<RefreshFailure<E>>) -> (out: (
        Self,
        Option<RefreshAction<C, R, E>>,
    ))
        ensures
            out == self.back_to_tick::<C, R, E>(failure),
    {
        let period_secs: u64 = CHECKPOINT_REFRESH_INTERVAL_SECS;
        (
            CheckpointRefresh { stage: RefreshStage::AwaitingTick, ..self },
            Some(RefreshAction::AwaitTick { period_secs, failure }),
        )
    }
}

impl<S, C, R, E> Machine<RefreshEvent<C, R, E>, RefreshAction<C, R, E>> for CheckpointRefresh<S> {
    open spec fn next(self, event: RefreshEvent<C, R, E>) -> (
        Self,
        Option<RefreshAction<C, R, E>>,
    ) {
        match (self.stage, event) {
            (RefreshStage::AwaitingTick, RefreshEvent::Tick) => (
                self.at(RefreshStage::CreatingCheckpoint),
                Some(
                    RefreshAction::CreateCheckpoint { db_path: self.db_path, lifetime_secs: 100 },
                ),
            ),
            (RefreshStage::CreatingCheckpoint, RefreshEvent::CheckpointCreated(Ok(checkpoint))) => (
                self.at(RefreshStage::OpeningReader),
                Some(RefreshAction::OpenReader { db_path: self.db_path, checkpoint }),
            ),
            (RefreshStage::CreatingCheckpoint, RefreshEvent::CheckpointCreated(Err(e))) => {
                self.back_to_tick(Some(RefreshFailure::CreateCheckpoint(e)))
            },
            (RefreshStage::OpeningReader, RefreshEvent::ReaderOpened(Ok(reader))) => (
                self.at(RefreshStage::SwappingReader),
                Some(RefreshAction::SwapReader { reader }),
            ),
            (RefreshStage::OpeningReader, RefreshEvent::ReaderOpened(Err(e))) => {
                self.back_to_tick(Some(RefreshFailure::OpenReader(e)))
            },
            (RefreshStage::SwappingReader, RefreshEvent::ReaderSwapped(Ok(_))) => {
                self.back_to_tick(None)
            },
            (RefreshStage::SwappingReader, RefreshEvent::ReaderSwapped(Err(e))) => {
                self.back_to_tick(Some(RefreshFailure::SwapReader(e)))
            },
            _ => (self, None),
        }
    }

    fn step(self, event: RefreshEvent<C, R, E>) -> (out: (Self, Option<RefreshAction<C, R, E>>)) {
        match (&self.stage, event) {
            (RefreshStage::AwaitingTick, RefreshEvent::Tick) => {
                let lifetime_secs: u64 = CHECKPOINT_LIFETIME_SECS;
                let stage = RefreshStage::CreatingCheckpoint;
                let db_path = self.db_path.clone();
                let action = RefreshAction::CreateCheckpoint { db_path, lifetime_secs };
                (CheckpointRefresh { stage, ..self }, Some(action))
            },
            (RefreshStage::CreatingCheckpoint, RefreshEvent::CheckpointCreated(created)) => {
                match created {
                    Ok(checkpoint) => {
                        let stage = RefreshStage::OpeningReader;
                        let db_path = self.db_path.clone();
                        let action = RefreshAction::OpenReader { db_path, checkpoint };
                        (CheckpointRefresh { stage, ..self }, Some(action))
                    },
                    Err(e) => self.wait(Some(RefreshFailure::CreateCheckpoint(e))),
                }
            },
            (RefreshStage::OpeningReader, RefreshEvent::ReaderOpened(opened)) => match opened {
                Ok(reader) => {
                    let stage = RefreshStage::SwappingReader;
                    let action = RefreshAction::SwapReader { reader };
                    (CheckpointRefresh { stage, ..self }, Some(action))
                },
                Err(e) => self.wait(Some(RefreshFailure::OpenReader(e))),
            },
            (RefreshStage::SwappingReader, RefreshEvent::ReaderSwapped(swapped)) => match swapped {
                Ok(_) => self.wait(None),
                Err(e) => self.wait(Some(RefreshFailure::SwapReader(e))),
            },
            _ => (self, None),
        }
    }
}

/// Begins the refresh of the database at an encoded path: the task waits for its
/// first tick.
pub fn refresh_at_object_path<S, C, R, E>(path: String, object_store: S) -> (out: (
    CheckpointRefresh<S>,
    RefreshAction<C, R, E>,
))
    ensures
        out.0 == (CheckpointRefresh { db_path: path, object_store, stage: RefreshStage::AwaitingTick }),
        out.1 == (RefreshAction::<C, R, E>::AwaitTick { period_secs: 10, failure: None }),
{
    let period_secs: u64 = CHECKPOINT_REFRESH_INTERVAL_SECS;
    (
        CheckpointRefresh { db_path: path, object_store, stage: RefreshStage::AwaitingTick },
        RefreshAction::AwaitTick { period_secs, failure: None },
    )
}

/// The first state of the refresh that parameters describe.
pub open spec fn is_start_of_refresh<S>(
    refresh: CheckpointRefresh<S>,
    params: CheckpointRefreshParams<S>,
) -> bool {
    &&& refresh.db_path@ == object_path(params.db_path@)
    &&& refresh.object_store == params.object_store
    &&& refresh.stage is AwaitingTick
}

/// Begins the refresh that the parameters describe: the task waits for its first
/// tick.
pub fn start_checkpoint_refresh<S, C, R, E>(params: CheckpointRefreshParams<S>) -> (out: (
    CheckpointRefresh<S>,
    RefreshAction<C, R, E>,
))
    ensures
        is_start_of_refresh(out.0, params),
        out.0.db_path@ == object_path(params.db_path@),
        out.0.object_store == params.object_store,
        out.0.stage is AwaitingTick,
        is_encoding_of(out.0.db_path@, params.db_path@),
        out.1 == (RefreshAction::<C, R, E>::AwaitTick { period_secs: 10, failure: None }),
{
    refresh_at_object_path(to_object_path(params.db_path), params.object_store)
}

/// Whether an event answers what a stage waits for.
pub open spec fn refresh_awaits<C, R, E>(
    stage: RefreshStage,
    event: RefreshEvent<C, R, E>,
) -> bool {
    match stage {
        RefreshStage::AwaitingTick => event is Tick,
        RefreshStage::CreatingCheckpoint => event is CheckpointCreated,
        RefreshStage::OpeningReader => event is ReaderOpened,
        RefreshStage::SwappingReader => event is ReaderSwapped,
    }
}

/// The failure that an event reports, if it reports one.
pub open spec fn refresh_failure<C, R, E>(event: RefreshEvent<C, R, E>) -> Option<
    RefreshFailure<E>,
> {
    match event {
        RefreshEvent::CheckpointCreated(Err(e)) => Some(RefreshFailure::CreateCheckpoint(e)),
        RefreshEvent::ReaderOpened(Err(e)) => Some(RefreshFailure::OpenReader(e)),
        RefreshEvent::ReaderSwapped(Err(e)) => Some(RefreshFailure::SwapReader(e)),
        _ => None,
    }
}

/// The refresh never ends: every answer is followed by another action. A step
/// that fails is reported and ends only that refresh: the task waits for the next
/// tick. The task keeps its database throughout.
pub proof fn refresh_goes_on_after_every_answer<S, C, R, E>(
    refresh: CheckpointRefresh<S>,
    event: RefreshEvent<C, R, E>,
)
    ensures
        ({
            let (after, action): (_, Option<RefreshAction<C, R, E>>) = refresh.next(event);
            &&& after.db_path == refresh.db_path
            &&& after.object_store == refresh.object_store
            &&& refresh_awaits(refresh.stage, event) ==> {
                &&& action is Some
                &&& refresh_failure(event) is Some ==> after.stage is AwaitingTick && action
                    == Some(
                    RefreshAction::<C, R, E>::AwaitTick {
                        period_secs: 10,
                        failure: refresh_failure(event),
                    },
                )
            }
            &&& !refresh_awaits(refresh.stage, event) ==> after == refresh && action is None
        }),
{
}

/// Whether the actions of a refresh task come in the order of a refresh, on the
/// database at `db_path`, with the checkpoints and readers that came of it.
pub open spec fn refreshes_in_order<C, R, E>(
    db_path: String,
    events: Seq<RefreshEvent<C, R, E>>,
    actions: Seq<RefreshAction<C, R, E>>,
) -> bool {
    forall|i: int| 0 <= i < actions.len() ==> match #[trigger] actions[i] {
        RefreshAction::AwaitTick { period_secs, .. } => period_secs == 10 && i > 0,
        RefreshAction::CreateCheckpoint { db_path: path, lifetime_secs } => {
            &&& path == db_path
            &&& lifetime_secs == 100
            &&& i > 0 ==> actions[i - 1] is AwaitTick
        },
        RefreshAction::OpenReader { db_path: path, checkpoint } => {
            &&& path == db_path
            &&& events.contains(RefreshEvent::CheckpointCreated(Ok(checkpoint)))
            &&& i > 0 && actions[i - 1] is CreateCheckpoint
        },
        RefreshAction::SwapReader { reader } => {
            &&& events.contains(RefreshEvent::ReaderOpened(Ok(reader)))
            &&& i > 0 && actions[i - 1] is OpenReader
        },
    }
}

/// A reader is swapped in only right after it was opened, it is opened only on
/// the task's own database right after a checkpoint was made, and a checkpoint
/// that lives for ten periods is made only on that database, after a tick. The task
/// keeps its database and its object store.
pub proof fn refresh_swaps_only_what_it_opened<S, C, R, E>(
    start: CheckpointRefresh<S>,
    events: Seq<RefreshEvent<C, R, E>>,
)
    requires
        start.stage is AwaitingTick,
    ensures
        ({
            let (end, actions) = trace::<_, RefreshAction<C, R, E>, _>(start, events);
            &&& refreshes_in_order(start.db_path, events, actions)
            &&& end.db_path == start.db_path
            &&& end.object_store == start.object_store
        }),
{
    let inv = |
        past: Seq<RefreshEvent<C, R, E>>,
        at: (CheckpointRefresh<S>, Seq<RefreshAction<C, R, E>>),
    |
        {
            &&& at.0.db_path == start.db_path
            &&& at.0.object_store == start.object_store
            &&& refreshes_in_order(start.db_path, past, at.1)
            &&& match at.0.stage {
                RefreshStage::AwaitingTick => at.1.len() > 0 ==> at.1.last() is AwaitTick,
                RefreshStage::CreatingCheckpoint => at.1.len() > 0 && at.1.last() is CreateCheckpoint,
                RefreshStage::OpeningReader => at.1.len() > 0 && at.1.last() is OpenReader,
                RefreshStage::SwappingReader => at.1.len() > 0 && at.1.last() is SwapReader,
            }
        };
    assert forall|
        past: Seq<RefreshEvent<C, R, E>>,
        at: (CheckpointRefresh<S>, Seq<RefreshAction<C, R, E>>),
        event: RefreshEvent<C, R, E>,
    | inv(past, at) implies inv(
        #[trigger] past.push(event),
        #[trigger] advance::<_, RefreshAction<C, R, E>, _>(at, event),
    ) by {
        lemma_push_contains(past, event);
    }
    invariant_holds_on_every_trace::<_, RefreshAction<C, R, E>, _>(start, events, inv);
}

/// One refresh of any database, whatever its steps report: a tick brings a checkpoint
/// that lives for a hundred seconds, the checkpoint its reader, both at the path of
/// the task, and the reader is swapped in. The first step that fails is reported and
/// ends this refresh. Either way the task waits ten seconds, and is where it began.
pub proof fn every_refresh_goes_through_unless_a_step_fails<S, C, R, E>(
    db_path: String,
    object_store: S,
    created: Result<C, E>,
    opened: Result<R, E>,
    swapped: Result<(), E>,
)
    ensures
        ({
            let start = CheckpointRefresh {
                db_path,
                object_store,
                stage: RefreshStage::AwaitingTick,
            };
            let (end, actions) = trace::<_, RefreshAction<C, R, E>, _>(
                start,
                seq![
                    RefreshEvent::Tick,
                    RefreshEvent::CheckpointCreated(created),
                    RefreshEvent::ReaderOpened(opened),
                    RefreshEvent::ReaderSwapped(swapped),
                ],
            );
            let checkpoint = RefreshAction::CreateCheckpoint { db_path, lifetime_secs: 100 };
            &&& end == start
            &&& match (created, opened, swapped) {
                (Err(e), _, _) => actions =~= seq![
                    checkpoint,
                    RefreshAction::AwaitTick {
                        period_secs: 10,
                        failure: Some(RefreshFailure::CreateCheckpoint(e)),
                    },
                ],
                (Ok(c), Err(e), _) => actions =~= seq![
                    checkpoint,
                    RefreshAction::OpenReader { db_path, checkpoint: c },
                    RefreshAction::AwaitTick {
                        period_secs: 10,
                        failure: Some(RefreshFailure::OpenReader(e)),
                    },
                ],
                (Ok(c), Ok(reader), Err(e)) => actions =~= seq![
                    checkpoint,
                    RefreshAction::OpenReader { db_path, checkpoint: c },
                    RefreshAction::SwapReader { reader },
                    RefreshAction::AwaitTick {
                        period_secs: 10,
                        failure: Some(RefreshFailure::SwapReader(e)),
                    },
                ],
                (Ok(c), Ok(reader), Ok(_)) => actions =~= seq![
                    checkpoint,
                    RefreshAction::OpenReader { db_path, checkpoint: c },
                    RefreshAction::SwapReader { reader },
                    RefreshAction::AwaitTick { period_secs: 10, failure: None },
                ],
            }
        }),
{
    let start = CheckpointRefresh { db_path, object_store, stage: RefreshStage::AwaitingTick };
    let none = Seq::<RefreshEvent<C, R, E>>::empty();
    let one = none.push(RefreshEvent::Tick);
    let two = one.push(RefreshEvent::CheckpointCreated(created));
    let three = two.push(RefreshEvent::ReaderOpened(opened));
    trace_goes_on_event_by_event::<_, RefreshAction<C, R, E>, _>(start, none, RefreshEvent::Tick);
    trace_goes_on_event_by_event::<_, RefreshAction<C, R, E>, _>(
        start,
        one,
        RefreshEvent::CheckpointCreated(created),
    );
    trace_goes_on_event_by_event::<_, RefreshAction<C, R, E>, _>(
        start,
        two,
        RefreshEvent::ReaderOpened(opened),
    );
    trace_goes_on_event_by_event::<_, RefreshAction<C, R, E>, _>(
        start,
        three,
        RefreshEvent::ReaderSwapped(swapped),
    );
    assert(seq![
        RefreshEvent::Tick,
        RefreshEvent::CheckpointCreated(created),
        RefreshEvent::ReaderOpened(opened),
        RefreshEvent::ReaderSwapped(swapped),
    ] =~= three.push(RefreshEvent::ReaderSwapped(swapped)));
}

/// From whatever database, a checkpoint that was made is opened, and a reader that was
/// opened is swapped in. An event that answers nothing that was asked changes nothing.
pub proof fn refresh_uses_what_it_got<S, C, R, E>(
    refresh: CheckpointRefresh<S>,
    event: RefreshEvent<C, R, E>,
)
    ensures
        ({
            let (after, action): (_, Option<RefreshAction<C, R, E>>) = refresh.next(event);
            &&& refresh.stage is CreatingCheckpoint ==> (event matches RefreshEvent::CheckpointCreated(
                Ok(checkpoint),
            ) ==> action == Some(
                RefreshAction::<C, R, E>::OpenReader { db_path: refresh.db_path, checkpoint },
            ) && after.stage is OpeningReader)
            &&& refresh.stage is OpeningReader ==> (event matches RefreshEvent::ReaderOpened(
                Ok(reader),
            ) ==> action == Some(RefreshAction::<C, R, E>::SwapReader { reader })
                && after.stage is SwappingReader)
            &&& !{
                ||| refresh.stage is AwaitingTick && event is Tick
                ||| refresh.stage is CreatingCheckpoint && event is CheckpointCreated
                ||| refresh.stage is OpeningReader && event is ReaderOpened
                ||| refresh.stage is SwappingReader && event is ReaderSwapped
            } ==> after == refresh && action is None
        }),
{
}

/// What is seen of an action of a refresh is the action itself.
pub proof fn refresh_action_is_seen_as_it_is<C, R, E>(action: RefreshAction<C, R, E>)
    ensures
        action@ == action,
{
}

} // verus!
