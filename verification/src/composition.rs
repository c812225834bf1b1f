//! Laws that join several machines.

use vstd::prelude::*;

use crate::checkpoint_refresh::{
    is_start_of_refresh, refresh_swaps_only_what_it_opened, CheckpointRefresh,
    CheckpointRefreshParams, RefreshAction, RefreshEvent,
};
use crate::config::{CacheConfigView, LsmConfig};
use crate::database::{
    effective_lsm, is_start_of_build, read_only_build_opens_only_a_reader,
    read_write_build_opens_only_the_database, BuildAction, BuildEvent, BuildSlatedb, SlateDbHandle,
};
use crate::filesystem::{
    action_keeps_to_plan, came_with_the_database, start_up_keeps_to_its_plan, store_was_opened,
    InitAction, InitActionView, InitEvent, InitPlan, InitializeFilesystem,
};
use crate::machine::trace;
use crate::object_path::{has_plain_segments, is_encoding_of, object_path};
use crate::server::{
    are_tasks_of_the_filesystem, background_tasks, is_due, process_does_only_what_is_due,
    BackgroundTask, RunAction, RunActionView, RunEvent, RunServer,
};

verus! {

/// Whether every checkpoint is made, and every reader opened, at `path`.
pub open spec fn stays_at_path<C, R, E>(
    path: Seq<char>,
    actions: Seq<RefreshAction<C, R, E>>,
) -> bool {
    forall|i: int| 0 <= i < actions.len() ==> match #[trigger] actions[i] {
        RefreshAction::CreateCheckpoint { db_path, .. } => db_path@ == path,
        RefreshAction::OpenReader { db_path, .. } => db_path@ == path,
        _ => true,
    }
}

/// A database at `text` that was opened read-only is refreshed in the object store
/// in which it was opened. It is refreshed at the path at which it was opened
/// exactly if that path holds no `%`, because the path is encoded once more when
/// the refresh starts; if every segment of `text` is of plain characters, it holds
/// none. Every checkpoint and every reader of the refresh is then one of the
/// database that was opened.
pub proof fn refresh_reads_the_database_that_was_opened<S, T, C, R, D, E>(
    text: Seq<char>,
    start: BuildSlatedb<S>,
    events: Seq<BuildEvent<T, C, R, D, E>>,
    handle: SlateDbHandle<R, D>,
    params: CheckpointRefreshParams<S>,
    refresh: CheckpointRefresh<S>,
    refresh_events: Seq<RefreshEvent<C, R, E>>,
)
    requires
        start is StartingRuntime,
        start->StartingRuntime_read_only,
        is_encoding_of(start->StartingRuntime_db_path@, text),
        trace::<_, BuildAction<S, T, C, R, D, E>, _>(start, events).1.contains(
            BuildAction::Finish(Ok((handle, Some(params)))),
        ),
        is_start_of_refresh(refresh, params),
    ensures
        ({
            let path = start->StartingRuntime_db_path@;
            let (end, actions) = trace::<_, RefreshAction<C, R, E>, _>(refresh, refresh_events);
            &&& path == object_path(text)
            &&& end.object_store == start->StartingRuntime_object_store
            &&& refresh.db_path@ == path <==> !path.contains('%')
            &&& has_plain_segments(text) ==> !path.contains('%')
            &&& !path.contains('%') ==> end.db_path@ == path && stays_at_path(path, actions)
        }),
{
    read_only_build_opens_only_a_reader(start, events);
    refresh_swaps_only_what_it_opened(refresh, refresh_events);
}

/// Whether refresh parameters are what a build hands out that was begun with a
/// store, a cache, a path, a mode and limits.
pub open spec fn comes_of_build<S, T, C, R, D, E>(
    object_store: S,
    cache: CacheConfigView,
    db_path: Seq<char>,
    read_only: bool,
    lsm: LsmConfig,
    refresh: Option<CheckpointRefreshParams<S>>,
) -> bool {
    exists|
        start: BuildSlatedb<S>,
        events: Seq<BuildEvent<T, C, R, D, E>>,
        handle: SlateDbHandle<R, D>,
    |
        {
            &&& is_start_of_build(start, object_store, cache, object_path(db_path), read_only, lsm)
            &&& #[trigger] trace::<_, BuildAction<S, T, C, R, D, E>, _>(start, events).1.contains(
                BuildAction::Finish(Ok((handle, refresh))),
            )
        }
}

/// Whether an action begins a build that hands out `refresh`.
pub open spec fn asks_for_build<S, T, C, R, D, E, H, K, F>(
    action: InitActionView<S, H, Option<CheckpointRefreshParams<S>>, K, F, E>,
    lsm_defaults: LsmConfig,
    refresh: Option<CheckpointRefreshParams<S>>,
) -> bool {
    action matches InitActionView::BuildSlatedb { object_store, cache, db_path, read_only, lsm }
        && comes_of_build::<S, T, C, R, D, E>(
        object_store,
        cache,
        db_path,
        read_only,
        effective_lsm(lsm, lsm_defaults),
        refresh,
    )
}

/// Whether every database that a start-up is told of was opened by a build that
/// the start-up asked for.
pub open spec fn databases_come_of_builds<S, T, C, R, D, E, H, K, F>(
    lsm_defaults: LsmConfig,
    events: Seq<InitEvent<S, H, Option<CheckpointRefreshParams<S>>, K, F, E>>,
    actions: Seq<InitActionView<S, H, Option<CheckpointRefreshParams<S>>, K, F, E>>,
) -> bool {
    forall|slatedb: H, refresh: Option<CheckpointRefreshParams<S>>| #[trigger]
        events.contains(InitEvent::SlatedbBuilt(Ok((slatedb, refresh)))) ==> exists|i: int|
            0 <= i < actions.len() && asks_for_build::<S, T, C, R, D, E, H, K, F>(
                #[trigger] actions[i],
                lsm_defaults,
                refresh,
            )
}

/// Whether refresh parameters name an object store that was opened, and the path
/// that it gave for the database, encoded.
pub open spec fn names_the_opened_database<S, E, H, K, F>(
    events: Seq<InitEvent<S, H, Option<CheckpointRefreshParams<S>>, K, F, E>>,
    params: CheckpointRefreshParams<S>,
) -> bool {
    exists|db_path: Seq<char>|
        params.db_path@ == object_path(db_path) && #[trigger] store_was_opened(
            events,
            params.object_store,
            db_path,
        )
}

/// Refresh parameters come of a build exactly if it is read-only, and name its
/// store and path.
pub proof fn build_hands_out_parameters_exactly_if_read_only<S, T, C, R, D, E>(
    object_store: S,
    cache: CacheConfigView,
    db_path: Seq<char>,
    read_only: bool,
    lsm: LsmConfig,
    refresh: Option<CheckpointRefreshParams<S>>,
)
    requires
        comes_of_build::<S, T, C, R, D, E>(object_store, cache, db_path, read_only, lsm, refresh),
    ensures
        refresh is Some <==> read_only,
        refresh matches Some(params) ==> params.object_store == object_store && params.db_path@
            == object_path(db_path),
{
    let (start, events, handle) = choose|
        start: BuildSlatedb<S>,
        events: Seq<BuildEvent<T, C, R, D, E>>,
        handle: SlateDbHandle<R, D>,
    |
        {
            &&& is_start_of_build(start, object_store, cache, object_path(db_path), read_only, lsm)
            &&& #[trigger] trace::<_, BuildAction<S, T, C, R, D, E>, _>(start, events).1.contains(
                BuildAction::Finish(Ok((handle, refresh))),
            )
        };
    if read_only {
        read_only_build_opens_only_a_reader(start, events);
    } else {
        read_write_build_opens_only_the_database(start, events);
    }
}

/// The actions of a start-up with a plan, by what its steps report.
pub open spec fn start_up_actions<S, E, H, K, F>(
    plan: InitPlan,
    events: Seq<InitEvent<S, H, Option<CheckpointRefreshParams<S>>, K, F, E>>,
) -> Seq<InitActionView<S, H, Option<CheckpointRefreshParams<S>>, K, F, E>> {
    trace::<_, InitAction<S, H, Option<CheckpointRefreshParams<S>>, K, F, E>, _>(
        InitializeFilesystem::<S, H, Option<CheckpointRefreshParams<S>>>::OpeningObjectStore { plan },
        events,
    ).1
}

/// A start-up hands out refresh parameters exactly if it is read-only. They name
/// the object store that it opened and the path of the database in it.
pub proof fn start_up_hands_out_parameters_exactly_if_read_only<S, T, C, R, D, E, H, K, F>(
    plan: InitPlan,
    lsm_defaults: LsmConfig,
    events: Seq<InitEvent<S, H, Option<CheckpointRefreshParams<S>>, K, F, E>>,
    fs: F,
    refresh: Option<CheckpointRefreshParams<S>>,
)
    requires
        databases_come_of_builds::<S, T, C, R, D, E, H, K, F>(
            lsm_defaults,
            events,
            start_up_actions(plan, events),
        ),
        start_up_actions(plan, events).contains(InitActionView::Finish(Ok((fs, refresh)))),
    ensures
        refresh is Some <==> plan.read_only,
        refresh matches Some(params) ==> names_the_opened_database(events, params),
{
    let actions = start_up_actions(plan, events);
    start_up_keeps_to_its_plan::<S, H, Option<CheckpointRefreshParams<S>>, K, F, E>(plan, events);
    let last = choose|i: int|
        0 <= i < actions.len() && actions[i] == InitActionView::<
            S,
            H,
            Option<CheckpointRefreshParams<S>>,
            K,
            F,
            E,
        >::Finish(Ok((fs, refresh)));
    assert(action_keeps_to_plan(plan, events, actions, last));
    assert(came_with_the_database(events, refresh));
    let slatedb = choose|slatedb: H| #[trigger]
        events.contains(InitEvent::SlatedbBuilt(Ok((slatedb, refresh))));
    assert(events.contains(InitEvent::SlatedbBuilt(Ok((slatedb, refresh)))));
    let asked = choose|i: int|
        0 <= i < actions.len() && asks_for_build::<S, T, C, R, D, E, H, K, F>(
            #[trigger] actions[i],
            lsm_defaults,
            refresh,
        );
    assert(action_keeps_to_plan(plan, events, actions, asked));
    if let InitActionView::BuildSlatedb { object_store, cache, db_path, read_only, lsm } =
        actions[asked] {
        build_hands_out_parameters_exactly_if_read_only::<S, T, C, R, D, E>(
            object_store,
            cache,
            db_path,
            read_only,
            effective_lsm(lsm, lsm_defaults),
            refresh,
        );
        assert(store_was_opened(events, object_store, db_path));
    }
}

/// Whether every file system that a process is told of was brought up by the
/// start-up with `plan`, in the mode in which the process asked for it.
pub open spec fn filesystem_comes_of_start_up<S, E, H, K, F, A>(
    plan: InitPlan,
    init_events: Seq<InitEvent<S, H, Option<CheckpointRefreshParams<S>>, K, F, E>>,
    events: Seq<RunEvent<A, CheckpointRefreshParams<S>, E>>,
    actions: Seq<RunActionView<A, CheckpointRefreshParams<S>, E>>,
) -> bool {
    forall|refresh: Option<CheckpointRefreshParams<S>>| #[trigger]
        events.contains(RunEvent::FilesystemInitialized(Ok(refresh))) ==> {
            &&& actions.contains(RunActionView::InitializeFilesystem { read_only: plan.read_only })
            &&& exists|fs: F| #[trigger]
                start_up_actions(plan, init_events).contains(
                    InitActionView::Finish(Ok((fs, refresh))),
                )
        }
}

/// Whether an action that launches the tasks, or watches them, has a refresh among
/// them exactly if the process is read-only, and the refresh is that of the
/// database that the start-up opened.
pub open spec fn refreshes_exactly_if_read_only<S, E, H, K, F, A>(
    read_only: bool,
    init_events: Seq<InitEvent<S, H, Option<CheckpointRefreshParams<S>>, K, F, E>>,
    action: RunActionView<A, CheckpointRefreshParams<S>, E>,
) -> bool {
    match action {
        RunActionView::Launch { tasks, .. } => {
            &&& tasks.last() is Refresh <==> read_only
            &&& forall|params: CheckpointRefreshParams<S>| #[trigger]
                tasks.contains(BackgroundTask::Refresh(params)) ==> read_only
                    && names_the_opened_database(init_events, params)
        },
        RunActionView::Serve { watch_refresh, .. } => watch_refresh == read_only,
        _ => true,
    }
}

/// A process launches a refresh, and watches it, exactly if it is read-only. What
/// it refreshes is the database that its start-up opened.
pub proof fn process_refreshes_exactly_if_read_only<S, T, C, R, D, E, H, K, F, A: Copy>(
    plan: InitPlan,
    lsm_defaults: LsmConfig,
    init_events: Seq<InitEvent<S, H, Option<CheckpointRefreshParams<S>>, K, F, E>>,
    config_path: String,
    read_only: bool,
    events: Seq<RunEvent<A, CheckpointRefreshParams<S>, E>>,
)
    requires
        databases_come_of_builds::<S, T, C, R, D, E, H, K, F>(
            lsm_defaults,
            init_events,
            start_up_actions(plan, init_events),
        ),
        filesystem_comes_of_start_up(
            plan,
            init_events,
            events,
            trace::<_, RunAction<A, CheckpointRefreshParams<S>, E>, _>(
                RunServer::<A, CheckpointRefreshParams<S>>::LoadingSettings { config_path, read_only },
                events,
            ).1,
        ),
    ensures
        ({
            let actions = trace::<_, RunAction<A, CheckpointRefreshParams<S>, E>, _>(
                RunServer::<A, CheckpointRefreshParams<S>>::LoadingSettings { config_path, read_only },
                events,
            ).1;
            forall|i: int|
                0 <= i < actions.len() ==> refreshes_exactly_if_read_only(
                    read_only,
                    init_events,
                    #[trigger] actions[i],
                )
        }),
{
    let actions = trace::<_, RunAction<A, CheckpointRefreshParams<S>, E>, _>(
        RunServer::<A, CheckpointRefreshParams<S>>::LoadingSettings { config_path, read_only },
        events,
    ).1;
    process_does_only_what_is_due(config_path, read_only, events);
    assert forall|i: int|
        0 <= i < actions.len() && actions[i] is Launch implies refreshes_exactly_if_read_only(
        read_only,
        init_events,
        #[trigger] actions[i],
    ) by {
        assert(is_due(read_only, events, actions, i));
        let tasks = actions[i]->Launch_tasks;
        let refresh = choose|refresh: Option<CheckpointRefreshParams<S>>|
            tasks == background_tasks(refresh) && #[trigger] events.contains(
                RunEvent::FilesystemInitialized(Ok(refresh)),
            );
        assert(are_tasks_of_the_filesystem(events, tasks));
        let asked = choose|j: int|
            0 <= j < actions.len() && actions[j] == RunActionView::<
                A,
                CheckpointRefreshParams<S>,
                E,
            >::InitializeFilesystem { read_only: plan.read_only };
        assert(is_due(read_only, events, actions, asked));
        let fs = choose|fs: F| #[trigger]
            start_up_actions(plan, init_events).contains(
                InitActionView::Finish(Ok((fs, refresh))),
            );
        start_up_hands_out_parameters_exactly_if_read_only::<S, T, C, R, D, E, H, K, F>(
            plan,
            lsm_defaults,
            init_events,
            fs,
            refresh,
        );
    }
    assert forall|i: int| 0 <= i < actions.len() implies refreshes_exactly_if_read_only(
        read_only,
        init_events,
        #[trigger] actions[i],
    ) by {
        assert(is_due(read_only, events, actions, i));
        if actions[i] is Serve {
            let launched = actions[i - 3];
            assert(refreshes_exactly_if_read_only(read_only, init_events, launched));
        }
    }
}

} // verus!
