use zerofs::checkpoint_refresh::{
    start_checkpoint_refresh, CheckpointRefresh, CheckpointRefreshParams, RefreshAction,
    RefreshEvent,
};
use zerofs::config::{CacheConfig, LsmConfig, NfsConfig, ServerConfig, Settings};
use zerofs::database::{build_slatedb, BuildAction, BuildEvent, BuildSlatedb};
use zerofs::filesystem::{initialize_filesystem, InitAction, InitEvent, InitializeFilesystem};
use zerofs::machine::Machine;
use zerofs::server::{run_server, BackgroundTask, RunAction, RunEvent, RunServer};

type Build = BuildAction<u8, u8, u32, u8, u8, u8>;
type Refresh = RefreshAction<u32, u8, u8>;
type Params = Option<CheckpointRefreshParams<u8>>;
type Init = InitializeFilesystem<u8, u8, Params>;
type Step = Option<InitAction<u8, u8, Params, u8, u8, u8>>;
type Run = RunServer<u16, CheckpointRefreshParams<u8>>;
type RunStep = Option<RunAction<u16, CheckpointRefreshParams<u8>, u8>>;

const LSM: LsmConfig = LsmConfig {
    l0_max_ssts: 1,
    max_unflushed_bytes: 1,
    max_concurrent_compactions: 1,
};

fn cache() -> CacheConfig {
    CacheConfig {
        root_folder: "cache".to_string(),
        max_cache_size_bytes: 1,
        memory_cache_size_bytes: None,
    }
}

/// The path at which a read-only database is opened, and how it is refreshed.
fn open(text: &str) -> (String, CheckpointRefreshParams<u8>) {
    let (build, _): (BuildSlatedb<u8>, Build) =
        build_slatedb(5, &cache(), text.to_string(), true, None, LSM);
    let (build, _): (_, Option<Build>) = build.step(BuildEvent::RuntimeStarted(Ok(1)));
    let (build, action): (_, Option<Build>) = build.step(BuildEvent::CheckpointCreated(Ok(1)));
    let opened_at = match action {
        Some(BuildAction::OpenReader { db_path, .. }) => db_path,
        _ => panic!("a checkpoint is opened"),
    };
    let (_, action): (_, Option<Build>) = build.step(BuildEvent::ReaderOpened(Ok(1)));
    match action {
        Some(BuildAction::Finish(Ok((_, Some(params))))) => (opened_at, params),
        _ => panic!("a read-only database is refreshed"),
    }
}

/// The paths of the first checkpoint and the first reader of a refresh.
fn refreshed_at(params: CheckpointRefreshParams<u8>) -> (String, String) {
    let (refresh, _): (CheckpointRefresh<u8>, Refresh) = start_checkpoint_refresh(params);
    assert_eq!(refresh.object_store, 5);
    let (refresh, action): (_, Option<Refresh>) = refresh.step(RefreshEvent::Tick);
    let checkpoint_at = match action {
        Some(RefreshAction::CreateCheckpoint { db_path, .. }) => db_path,
        _ => panic!("a tick makes a checkpoint"),
    };
    let (_, action): (_, Option<Refresh>) = refresh.step(RefreshEvent::CheckpointCreated(Ok(2)));
    match action {
        Some(RefreshAction::OpenReader { db_path, .. }) => (checkpoint_at, db_path),
        _ => panic!("a checkpoint is opened"),
    }
}

#[test]
fn the_database_that_was_opened_is_refreshed() {
    for text in ["data/fs", "/data//fs/", ""] {
        let (opened_at, params) = open(text);
        assert_eq!(refreshed_at(params), (opened_at.clone(), opened_at));
    }
}

#[test]
fn a_path_that_was_encoded_is_refreshed_elsewhere() {
    let (opened_at, params) = open("b%c");
    assert_eq!(opened_at, "b%25c");
    let refreshed = "b%2525c".to_string();
    assert_eq!(refreshed_at(params), (refreshed.clone(), refreshed));
}

/// What a build hands out to refresh, for the arguments that a start-up gives it.
fn built(object_store: u8, cache: &CacheConfig, db_path: String, read_only: bool) -> Params {
    let (build, _): (BuildSlatedb<u8>, Build) =
        build_slatedb(object_store, cache, db_path, read_only, None, LSM);
    let (build, _): (_, Option<Build>) = build.step(BuildEvent::RuntimeStarted(Ok(1)));
    let (_, action): (_, Option<Build>) = if read_only {
        let (build, _): (_, Option<Build>) = build.step(BuildEvent::CheckpointCreated(Ok(1)));
        build.step(BuildEvent::ReaderOpened(Ok(1)))
    } else {
        build.step(BuildEvent::DbOpened(Ok(1)))
    };
    match action {
        Some(BuildAction::Finish(Ok((_, params)))) => params,
        _ => panic!("the database is open"),
    }
}

/// What a start-up hands out to refresh, with its database in store 6 at `/a//b`.
fn brought_up(read_only: bool) -> Params {
    let settings = Settings {
        url: "memory:///".to_string(),
        encryption_password: "correct horse".to_string(),
        cache: cache(),
        aws: None,
        azure: None,
        gcp: None,
        lsm: None,
        max_bytes: None,
    };
    let (init, _): (Init, InitAction<u8, u8, Params, u8, u8, u8>) =
        initialize_filesystem(settings, read_only, 1_000);
    let (init, _): (_, Step) =
        init.step(InitEvent::ObjectStoreOpened(Ok((6, "/a//b".to_string()))));
    let (init, _): (_, Step) = init.step(InitEvent::BucketIdentified(Ok("bucket".to_string())));
    let init = if read_only {
        init
    } else {
        let (init, _): (_, Step) = init.step(InitEvent::CompatibilityChecked(Ok(())));
        init
    };
    let (init, action): (_, Step) = init.step(InitEvent::PasswordValidated(Ok(())));
    let params = match action {
        Some(InitAction::BuildSlatedb {
            object_store,
            cache,
            db_path,
            read_only,
            ..
        }) => built(object_store, &cache, db_path, read_only),
        _ => panic!("the database is opened after the password was accepted"),
    };
    let (init, _): (_, Step) = init.step(InitEvent::SlatedbBuilt(Ok((1, params))));
    let (init, _): (_, Step) = init.step(InitEvent::KeyLoaded(Ok(1)));
    let (_, action): (_, Step) = init.step(InitEvent::FilesystemCreated(Ok(1)));
    match action {
        Some(InitAction::Finish(Ok((1, refresh)))) => refresh,
        _ => panic!("the file system is up"),
    }
}

#[test]
fn a_read_only_start_up_hands_out_its_store_and_path() {
    assert_eq!(
        brought_up(true),
        Some(CheckpointRefreshParams {
            db_path: "a/b".to_string(),
            object_store: 6,
        })
    );
}

#[test]
fn a_start_up_for_writing_has_nothing_to_refresh() {
    assert_eq!(brought_up(false), None);
}

/// The tasks that a process launches, and whether it watches a refresh.
fn run(read_only: bool) -> (Vec<BackgroundTask<CheckpointRefreshParams<u8>>>, bool) {
    let servers = ServerConfig {
        nfs: Some(NfsConfig {
            addresses: vec![2049],
        }),
        ninep: None,
        nbd: None,
    };
    let (process, _): (Run, RunAction<u16, CheckpointRefreshParams<u8>, u8>) =
        run_server("zerofs.toml".to_string(), read_only);
    let (process, action): (_, RunStep) = process.step(RunEvent::SettingsLoaded(Ok(servers)));
    let refresh = match action {
        Some(RunAction::InitializeFilesystem { read_only }) => brought_up(read_only),
        _ => panic!("the file system is brought up after the settings were loaded"),
    };
    let (process, action): (_, RunStep) =
        process.step(RunEvent::FilesystemInitialized(Ok(refresh)));
    let launched = match action {
        Some(RunAction::Launch { tasks, .. }) => tasks,
        _ => panic!("the servers are launched on the file system"),
    };
    let (process, _): (_, RunStep) = process.step(RunEvent::Launched);
    let (process, _): (_, RunStep) = process.step(RunEvent::TerminationRegistered(Ok(())));
    let (_, action): (_, RunStep) = process.step(RunEvent::ReadyNotified);
    match action {
        Some(RunAction::Serve { watch_refresh, .. }) => (launched, watch_refresh),
        _ => panic!("the process serves once it is ready"),
    }
}

#[test]
fn a_read_only_process_refreshes_the_database_that_it_opened() {
    assert_eq!(
        run(true),
        (
            vec![
                BackgroundTask::GarbageCollection,
                BackgroundTask::Statistics,
                BackgroundTask::Refresh(CheckpointRefreshParams {
                    db_path: "a/b".to_string(),
                    object_store: 6,
                }),
            ],
            true,
        )
    );
}

#[test]
fn a_process_that_writes_refreshes_nothing() {
    assert_eq!(
        run(false),
        (
            vec![
                BackgroundTask::GarbageCollection,
                BackgroundTask::Statistics,
            ],
            false,
        )
    );
}
