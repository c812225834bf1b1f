use zerofs::checkpoint_refresh::CheckpointRefreshParams;
use zerofs::config::{CacheConfig, LsmConfig};
use zerofs::database::{
    build_at_object_path, build_slatedb, db_settings, memory_cache, BuildAction, BuildEvent,
    BuildSlatedb, DirectoryGc, SlateDbHandle,
};
use zerofs::machine::Machine;

type Action = BuildAction<&'static str, u8, u32, &'static str, &'static str, &'static str>;
type Event = BuildEvent<u8, u32, &'static str, &'static str, &'static str>;

const DEFAULTS: LsmConfig = LsmConfig {
    l0_max_ssts: 16,
    max_unflushed_bytes: 1_000,
    max_concurrent_compactions: 8,
};

fn cache() -> CacheConfig {
    CacheConfig {
        root_folder: "/cache/bucket".to_string(),
        max_cache_size_bytes: 5_000_000_000,
        memory_cache_size_bytes: Some(77),
    }
}

fn start(db_path: &str, read_only: bool) -> BuildSlatedb<&'static str> {
    let (build, action): (_, Action) =
        build_slatedb("store", &cache(), db_path.to_string(), read_only, None, DEFAULTS);
    assert_eq!(action, BuildAction::StartRuntime);
    build
}

fn answer(
    build: BuildSlatedb<&'static str>,
    event: Event,
) -> (BuildSlatedb<&'static str>, Option<Action>) {
    build.step(event)
}

#[test]
fn settings_have_the_fixed_values() {
    let settings = db_settings(&cache(), None, DEFAULTS);
    let gc = DirectoryGc {
        interval_secs: 600,
        min_age_secs: 600,
    };
    assert_eq!(settings.cache_root_folder, "/cache/bucket/slatedb");
    assert_eq!(settings.max_cache_size_bytes, 5_000_000_000);
    assert_eq!(settings.part_size_bytes, 16_777_216);
    assert!(!settings.cache_puts);
    assert_eq!(settings.flush_interval_secs, 30);
    assert_eq!(settings.max_sst_size, 268_435_456);
    assert!(!settings.compression);
    assert_eq!(settings.wal_gc, gc);
    assert_eq!(settings.manifest_gc, gc);
    assert_eq!(settings.compacted_gc, gc);
}

#[test]
fn limits_default_where_none_are_configured() {
    let settings = db_settings(&cache(), None, DEFAULTS);
    assert_eq!(settings.l0_max_ssts, 16);
    assert_eq!(settings.max_unflushed_bytes, 1_000);
    assert_eq!(settings.max_concurrent_compactions, 8);
}

#[test]
fn configured_limits_win() {
    let configured = LsmConfig {
        l0_max_ssts: 4,
        max_unflushed_bytes: 5,
        max_concurrent_compactions: 6,
    };
    let settings = db_settings(&cache(), Some(configured), DEFAULTS);
    assert_eq!(settings.l0_max_ssts, 4);
    assert_eq!(settings.max_unflushed_bytes, 5);
    assert_eq!(settings.max_concurrent_compactions, 6);
}

#[test]
fn memory_cache_defaults_to_a_quarter_gigabyte() {
    let cache = memory_cache(None);
    assert_eq!(cache.max_capacity, 250_000_000);
    assert_eq!(cache.time_to_idle_secs, None);
    assert_eq!(cache.time_to_live_secs, None);
    assert_eq!(memory_cache(Some(3)).max_capacity, 3);
}

#[test]
fn paths_are_encoded_for_the_object_store() {
    let (_, action) = answer(
        start("/a//b%c/../d/", true),
        BuildEvent::RuntimeStarted(Ok(3)),
    );
    assert_eq!(
        action,
        Some(BuildAction::CreateCheckpoint {
            db_path: "a/b%25c/%2E%2E/d".to_string(),
            lifetime_secs: 100,
        })
    );
}

#[test]
fn plain_paths_stay_as_they_are() {
    let (_, action) = answer(
        start("data/fs-1_A", true),
        BuildEvent::RuntimeStarted(Ok(3)),
    );
    assert_eq!(
        action,
        Some(BuildAction::CreateCheckpoint {
            db_path: "data/fs-1_A".to_string(),
            lifetime_secs: 100,
        })
    );
}

#[test]
fn an_encoded_path_is_taken_as_it_is() {
    let (build, _): (_, Action) = build_at_object_path(
        "store",
        &cache(),
        "b%25c".to_string(),
        true,
        None,
        DEFAULTS,
    );
    match build {
        BuildSlatedb::StartingRuntime {
            object_store,
            db_path,
            read_only,
            memory_cache,
            ..
        } => {
            assert_eq!(object_store, "store");
            assert_eq!(db_path, "b%25c");
            assert!(read_only);
            assert_eq!(memory_cache.max_capacity, 77);
        }
        _ => panic!("a build starts with its runtime"),
    }
}

#[test]
fn read_only_build_opens_a_checkpoint() {
    let (build, _) = answer(start("db", true), BuildEvent::RuntimeStarted(Ok(3)));
    let (build, action) = answer(build, BuildEvent::CheckpointCreated(Ok(7)));
    assert_eq!(
        action,
        Some(BuildAction::OpenReader {
            db_path: "db".to_string(),
            checkpoint: 7,
        })
    );
    let (build, action) = answer(build, BuildEvent::ReaderOpened(Ok("reader")));
    assert_eq!(build, BuildSlatedb::Finished);
    assert_eq!(
        action,
        Some(BuildAction::Finish(Ok((
            SlateDbHandle::ReadOnly("reader"),
            Some(CheckpointRefreshParams {
                db_path: "db".to_string(),
                object_store: "store",
            }),
        ))))
    );
}

#[test]
fn read_write_build_opens_the_database() {
    let (build, action) = answer(start("db", false), BuildEvent::RuntimeStarted(Ok(3)));
    match action {
        Some(BuildAction::OpenDb {
            object_store,
            db_path,
            settings,
            memory_cache,
            runtime,
        }) => {
            assert_eq!(object_store, "store");
            assert_eq!(db_path, "db");
            assert_eq!(settings, db_settings(&cache(), None, DEFAULTS));
            assert_eq!(memory_cache.max_capacity, 77);
            assert_eq!(runtime, 3);
        }
        _ => panic!("a database that can be written is opened with its settings"),
    }
    let (build, action) = answer(build, BuildEvent::DbOpened(Ok("db handle")));
    assert_eq!(build, BuildSlatedb::Finished);
    assert_eq!(
        action,
        Some(BuildAction::Finish(Ok((
            SlateDbHandle::ReadWrite("db handle"),
            None,
        ))))
    );
}

#[test]
fn the_object_store_is_there_until_the_reader_is_open() {
    let build = start("db", true);
    assert_eq!(build.object_store(), Some(&"store"));
    let (build, _) = answer(build, BuildEvent::RuntimeStarted(Ok(3)));
    assert_eq!(build.object_store(), Some(&"store"));
    let (build, _) = answer(build, BuildEvent::CheckpointCreated(Ok(7)));
    assert_eq!(build.object_store(), Some(&"store"));
    let (build, _) = answer(build, BuildEvent::ReaderOpened(Ok("reader")));
    assert_eq!(build.object_store(), None);
}

#[test]
fn the_object_store_goes_to_the_database_that_can_be_written() {
    let build = start("db", false);
    assert_eq!(build.object_store(), Some(&"store"));
    let (build, _) = answer(build, BuildEvent::RuntimeStarted(Ok(3)));
    assert_eq!(build.object_store(), None);
}

#[test]
fn slashes_that_part_nothing_are_dropped() {
    let (_, action) = answer(start("/a//b/", true), BuildEvent::RuntimeStarted(Ok(3)));
    assert_eq!(
        action,
        Some(BuildAction::CreateCheckpoint {
            db_path: "a/b".to_string(),
            lifetime_secs: 100,
        })
    );
}

#[test]
fn every_failure_ends_the_build() {
    let failed = Some(BuildAction::Finish(Err("why")));

    let (build, action) = answer(start("db", true), BuildEvent::RuntimeStarted(Err("why")));
    assert_eq!((build, action), (BuildSlatedb::Finished, failed));

    let (build, _) = answer(start("db", true), BuildEvent::RuntimeStarted(Ok(3)));
    let (build, action) = answer(build, BuildEvent::CheckpointCreated(Err("why")));
    assert_eq!(build, BuildSlatedb::Finished);
    assert_eq!(action, Some(BuildAction::Finish(Err("why"))));

    let (build, _) = answer(start("db", true), BuildEvent::RuntimeStarted(Ok(3)));
    let (build, _) = answer(build, BuildEvent::CheckpointCreated(Ok(1)));
    let (build, action) = answer(build, BuildEvent::ReaderOpened(Err("why")));
    assert_eq!(build, BuildSlatedb::Finished);
    assert_eq!(action, Some(BuildAction::Finish(Err("why"))));

    let (build, _) = answer(start("db", false), BuildEvent::RuntimeStarted(Ok(3)));
    let (build, action) = answer(build, BuildEvent::DbOpened(Err("why")));
    assert_eq!(build, BuildSlatedb::Finished);
    assert_eq!(action, Some(BuildAction::Finish(Err("why"))));
}

#[test]
fn other_events_change_nothing() {
    let (build, action) = answer(start("db", true), BuildEvent::DbOpened(Ok("db handle")));
    assert_eq!(build, start("db", true));
    assert_eq!(action, None);
    let (build, action) = answer(BuildSlatedb::Finished, BuildEvent::RuntimeStarted(Ok(3)));
    assert_eq!(build, BuildSlatedb::Finished);
    assert_eq!(action, None);
}
