use zerofs::config::{CacheConfig, LsmConfig, Settings};
use zerofs::filesystem::{
    bucket_cache, initialize_filesystem, InitAction, InitError, InitEvent, InitializeFilesystem,
};
use zerofs::machine::Machine;

type Init = InitializeFilesystem<&'static str, &'static str, &'static str>;
type Action = InitAction<
    &'static str,
    &'static str,
    &'static str,
    &'static str,
    &'static str,
    &'static str,
>;
type Event = InitEvent<
    &'static str,
    &'static str,
    &'static str,
    &'static str,
    &'static str,
    &'static str,
>;

const LSM: LsmConfig = LsmConfig {
    l0_max_ssts: 1,
    max_unflushed_bytes: 2,
    max_concurrent_compactions: 3,
};

fn settings(max_bytes: Option<u64>) -> Settings {
    Settings {
        url: "s3://bucket/data".to_string(),
        encryption_password: "correct horse".to_string(),
        cache: CacheConfig {
            root_folder: "/var/cache".to_string(),
            max_cache_size_bytes: 10,
            memory_cache_size_bytes: Some(20),
        },
        aws: Some(vec![("KEY".to_string(), "Value".to_string())]),
        azure: None,
        gcp: None,
        lsm: Some(LSM),
        max_bytes,
    }
}

fn start(read_only: bool, max_bytes: Option<u64>) -> Init {
    let (init, action): (Init, Action) =
        initialize_filesystem(settings(max_bytes), read_only, 1_000);
    match action {
        InitAction::OpenObjectStore { url, options } => {
            assert_eq!(url, "s3://bucket/data");
            assert_eq!(
                options,
                vec![("aws_key".to_string(), "Value".to_string())]
            );
        }
        _ => panic!("the object store is opened first"),
    }
    init
}

fn answer(init: Init, event: Event) -> (Init, Option<Action>) {
    init.step(event)
}

fn store_opened() -> Event {
    InitEvent::ObjectStoreOpened(Ok(("store", "data".to_string())))
}

fn bucket_identified() -> Event {
    InitEvent::BucketIdentified(Ok("bucket-1".to_string()))
}

fn failed(init: Init, event: Event) -> &'static str {
    match answer(init, event) {
        (InitializeFilesystem::Finished, Some(InitAction::Finish(Err(InitError::Step(e))))) => e,
        _ => panic!("a failed step ends the start-up"),
    }
}

#[test]
fn a_start_up_for_writing_goes_through_all_steps() {
    let init = start(false, Some(555));
    assert!(init.object_store().is_none());
    let (init, action) = answer(init, store_opened());
    assert!(matches!(action, Some(InitAction::IdentifyBucket { db_path }) if db_path == "data"));
    assert_eq!(init.object_store(), Some(&"store"));
    let (init, action) = answer(init, bucket_identified());
    assert!(
        matches!(action, Some(InitAction::CheckCompatibility { db_path }) if db_path == "data")
    );
    assert_eq!(init.object_store(), Some(&"store"));
    let (init, action) = answer(init, InitEvent::CompatibilityChecked(Ok(())));
    assert!(matches!(
        action,
        Some(InitAction::ValidatePassword { password }) if password == "correct horse"
    ));
    assert_eq!(init.object_store(), Some(&"store"));
    let (init, action) = answer(init, InitEvent::PasswordValidated(Ok(())));
    match action {
        Some(InitAction::BuildSlatedb {
            object_store,
            cache,
            db_path,
            read_only,
            lsm,
        }) => {
            assert_eq!(object_store, "store");
            assert_eq!(cache.root_folder, "/var/cache/bucket-1");
            assert_eq!(cache.max_cache_size_bytes, 10);
            assert_eq!(cache.memory_cache_size_bytes, Some(20));
            assert_eq!(db_path, "data");
            assert!(!read_only);
            assert_eq!(lsm, Some(LSM));
        }
        _ => panic!("the database is opened once the password is accepted"),
    }
    assert!(init.slatedb().is_none());
    let (init, action) = answer(init, InitEvent::SlatedbBuilt(Ok(("db", "refresh"))));
    assert!(matches!(
        action,
        Some(InitAction::LoadKey { password }) if password == "correct horse"
    ));
    assert_eq!(init.slatedb(), Some(&"db"));
    let (init, action) = answer(init, InitEvent::KeyLoaded(Ok("key")));
    assert!(matches!(
        action,
        Some(InitAction::CreateFilesystem {
            slatedb: "db",
            key: "key",
            max_bytes: 555
        })
    ));
    let (init, action) = answer(init, InitEvent::FilesystemCreated(Ok("fs")));
    assert!(init == InitializeFilesystem::Finished);
    assert!(matches!(
        action,
        Some(InitAction::Finish(Ok(("fs", "refresh"))))
    ));
}

#[test]
fn a_read_only_start_up_checks_no_compatibility() {
    let (init, _) = answer(start(true, None), store_opened());
    let (init, action) = answer(init, bucket_identified());
    assert!(matches!(action, Some(InitAction::ValidatePassword { .. })));
    let (_, action) = answer(init, InitEvent::PasswordValidated(Ok(())));
    assert!(matches!(
        action,
        Some(InitAction::BuildSlatedb {
            read_only: true,
            ..
        })
    ));
}

#[test]
fn the_size_limit_has_a_default() {
    match start(false, None) {
        InitializeFilesystem::OpeningObjectStore { plan } => assert_eq!(plan.max_bytes, 1_000),
        _ => panic!("the object store is opened first"),
    }
}

#[test]
fn a_rejected_password_ends_the_start_up() {
    let (init, _) = answer(start(true, None), store_opened());
    let (init, _) = answer(init, bucket_identified());
    let (init, action) = answer(
        init,
        InitEvent::PasswordValidated(Err("too short".to_string())),
    );
    assert!(init == InitializeFilesystem::Finished);
    match action {
        Some(InitAction::Finish(Err(e))) => assert_eq!(
            e.message(),
            Some("Password validation failed: too short".to_string())
        ),
        _ => panic!("a rejected password is an error"),
    }
}

#[test]
fn the_error_of_a_step_has_no_message_of_its_own() {
    assert_eq!(InitError::Step("why").message(), None);
}

#[test]
fn every_failed_step_ends_the_start_up() {
    let init = start(false, None);
    assert_eq!(failed(init, InitEvent::ObjectStoreOpened(Err("url"))), "url");

    let (init, _) = answer(start(false, None), store_opened());
    assert_eq!(failed(init, InitEvent::BucketIdentified(Err("id"))), "id");

    let (init, _) = answer(start(false, None), store_opened());
    let (init, _) = answer(init, bucket_identified());
    assert_eq!(
        failed(init, InitEvent::CompatibilityChecked(Err("etag"))),
        "etag"
    );

    let building = || {
        let (init, _) = answer(start(true, None), store_opened());
        let (init, _) = answer(init, bucket_identified());
        answer(init, InitEvent::PasswordValidated(Ok(()))).0
    };
    assert_eq!(failed(building(), InitEvent::SlatedbBuilt(Err("db"))), "db");

    let (init, _) = answer(building(), InitEvent::SlatedbBuilt(Ok(("db", "refresh"))));
    assert_eq!(failed(init, InitEvent::KeyLoaded(Err("key"))), "key");

    let (init, _) = answer(building(), InitEvent::SlatedbBuilt(Ok(("db", "refresh"))));
    let (init, _) = answer(init, InitEvent::KeyLoaded(Ok("key")));
    assert_eq!(failed(init, InitEvent::FilesystemCreated(Err("fs"))), "fs");
}

#[test]
fn an_answer_out_of_turn_changes_nothing() {
    let (init, action) = answer(start(false, None), InitEvent::PasswordValidated(Ok(())));
    assert!(init == start(false, None));
    assert!(action.is_none());
}

#[test]
fn buckets_have_their_own_cache_folders() {
    let cache = || CacheConfig {
        root_folder: "/c".to_string(),
        max_cache_size_bytes: 1,
        memory_cache_size_bytes: None,
    };
    let a = bucket_cache(cache(), "a");
    let b = bucket_cache(cache(), "b");
    assert_eq!(a.root_folder, "/c/a");
    assert_eq!(a.max_cache_size_bytes, 1);
    assert_eq!(a.memory_cache_size_bytes, None);
    assert_ne!(a.root_folder, b.root_folder);
}
