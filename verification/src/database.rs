//! Opening the database: its settings, and the steps that open it.

use vstd::prelude::*;

use crate::checkpoint_refresh::{CheckpointRefreshParams, CHECKPOINT_LIFETIME_SECS};
use crate::config::{CacheConfig, CacheConfigView, LsmConfig};
use crate::machine::{
    advance, invariant_holds_on_every_trace, lemma_push_contains, trace,
    trace_goes_on_event_by_event, Machine,
};
use crate::object_path::{
    is_encoding_of, object_path, only_percent_is_encoded_again, to_object_path,
};
use crate::text::join;

verus! {

/// Memory for the block cache where the configuration names none.
pub const DEFAULT_MEMORY_CACHE_BYTES: u64 = 250_000_000;

/// Size of one part of an object in the disk cache.
pub const CACHE_PART_BYTES: usize = 16 * 1024 * 1024;

/// Largest table that a compaction writes.
pub const MAX_SST_BYTES: usize = 256 * 1024 * 1024;

/// Seconds between two flushes.
pub const FLUSH_INTERVAL_SECS: u64 = 30;

/// Seconds between two runs of the database's own garbage collector, and the
/// age in seconds before which it collects nothing.
pub const DB_GC_SECS: u64 = 10 * 60;

/// How the database's own garbage collector treats one directory.
#[derive(Clone, Copy, Debug, PartialEq, Eq, Structural)]
pub struct DirectoryGc {
    pub interval_secs: u64,
    pub min_age_secs: u64,
}

/// Settings of the database. What is not named here keeps the database's own
/// default.
#[derive(Debug, PartialEq, Eq)]
pub struct DbSettings {
    pub l0_max_ssts: usize,
    pub cache_root_folder: String,
    pub max_cache_size_bytes: usize,
    pub part_size_bytes: usize,
    pub cache_puts: bool,
    pub flush_interval_secs: u64,
    pub max_unflushed_bytes: usize,
    pub max_concurrent_compactions: usize,
    pub max_sst_size: usize,
    /// Off: data is compressed before it is encrypted, above the database.
    pub compression: bool,
    pub wal_gc: DirectoryGc,
    pub manifest_gc: DirectoryGc,
    pub compacted_gc: DirectoryGc,
}

/// The in-memory block cache.
#[derive(Clone, Copy, Debug, PartialEq, Eq, Structural)]
pub struct MemoryCache {
    pub max_capacity: u64,
    pub time_to_idle_secs: Option<u64>,
    pub time_to_live_secs: Option<u64>,
}

/// An open database.
#[derive(Debug, PartialEq, Eq)]
pub enum SlateDbHandle<R, D> {
    ReadOnly(R),
    ReadWrite(D),
}

/// The limits in force: those configured, or else the defaults.
pub open spec fn effective_lsm(configured: Option<LsmConfig>, defaults: LsmConfig) -> LsmConfig {
    match configured {
        Some(lsm) => lsm,
        None => defaults,
    }
}

impl DbSettings {
    /// Whether these are the settings for a cache and limits.
    pub open spec fn are_for(self, cache: CacheConfigView, lsm: LsmConfig) -> bool {
        let ten_minutes = DirectoryGc { interval_secs: 600, min_age_secs: 600 };
        &&& self.l0_max_ssts == lsm.l0_max_ssts
        &&& self.max_unflushed_bytes == lsm.max_unflushed_bytes
        &&& self.max_concurrent_compactions == lsm.max_concurrent_compactions
        &&& self.cache_root_folder@ == cache.root_folder + "/slatedb"@
        &&& self.max_cache_size_bytes == cache.max_cache_size_bytes
        &&& self.part_size_bytes == 16 * 1024 * 1024
        &&& !self.cache_puts
        &&& self.flush_interval_secs == 30
        &&& self.max_sst_size == 256 * 1024 * 1024
        &&& !self.compression
        &&& self.wal_gc == ten_minutes
        &&& self.manifest_gc == ten_minutes
        &&& self.compacted_gc == ten_minutes
    }
}

/// The settings of a database with the given cache and limits.
pub fn db_settings(
    cache: &CacheConfig,
    configured: Option<LsmConfig>,
    defaults: LsmConfig,
) -> (settings: DbSettings)
    ensures
        settings.are_for(cache@, effective_lsm(configured, defaults)),
        ({
            let limits = match configured {
                Some(lsm) => lsm,
                None => defaults,
            };
            &&& settings.l0_max_ssts == limits.l0_max_ssts
            &&& settings.max_unflushed_bytes == limits.max_unflushed_bytes
            &&& settings.max_concurrent_compactions == limits.max_concurrent_compactions
            &&& settings.cache_root_folder@ == cache.root_folder@ + "/slatedb"@
            &&& settings.max_cache_size_bytes == cache.max_cache_size_bytes
            &&& settings.part_size_bytes == 16_777_216
            &&& !settings.cache_puts
            &&& settings.flush_interval_secs == 30
            &&& settings.max_sst_size == 268_435_456
            &&& !settings.compression
            &&& settings.wal_gc.interval_secs == 600 && settings.wal_gc.min_age_secs == 600
            &&& settings.manifest_gc.interval_secs == 600 && settings.manifest_gc.min_age_secs == 600
            &&& settings.compacted_gc.interval_secs == 600 && settings.compacted_gc.min_age_secs == 600
        }),
{
    let lsm = match configured {
        Some(lsm) => lsm,
        None => defaults,
    };
    let gc = DirectoryGc { interval_secs: DB_GC_SECS, min_age_secs: DB_GC_SECS };
    let cache_root_folder = join(cache.root_folder.as_str(), "slatedb");
    proof {
        reveal_strlit("/");
        reveal_strlit("slatedb");
        reveal_strlit("/slatedb");
        assert("/"@ + "slatedb"@ =~= "/slatedb"@);
        assert(cache_root_folder@ =~= cache.root_folder@ + ("/"@ + "slatedb"@));
    }
    DbSettings {
        l0_max_ssts: lsm.l0_max_ssts,
        cache_root_folder,
        max_cache_size_bytes: cache.max_cache_size_bytes,
        part_size_bytes: CACHE_PART_BYTES,
        cache_puts: false,
        flush_interval_secs: FLUSH_INTERVAL_SECS,
        max_unflushed_bytes: lsm.max_unflushed_bytes,
        max_concurrent_compactions: lsm.max_concurrent_compactions,
        max_sst_size: MAX_SST_BYTES,
        compression: false,
        wal_gc: gc,
        manifest_gc: gc,
        compacted_gc: gc,
    }
}

/// The block cache for a configured size in bytes.
pub open spec fn memory_cache_for(configured: Option<u64>) -> MemoryCache {
    MemoryCache {
        max_capacity: match configured {
            Some(bytes) => bytes,
            None => 250_000_000,
        },
        time_to_idle_secs: None,
        time_to_live_secs: None,
    }
}

/// The block cache of a configured size, or of the default size.
pub fn memory_cache(configured: Option<u64>) -> (cache: MemoryCache)
    ensures
        cache == memory_cache_for(configured),
        configured matches Some(bytes) ==> cache.max_capacity == bytes,
        configured is None ==> cache.max_capacity == 250_000_000,
        cache.time_to_idle_secs is None,
        cache.time_to_live_secs is None,
{
    MemoryCache {
        max_capacity: match configured {
            Some(bytes) => bytes,
            None => DEFAULT_MEMORY_CACHE_BYTES,
        },
        time_to_idle_secs: None,
        time_to_live_secs: None,
    }
}

/// The steps that open a database, with an object store of type `S`.
#[derive(Debug, PartialEq, Eq)]
pub enum BuildSlatedb<S> {
    /// A runtime for compaction and garbage collection is being started.
    StartingRuntime {
        object_store: S,
        db_path: String,
        read_only: bool,
        settings: DbSettings,
        memory_cache: MemoryCache,
    },
    /// The checkpoint that will be read is being made.
    CreatingCheckpoint { object_store: S, db_path: String },
    /// The checkpoint is being opened for reading.
    OpeningReader { object_store: S, db_path: String },
    /// The database is being opened for reading and writing.
    OpeningDb,
    /// The outcome has been handed out.
    Finished,
}

/// How a step went. `T` is a runtime, `C` names a checkpoint, `R` is a reader, `D` a database.
#[derive(Debug, PartialEq, Eq)]
pub enum BuildEvent<T, C, R, D, E> {
    RuntimeStarted(Result<T, E>),
    CheckpointCreated(Result<C, E>),
    ReaderOpened(Result<R, E>),
    DbOpened(Result<D, E>),
}

/// What to do next. A checkpoint is made, and a reader opened, in the object store
/// that the build holds ([`BuildSlatedb::object_store`]).
#[derive(Debug, PartialEq, Eq)]
pub enum BuildAction<S, T, C, R, D, E> {
    StartRuntime,
    CreateCheckpoint { db_path: String, lifetime_secs: u64 },
    OpenReader { db_path: String, checkpoint: C },
    /// Open the database for reading and writing, with its compaction and its
    /// garbage collection on the runtime.
    OpenDb {
        object_store: S,
        db_path: String,
        settings: DbSettings,
        memory_cache: MemoryCache,
        runtime: T,
    },
    Finish(Result<(SlateDbHandle<R, D>, Option<CheckpointRefreshParams<S>>), E>),
}

impl<S, T, C, R, D, E> View for BuildAction<S, T, C, R, D, E> {
    type V = BuildAction<S, T, C, R, D, E>;

    open spec fn view(&self) -> BuildAction<S, T, C, R, D, E> {
        *self
    }
}

impl<S, T, C, R, D, E> Machine<BuildEvent<T, C, R, D, E>, BuildAction<S, T, C, R, D, E>> for BuildSlatedb<
    S,
> {
    open spec fn next(self, event: BuildEvent<T, C, R, D, E>) -> (
        Self,
        Option<BuildAction<S, T, C, R, D, E>>,
    ) {
        match (self, event) {
            (
                BuildSlatedb::StartingRuntime { object_store, db_path, read_only, settings, memory_cache },
                BuildEvent::RuntimeStarted(Ok(runtime)),
            ) => if read_only {
                (
                    BuildSlatedb::CreatingCheckpoint { object_store, db_path },
                    Some(BuildAction::CreateCheckpoint { db_path, lifetime_secs: 100 }),
                )
            } else {
                (
                    BuildSlatedb::OpeningDb,
                    Some(
                        BuildAction::OpenDb {
                            object_store,
                            db_path,
                            settings,
                            memory_cache,
                            runtime,
                        },
                    ),
                )
            },
            (BuildSlatedb::StartingRuntime { .. }, BuildEvent::RuntimeStarted(Err(e))) => (
                BuildSlatedb::Finished,
                Some(BuildAction::Finish(Err(e))),
            ),
            (
                BuildSlatedb::CreatingCheckpoint { object_store, db_path },
                BuildEvent::CheckpointCreated(Ok(checkpoint)),
            ) => (
                BuildSlatedb::OpeningReader { object_store, db_path },
                Some(BuildAction::OpenReader { db_path, checkpoint }),
            ),
            (BuildSlatedb::CreatingCheckpoint { .. }, BuildEvent::CheckpointCreated(Err(e))) => (
                BuildSlatedb::Finished,
                Some(BuildAction::Finish(Err(e))),
            ),
            (
                BuildSlatedb::OpeningReader { object_store, db_path },
                BuildEvent::ReaderOpened(Ok(reader)),
            ) => (
                BuildSlatedb::Finished,
                Some(
                    BuildAction::Finish(
                        Ok(
                            (
                                SlateDbHandle::ReadOnly(reader),
                                Some(CheckpointRefreshParams { db_path, object_store }),
                            ),
                        ),
                    ),
                ),
            ),
            (BuildSlatedb::OpeningReader { .. }, BuildEvent::ReaderOpened(Err(e))) => (
                BuildSlatedb::Finished,
                Some(BuildAction::Finish(Err(e))),
            ),
            (BuildSlatedb::OpeningDb, BuildEvent::DbOpened(Ok(db))) => (
                BuildSlatedb::Finished,
                Some(BuildAction::Finish(Ok((SlateDbHandle::ReadWrite(db), None)))),
            ),
            (BuildSlatedb::OpeningDb, BuildEvent::DbOpened(Err(e))) => (
                BuildSlatedb::Finished,
                Some(BuildAction::Finish(Err(e))),
            ),
            _ => (self, None),
        }
    }

    fn step(self, event: BuildEvent<T, C, R, D, E>) -> (out: (
        Self,
        Option<BuildAction<S, T, C, R, D, E>>,
    )) {
        match (self, event) {
            (
                BuildSlatedb::StartingRuntime { object_store, db_path, read_only, settings, memory_cache },
                BuildEvent::RuntimeStarted(started),
            ) => match started {
                Err(e) => (BuildSlatedb::Finished, Some(BuildAction::Finish(Err(e)))),
                Ok(runtime) => if read_only {
                    let lifetime_secs: u64 = CHECKPOINT_LIFETIME_SECS;
                    let action = BuildAction::CreateCheckpoint { db_path: db_path.clone(), lifetime_secs };
                    (BuildSlatedb::CreatingCheckpoint { object_store, db_path }, Some(action))
                } else {
                    let action = BuildAction::OpenDb {
                        object_store,
                        db_path,
                        settings,
                        memory_cache,
                        runtime,
                    };
                    (BuildSlatedb::OpeningDb, Some(action))
                },
            },
            (
                BuildSlatedb::CreatingCheckpoint { object_store, db_path },
                BuildEvent::CheckpointCreated(created),
            ) => match created {
                Err(e) => (BuildSlatedb::Finished, Some(BuildAction::Finish(Err(e)))),
                Ok(checkpoint) => {
                    let action = BuildAction::OpenReader { db_path: db_path.clone(), checkpoint };
                    (BuildSlatedb::OpeningReader { object_store, db_path }, Some(action))
                },
            },
            (
                BuildSlatedb::OpeningReader { object_store, db_path },
                BuildEvent::ReaderOpened(opened),
            ) => match opened {
                Err(e) => (BuildSlatedb::Finished, Some(BuildAction::Finish(Err(e)))),
                Ok(reader) => {
                    let params = CheckpointRefreshParams { db_path, object_store };
                    let handle = SlateDbHandle::ReadOnly(reader);
                    (BuildSlatedb::Finished, Some(BuildAction::Finish(Ok((handle, Some(params))))))
                },
            },
            (BuildSlatedb::OpeningDb, BuildEvent::DbOpened(opened)) => match opened {
                Err(e) => (BuildSlatedb::Finished, Some(BuildAction::Finish(Err(e)))),
                Ok(db) => {
                    let handle = SlateDbHandle::ReadWrite(db);
                    (BuildSlatedb::Finished, Some(BuildAction::Finish(Ok((handle, None)))))
                },
            },
            (unmoved, _) => (unmoved, None),
        }
    }
}

impl<S> BuildSlatedb<S> {
    /// Whether encoding the path that is held once more changes it exactly if it
    /// holds a `%`.
    pub open spec fn wf(self) -> bool {
        match self {
            BuildSlatedb::StartingRuntime { db_path, .. } => only_percent_is_encoded_again(db_path@),
            BuildSlatedb::CreatingCheckpoint { db_path, .. } => only_percent_is_encoded_again(db_path@),
            BuildSlatedb::OpeningReader { db_path, .. } => only_percent_is_encoded_again(db_path@),
            _ => true,
        }
    }

    /// The object store that is held.
    pub open spec fn store(self) -> Option<S> {
        match self {
            BuildSlatedb::StartingRuntime { object_store, .. } => Some(object_store),
            BuildSlatedb::CreatingCheckpoint { object_store, .. } => Some(object_store),
            BuildSlatedb::OpeningReader { object_store, .. } => Some(object_store),
            BuildSlatedb::OpeningDb => None,
            BuildSlatedb::Finished => None,
        }
    }

    /// The object store in which a checkpoint is made and a reader opened.
    pub fn object_store(&self) -> (store: Option<&S>)
        ensures
            match self.store() {
                Some(object_store) => store == Some(&object_store),
                None => store is None,
            },
            match *self {
                BuildSlatedb::StartingRuntime { object_store, .. } => store == Some(&object_store),
                BuildSlatedb::CreatingCheckpoint { object_store, .. } => store == Some(&object_store),
                BuildSlatedb::OpeningReader { object_store, .. } => store == Some(&object_store),
                _ => store is None,
            },
    {
        match self {
            BuildSlatedb::StartingRuntime { object_store, .. } => Some(object_store),
            BuildSlatedb::CreatingCheckpoint { object_store, .. } => Some(object_store),
            BuildSlatedb::OpeningReader { object_store, .. } => Some(object_store),
            _ => None,
        }
    }
}

/// The first state of a build, for a path that is encoded already.
pub open spec fn is_start_of_build<S>(
    build: BuildSlatedb<S>,
    object_store: S,
    cache_config: CacheConfigView,
    db_path: Seq<char>,
    read_only: bool,
    lsm: LsmConfig,
) -> bool {
    &&& build matches BuildSlatedb::StartingRuntime {
        object_store: store,
        db_path: path,
        read_only: mode,
        settings,
        memory_cache,
    }
    &&& store == object_store
    &&& path@ == db_path
    &&& mode == read_only
    &&& settings.are_for(cache_config, lsm)
    &&& memory_cache == memory_cache_for(cache_config.memory_cache_size_bytes)
}

/// Begins to open the database at an encoded path.
pub fn build_at_object_path<S, T, C, R, D, E>(
    object_store: S,
    cache_config: &CacheConfig,
    path: String,
    read_only: bool,
    lsm_config: Option<LsmConfig>,
    lsm_defaults: LsmConfig,
) -> (out: (BuildSlatedb<S>, BuildAction<S, T, C, R, D, E>))
    ensures
        is_start_of_build(
            out.0,
            object_store,
            cache_config@,
            path@,
            read_only,
            effective_lsm(lsm_config, lsm_defaults),
        ),
        ({
            let limits = match lsm_config {
                Some(lsm) => lsm,
                None => lsm_defaults,
            };
            &&& out.0 matches BuildSlatedb::StartingRuntime {
                object_store: held_store,
                db_path: held_path,
                read_only: mode,
                settings,
                memory_cache,
            }
            &&& held_store == object_store
            &&& held_path@ == path@
            &&& mode == read_only
            &&& settings.l0_max_ssts == limits.l0_max_ssts
            &&& settings.max_unflushed_bytes == limits.max_unflushed_bytes
            &&& settings.max_concurrent_compactions == limits.max_concurrent_compactions
            &&& settings.cache_root_folder@ == cache_config.root_folder@ + "/slatedb"@
            &&& settings.max_cache_size_bytes == cache_config.max_cache_size_bytes
            &&& settings.part_size_bytes == 16_777_216
            &&& !settings.cache_puts
            &&& settings.flush_interval_secs == 30
            &&& settings.max_sst_size == 268_435_456
            &&& !settings.compression
            &&& settings.wal_gc.interval_secs == 600 && settings.wal_gc.min_age_secs == 600
            &&& settings.manifest_gc.interval_secs == 600 && settings.manifest_gc.min_age_secs == 600
            &&& settings.compacted_gc.interval_secs == 600 && settings.compacted_gc.min_age_secs == 600
            &&& cache_config.memory_cache_size_bytes matches Some(bytes) ==> memory_cache.max_capacity == bytes
            &&& cache_config.memory_cache_size_bytes is None ==> memory_cache.max_capacity == 250_000_000
            &&& memory_cache.time_to_idle_secs is None && memory_cache.time_to_live_secs is None
        }),
        out.1 is StartRuntime,
{
    let settings = db_settings(cache_config, lsm_config, lsm_defaults);
    let memory_cache = memory_cache(cache_config.memory_cache_size_bytes);
    (
        BuildSlatedb::StartingRuntime {
            object_store,
            db_path: path,
            read_only,
            settings,
            memory_cache,
        },
        BuildAction::StartRuntime,
    )
}

/// Begins to open the database at `db_path`: read-only through a checkpoint, or
/// for reading and writing.
pub fn build_slatedb<S, T, C, R, D, E>(
    object_store: S,
    cache_config: &CacheConfig,
    db_path: String,
    read_only: bool,
    lsm_config: Option<LsmConfig>,
    lsm_defaults: LsmConfig,
) -> (out: (BuildSlatedb<S>, BuildAction<S, T, C, R, D, E>))
    ensures
        is_start_of_build(
            out.0,
            object_store,
            cache_config@,
            object_path(db_path@),
            read_only,
            effective_lsm(lsm_config, lsm_defaults),
        ),
        ({
            let limits = match lsm_config {
                Some(lsm) => lsm,
                None => lsm_defaults,
            };
            &&& out.0 matches BuildSlatedb::StartingRuntime {
                object_store: held_store,
                db_path: held_path,
                read_only: mode,
                settings,
                memory_cache,
            }
            &&& held_store == object_store
            &&& held_path@ == object_path(db_path@)
            &&& mode == read_only
            &&& settings.l0_max_ssts == limits.l0_max_ssts
            &&& settings.max_unflushed_bytes == limits.max_unflushed_bytes
            &&& settings.max_concurrent_compactions == limits.max_concurrent_compactions
            &&& settings.cache_root_folder@ == cache_config.root_folder@ + "/slatedb"@
            &&& settings.max_cache_size_bytes == cache_config.max_cache_size_bytes
            &&& settings.part_size_bytes == 16_777_216
            &&& !settings.cache_puts
            &&& settings.flush_interval_secs == 30
            &&& settings.max_sst_size == 268_435_456
            &&& !settings.compression
            &&& settings.wal_gc.interval_secs == 600 && settings.wal_gc.min_age_secs == 600
            &&& settings.manifest_gc.interval_secs == 600 && settings.manifest_gc.min_age_secs == 600
            &&& settings.compacted_gc.interval_secs == 600 && settings.compacted_gc.min_age_secs == 600
            &&& cache_config.memory_cache_size_bytes matches Some(bytes) ==> memory_cache.max_capacity == bytes
            &&& cache_config.memory_cache_size_bytes is None ==> memory_cache.max_capacity == 250_000_000
            &&& memory_cache.time_to_idle_secs is None && memory_cache.time_to_live_secs is None
        }),
        is_encoding_of(object_path(db_path@), db_path@),
        out.0.wf(),
        out.1 is StartRuntime,
{
    let path = to_object_path(db_path);
    build_at_object_path(object_store, cache_config, path, read_only, lsm_config, lsm_defaults)
}

impl<S> BuildSlatedb<S> {
    /// Whether an event answers what is waited for.
    pub open spec fn awaits<T, C, R, D, E>(self, event: BuildEvent<T, C, R, D, E>) -> bool {
        match self {
            BuildSlatedb::StartingRuntime { .. } => event is RuntimeStarted,
            BuildSlatedb::CreatingCheckpoint { .. } => event is CheckpointCreated,
            BuildSlatedb::OpeningReader { .. } => event is ReaderOpened,
            BuildSlatedb::OpeningDb => event is DbOpened,
            BuildSlatedb::Finished => false,
        }
    }

    /// How many answers it takes at most until the build is finished.
    pub open spec fn answers_left(self) -> nat {
        match self {
            BuildSlatedb::StartingRuntime { .. } => 3,
            BuildSlatedb::CreatingCheckpoint { .. } => 2,
            BuildSlatedb::OpeningReader { .. } => 1,
            BuildSlatedb::OpeningDb => 1,
            BuildSlatedb::Finished => 0,
        }
    }
}

/// The error that an event reports, if it reports one.
pub open spec fn build_failure<T, C, R, D, E>(event: BuildEvent<T, C, R, D, E>) -> Option<E> {
    match event {
        BuildEvent::RuntimeStarted(Err(e)) => Some(e),
        BuildEvent::CheckpointCreated(Err(e)) => Some(e),
        BuildEvent::ReaderOpened(Err(e)) => Some(e),
        BuildEvent::DbOpened(Err(e)) => Some(e),
        _ => None,
    }
}

/// Every answer brings the build nearer to its end, and a failure ends it with
/// the error that was reported. Any other event changes nothing. A well-formed
/// build stays well-formed.
pub proof fn build_moves_on_exactly_when_answered<S, T, C, R, D, E>(
    build: BuildSlatedb<S>,
    event: BuildEvent<T, C, R, D, E>,
)
    ensures
        ({
            let (after, action): (_, Option<BuildAction<S, T, C, R, D, E>>) = build.next(event);
            &&& build.wf() ==> after.wf()
            &&& build.awaits(event) ==> {
                &&& action is Some
                &&& after.answers_left() < build.answers_left()
                &&& build_failure(event) matches Some(e) ==> after is Finished && action == Some(
                    BuildAction::<S, T, C, R, D, E>::Finish(Err(e)),
                )
            }
            &&& !build.awaits(event) ==> after == build && action is None
        }),
{
}

/// The outcome of a build is handed out at its end, and only there.
pub proof fn build_hands_out_one_outcome<S, T, C, R, D, E>(
    start: BuildSlatedb<S>,
    events: Seq<BuildEvent<T, C, R, D, E>>,
)
    requires
        start is StartingRuntime,
    ensures
        ({
            let (end, actions) = trace::<_, BuildAction<S, T, C, R, D, E>, _>(start, events);
            &&& end is Finished <==> actions.len() > 0 && actions.last() is Finish
            &&& forall|i: int| 0 <= i < actions.len() - 1 ==> !(#[trigger] actions[i] is Finish)
        }),
{
    let inv = |
        past: Seq<BuildEvent<T, C, R, D, E>>,
        at: (BuildSlatedb<S>, Seq<BuildAction<S, T, C, R, D, E>>),
    |
        {
            &&& at.0 is Finished <==> at.1.len() > 0 && at.1.last() is Finish
            &&& forall|i: int| 0 <= i < at.1.len() - 1 ==> !(#[trigger] at.1[i] is Finish)
        };
    invariant_holds_on_every_trace::<_, BuildAction<S, T, C, R, D, E>, _>(start, events, inv);
}

/// The place of an action in a build.
pub open spec fn build_place<S, T, C, R, D, E>(action: BuildAction<S, T, C, R, D, E>) -> nat {
    match action {
        BuildAction::StartRuntime => 0,
        BuildAction::CreateCheckpoint { .. } => 1,
        BuildAction::OpenReader { .. } => 2,
        BuildAction::OpenDb { .. } => 2,
        BuildAction::Finish(_) => 3,
    }
}

/// The actions of a build come in order, none of them twice.
pub proof fn build_acts_in_order<S, T, C, R, D, E>(
    start: BuildSlatedb<S>,
    events: Seq<BuildEvent<T, C, R, D, E>>,
)
    requires
        start is StartingRuntime,
    ensures
        ({
            let actions = trace::<_, BuildAction<S, T, C, R, D, E>, _>(start, events).1;
            forall|i: int, j: int|
                0 <= i < j < actions.len() ==> build_place(#[trigger] actions[i]) < build_place(
                    #[trigger] actions[j],
                )
        }),
{
    let inv = |
        past: Seq<BuildEvent<T, C, R, D, E>>,
        at: (BuildSlatedb<S>, Seq<BuildAction<S, T, C, R, D, E>>),
    |
        {
            &&& forall|i: int|
                0 <= i < at.1.len() ==> build_place(#[trigger] at.1[i]) + at.0.answers_left() <= 3
            &&& forall|i: int, j: int|
                0 <= i < j < at.1.len() ==> build_place(#[trigger] at.1[i]) < build_place(
                    #[trigger] at.1[j],
                )
        };
    invariant_holds_on_every_trace::<_, BuildAction<S, T, C, R, D, E>, _>(start, events, inv);
}

/// Whether actions only make and open a checkpoint of the database at the path of
/// `start`, and hand out that reader, with the parameters that name the path and
/// the store of `start`.
pub open spec fn only_opens_a_reader<S, T, C, R, D, E>(
    start: BuildSlatedb<S>,
    events: Seq<BuildEvent<T, C, R, D, E>>,
    actions: Seq<BuildAction<S, T, C, R, D, E>>,
) -> bool {
    let db_path = start->StartingRuntime_db_path;
    let object_store = start->StartingRuntime_object_store;
    forall|i: int| 0 <= i < actions.len() ==> match #[trigger] actions[i] {
        BuildAction::StartRuntime => false,
        BuildAction::CreateCheckpoint { db_path: path, lifetime_secs } => {
            path == db_path && lifetime_secs == 100
        },
        BuildAction::OpenReader { db_path: path, checkpoint } => {
            path == db_path && events.contains(BuildEvent::CheckpointCreated(Ok(checkpoint)))
        },
        BuildAction::OpenDb { .. } => false,
        BuildAction::Finish(Ok((handle, refresh))) => {
            &&& handle is ReadOnly
            &&& events.contains(BuildEvent::ReaderOpened(Ok(handle->ReadOnly_0)))
            &&& refresh == Some(CheckpointRefreshParams { db_path, object_store })
        },
        BuildAction::Finish(Err(_)) => true,
    }
}

/// A database that is opened read-only is never opened for writing. Its
/// checkpoint is made and read in the store with which the build started, which is
/// held as long as one of the two is waited for. What comes out is the reader of
/// a checkpoint that was made, and the parameters to refresh it, which name the
/// path and the object store that were opened.
pub proof fn read_only_build_opens_only_a_reader<S, T, C, R, D, E>(
    start: BuildSlatedb<S>,
    events: Seq<BuildEvent<T, C, R, D, E>>,
)
    requires
        start is StartingRuntime,
        start->StartingRuntime_read_only,
    ensures
        ({
            let (end, actions) = trace::<_, BuildAction<S, T, C, R, D, E>, _>(start, events);
            &&& only_opens_a_reader(start, events, actions)
            &&& actions.len() > 0 && (actions.last() is CreateCheckpoint
                || actions.last() is OpenReader) ==> end.store() == start.store()
            &&& end.store() is Some ==> end.store() == start.store()
        }),
{
    let db_path = start->StartingRuntime_db_path;
    let object_store = start->StartingRuntime_object_store;
    let inv = |
        past: Seq<BuildEvent<T, C, R, D, E>>,
        at: (BuildSlatedb<S>, Seq<BuildAction<S, T, C, R, D, E>>),
    |
        {
            &&& match at.0 {
                BuildSlatedb::StartingRuntime { .. } => at.0 == start,
                BuildSlatedb::CreatingCheckpoint { object_store: store, db_path: path } => {
                    path == db_path && store == object_store
                },
                BuildSlatedb::OpeningReader { object_store: store, db_path: path } => {
                    path == db_path && store == object_store
                },
                BuildSlatedb::OpeningDb => false,
                BuildSlatedb::Finished => at.1.len() > 0 && at.1.last() is Finish,
            }
            &&& only_opens_a_reader(start, past, at.1)
        };
    assert forall|
        past: Seq<BuildEvent<T, C, R, D, E>>,
        at: (BuildSlatedb<S>, Seq<BuildAction<S, T, C, R, D, E>>),
        event: BuildEvent<T, C, R, D, E>,
    | inv(past, at) implies inv(
        #[trigger] past.push(event),
        #[trigger] advance::<_, BuildAction<S, T, C, R, D, E>, _>(at, event),
    ) by {
        lemma_push_contains(past, event);
    }
    invariant_holds_on_every_trace::<_, BuildAction<S, T, C, R, D, E>, _>(start, events, inv);
}

/// Whether actions only open the database of `start` for reading and writing,
/// and hand it out, with nothing to refresh.
pub open spec fn only_opens_the_database<S, T, C, R, D, E>(
    start: BuildSlatedb<S>,
    events: Seq<BuildEvent<T, C, R, D, E>>,
    actions: Seq<BuildAction<S, T, C, R, D, E>>,
) -> bool {
    forall|i: int| 0 <= i < actions.len() ==> match #[trigger] actions[i] {
        BuildAction::StartRuntime => false,
        BuildAction::CreateCheckpoint { .. } => false,
        BuildAction::OpenReader { .. } => false,
        BuildAction::OpenDb { object_store, db_path, settings, memory_cache, runtime } => {
            &&& events.contains(BuildEvent::RuntimeStarted(Ok(runtime)))
            &&& start == (BuildSlatedb::StartingRuntime {
                object_store,
                db_path,
                read_only: false,
                settings,
                memory_cache,
            })
        },
        BuildAction::Finish(Ok((handle, refresh))) => {
            &&& handle is ReadWrite
            &&& events.contains(BuildEvent::DbOpened(Ok(handle->ReadWrite_0)))
            &&& refresh is None
        },
        BuildAction::Finish(Err(_)) => true,
    }
}

/// A database that is opened for reading and writing makes no checkpoint and is
/// opened with its settings, on the runtime that was started. What comes out has
/// nothing to refresh.
pub proof fn read_write_build_opens_only_the_database<S, T, C, R, D, E>(
    start: BuildSlatedb<S>,
    events: Seq<BuildEvent<T, C, R, D, E>>,
)
    requires
        start is StartingRuntime,
        !start->StartingRuntime_read_only,
    ensures
        only_opens_the_database(
            start,
            events,
            trace::<_, BuildAction<S, T, C, R, D, E>, _>(start, events).1,
        ),
{
    let inv = |
        past: Seq<BuildEvent<T, C, R, D, E>>,
        at: (BuildSlatedb<S>, Seq<BuildAction<S, T, C, R, D, E>>),
    |
        {
            &&& at.0 == start || at.0 is OpeningDb || at.0 is Finished
            &&& only_opens_the_database(start, past, at.1)
        };
    assert forall|
        past: Seq<BuildEvent<T, C, R, D, E>>,
        at: (BuildSlatedb<S>, Seq<BuildAction<S, T, C, R, D, E>>),
        event: BuildEvent<T, C, R, D, E>,
    | inv(past, at) implies inv(
        #[trigger] past.push(event),
        #[trigger] advance::<_, BuildAction<S, T, C, R, D, E>, _>(at, event),
    ) by {
        lemma_push_contains(past, event);
    }
    invariant_holds_on_every_trace::<_, BuildAction<S, T, C, R, D, E>, _>(start, events, inv);
}

/// The block cache has the configured number of bytes, whatever that is, and 250
/// million where none is configured; it forgets nothing by age.
pub proof fn memory_cache_has_the_configured_size(bytes: u64)
    ensures
        memory_cache_for(Some(bytes)).max_capacity == bytes,
        memory_cache_for(None).max_capacity == 250_000_000,
        memory_cache_for(Some(bytes)).time_to_idle_secs is None,
        memory_cache_for(Some(bytes)).time_to_live_secs is None,
        memory_cache_for(None).time_to_idle_secs is None,
        memory_cache_for(None).time_to_live_secs is None,
{
}

/// A database that can be written is opened in the object store and at the path with
/// which its build began, on the runtime that was started, with a block cache and a
/// disk cache of the configured sizes, below the configured cache folder, and with the
/// configured limits, or else the defaults; the other settings are the same for all.
pub proof fn database_is_opened_as_configured<S, T, C, R, D, E>(
    build: BuildSlatedb<S>,
    object_store: S,
    cache: CacheConfigView,
    db_path: Seq<char>,
    configured: Option<LsmConfig>,
    defaults: LsmConfig,
    runtime: T,
)
    requires
        is_start_of_build(
            build,
            object_store,
            cache,
            db_path,
            false,
            effective_lsm(configured, defaults),
        ),
    ensures
        ({
            let limits = match configured {
                Some(lsm) => lsm,
                None => defaults,
            };
            let (after, action): (_, Option<BuildAction<S, T, C, R, D, E>>) = build.next(
                BuildEvent::RuntimeStarted(Ok(runtime)),
            );
            &&& after is OpeningDb
            &&& action matches Some(
                BuildAction::OpenDb {
                    object_store: store,
                    db_path: path,
                    settings,
                    memory_cache,
                    runtime: on,
                },
            )
            &&& store == object_store
            &&& path@ == db_path
            &&& on == runtime
            &&& settings.l0_max_ssts == limits.l0_max_ssts
            &&& settings.max_unflushed_bytes == limits.max_unflushed_bytes
            &&& settings.max_concurrent_compactions == limits.max_concurrent_compactions
            &&& settings.cache_root_folder@ == cache.root_folder + "/slatedb"@
            &&& settings.max_cache_size_bytes == cache.max_cache_size_bytes
            &&& settings.part_size_bytes == 16_777_216
            &&& !settings.cache_puts
            &&& settings.flush_interval_secs == 30
            &&& settings.max_sst_size == 268_435_456
            &&& !settings.compression
            &&& settings.wal_gc.interval_secs == 600 && settings.wal_gc.min_age_secs == 600
            &&& settings.manifest_gc.interval_secs == 600 && settings.manifest_gc.min_age_secs == 600
            &&& settings.compacted_gc.interval_secs == 600 && settings.compacted_gc.min_age_secs == 600
            &&& cache.memory_cache_size_bytes matches Some(bytes) ==> memory_cache.max_capacity == bytes
            &&& cache.memory_cache_size_bytes is None ==> memory_cache.max_capacity == 250_000_000
            &&& memory_cache.time_to_idle_secs is None && memory_cache.time_to_live_secs is None
        }),
{
}

/// A read-only build, whatever its steps report: a checkpoint that lives for a hundred
/// seconds, then a reader of that checkpoint, both at the path of the build; what
/// comes out is that reader, with that path and the object store of the build. The
/// first step that fails is the end, with its own error.
pub proof fn read_only_build_goes_from_checkpoint_to_reader<S, T, C, R, D, E>(
    object_store: S,
    db_path: String,
    settings: DbSettings,
    memory_cache: MemoryCache,
    started: Result<T, E>,
    created: Result<C, E>,
    opened: Result<R, E>,
)
    ensures
        ({
            let (end, actions) = trace::<_, BuildAction<S, T, C, R, D, E>, _>(
                BuildSlatedb::StartingRuntime {
                    object_store,
                    db_path,
                    read_only: true,
                    settings,
                    memory_cache,
                },
                seq![
                    BuildEvent::RuntimeStarted(started),
                    BuildEvent::CheckpointCreated(created),
                    BuildEvent::ReaderOpened(opened),
                ],
            );
            let checkpoint = BuildAction::<S, T, C, R, D, E>::CreateCheckpoint {
                db_path,
                lifetime_secs: 100,
            };
            &&& end is Finished
            &&& match (started, created, opened) {
                (Err(e), _, _) => actions =~= seq![BuildAction::<S, T, C, R, D, E>::Finish(Err(e))],
                (Ok(_), Err(e), _) => actions =~= seq![checkpoint, BuildAction::Finish(Err(e))],
                (Ok(_), Ok(c), Err(e)) => actions =~= seq![
                    checkpoint,
                    BuildAction::OpenReader { db_path, checkpoint: c },
                    BuildAction::Finish(Err(e)),
                ],
                (Ok(_), Ok(c), Ok(r)) => actions =~= seq![
                    checkpoint,
                    BuildAction::OpenReader { db_path, checkpoint: c },
                    BuildAction::Finish(
                        Ok(
                            (
                                SlateDbHandle::ReadOnly(r),
                                Some(CheckpointRefreshParams { db_path, object_store }),
                            ),
                        ),
                    ),
                ],
            }
        }),
{
    let start = BuildSlatedb::StartingRuntime {
        object_store,
        db_path,
        read_only: true,
        settings,
        memory_cache,
    };
    let none = Seq::<BuildEvent<T, C, R, D, E>>::empty();
    let one = none.push(BuildEvent::RuntimeStarted(started));
    let two = one.push(BuildEvent::CheckpointCreated(created));
    trace_goes_on_event_by_event::<_, BuildAction<S, T, C, R, D, E>, _>(
        start,
        none,
        BuildEvent::RuntimeStarted(started),
    );
    trace_goes_on_event_by_event::<_, BuildAction<S, T, C, R, D, E>, _>(
        start,
        one,
        BuildEvent::CheckpointCreated(created),
    );
    trace_goes_on_event_by_event::<_, BuildAction<S, T, C, R, D, E>, _>(
        start,
        two,
        BuildEvent::ReaderOpened(opened),
    );
    assert(seq![
        BuildEvent::RuntimeStarted(started),
        BuildEvent::CheckpointCreated(created),
        BuildEvent::ReaderOpened(opened),
    ] =~= two.push(BuildEvent::ReaderOpened(opened)));
}

/// A build for writing, whatever its steps report: the database is opened, with all
/// that the build was given and on the runtime that was started, and it comes out with
/// nothing to refresh. The first step that fails is the end, with its own error.
pub proof fn read_write_build_goes_straight_to_the_database<S, T, C, R, D, E>(
    object_store: S,
    db_path: String,
    settings: DbSettings,
    memory_cache: MemoryCache,
    started: Result<T, E>,
    opened: Result<D, E>,
)
    ensures
        ({
            let (end, actions) = trace::<_, BuildAction<S, T, C, R, D, E>, _>(
                BuildSlatedb::StartingRuntime {
                    object_store,
                    db_path,
                    read_only: false,
                    settings,
                    memory_cache,
                },
                seq![BuildEvent::RuntimeStarted(started), BuildEvent::DbOpened(opened)],
            );
            &&& end is Finished
            &&& match (started, opened) {
                (Err(e), _) => actions =~= seq![BuildAction::<S, T, C, R, D, E>::Finish(Err(e))],
                (Ok(runtime), _) => {
                    &&& actions.len() == 2
                    &&& actions[0] == (BuildAction::<S, T, C, R, D, E>::OpenDb {
                        object_store,
                        db_path,
                        settings,
                        memory_cache,
                        runtime,
                    })
                    &&& opened matches Err(e) ==> actions[1] == BuildAction::<
                        S,
                        T,
                        C,
                        R,
                        D,
                        E,
                    >::Finish(Err(e))
                    &&& opened matches Ok(db) ==> actions[1] == BuildAction::<
                        S,
                        T,
                        C,
                        R,
                        D,
                        E,
                    >::Finish(Ok((SlateDbHandle::ReadWrite(db), None)))
                },
            }
        }),
{
    let start = BuildSlatedb::StartingRuntime {
        object_store,
        db_path,
        read_only: false,
        settings,
        memory_cache,
    };
    let none = Seq::<BuildEvent<T, C, R, D, E>>::empty();
    let one = none.push(BuildEvent::RuntimeStarted(started));
    trace_goes_on_event_by_event::<_, BuildAction<S, T, C, R, D, E>, _>(
        start,
        none,
        BuildEvent::RuntimeStarted(started),
    );
    trace_goes_on_event_by_event::<_, BuildAction<S, T, C, R, D, E>, _>(
        start,
        one,
        BuildEvent::DbOpened(opened),
    );
    assert(seq![BuildEvent::RuntimeStarted(started), BuildEvent::DbOpened(opened)] =~= one.push(
        BuildEvent::DbOpened(opened),
    ));
}

/// A build ends with an error only if the event that it was just told of reports that
/// error. An event that answers nothing that was asked changes nothing.
pub proof fn build_fails_only_with_a_reported_error<S, T, C, R, D, E>(
    build: BuildSlatedb<S>,
    event: BuildEvent<T, C, R, D, E>,
)
    ensures
        ({
            let (after, action): (_, Option<BuildAction<S, T, C, R, D, E>>) = build.next(event);
            &&& action matches Some(BuildAction::Finish(Err(e))) ==> {
                ||| event == BuildEvent::<T, C, R, D, E>::RuntimeStarted(Err(e))
                ||| event == BuildEvent::<T, C, R, D, E>::CheckpointCreated(Err(e))
                ||| event == BuildEvent::<T, C, R, D, E>::ReaderOpened(Err(e))
                ||| event == BuildEvent::<T, C, R, D, E>::DbOpened(Err(e))
            }
            &&& !{
                ||| build is StartingRuntime && event is RuntimeStarted
                ||| build is CreatingCheckpoint && event is CheckpointCreated
                ||| build is OpeningReader && event is ReaderOpened
                ||| build is OpeningDb && event is DbOpened
            } ==> after == build && action is None
        }),
{
}

/// What is seen of an action of a build is the action itself.
pub proof fn build_action_is_seen_as_it_is<S, T, C, R, D, E>(action: BuildAction<S, T, C, R, D, E>)
    ensures
        action@ == action,
{
}

} // verus!
