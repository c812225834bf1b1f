//! Bringing up the file system: the steps from the settings to a file system
//! that can be served.

use vstd::prelude::*;
use vstd::string::*;

use crate::config::{CacheConfig, CacheConfigView, LsmConfig, Settings};
use crate::machine::{
    advance, invariant_holds_on_every_trace, lemma_push_contains, trace,
    trace_goes_on_event_by_event, Machine,
};
use crate::provider_options::{object_store_options, option_views, store_options};
use crate::text::{inside, join, names_inside_a_directory_stay_apart};

verus! {

/// What the steps after the first need of the settings.
#[derive(PartialEq, Eq)]
pub struct InitPlan {
    pub read_only: bool,
    pub encryption_password: String,
    pub cache: CacheConfig,
    pub lsm: Option<LsmConfig>,
    pub max_bytes: u64,
}

/// The steps that bring up a file system. `S` is an object store, `H` an open
/// database, `P` what came with it.
#[derive(PartialEq, Eq)]
pub enum InitializeFilesystem<S, H, P> {
    OpeningObjectStore { plan: InitPlan },
    IdentifyingBucket { plan: InitPlan, object_store: S, db_path: String },
    CheckingCompatibility {
        plan: InitPlan,
        object_store: S,
        db_path: String,
        bucket_directory: String,
    },
    ValidatingPassword {
        plan: InitPlan,
        object_store: S,
        db_path: String,
        bucket_directory: String,
    },
    BuildingSlatedb { encryption_password: String, max_bytes: u64 },
    LoadingKey { max_bytes: u64, slatedb: H, refresh: P },
    CreatingFilesystem { refresh: P },
    Finished,
}

/// How a step went. `K` is an encryption key, `F` a file system.
#[derive(Debug, PartialEq, Eq)]
pub enum InitEvent<S, H, P, K, F, E> {
    /// The object store, and the path of the database in it.
    ObjectStoreOpened(Result<(S, String), E>),
    /// The name of the bucket's cache directory.
    BucketIdentified(Result<String, E>),
    CompatibilityChecked(Result<(), E>),
    /// Why the password was rejected, if it was.
    PasswordValidated(Result<(), String>),
    SlatedbBuilt(Result<(H, P), E>),
    KeyLoaded(Result<K, E>),
    FilesystemCreated(Result<F, E>),
}

/// Why a file system could not be brought up.
#[derive(Debug, PartialEq, Eq)]
pub enum InitError<E> {
    Step(E),
    PasswordRejected { reason: String },
}

/// What to do next.
#[derive(PartialEq, Eq)]
pub enum InitAction<S, H, P, K, F, E> {
    OpenObjectStore { url: String, options: Vec<(String, String)> },
    IdentifyBucket { db_path: String },
    CheckCompatibility { db_path: String },
    ValidatePassword { password: String },
    BuildSlatedb {
        object_store: S,
        cache: CacheConfig,
        db_path: String,
        read_only: bool,
        lsm: Option<LsmConfig>,
    },
    LoadKey { password: String },
    CreateFilesystem { slatedb: H, key: K, max_bytes: u64 },
    Finish(Result<(F, P), InitError<E>>),
}

/// An [`InitAction`] with its texts as sequences of characters.
pub enum InitActionView<S, H, P, K, F, E> {
    OpenObjectStore { url: Seq<char>, options: Seq<(Seq<char>, Seq<char>)> },
    IdentifyBucket { db_path: Seq<char> },
    CheckCompatibility { db_path: Seq<char> },
    ValidatePassword { password: Seq<char> },
    BuildSlatedb {
        object_store: S,
        cache: CacheConfigView,
        db_path: Seq<char>,
        read_only: bool,
        lsm: Option<LsmConfig>,
    },
    LoadKey { password: Seq<char> },
    CreateFilesystem { slatedb: H, key: K, max_bytes: u64 },
    Finish(Result<(F, P), InitError<E>>),
}

impl<S, H, P, K, F, E> View for InitAction<S, H, P, K, F, E> {
    type V = InitActionView<S, H, P, K, F, E>;

    open spec fn view(&self) -> InitActionView<S, H, P, K, F, E> {
        match *self {
            InitAction::OpenObjectStore { url, options } => InitActionView::OpenObjectStore {
                url: url@,
                options: option_views(options@),
            },
            InitAction::IdentifyBucket { db_path } => InitActionView::IdentifyBucket {
                db_path: db_path@,
            },
            InitAction::CheckCompatibility { db_path } => InitActionView::CheckCompatibility {
                db_path: db_path@,
            },
            InitAction::ValidatePassword { password } => InitActionView::ValidatePassword {
                password: password@,
            },
            InitAction::BuildSlatedb { object_store, cache, db_path, read_only, lsm } => {
                InitActionView::BuildSlatedb {
                    object_store,
                    cache: cache@,
                    db_path: db_path@,
                    read_only,
                    lsm,
                }
            },
            InitAction::LoadKey { password } => InitActionView::LoadKey { password: password@ },
            InitAction::CreateFilesystem { slatedb, key, max_bytes } => {
                InitActionView::CreateFilesystem { slatedb, key, max_bytes }
            },
            InitAction::Finish(outcome) => InitActionView::Finish(outcome),
        }
    }
}

/// A cache moved into the directory of a bucket.
pub open spec fn cache_of_bucket(cache: CacheConfig, bucket_directory: Seq<char>) -> CacheConfigView {
    CacheConfigView { root_folder: inside(cache.root_folder@, bucket_directory), ..cache@ }
}

/// The cache of the bucket whose cache directory is `bucket_directory`.
pub fn bucket_cache(cache: CacheConfig, bucket_directory: &str) -> (bucket: CacheConfig)
    ensures
        bucket@ == cache_of_bucket(cache, bucket_directory@),
        bucket.root_folder@ == cache.root_folder@ + "/"@ + bucket_directory@,
        bucket.max_cache_size_bytes == cache.max_cache_size_bytes,
        bucket.memory_cache_size_bytes == cache.memory_cache_size_bytes,
{
    let root_folder = join(cache.root_folder.as_str(), bucket_directory);
    CacheConfig {
        root_folder,
        max_cache_size_bytes: cache.max_cache_size_bytes,
        memory_cache_size_bytes: cache.memory_cache_size_bytes,
    }
}

/// Buckets with different cache directories have different cache folders.
pub proof fn buckets_do_not_share_a_cache(cache: CacheConfig, a: Seq<char>, b: Seq<char>)
    requires
        a != b,
    ensures
        cache_of_bucket(cache, a).root_folder != cache_of_bucket(cache, b).root_folder,
{
    if cache_of_bucket(cache, a).root_folder == cache_of_bucket(cache, b).root_folder {
        names_inside_a_directory_stay_apart(cache.root_folder@, a, b);
    }
}

impl<E> InitError<E> {
    /// The message for a rejected password; nothing for the error of a step, which
    /// has its own.
    pub fn message(&self) -> (message: Option<String>)
        ensures
            match *self {
                InitError::Step(_) => message is None,
                InitError::PasswordRejected { reason } => message is Some && message->0@
                    == "Password validation failed: "@ + reason@,
            },
    {
        match self {
            InitError::Step(_) => None,
            InitError::PasswordRejected { reason } => {
                let mut message = String::from_str("Password validation failed: ");
                message.append(reason.as_str());
                Some(message)
            },
        }
    }
}

impl<S, H, P> InitializeFilesystem<S, H, P> {
    /// The object store in use, while the bucket and the password are looked at.
    pub fn object_store(&self) -> (store: Option<&S>)
        ensures
            match *self {
                InitializeFilesystem::IdentifyingBucket { object_store, .. } => store == Some(
                    &object_store,
                ),
                InitializeFilesystem::CheckingCompatibility { object_store, .. } => store == Some(
                    &object_store,
                ),
                InitializeFilesystem::ValidatingPassword { object_store, .. } => store == Some(
                    &object_store,
                ),
                _ => store is None,
            },
    {
        match self {
            InitializeFilesystem::IdentifyingBucket { object_store, .. } => Some(object_store),
            InitializeFilesystem::CheckingCompatibility { object_store, .. } => Some(object_store),
            InitializeFilesystem::ValidatingPassword { object_store, .. } => Some(object_store),
            _ => None,
        }
    }

    /// The open database, while its key is loaded.
    pub fn slatedb(&self) -> (handle: Option<&H>)
        ensures
            match *self {
                InitializeFilesystem::LoadingKey { slatedb, .. } => handle == Some(&slatedb),
                _ => handle is None,
            },
    {
        match self {
            InitializeFilesystem::LoadingKey { slatedb, .. } => Some(slatedb),
            _ => None,
        }
    }
}

impl<S, H, P, K, F, E> Machine<
    InitEvent<S, H, P, K, F, E>,
    InitAction<S, H, P, K, F, E>,
> for InitializeFilesystem<S, H, P> {
    open spec fn next(self, event: InitEvent<S, H, P, K, F, E>) -> (
        Self,
        Option<InitActionView<S, H, P, K, F, E>>,
    ) {
        let failed = |e: InitError<E>|
            (
                InitializeFilesystem::Finished,
                Some(InitActionView::<S, H, P, K, F, E>::Finish(Err(e))),
            );
        match (self, event) {
            (
                InitializeFilesystem::OpeningObjectStore { plan },
                InitEvent::ObjectStoreOpened(opened),
            ) => match opened {
                Ok((object_store, db_path)) => (
                    InitializeFilesystem::IdentifyingBucket { plan, object_store, db_path },
                    Some(InitActionView::IdentifyBucket { db_path: db_path@ }),
                ),
                Err(e) => failed(InitError::Step(e)),
            },
            (
                InitializeFilesystem::IdentifyingBucket { plan, object_store, db_path },
                InitEvent::BucketIdentified(identified),
            ) => match identified {
                Ok(bucket_directory) => if plan.read_only {
                    (
                        InitializeFilesystem::ValidatingPassword {
                            plan,
                            object_store,
                            db_path,
                            bucket_directory,
                        },
                        Some(
                            InitActionView::ValidatePassword { password: plan.encryption_password@ },
                        ),
                    )
                } else {
                    (
                        InitializeFilesystem::CheckingCompatibility {
                            plan,
                            object_store,
                            db_path,
                            bucket_directory,
                        },
                        Some(InitActionView::CheckCompatibility { db_path: db_path@ }),
                    )
                },
                Err(e) => failed(InitError::Step(e)),
            },
            (
                InitializeFilesystem::CheckingCompatibility {
                    plan,
                    object_store,
                    db_path,
                    bucket_directory,
                },
                InitEvent::CompatibilityChecked(checked),
            ) => match checked {
                Ok(_) => (
                    InitializeFilesystem::ValidatingPassword {
                        plan,
                        object_store,
                        db_path,
                        bucket_directory,
                    },
                    Some(InitActionView::ValidatePassword { password: plan.encryption_password@ }),
                ),
                Err(e) => failed(InitError::Step(e)),
            },
            (
                InitializeFilesystem::ValidatingPassword {
                    plan,
                    object_store,
                    db_path,
                    bucket_directory,
                },
                InitEvent::PasswordValidated(validated),
            ) => match validated {
                Ok(_) => (
                    InitializeFilesystem::BuildingSlatedb {
                        encryption_password: plan.encryption_password,
                        max_bytes: plan.max_bytes,
                    },
                    Some(
                        InitActionView::BuildSlatedb {
                            object_store,
                            cache: cache_of_bucket(plan.cache, bucket_directory@),
                            db_path: db_path@,
                            read_only: plan.read_only,
                            lsm: plan.lsm,
                        },
                    ),
                ),
                Err(reason) => failed(InitError::PasswordRejected { reason }),
            },
            (
                InitializeFilesystem::BuildingSlatedb { encryption_password, max_bytes },
                InitEvent::SlatedbBuilt(built),
            ) => match built {
                Ok((slatedb, refresh)) => (
                    InitializeFilesystem::LoadingKey { max_bytes, slatedb, refresh },
                    Some(InitActionView::LoadKey { password: encryption_password@ }),
                ),
                Err(e) => failed(InitError::Step(e)),
            },
            (
                InitializeFilesystem::LoadingKey { max_bytes, slatedb, refresh },
                InitEvent::KeyLoaded(loaded),
            ) => match loaded {
                Ok(key) => (
                    InitializeFilesystem::CreatingFilesystem { refresh },
                    Some(InitActionView::CreateFilesystem { slatedb, key, max_bytes }),
                ),
                Err(e) => failed(InitError::Step(e)),
            },
            (
                InitializeFilesystem::CreatingFilesystem { refresh },
                InitEvent::FilesystemCreated(created),
            ) => match created {
                Ok(fs) => (
                    InitializeFilesystem::Finished,
                    Some(InitActionView::Finish(Ok((fs, refresh)))),
                ),
                Err(e) => failed(InitError::Step(e)),
            },
            _ => (self, None),
        }
    }

    fn step(self, event: InitEvent<S, H, P, K, F, E>) -> (out: (
        Self,
        Option<InitAction<S, H, P, K, F, E>>,
    )) {
        match (self, event) {
            (
                InitializeFilesystem::OpeningObjectStore { plan },
                InitEvent::ObjectStoreOpened(opened),
            ) => match opened {
                Ok((object_store, db_path)) => {
                    let action = InitAction::IdentifyBucket { db_path: db_path.clone() };
                    (
                        InitializeFilesystem::IdentifyingBucket { plan, object_store, db_path },
                        Some(action),
                    )
                },
                Err(e) => fail(InitError::Step(e)),
            },
            (
                InitializeFilesystem::IdentifyingBucket { plan, object_store, db_path },
                InitEvent::BucketIdentified(identified),
            ) => match identified {
                Ok(bucket_directory) => if plan.read_only {
                    let password = plan.encryption_password.clone();
                    (
                        InitializeFilesystem::ValidatingPassword {
                            plan,
                            object_store,
                            db_path,
                            bucket_directory,
                        },
                        Some(InitAction::ValidatePassword { password }),
                    )
                } else {
                    let action = InitAction::CheckCompatibility { db_path: db_path.clone() };
                    (
                        InitializeFilesystem::CheckingCompatibility {
                            plan,
                            object_store,
                            db_path,
                            bucket_directory,
                        },
                        Some(action),
                    )
                },
                Err(e) => fail(InitError::Step(e)),
            },
            (
                InitializeFilesystem::CheckingCompatibility {
                    plan,
                    object_store,
                    db_path,
                    bucket_directory,
                },
                InitEvent::CompatibilityChecked(checked),
            ) => match checked {
                Ok(_) => {
                    let password = plan.encryption_password.clone();
                    (
                        InitializeFilesystem::ValidatingPassword {
                            plan,
                            object_store,
                            db_path,
                            bucket_directory,
                        },
                        Some(InitAction::ValidatePassword { password }),
                    )
                },
                Err(e) => fail(InitError::Step(e)),
            },
            (
                InitializeFilesystem::ValidatingPassword {
                    plan,
                    object_store,
                    db_path,
                    bucket_directory,
                },
                InitEvent::PasswordValidated(validated),
            ) => match validated {
                Ok(_) => {
                    let cache = bucket_cache(plan.cache, bucket_directory.as_str());
                    (
                        InitializeFilesystem::BuildingSlatedb {
                            encryption_password: plan.encryption_password,
                            max_bytes: plan.max_bytes,
                        },
                        Some(
                            InitAction::BuildSlatedb {
                                object_store,
                                cache,
                                db_path,
                                read_only: plan.read_only,
                                lsm: plan.lsm,
                            },
                        ),
                    )
                },
                Err(reason) => fail(InitError::PasswordRejected { reason }),
            },
            (
                InitializeFilesystem::BuildingSlatedb { encryption_password, max_bytes },
                InitEvent::SlatedbBuilt(built),
            ) => match built {
                Ok((slatedb, refresh)) => (
                    InitializeFilesystem::LoadingKey { max_bytes, slatedb, refresh },
                    Some(InitAction::LoadKey { password: encryption_password }),
                ),
                Err(e) => fail(InitError::Step(e)),
            },
            (
                InitializeFilesystem::LoadingKey { max_bytes, slatedb, refresh },
                InitEvent::KeyLoaded(loaded),
            ) => match loaded {
                Ok(key) => (
                    InitializeFilesystem::CreatingFilesystem { refresh },
                    Some(InitAction::CreateFilesystem { slatedb, key, max_bytes }),
                ),
                Err(e) => fail(InitError::Step(e)),
            },
            (
                InitializeFilesystem::CreatingFilesystem { refresh },
                InitEvent::FilesystemCreated(created),
            ) => match created {
                Ok(fs) => (
                    InitializeFilesystem::Finished,
                    Some(InitAction::Finish(Ok((fs, refresh)))),
                ),
                Err(e) => fail(InitError::Step(e)),
            },
            (unmoved, _) => (unmoved, None),
        }
    }
}

fn fail<S, H, P, K, F, E>(e: InitError<E>) -> (out: (
    InitializeFilesystem<S, H, P>,
    Option<InitAction<S, H, P, K, F, E>>,
))
    ensures
        out.0 is Finished,
        out.1 == Some(InitAction::<S, H, P, K, F, E>::Finish(Err(e))),
{
    (InitializeFilesystem::Finished, Some(InitAction::Finish(Err(e))))
}

/// The limit in force: that configured, or else the default.
pub open spec fn effective_max_bytes(configured: Option<u64>, default: u64) -> u64 {
    match configured {
        Some(max_bytes) => max_bytes,
        None => default,
    }
}

/// Begins to bring up the file system that the settings describe.
pub fn initialize_filesystem<S, H, P, K, F, E>(
    settings: Settings,
    read_only: bool,
    default_max_bytes: u64,
) -> (out: (InitializeFilesystem<S, H, P>, InitAction<S, H, P, K, F, E>))
    ensures
        out.0 == (InitializeFilesystem::<S, H, P>::OpeningObjectStore {
            plan: InitPlan {
                read_only,
                encryption_password: settings.encryption_password,
                cache: settings.cache,
                lsm: settings.lsm,
                max_bytes: effective_max_bytes(settings.max_bytes, default_max_bytes),
            },
        }),
        out.1@ == (InitActionView::<S, H, P, K, F, E>::OpenObjectStore {
            url: settings.url@,
            options: store_options(settings),
        }),
        out.0 matches InitializeFilesystem::OpeningObjectStore { plan } && {
            &&& plan.read_only == read_only
            &&& plan.encryption_password@ == settings.encryption_password@
            &&& plan.cache == settings.cache
            &&& plan.lsm == settings.lsm
            &&& settings.max_bytes matches Some(max_bytes) ==> plan.max_bytes == max_bytes
            &&& settings.max_bytes is None ==> plan.max_bytes == default_max_bytes
        },
        out.1 matches InitAction::OpenObjectStore { url, options } && url@ == settings.url@
            && option_views(options@) == store_options(settings),
{
    let options = object_store_options(&settings);
    let max_bytes: u64 = match settings.max_bytes {
        Some(max_bytes) => max_bytes,
        None => default_max_bytes,
    };
    let plan = InitPlan {
        read_only,
        encryption_password: settings.encryption_password,
        cache: settings.cache,
        lsm: settings.lsm,
        max_bytes,
    };
    (
        InitializeFilesystem::OpeningObjectStore { plan },
        InitAction::OpenObjectStore { url: settings.url, options },
    )
}

impl<S, H, P> InitializeFilesystem<S, H, P> {
    /// Whether an event answers what is waited for.
    pub open spec fn awaits<K, F, E>(self, event: InitEvent<S, H, P, K, F, E>) -> bool {
        match self {
            InitializeFilesystem::OpeningObjectStore { .. } => event is ObjectStoreOpened,
            InitializeFilesystem::IdentifyingBucket { .. } => event is BucketIdentified,
            InitializeFilesystem::CheckingCompatibility { .. } => event is CompatibilityChecked,
            InitializeFilesystem::ValidatingPassword { .. } => event is PasswordValidated,
            InitializeFilesystem::BuildingSlatedb { .. } => event is SlatedbBuilt,
            InitializeFilesystem::LoadingKey { .. } => event is KeyLoaded,
            InitializeFilesystem::CreatingFilesystem { .. } => event is FilesystemCreated,
            InitializeFilesystem::Finished => false,
        }
    }

    /// How many answers it takes at most until the outcome is known.
    pub open spec fn answers_left(self) -> nat {
        match self {
            InitializeFilesystem::OpeningObjectStore { .. } => 7,
            InitializeFilesystem::IdentifyingBucket { .. } => 6,
            InitializeFilesystem::CheckingCompatibility { .. } => 5,
            InitializeFilesystem::ValidatingPassword { .. } => 4,
            InitializeFilesystem::BuildingSlatedb { .. } => 3,
            InitializeFilesystem::LoadingKey { .. } => 2,
            InitializeFilesystem::CreatingFilesystem { .. } => 1,
            InitializeFilesystem::Finished => 0,
        }
    }
}

/// The error that an event reports, if it reports one.
pub open spec fn init_failure<S, H, P, K, F, E>(event: InitEvent<S, H, P, K, F, E>) -> Option<
    InitError<E>,
> {
    match event {
        InitEvent::ObjectStoreOpened(Err(e)) => Some(InitError::Step(e)),
        InitEvent::BucketIdentified(Err(e)) => Some(InitError::Step(e)),
        InitEvent::CompatibilityChecked(Err(e)) => Some(InitError::Step(e)),
        InitEvent::PasswordValidated(Err(reason)) => Some(InitError::PasswordRejected { reason }),
        InitEvent::SlatedbBuilt(Err(e)) => Some(InitError::Step(e)),
        InitEvent::KeyLoaded(Err(e)) => Some(InitError::Step(e)),
        InitEvent::FilesystemCreated(Err(e)) => Some(InitError::Step(e)),
        _ => None,
    }
}

/// Every answer brings the start-up nearer to its outcome, and a failure ends it
/// with the error that was reported. Any other event changes nothing.
pub proof fn start_up_moves_on_exactly_when_answered<S, H, P, K, F, E>(
    init: InitializeFilesystem<S, H, P>,
    event: InitEvent<S, H, P, K, F, E>,
)
    ensures
        ({
            let (after, action): (_, Option<InitActionView<S, H, P, K, F, E>>) = Machine::<
                _,
                InitAction<S, H, P, K, F, E>,
            >::next(init, event);
            &&& init.awaits(event) ==> {
                &&& action is Some
                &&& after.answers_left() < init.answers_left()
                &&& init_failure(event) matches Some(e) ==> after is Finished && action == Some(
                    InitActionView::<S, H, P, K, F, E>::Finish(Err(e)),
                )
            }
            &&& !init.awaits(event) ==> after == init && action is None
        }),
{
}

/// The outcome of a start-up is handed out at its end, and only there.
pub proof fn start_up_hands_out_one_outcome<S, H, P, K, F, E>(
    start: InitializeFilesystem<S, H, P>,
    events: Seq<InitEvent<S, H, P, K, F, E>>,
)
    requires
        start is OpeningObjectStore,
    ensures
        ({
            let (end, actions) = trace::<_, InitAction<S, H, P, K, F, E>, _>(start, events);
            &&& end is Finished <==> actions.len() > 0 && actions.last() is Finish
            &&& forall|i: int| 0 <= i < actions.len() - 1 ==> !(#[trigger] actions[i] is Finish)
        }),
{
    let inv = |
        past: Seq<InitEvent<S, H, P, K, F, E>>,
        at: (InitializeFilesystem<S, H, P>, Seq<InitActionView<S, H, P, K, F, E>>),
    |
        {
            &&& at.0 is Finished <==> at.1.len() > 0 && at.1.last() is Finish
            &&& forall|i: int| 0 <= i < at.1.len() - 1 ==> !(#[trigger] at.1[i] is Finish)
        };
    invariant_holds_on_every_trace::<_, InitAction<S, H, P, K, F, E>, _>(start, events, inv);
}

/// The place of an action in a start-up.
pub open spec fn init_place<S, H, P, K, F, E>(action: InitActionView<S, H, P, K, F, E>) -> nat {
    match action {
        InitActionView::OpenObjectStore { .. } => 0,
        InitActionView::IdentifyBucket { .. } => 1,
        InitActionView::CheckCompatibility { .. } => 2,
        InitActionView::ValidatePassword { .. } => 3,
        InitActionView::BuildSlatedb { .. } => 4,
        InitActionView::LoadKey { .. } => 5,
        InitActionView::CreateFilesystem { .. } => 6,
        InitActionView::Finish(_) => 7,
    }
}

/// The actions of a start-up come in order, none of them twice.
pub proof fn start_up_acts_in_order<S, H, P, K, F, E>(
    plan: InitPlan,
    events: Seq<InitEvent<S, H, P, K, F, E>>,
)
    ensures
        ({
            let actions = trace::<_, InitAction<S, H, P, K, F, E>, _>(
                InitializeFilesystem::<S, H, P>::OpeningObjectStore { plan },
                events,
            ).1;
            forall|i: int, j: int|
                0 <= i < j < actions.len() ==> init_place(#[trigger] actions[i]) < init_place(
                    #[trigger] actions[j],
                )
        }),
{
    let inv = |
        past: Seq<InitEvent<S, H, P, K, F, E>>,
        at: (InitializeFilesystem<S, H, P>, Seq<InitActionView<S, H, P, K, F, E>>),
    |
        {
            &&& forall|i: int|
                0 <= i < at.1.len() ==> init_place(#[trigger] at.1[i]) + at.0.answers_left() <= 7
            &&& forall|i: int, j: int|
                0 <= i < j < at.1.len() ==> init_place(#[trigger] at.1[i]) < init_place(
                    #[trigger] at.1[j],
                )
        };
    invariant_holds_on_every_trace::<_, InitAction<S, H, P, K, F, E>, _>(
        InitializeFilesystem::<S, H, P>::OpeningObjectStore { plan },
        events,
        inv,
    );
}

/// Whether the events so far allow the database to be opened: the password was
/// accepted and, unless nothing will be written, the object store was found
/// compatible.
pub open spec fn may_open_database<S, H, P, K, F, E>(
    plan: InitPlan,
    events: Seq<InitEvent<S, H, P, K, F, E>>,
) -> bool {
    &&& events.contains(InitEvent::PasswordValidated(Ok(())))
    &&& !plan.read_only ==> events.contains(InitEvent::CompatibilityChecked(Ok(())))
}

/// Whether an object store was opened, with the database at `db_path`.
pub open spec fn store_was_opened<S, H, P, K, F, E>(
    events: Seq<InitEvent<S, H, P, K, F, E>>,
    object_store: S,
    db_path: Seq<char>,
) -> bool {
    exists|path: String|
        path@ == db_path && #[trigger] events.contains(
            InitEvent::ObjectStoreOpened(Ok((object_store, path))),
        )
}

/// Whether an object store was opened that names `db_path` for the database.
pub open spec fn path_was_named<S, H, P, K, F, E>(
    events: Seq<InitEvent<S, H, P, K, F, E>>,
    db_path: Seq<char>,
) -> bool {
    exists|object_store: S| #[trigger] store_was_opened(events, object_store, db_path)
}

/// Whether `cache` is the cache of a bucket that was identified.
pub open spec fn is_cache_of_the_bucket<S, H, P, K, F, E>(
    plan: InitPlan,
    events: Seq<InitEvent<S, H, P, K, F, E>>,
    cache: CacheConfigView,
) -> bool {
    exists|directory: String|
        cache == cache_of_bucket(plan.cache, directory@) && #[trigger] events.contains(
            InitEvent::BucketIdentified(Ok(directory)),
        )
}

/// Whether a database was opened.
pub open spec fn database_was_built<S, H, P, K, F, E>(
    events: Seq<InitEvent<S, H, P, K, F, E>>,
    slatedb: H,
) -> bool {
    exists|refresh: P| #[trigger]
        events.contains(InitEvent::SlatedbBuilt(Ok((slatedb, refresh))))
}

/// Whether `refresh` came with a database that was opened.
pub open spec fn came_with_the_database<S, H, P, K, F, E>(
    events: Seq<InitEvent<S, H, P, K, F, E>>,
    refresh: P,
) -> bool {
    exists|slatedb: H| #[trigger]
        events.contains(InitEvent::SlatedbBuilt(Ok((slatedb, refresh))))
}

/// Whether the action at place `i` keeps to a plan: nothing of the database is
/// touched before it may be, a read-only start-up makes no compatibility check, the
/// mode, the password and the limits are those of the plan, and each step follows
/// the one that it needs and works on what came of the steps before.
pub open spec fn action_keeps_to_plan<S, H, P, K, F, E>(
    plan: InitPlan,
    events: Seq<InitEvent<S, H, P, K, F, E>>,
    actions: Seq<InitActionView<S, H, P, K, F, E>>,
    i: int,
) -> bool {
    match actions[i] {
        InitActionView::OpenObjectStore { .. } => false,
        InitActionView::IdentifyBucket { db_path } => path_was_named(events, db_path),
        InitActionView::CheckCompatibility { db_path } => {
            !plan.read_only && path_was_named(events, db_path)
        },
        InitActionView::ValidatePassword { password } => password == plan.encryption_password@,
        InitActionView::BuildSlatedb { object_store, cache, db_path, read_only, lsm } => {
            &&& i > 0 && actions[i - 1] is ValidatePassword
            &&& !plan.read_only ==> i > 1 && actions[i - 2] is CheckCompatibility
            &&& may_open_database(plan, events)
            &&& store_was_opened(events, object_store, db_path)
            &&& is_cache_of_the_bucket(plan, events, cache)
            &&& read_only == plan.read_only
            &&& lsm == plan.lsm
        },
        InitActionView::LoadKey { password } => {
            &&& i > 0 && actions[i - 1] is BuildSlatedb
            &&& may_open_database(plan, events)
            &&& password == plan.encryption_password@
        },
        InitActionView::CreateFilesystem { slatedb, key, max_bytes } => {
            &&& i > 0 && actions[i - 1] is LoadKey
            &&& may_open_database(plan, events)
            &&& database_was_built(events, slatedb)
            &&& events.contains(InitEvent::KeyLoaded(Ok(key)))
            &&& max_bytes == plan.max_bytes
        },
        InitActionView::Finish(Ok((fs, refresh))) => {
            &&& i > 0 && actions[i - 1] is CreateFilesystem
            &&& may_open_database(plan, events)
            &&& events.contains(InitEvent::FilesystemCreated(Ok(fs)))
            &&& came_with_the_database(events, refresh)
        },
        InitActionView::Finish(Err(_)) => true,
    }
}

/// Whether all actions keep to a plan.
pub open spec fn keeps_to_plan<S, H, P, K, F, E>(
    plan: InitPlan,
    events: Seq<InitEvent<S, H, P, K, F, E>>,
    actions: Seq<InitActionView<S, H, P, K, F, E>>,
) -> bool {
    forall|i: int|
        0 <= i < actions.len() ==> #[trigger] action_keeps_to_plan(plan, events, actions, i)
}

/// Whether a state fits what happened before it, and every action so far kept to
/// the plan.
spec fn is_on_plan<S, H, P, K, F, E>(
    plan: InitPlan,
    past: Seq<InitEvent<S, H, P, K, F, E>>,
    at: (InitializeFilesystem<S, H, P>, Seq<InitActionView<S, H, P, K, F, E>>),
) -> bool {
    &&& keeps_to_plan(plan, past, at.1)
    &&& match at.0 {
        InitializeFilesystem::OpeningObjectStore { plan: p } => p == plan,
        InitializeFilesystem::IdentifyingBucket { plan: p, object_store, db_path } => {
            &&& p == plan
            &&& past.contains(InitEvent::ObjectStoreOpened(Ok((object_store, db_path))))
        },
        InitializeFilesystem::CheckingCompatibility {
            plan: p,
            object_store,
            db_path,
            bucket_directory,
        } => {
            &&& p == plan && !plan.read_only
            &&& at.1.len() > 0 && at.1.last() is CheckCompatibility
            &&& past.contains(InitEvent::ObjectStoreOpened(Ok((object_store, db_path))))
            &&& past.contains(InitEvent::BucketIdentified(Ok(bucket_directory)))
        },
        InitializeFilesystem::ValidatingPassword {
            plan: p,
            object_store,
            db_path,
            bucket_directory,
        } => {
            &&& p == plan
            &&& at.1.len() > 0 && at.1.last() is ValidatePassword
            &&& !plan.read_only ==> at.1.len() > 1 && at.1[at.1.len() - 2] is CheckCompatibility
            &&& past.contains(InitEvent::ObjectStoreOpened(Ok((object_store, db_path))))
            &&& past.contains(InitEvent::BucketIdentified(Ok(bucket_directory)))
            &&& !plan.read_only ==> past.contains(InitEvent::CompatibilityChecked(Ok(())))
        },
        InitializeFilesystem::BuildingSlatedb { encryption_password, max_bytes } => {
            &&& may_open_database(plan, past)
            &&& at.1.len() > 0 && at.1.last() is BuildSlatedb
            &&& encryption_password == plan.encryption_password
            &&& max_bytes == plan.max_bytes
        },
        InitializeFilesystem::LoadingKey { max_bytes, slatedb, refresh } => {
            &&& may_open_database(plan, past)
            &&& at.1.len() > 0 && at.1.last() is LoadKey
            &&& max_bytes == plan.max_bytes
            &&& past.contains(InitEvent::SlatedbBuilt(Ok((slatedb, refresh))))
        },
        InitializeFilesystem::CreatingFilesystem { refresh } => {
            &&& may_open_database(plan, past)
            &&& at.1.len() > 0 && at.1.last() is CreateFilesystem
            &&& came_with_the_database(past, refresh)
        },
        InitializeFilesystem::Finished => true,
    }
}

proof fn lemma_plan_stays_kept<S, H, P, K, F, E>(
    plan: InitPlan,
    past: Seq<InitEvent<S, H, P, K, F, E>>,
    event: InitEvent<S, H, P, K, F, E>,
    actions: Seq<InitActionView<S, H, P, K, F, E>>,
)
    requires
        keeps_to_plan(plan, past, actions),
    ensures
        keeps_to_plan(plan, past.push(event), actions),
{
    let now = past.push(event);
    lemma_push_contains(past, event);
    assert forall|object_store: S, db_path: Seq<char>| #[trigger]
        store_was_opened(past, object_store, db_path) implies store_was_opened(
        now,
        object_store,
        db_path,
    ) by {}
    assert forall|i: int| 0 <= i < actions.len() implies #[trigger] action_keeps_to_plan(
        plan,
        now,
        actions,
        i,
    ) by {
        assert(action_keeps_to_plan(plan, past, actions, i));
    }
}

proof fn lemma_plan_is_extended<S, H, P, K, F, E>(
    plan: InitPlan,
    events: Seq<InitEvent<S, H, P, K, F, E>>,
    actions: Seq<InitActionView<S, H, P, K, F, E>>,
    action: InitActionView<S, H, P, K, F, E>,
)
    requires
        keeps_to_plan(plan, events, actions),
        action_keeps_to_plan(plan, events, actions.push(action), actions.len() as int),
    ensures
        keeps_to_plan(plan, events, actions.push(action)),
{
    assert forall|i: int| 0 <= i < actions.len() implies #[trigger] action_keeps_to_plan(
        plan,
        events,
        actions.push(action),
        i,
    ) by {
        assert(action_keeps_to_plan(plan, events, actions, i));
    }
}

proof fn lemma_step_stays_on_plan<S, H, P, K, F, E>(
    plan: InitPlan,
    past: Seq<InitEvent<S, H, P, K, F, E>>,
    at: (InitializeFilesystem<S, H, P>, Seq<InitActionView<S, H, P, K, F, E>>),
    event: InitEvent<S, H, P, K, F, E>,
)
    requires
        is_on_plan(plan, past, at),
    ensures
        is_on_plan(
            plan,
            past.push(event),
            advance::<_, InitAction<S, H, P, K, F, E>, _>(at, event),
        ),
{
    let now = past.push(event);
    let (after, action): (_, Option<InitActionView<S, H, P, K, F, E>>) = Machine::<
        _,
        InitAction<S, H, P, K, F, E>,
    >::next(at.0, event);
    lemma_push_contains(past, event);
    lemma_plan_stays_kept(plan, past, event, at.1);
    match event {
        InitEvent::ObjectStoreOpened(Ok((object_store, path))) => {
            assert(now.contains(InitEvent::ObjectStoreOpened(Ok((object_store, path)))));
            assert(store_was_opened(now, object_store, path@));
        },
        InitEvent::CompatibilityChecked(Ok(done)) => assert(done == ()),
        InitEvent::PasswordValidated(Ok(done)) => assert(done == ()),
        _ => {},
    }
    if let InitializeFilesystem::IdentifyingBucket { object_store, db_path, .. } = at.0 {
        assert(store_was_opened(now, object_store, db_path@));
    }
    if let Some(a) = action {
        assert(action_keeps_to_plan(plan, now, at.1.push(a), at.1.len() as int));
        lemma_plan_is_extended(plan, now, at.1, a);
    }
}

/// A start-up keeps to its plan, whatever its steps report: in particular the
/// database is opened, and a file system handed out, only after the password was
/// accepted and, unless the server is read-only, the object store was found
/// compatible.
pub proof fn start_up_keeps_to_its_plan<S, H, P, K, F, E>(
    plan: InitPlan,
    events: Seq<InitEvent<S, H, P, K, F, E>>,
)
    ensures
        keeps_to_plan(
            plan,
            events,
            trace::<_, InitAction<S, H, P, K, F, E>, _>(
                InitializeFilesystem::<S, H, P>::OpeningObjectStore { plan },
                events,
            ).1,
        ),
{
    let start = InitializeFilesystem::<S, H, P>::OpeningObjectStore { plan };
    let inv = |
        past: Seq<InitEvent<S, H, P, K, F, E>>,
        at: (InitializeFilesystem<S, H, P>, Seq<InitActionView<S, H, P, K, F, E>>),
    | is_on_plan(plan, past, at);
    assert forall|
        past: Seq<InitEvent<S, H, P, K, F, E>>,
        at: (InitializeFilesystem<S, H, P>, Seq<InitActionView<S, H, P, K, F, E>>),
        event: InitEvent<S, H, P, K, F, E>,
    | inv(past, at) implies inv(
        #[trigger] past.push(event),
        #[trigger] advance::<_, InitAction<S, H, P, K, F, E>, _>(at, event),
    ) by {
        lemma_step_stays_on_plan(plan, past, at, event);
    }
    invariant_holds_on_every_trace::<_, InitAction<S, H, P, K, F, E>, _>(start, events, inv);
}

/// The limit on the file system is the configured one, whatever that is, and the
/// default where none is configured.
pub proof fn limit_is_the_configured_one(max_bytes: u64, default: u64)
    ensures
        effective_max_bytes(Some(max_bytes), default) == max_bytes,
        effective_max_bytes(None, default) == default,
{
}

/// What is seen of an action is all that it holds.
pub proof fn init_action_shows_all_it_holds<S, H, P, K, F, E>(action: InitAction<S, H, P, K, F, E>)
    ensures
        match action {
            InitAction::OpenObjectStore { url, options } => {
                &&& action@ matches InitActionView::OpenObjectStore { url: seen, options: listed }
                &&& seen == url@
                &&& listed.len() == options@.len()
                &&& forall|i: int|
                    0 <= i < options@.len() ==> (#[trigger] listed[i]).0 == options@[i].0@
                        && listed[i].1 == options@[i].1@
            },
            InitAction::IdentifyBucket { db_path } => action@ == (InitActionView::<S, H, P, K, F, E>::IdentifyBucket {
                db_path: db_path@,
            }),
            InitAction::CheckCompatibility { db_path } => {
                action@ == (InitActionView::<S, H, P, K, F, E>::CheckCompatibility { db_path: db_path@ })
            },
            InitAction::ValidatePassword { password } => {
                action@ == (InitActionView::<S, H, P, K, F, E>::ValidatePassword { password: password@ })
            },
            InitAction::BuildSlatedb { object_store, cache, db_path, read_only, lsm } => {
                action@ == (InitActionView::<S, H, P, K, F, E>::BuildSlatedb {
                    object_store,
                    cache: CacheConfigView {
                        root_folder: cache.root_folder@,
                        max_cache_size_bytes: cache.max_cache_size_bytes,
                        memory_cache_size_bytes: cache.memory_cache_size_bytes,
                    },
                    db_path: db_path@,
                    read_only,
                    lsm,
                })
            },
            InitAction::LoadKey { password } => {
                action@ == (InitActionView::<S, H, P, K, F, E>::LoadKey { password: password@ })
            },
            InitAction::CreateFilesystem { slatedb, key, max_bytes } => {
                action@ == (InitActionView::<S, H, P, K, F, E>::CreateFilesystem { slatedb, key, max_bytes })
            },
            InitAction::Finish(outcome) => action@ == InitActionView::<S, H, P, K, F, E>::Finish(outcome),
        },
{
}

/// A whole start-up, whatever its steps report. As long as they succeed: the bucket of
/// the path that was named is identified; unless the server is read-only, the object
/// store is checked; the password of the settings is validated; the database is opened
/// at that path in that store, in the bucket's directory of the cache, with the sizes,
/// the mode and the limits of the plan; its key is loaded with the same password; the
/// file system is created on that database with that key and the limit of the plan; and
/// it comes out with what came with the database. The first step that fails is the end,
/// with its own error.
pub proof fn start_up_goes_through_unless_a_step_fails<S, H, P, K, F, E>(
    plan: InitPlan,
    opened: Result<(S, String), E>,
    identified: Result<String, E>,
    checked: Result<(), E>,
    validated: Result<(), String>,
    built: Result<(H, P), E>,
    loaded: Result<K, E>,
    created: Result<F, E>,
)
    ensures
        ({
            let (end, actions) = trace::<_, InitAction<S, H, P, K, F, E>, _>(
                InitializeFilesystem::<S, H, P>::OpeningObjectStore { plan },
                seq![
                    InitEvent::ObjectStoreOpened(opened),
                    InitEvent::BucketIdentified(identified),
                    InitEvent::CompatibilityChecked(checked),
                    InitEvent::PasswordValidated(validated),
                    InitEvent::SlatedbBuilt(built),
                    InitEvent::KeyLoaded(loaded),
                    InitEvent::FilesystemCreated(created),
                ],
            );
            // Places behind the check, which a read-only start-up leaves out.
            let n: int = if plan.read_only {
                1
            } else {
                2
            };
            &&& end is Finished
            &&& match opened {
                Err(e) => actions =~= seq![InitActionView::<S, H, P, K, F, E>::Finish(Err(InitError::Step(e)))],
                Ok((object_store, path)) => {
                    &&& actions.len() >= 2
                    &&& actions[0] == (InitActionView::<S, H, P, K, F, E>::IdentifyBucket { db_path: path@ })
                    &&& match identified {
                        Err(e) => actions.len() == 2 && actions[1] == InitActionView::<S, H, P, K, F, E>::Finish(
                            Err(InitError::Step(e)),
                        ),
                        Ok(directory) => {
                            &&& !plan.read_only ==> actions[1] == (InitActionView::<S, H, P, K, F, E>::CheckCompatibility {
                                db_path: path@,
                            })
                            &&& if !plan.read_only && checked is Err {
                                actions.len() == 3 && actions[2] == InitActionView::<S, H, P, K, F, E>::Finish(
                                    Err(InitError::Step(checked->Err_0)),
                                )
                            } else {
                                &&& actions.len() >= n + 2
                                &&& actions[n] == (InitActionView::<S, H, P, K, F, E>::ValidatePassword {
                                    password: plan.encryption_password@,
                                })
                                &&& match validated {
                                    Err(reason) => actions.len() == n + 2 && actions[n + 1]
                                        == InitActionView::<S, H, P, K, F, E>::Finish(
                                        Err(InitError::PasswordRejected { reason }),
                                    ),
                                    Ok(_) => {
                                        &&& actions.len() >= n + 3
                                        &&& actions[n + 1] == (InitActionView::<S, H, P, K, F, E>::BuildSlatedb {
                                            object_store,
                                            cache: CacheConfigView {
                                                root_folder: plan.cache.root_folder@ + "/"@
                                                    + directory@,
                                                max_cache_size_bytes: plan.cache.max_cache_size_bytes,
                                                memory_cache_size_bytes:
                                                    plan.cache.memory_cache_size_bytes,
                                            },
                                            db_path: path@,
                                            read_only: plan.read_only,
                                            lsm: plan.lsm,
                                        })
                                        &&& match built {
                                            Err(e) => actions.len() == n + 3 && actions[n + 2]
                                                == InitActionView::<S, H, P, K, F, E>::Finish(Err(InitError::Step(e))),
                                            Ok((slatedb, refresh)) => {
                                                &&& actions.len() >= n + 4
                                                &&& actions[n + 2] == (InitActionView::<S, H, P, K, F, E>::LoadKey {
                                                    password: plan.encryption_password@,
                                                })
                                                &&& match loaded {
                                                    Err(e) => actions.len() == n + 4 && actions[n + 3]
                                                        == InitActionView::<S, H, P, K, F, E>::Finish(Err(InitError::Step(e))),
                                                    Ok(key) => {
                                                        &&& actions.len() == n + 5
                                                        &&& actions[n + 3] == (InitActionView::<S, H, P, K, F, E>::CreateFilesystem {
                                                            slatedb,
                                                            key,
                                                            max_bytes: plan.max_bytes,
                                                        })
                                                        &&& created matches Err(e) ==> actions[n + 4]
                                                            == InitActionView::<S, H, P, K, F, E>::Finish(Err(InitError::Step(e)))
                                                        &&& created matches Ok(fs) ==> actions[n + 4]
                                                            == InitActionView::<S, H, P, K, F, E>::Finish(Ok((fs, refresh)))
                                                    },
                                                }
                                            },
                                        }
                                    },
                                }
                            }
                        },
                    }
                },
            }
        }),
{
    let start = InitializeFilesystem::<S, H, P>::OpeningObjectStore { plan };
    let none = Seq::<InitEvent<S, H, P, K, F, E>>::empty();
    let one = none.push(InitEvent::ObjectStoreOpened(opened));
    let two = one.push(InitEvent::BucketIdentified(identified));
    let three = two.push(InitEvent::CompatibilityChecked(checked));
    let four = three.push(InitEvent::PasswordValidated(validated));
    let five = four.push(InitEvent::SlatedbBuilt(built));
    let six = five.push(InitEvent::KeyLoaded(loaded));
    trace_goes_on_event_by_event::<_, InitAction<S, H, P, K, F, E>, _>(
        start,
        none,
        InitEvent::ObjectStoreOpened(opened),
    );
    trace_goes_on_event_by_event::<_, InitAction<S, H, P, K, F, E>, _>(
        start,
        one,
        InitEvent::BucketIdentified(identified),
    );
    trace_goes_on_event_by_event::<_, InitAction<S, H, P, K, F, E>, _>(
        start,
        two,
        InitEvent::CompatibilityChecked(checked),
    );
    trace_goes_on_event_by_event::<_, InitAction<S, H, P, K, F, E>, _>(
        start,
        three,
        InitEvent::PasswordValidated(validated),
    );
    trace_goes_on_event_by_event::<_, InitAction<S, H, P, K, F, E>, _>(
        start,
        four,
        InitEvent::SlatedbBuilt(built),
    );
    trace_goes_on_event_by_event::<_, InitAction<S, H, P, K, F, E>, _>(
        start,
        five,
        InitEvent::KeyLoaded(loaded),
    );
    trace_goes_on_event_by_event::<_, InitAction<S, H, P, K, F, E>, _>(
        start,
        six,
        InitEvent::FilesystemCreated(created),
    );
    assert(seq![
        InitEvent::ObjectStoreOpened(opened),
        InitEvent::BucketIdentified(identified),
        InitEvent::CompatibilityChecked(checked),
        InitEvent::PasswordValidated(validated),
        InitEvent::SlatedbBuilt(built),
        InitEvent::KeyLoaded(loaded),
        InitEvent::FilesystemCreated(created),
    ] =~= six.push(InitEvent::FilesystemCreated(created)));
}

/// A start-up ends with an error only if the event that it was just told of reports
/// that error; in particular with a rejected password only if the password was rejected
/// for that reason. It ends well only if a file system was just created. An event that
/// answers nothing that was asked changes nothing.
pub proof fn start_up_fails_only_with_a_reported_error<S, H, P, K, F, E>(
    init: InitializeFilesystem<S, H, P>,
    event: InitEvent<S, H, P, K, F, E>,
)
    ensures
        ({
            let (after, action): (_, Option<InitActionView<S, H, P, K, F, E>>) = Machine::<
                _,
                InitAction<S, H, P, K, F, E>,
            >::next(init, event);
            &&& action matches Some(InitActionView::Finish(Err(InitError::Step(e)))) ==> {
                ||| event == InitEvent::<S, H, P, K, F, E>::ObjectStoreOpened(Err(e))
                ||| event == InitEvent::<S, H, P, K, F, E>::BucketIdentified(Err(e))
                ||| event == InitEvent::<S, H, P, K, F, E>::CompatibilityChecked(Err(e))
                ||| event == InitEvent::<S, H, P, K, F, E>::SlatedbBuilt(Err(e))
                ||| event == InitEvent::<S, H, P, K, F, E>::KeyLoaded(Err(e))
                ||| event == InitEvent::<S, H, P, K, F, E>::FilesystemCreated(Err(e))
            }
            &&& action matches Some(
                InitActionView::Finish(Err(InitError::PasswordRejected { reason })),
            ) ==> event == InitEvent::<S, H, P, K, F, E>::PasswordValidated(Err(reason))
            &&& action matches Some(InitActionView::Finish(Err(e))) ==> init_failure(event) == Some(e)
            &&& action matches Some(InitActionView::Finish(Ok((fs, _)))) ==> event
                == InitEvent::<S, H, P, K, F, E>::FilesystemCreated(Ok(fs))
            &&& !{
                ||| init is OpeningObjectStore && event is ObjectStoreOpened
                ||| init is IdentifyingBucket && event is BucketIdentified
                ||| init is CheckingCompatibility && event is CompatibilityChecked
                ||| init is ValidatingPassword && event is PasswordValidated
                ||| init is BuildingSlatedb && event is SlatedbBuilt
                ||| init is LoadingKey && event is KeyLoaded
                ||| init is CreatingFilesystem && event is FilesystemCreated
            } ==> after == init && action is None
        }),
{
}

} // verus!
