//! The life of a server process: start-up, service, shutdown.

use vstd::prelude::*;
use vstd::string::*;

use crate::config::ServerConfig;
use crate::machine::{
    advance, invariant_holds_on_every_trace, lemma_push_contains, trace,
    trace_goes_on_event_by_event, Machine,
};
use crate::servers::{
    all_servers, as_many_servers_as_endpoints, configured_servers, endpoint_count, server_views, Server,
    ServerView,
};

verus! {

/// The steps of a server process. `A` is a network address, `P` what the refresh
/// of a read-only database needs.
#[derive(Debug, PartialEq, Eq)]
pub enum RunServer<A, P> {
    LoadingSettings { config_path: String, read_only: bool },
    InitializingFilesystem { read_only: bool, servers: ServerConfig<A> },
    EnsuringNbdDirectory { servers: ServerConfig<A>, refresh: Option<P> },
    Launching { read_only: bool, has_servers: bool, refreshing: bool },
    RegisteringTermination { read_only: bool, has_servers: bool, refreshing: bool },
    NotifyingReady { read_only: bool, refreshing: bool },
    Serving { read_only: bool },
    Flushing,
    Closing,
    Finished,
}

/// The signal that asked for a shutdown.
#[derive(Clone, Copy, Debug, PartialEq, Eq, Structural)]
pub enum Signal {
    Interrupt,
    Terminate,
}

/// How a step went.
#[derive(Debug, PartialEq, Eq)]
pub enum RunEvent<A, P, E> {
    SettingsLoaded(Result<ServerConfig<A>, E>),
    FilesystemInitialized(Result<Option<P>, E>),
    NbdDirectoryEnsured(Result<(), E>),
    Launched,
    TerminationRegistered(Result<(), E>),
    ReadyNotified,
    /// A server's task ended: it could not be joined, or it ended with a result.
    ServerStopped(Result<Result<(), E>, E>),
    ShutdownRequested(Signal),
    Flushed(Result<(), E>),
    Closed(Result<(), E>),
}

/// Why a server process ended with an error.
#[derive(Debug, PartialEq, Eq)]
pub enum RunError<E> {
    Settings { config_path: String, cause: E },
    Step(E),
    NoServers,
}

/// A task that runs beside the servers.
#[derive(Debug, PartialEq, Eq)]
pub enum BackgroundTask<P> {
    GarbageCollection,
    Statistics,
    Refresh(P),
}

/// What to do next.
#[derive(Debug, PartialEq, Eq)]
pub enum RunAction<A, P, E> {
    LoadSettings { config_path: String },
    InitializeFilesystem { read_only: bool },
    EnsureNbdDirectory,
    /// Start the servers in order, then the tasks beside them.
    Launch { servers: Vec<Server<A>>, tasks: Vec<BackgroundTask<P>> },
    RegisterTermination,
    NotifyReady,
    /// Wait until a server stops or a signal comes. The end of the reporting of
    /// statistics and of the tasks that are watched is a defect.
    Serve { watch_gc: bool, watch_refresh: bool },
    Flush,
    CloseDb,
    Finish(Result<(), RunError<E>>),
}

/// A [`RunAction`] with sequences in place of texts and vectors.
pub enum RunActionView<A, P, E> {
    LoadSettings { config_path: Seq<char> },
    InitializeFilesystem { read_only: bool },
    EnsureNbdDirectory,
    Launch { servers: Seq<ServerView<A>>, tasks: Seq<BackgroundTask<P>> },
    RegisterTermination,
    NotifyReady,
    Serve { watch_gc: bool, watch_refresh: bool },
    Flush,
    CloseDb,
    Finish(Result<(), RunError<E>>),
}

impl<A, P, E> View for RunAction<A, P, E> {
    type V = RunActionView<A, P, E>;

    open spec fn view(&self) -> RunActionView<A, P, E> {
        match *self {
            RunAction::LoadSettings { config_path } => RunActionView::LoadSettings {
                config_path: config_path@,
            },
            RunAction::InitializeFilesystem { read_only } => {
                RunActionView::InitializeFilesystem { read_only }
            },
            RunAction::EnsureNbdDirectory => RunActionView::EnsureNbdDirectory,
            RunAction::Launch { servers, tasks } => RunActionView::Launch {
                servers: server_views(servers@),
                tasks: tasks@,
            },
            RunAction::RegisterTermination => RunActionView::RegisterTermination,
            RunAction::NotifyReady => RunActionView::NotifyReady,
            RunAction::Serve { watch_gc, watch_refresh } => RunActionView::Serve {
                watch_gc,
                watch_refresh,
            },
            RunAction::Flush => RunActionView::Flush,
            RunAction::CloseDb => RunActionView::CloseDb,
            RunAction::Finish(outcome) => RunActionView::Finish(outcome),
        }
    }
}

impl<E> RunError<E> {
    /// What is said about settings that could not be loaded, and where no server is
    /// configured; nothing for the error of another step, which has its own message.
    pub fn message(&self) -> (message: Option<String>)
        ensures
            match *self {
                RunError::Settings { config_path, .. } => message is Some && message->0@
                    == "Failed to load config from "@ + config_path@,
                RunError::Step(_) => message is None,
                RunError::NoServers => message is Some && message->0@
                    == "No servers configured. At least one server (NFS, 9P, or NBD) must be enabled."@,
            },
    {
        match self {
            RunError::Settings { config_path, .. } => {
                let mut message = String::from_str("Failed to load config from ");
                message.append(config_path.as_str());
                Some(message)
            },
            RunError::Step(_) => None,
            RunError::NoServers => Some(
                String::from_str(
                    "No servers configured. At least one server (NFS, 9P, or NBD) must be enabled.",
                ),
            ),
        }
    }
}

/// The tasks that run beside the servers: garbage collection, statistics and,
/// where there are parameters for it, the refresh.
pub open spec fn background_tasks<P>(refresh: Option<P>) -> Seq<BackgroundTask<P>> {
    match refresh {
        Some(params) => seq![
            BackgroundTask::GarbageCollection,
            BackgroundTask::Statistics,
            BackgroundTask::Refresh(params),
        ],
        None => seq![BackgroundTask::GarbageCollection, BackgroundTask::Statistics],
    }
}

/// The start of all servers of a configuration, and of the tasks beside them.
pub open spec fn launch<A, P, E>(
    read_only: bool,
    servers: ServerConfig<A>,
    refresh: Option<P>,
) -> (RunServer<A, P>, Option<RunActionView<A, P, E>>) {
    (
        RunServer::Launching {
            read_only,
            has_servers: configured_servers(servers).len() > 0,
            refreshing: refresh is Some,
        },
        Some(
            RunActionView::Launch {
                servers: configured_servers(servers),
                tasks: background_tasks(refresh),
            },
        ),
    )
}

/// The end of the process with an outcome.
pub open spec fn end<A, P, E>(outcome: Result<(), RunError<E>>) -> (
    RunServer<A, P>,
    Option<RunActionView<A, P, E>>,
) {
    (RunServer::Finished, Some(RunActionView::Finish(outcome)))
}

/// The outcome of a last step.
pub open spec fn outcome_of<E>(result: Result<(), E>) -> Result<(), RunError<E>> {
    match result {
        Ok(_) => Ok(()),
        Err(e) => Err(RunError::Step(e)),
    }
}

fn launch_servers<A: Copy, P, E>(
    read_only: bool,
    servers: ServerConfig<A>,
    refresh: Option<P>,
) -> (out: (RunServer<A, P>, Option<RunAction<A, P, E>>))
    ensures
        out.0 == launch::<A, P, E>(read_only, servers, refresh).0,
        out.1 is Some,
        Some(out.1->0@) == launch::<A, P, E>(read_only, servers, refresh).1,
{
    let servers = all_servers(&servers);
    let has_servers = servers.len() > 0;
    let refreshing = refresh.is_some();
    let ghost needed = background_tasks(refresh);
    let mut tasks: Vec<BackgroundTask<P>> = Vec::new();
    tasks.push(BackgroundTask::GarbageCollection);
    tasks.push(BackgroundTask::Statistics);
    if let Some(params) = refresh {
        tasks.push(BackgroundTask::Refresh(params));
    }
    assert(tasks@ =~= needed);
    (
        RunServer::Launching { read_only, has_servers, refreshing },
        Some(RunAction::Launch { servers, tasks }),
    )
}

fn finish<A, P, E>(outcome: Result<(), RunError<E>>) -> (out: (
    RunServer<A, P>,
    Option<RunAction<A, P, E>>,
))
    ensures
        out.0 is Finished,
        out.1 == Some(RunAction::<A, P, E>::Finish(outcome)),
{
    (RunServer::Finished, Some(RunAction::Finish(outcome)))
}

impl<A: Copy, P, E> Machine<RunEvent<A, P, E>, RunAction<A, P, E>> for RunServer<A, P> {
    open spec fn next(self, event: RunEvent<A, P, E>) -> (Self, Option<RunActionView<A, P, E>>) {
        match (self, event) {
            (
                RunServer::LoadingSettings { config_path, read_only },
                RunEvent::SettingsLoaded(loaded),
            ) => match loaded {
                Ok(servers) => (
                    RunServer::InitializingFilesystem { read_only, servers },
                    Some(RunActionView::InitializeFilesystem { read_only }),
                ),
                Err(cause) => end(Err(RunError::Settings { config_path, cause })),
            },
            (
                RunServer::InitializingFilesystem { read_only, servers },
                RunEvent::FilesystemInitialized(initialized),
            ) => match initialized {
                Ok(refresh) => if !read_only && servers.nbd is Some {
                    (
                        RunServer::EnsuringNbdDirectory { servers, refresh },
                        Some(RunActionView::EnsureNbdDirectory),
                    )
                } else {
                    launch(read_only, servers, refresh)
                },
                Err(e) => end(Err(RunError::Step(e))),
            },
            (
                RunServer::EnsuringNbdDirectory { servers, refresh },
                RunEvent::NbdDirectoryEnsured(ensured),
            ) => match ensured {
                Ok(_) => launch(false, servers, refresh),
                Err(e) => end(Err(RunError::Step(e))),
            },
            (
                RunServer::Launching { read_only, has_servers, refreshing },
                RunEvent::Launched,
            ) => (
                RunServer::RegisteringTermination { read_only, has_servers, refreshing },
                Some(RunActionView::RegisterTermination),
            ),
            (
                RunServer::RegisteringTermination { read_only, has_servers, refreshing },
                RunEvent::TerminationRegistered(registered),
            ) => match registered {
                Ok(_) => if has_servers {
                    (
                        RunServer::NotifyingReady { read_only, refreshing },
                        Some(RunActionView::NotifyReady),
                    )
                } else {
                    end(Err(RunError::NoServers))
                },
                Err(e) => end(Err(RunError::Step(e))),
            },
            (RunServer::NotifyingReady { read_only, refreshing }, RunEvent::ReadyNotified) => (
                RunServer::Serving { read_only },
                Some(RunActionView::Serve { watch_gc: !read_only, watch_refresh: refreshing }),
            ),
            (RunServer::Serving { .. }, RunEvent::ServerStopped(stopped)) => match stopped {
                Ok(result) => end(outcome_of(result)),
                Err(e) => end(Err(RunError::Step(e))),
            },
            (RunServer::Serving { read_only }, RunEvent::ShutdownRequested(_)) => if read_only {
                (RunServer::Closing, Some(RunActionView::CloseDb))
            } else {
                (RunServer::Flushing, Some(RunActionView::Flush))
            },
            (RunServer::Flushing, RunEvent::Flushed(flushed)) => match flushed {
                Ok(_) => (RunServer::Closing, Some(RunActionView::CloseDb)),
                Err(e) => end(Err(RunError::Step(e))),
            },
            (RunServer::Closing, RunEvent::Closed(closed)) => end(outcome_of(closed)),
            _ => (self, None),
        }
    }

    fn step(self, event: RunEvent<A, P, E>) -> (out: (Self, Option<RunAction<A, P, E>>)) {
        match (self, event) {
            (
                RunServer::LoadingSettings { config_path, read_only },
                RunEvent::SettingsLoaded(loaded),
            ) => match loaded {
                Ok(servers) => (
                    RunServer::InitializingFilesystem { read_only, servers },
                    Some(RunAction::InitializeFilesystem { read_only }),
                ),
                Err(cause) => finish(Err(RunError::Settings { config_path, cause })),
            },
            (
                RunServer::InitializingFilesystem { read_only, servers },
                RunEvent::FilesystemInitialized(initialized),
            ) => match initialized {
                Ok(refresh) => if !read_only && servers.nbd.is_some() {
                    (
                        RunServer::EnsuringNbdDirectory { servers, refresh },
                        Some(RunAction::EnsureNbdDirectory),
                    )
                } else {
                    launch_servers(read_only, servers, refresh)
                },
                Err(e) => finish(Err(RunError::Step(e))),
            },
            (
                RunServer::EnsuringNbdDirectory { servers, refresh },
                RunEvent::NbdDirectoryEnsured(ensured),
            ) => match ensured {
                Ok(_) => launch_servers(false, servers, refresh),
                Err(e) => finish(Err(RunError::Step(e))),
            },
            (
                RunServer::Launching { read_only, has_servers, refreshing },
                RunEvent::Launched,
            ) => (
                RunServer::RegisteringTermination { read_only, has_servers, refreshing },
                Some(RunAction::RegisterTermination),
            ),
            (
                RunServer::RegisteringTermination { read_only, has_servers, refreshing },
                RunEvent::TerminationRegistered(registered),
            ) => match registered {
                Ok(_) => if has_servers {
                    (
                        RunServer::NotifyingReady { read_only, refreshing },
                        Some(RunAction::NotifyReady),
                    )
                } else {
                    finish(Err(RunError::NoServers))
                },
                Err(e) => finish(Err(RunError::Step(e))),
            },
            (RunServer::NotifyingReady { read_only, refreshing }, RunEvent::ReadyNotified) => (
                RunServer::Serving { read_only },
                Some(RunAction::Serve { watch_gc: !read_only, watch_refresh: refreshing }),
            ),
            (RunServer::Serving { .. }, RunEvent::ServerStopped(stopped)) => match stopped {
                Ok(Ok(_)) => finish(Ok(())),
                Ok(Err(e)) => finish(Err(RunError::Step(e))),
                Err(e) => finish(Err(RunError::Step(e))),
            },
            (RunServer::Serving { read_only }, RunEvent::ShutdownRequested(_)) => if read_only {
                (RunServer::Closing, Some(RunAction::CloseDb))
            } else {
                (RunServer::Flushing, Some(RunAction::Flush))
            },
            (RunServer::Flushing, RunEvent::Flushed(flushed)) => match flushed {
                Ok(_) => (RunServer::Closing, Some(RunAction::CloseDb)),
                Err(e) => finish(Err(RunError::Step(e))),
            },
            (RunServer::Closing, RunEvent::Closed(closed)) => match closed {
                Ok(_) => finish(Ok(())),
                Err(e) => finish(Err(RunError::Step(e))),
            },
            (unmoved, _) => (unmoved, None),
        }
    }
}

/// Begins the life of a server process: its settings are loaded from the file at
/// `config_path`.
pub fn run_server<A, P, E>(config_path: String, read_only: bool) -> (out: (
    RunServer<A, P>,
    RunAction<A, P, E>,
))
    ensures
        out.0 == (RunServer::<A, P>::LoadingSettings { config_path, read_only }),
        out.1 == (RunAction::<A, P, E>::LoadSettings { config_path }),
{
    let action = RunAction::LoadSettings { config_path: config_path.clone() };
    (RunServer::LoadingSettings { config_path, read_only }, action)
}

impl<A, P> RunServer<A, P> {
    /// Whether an event answers what is waited for.
    pub open spec fn awaits<E>(self, event: RunEvent<A, P, E>) -> bool {
        match self {
            RunServer::LoadingSettings { .. } => event is SettingsLoaded,
            RunServer::InitializingFilesystem { .. } => event is FilesystemInitialized,
            RunServer::EnsuringNbdDirectory { .. } => event is NbdDirectoryEnsured,
            RunServer::Launching { .. } => event is Launched,
            RunServer::RegisteringTermination { .. } => event is TerminationRegistered,
            RunServer::NotifyingReady { .. } => event is ReadyNotified,
            RunServer::Serving { .. } => event is ServerStopped || event is ShutdownRequested,
            RunServer::Flushing => event is Flushed,
            RunServer::Closing => event is Closed,
            RunServer::Finished => false,
        }
    }

    /// How many answers it takes at most until the process ends.
    pub open spec fn answers_left(self) -> nat {
        match self {
            RunServer::LoadingSettings { .. } => 9,
            RunServer::InitializingFilesystem { .. } => 8,
            RunServer::EnsuringNbdDirectory { .. } => 7,
            RunServer::Launching { .. } => 6,
            RunServer::RegisteringTermination { .. } => 5,
            RunServer::NotifyingReady { .. } => 4,
            RunServer::Serving { .. } => 3,
            RunServer::Flushing => 2,
            RunServer::Closing => 1,
            RunServer::Finished => 0,
        }
    }
}

/// The error that an event reports to a process, if it reports one.
pub open spec fn run_failure<A, P, E>(
    run: RunServer<A, P>,
    event: RunEvent<A, P, E>,
) -> Option<RunError<E>> {
    match event {
        RunEvent::SettingsLoaded(Err(cause)) => Some(
            RunError::Settings { config_path: run->LoadingSettings_config_path, cause },
        ),
        RunEvent::FilesystemInitialized(Err(e)) => Some(RunError::Step(e)),
        RunEvent::NbdDirectoryEnsured(Err(e)) => Some(RunError::Step(e)),
        RunEvent::TerminationRegistered(Err(e)) => Some(RunError::Step(e)),
        RunEvent::ServerStopped(Err(e)) => Some(RunError::Step(e)),
        RunEvent::ServerStopped(Ok(Err(e))) => Some(RunError::Step(e)),
        RunEvent::Flushed(Err(e)) => Some(RunError::Step(e)),
        RunEvent::Closed(Err(e)) => Some(RunError::Step(e)),
        _ => None,
    }
}

/// Every answer brings the process nearer to its end, and a failure ends it with
/// the error that was reported. Any other event changes nothing.
pub proof fn process_moves_on_exactly_when_answered<A: Copy, P, E>(
    run: RunServer<A, P>,
    event: RunEvent<A, P, E>,
)
    ensures
        ({
            let (after, action): (_, Option<RunActionView<A, P, E>>) = Machine::<
                _,
                RunAction<A, P, E>,
            >::next(run, event);
            &&& run.awaits(event) ==> {
                &&& action is Some
                &&& after.answers_left() < run.answers_left()
                &&& run_failure(run, event) matches Some(e) ==> after is Finished && action == Some(
                    RunActionView::<A, P, E>::Finish(Err(e)),
                )
            }
            &&& !run.awaits(event) ==> after == run && action is None
        }),
{
}

/// The outcome of the process is handed out at its end, and only there.
pub proof fn process_hands_out_one_outcome<A: Copy, P, E>(
    config_path: String,
    read_only: bool,
    events: Seq<RunEvent<A, P, E>>,
)
    ensures
        ({
            let (end, actions) = trace::<_, RunAction<A, P, E>, _>(
                RunServer::<A, P>::LoadingSettings { config_path, read_only },
                events,
            );
            &&& end is Finished <==> actions.len() > 0 && actions.last() is Finish
            &&& forall|i: int| 0 <= i < actions.len() - 1 ==> !(#[trigger] actions[i] is Finish)
        }),
{
    let inv = |
        past: Seq<RunEvent<A, P, E>>,
        at: (RunServer<A, P>, Seq<RunActionView<A, P, E>>),
    |
        {
            &&& at.0 is Finished <==> at.1.len() > 0 && at.1.last() is Finish
            &&& forall|i: int| 0 <= i < at.1.len() - 1 ==> !(#[trigger] at.1[i] is Finish)
        };
    invariant_holds_on_every_trace::<_, RunAction<A, P, E>, _>(
        RunServer::<A, P>::LoadingSettings { config_path, read_only },
        events,
        inv,
    );
}

/// The place of an action in the life of a process.
pub open spec fn run_place<A, P, E>(action: RunActionView<A, P, E>) -> nat {
    match action {
        RunActionView::LoadSettings { .. } => 0,
        RunActionView::InitializeFilesystem { .. } => 1,
        RunActionView::EnsureNbdDirectory => 2,
        RunActionView::Launch { .. } => 3,
        RunActionView::RegisterTermination => 4,
        RunActionView::NotifyReady => 5,
        RunActionView::Serve { .. } => 6,
        RunActionView::Flush => 7,
        RunActionView::CloseDb => 8,
        RunActionView::Finish(_) => 9,
    }
}

/// The actions of a process come in order, none of them twice. In particular
/// readiness is announced, and the database flushed and closed, at most once.
pub proof fn process_acts_in_order<A: Copy, P, E>(
    config_path: String,
    read_only: bool,
    events: Seq<RunEvent<A, P, E>>,
)
    ensures
        ({
            let actions = trace::<_, RunAction<A, P, E>, _>(
                RunServer::<A, P>::LoadingSettings { config_path, read_only },
                events,
            ).1;
            forall|i: int, j: int|
                0 <= i < j < actions.len() ==> {
                    &&& run_place(#[trigger] actions[i]) < run_place(#[trigger] actions[j])
                    &&& !(actions[i] is NotifyReady && actions[j] is NotifyReady)
                    &&& !(actions[i] is Flush && actions[j] is Flush)
                    &&& !(actions[i] is CloseDb && actions[j] is CloseDb)
                }
        }),
{
    let inv = |
        past: Seq<RunEvent<A, P, E>>,
        at: (RunServer<A, P>, Seq<RunActionView<A, P, E>>),
    |
        {
            &&& forall|i: int|
                0 <= i < at.1.len() ==> run_place(#[trigger] at.1[i]) + at.0.answers_left() <= 9
            &&& forall|i: int, j: int|
                0 <= i < j < at.1.len() ==> run_place(#[trigger] at.1[i]) < run_place(
                    #[trigger] at.1[j],
                )
        };
    invariant_holds_on_every_trace::<_, RunAction<A, P, E>, _>(
        RunServer::<A, P>::LoadingSettings { config_path, read_only },
        events,
        inv,
    );
}

/// Whether settings were loaded that serve NBD.
pub open spec fn nbd_is_served<A, P, E>(events: Seq<RunEvent<A, P, E>>) -> bool {
    exists|servers: ServerConfig<A>|
        servers.nbd is Some && #[trigger] events.contains(RunEvent::SettingsLoaded(Ok(servers)))
}

/// Whether `launched` are all servers of settings that were loaded, and the
/// directory of NBD devices is there where it is needed.
pub open spec fn may_launch<A, P, E>(
    read_only: bool,
    events: Seq<RunEvent<A, P, E>>,
    launched: Seq<ServerView<A>>,
) -> bool {
    exists|servers: ServerConfig<A>|
        {
            &&& launched == configured_servers(servers)
            &&& #[trigger] events.contains(RunEvent::SettingsLoaded(Ok(servers)))
            &&& !read_only && servers.nbd is Some ==> events.contains(
                RunEvent::NbdDirectoryEnsured(Ok(())),
            )
        }
}

/// Whether `tasks` are the tasks beside a file system that was brought up.
pub open spec fn are_tasks_of_the_filesystem<A, P, E>(
    events: Seq<RunEvent<A, P, E>>,
    tasks: Seq<BackgroundTask<P>>,
) -> bool {
    exists|refresh: Option<P>|
        tasks == background_tasks(refresh) && #[trigger] events.contains(
            RunEvent::FilesystemInitialized(Ok(refresh)),
        )
}

/// Whether the action at place `i` launches some servers, or none, and a refresh,
/// or none.
pub open spec fn launches<A, P, E>(
    actions: Seq<RunActionView<A, P, E>>,
    i: int,
    some_servers: bool,
    refresh: bool,
) -> bool {
    &&& 0 <= i < actions.len()
    &&& actions[i] is Launch
    &&& some_servers == (actions[i]->Launch_servers.len() > 0)
    &&& refresh == (actions[i]->Launch_tasks.last() is Refresh)
}

/// Whether a shutdown was asked for.
pub open spec fn shutdown_was_requested<A, P, E>(events: Seq<RunEvent<A, P, E>>) -> bool {
    exists|signal: Signal| #[trigger] events.contains(RunEvent::ShutdownRequested(signal))
}

/// Whether a server ended without an error.
pub open spec fn server_ended_well<A, P, E>(events: Seq<RunEvent<A, P, E>>) -> bool {
    exists|result: Result<(), E>|
        result is Ok && #[trigger] events.contains(RunEvent::ServerStopped(Ok(result)))
}

/// Whether the action at place `i` is due, by what happened and by the action just
/// before it.
pub open spec fn is_due<A, P, E>(
    read_only: bool,
    events: Seq<RunEvent<A, P, E>>,
    actions: Seq<RunActionView<A, P, E>>,
    i: int,
) -> bool {
    match actions[i] {
        RunActionView::LoadSettings { .. } => false,
        RunActionView::InitializeFilesystem { read_only: mode } => i == 0 && mode == read_only,
        RunActionView::EnsureNbdDirectory => !read_only && nbd_is_served(events),
        RunActionView::Launch { servers, tasks } => {
            &&& may_launch(read_only, events, servers)
            &&& are_tasks_of_the_filesystem(events, tasks)
        },
        RunActionView::RegisterTermination => i > 0 && actions[i - 1] is Launch,
        RunActionView::NotifyReady => {
            &&& i > 0 && actions[i - 1] is RegisterTermination
            &&& launches(actions, i - 2, true, true) || launches(actions, i - 2, true, false)
        },
        RunActionView::Serve { watch_gc, watch_refresh } => {
            &&& i > 0 && actions[i - 1] is NotifyReady
            &&& watch_gc == !read_only
            &&& launches(actions, i - 3, true, watch_refresh)
        },
        RunActionView::Flush => {
            &&& i > 0 && actions[i - 1] is Serve
            &&& !read_only
            &&& shutdown_was_requested(events)
        },
        RunActionView::CloseDb => {
            &&& i > 0
            &&& shutdown_was_requested(events)
            &&& if read_only {
                actions[i - 1] is Serve
            } else {
                actions[i - 1] is Flush && events.contains(RunEvent::Flushed(Ok(())))
            }
        },
        RunActionView::Finish(Ok(_)) => {
            &&& i > 0
            &&& {
                ||| actions[i - 1] is CloseDb && events.contains(RunEvent::Closed(Ok(())))
                ||| actions[i - 1] is Serve && server_ended_well(events)
            }
        },
        RunActionView::Finish(Err(RunError::NoServers)) => {
            &&& i > 0 && actions[i - 1] is RegisterTermination
            &&& launches(actions, i - 2, false, true) || launches(actions, i - 2, false, false)
        },
        RunActionView::Finish(Err(RunError::Settings { .. })) => i == 0,
        RunActionView::Finish(Err(RunError::Step(_))) => i > 0,
    }
}

/// Whether all actions of a process are due.
pub open spec fn every_action_is_due<A, P, E>(
    read_only: bool,
    events: Seq<RunEvent<A, P, E>>,
    actions: Seq<RunActionView<A, P, E>>,
) -> bool {
    forall|i: int| 0 <= i < actions.len() ==> #[trigger] is_due(read_only, events, actions, i)
}

/// Whether a state fits what happened before it, and every action so far was due.
spec fn is_on_course<A, P, E>(
    read_only: bool,
    past: Seq<RunEvent<A, P, E>>,
    at: (RunServer<A, P>, Seq<RunActionView<A, P, E>>),
) -> bool {
    &&& every_action_is_due(read_only, past, at.1)
    &&& at.0 is LoadingSettings <==> at.1.len() == 0
    &&& match at.0 {
        RunServer::LoadingSettings { read_only: mode, .. } => mode == read_only,
        RunServer::InitializingFilesystem { read_only: mode, servers } => {
            &&& mode == read_only
            &&& past.contains(RunEvent::SettingsLoaded(Ok(servers)))
        },
        RunServer::EnsuringNbdDirectory { servers, refresh } => {
            &&& !read_only
            &&& past.contains(RunEvent::SettingsLoaded(Ok(servers)))
            &&& past.contains(RunEvent::FilesystemInitialized(Ok(refresh)))
        },
        RunServer::Launching { read_only: mode, has_servers, refreshing } => {
            &&& mode == read_only
            &&& launches(at.1, at.1.len() - 1, has_servers, refreshing)
        },
        RunServer::RegisteringTermination { read_only: mode, has_servers, refreshing } => {
            &&& mode == read_only
            &&& at.1.last() is RegisterTermination
            &&& launches(at.1, at.1.len() - 2, has_servers, refreshing)
        },
        RunServer::NotifyingReady { read_only: mode, refreshing } => {
            &&& mode == read_only
            &&& at.1.last() is NotifyReady
            &&& launches(at.1, at.1.len() - 3, true, refreshing)
        },
        RunServer::Serving { read_only: mode } => {
            &&& mode == read_only
            &&& at.1.last() is Serve
        },
        RunServer::Flushing => {
            &&& !read_only
            &&& at.1.last() is Flush
            &&& shutdown_was_requested(past)
        },
        RunServer::Closing => at.1.last() is CloseDb,
        RunServer::Finished => true,
    }
}

proof fn lemma_due_stays_due<A, P, E>(
    read_only: bool,
    past: Seq<RunEvent<A, P, E>>,
    event: RunEvent<A, P, E>,
    actions: Seq<RunActionView<A, P, E>>,
)
    requires
        every_action_is_due(read_only, past, actions),
    ensures
        every_action_is_due(read_only, past.push(event), actions),
{
    lemma_push_contains(past, event);
    assert forall|i: int| 0 <= i < actions.len() implies #[trigger] is_due(
        read_only,
        past.push(event),
        actions,
        i,
    ) by {
        assert(is_due(read_only, past, actions, i));
    }
}

proof fn lemma_due_grows<A, P, E>(
    read_only: bool,
    events: Seq<RunEvent<A, P, E>>,
    actions: Seq<RunActionView<A, P, E>>,
    action: RunActionView<A, P, E>,
)
    requires
        every_action_is_due(read_only, events, actions),
        is_due(read_only, events, actions.push(action), actions.len() as int),
    ensures
        every_action_is_due(read_only, events, actions.push(action)),
{
    assert forall|i: int| 0 <= i < actions.len() implies #[trigger] is_due(
        read_only,
        events,
        actions.push(action),
        i,
    ) by {
        assert(is_due(read_only, events, actions, i));
    }
}

proof fn lemma_step_stays_on_course<A: Copy, P, E>(
    read_only: bool,
    past: Seq<RunEvent<A, P, E>>,
    at: (RunServer<A, P>, Seq<RunActionView<A, P, E>>),
    event: RunEvent<A, P, E>,
)
    requires
        is_on_course(read_only, past, at),
    ensures
        is_on_course(
            read_only,
            past.push(event),
            advance::<_, RunAction<A, P, E>, _>(at, event),
        ),
{
    let now = past.push(event);
    let (after, action): (_, Option<RunActionView<A, P, E>>) = Machine::<
        _,
        RunAction<A, P, E>,
    >::next(at.0, event);
    lemma_push_contains(past, event);
    lemma_due_stays_due(read_only, past, event, at.1);
    match event {
        RunEvent::NbdDirectoryEnsured(Ok(done)) => assert(done == ()),
        RunEvent::ServerStopped(Ok(result)) => {
            assert(now.contains(RunEvent::ServerStopped(Ok(result))));
        },
        RunEvent::ShutdownRequested(signal) => {
            assert(now.contains(RunEvent::ShutdownRequested(signal)));
        },
        RunEvent::Flushed(Ok(done)) => assert(done == ()),
        RunEvent::Closed(Ok(done)) => assert(done == ()),
        _ => {},
    }
    if let Some(a) = action {
        assert(is_due(read_only, now, at.1.push(a), at.1.len() as int));
        lemma_due_grows(read_only, now, at.1, a);
    }
}

/// Whatever happens, every action of a process is due. In particular: readiness
/// is announced only after all configured servers were launched and there is one;
/// the database is closed only on request and, where it can be written, only
/// after it was flushed; the process ends well only after the database was closed
/// or a server ended well; it ends for want of servers only if none was launched;
/// and the refresh is watched exactly if it was launched.
pub proof fn process_does_only_what_is_due<A: Copy, P, E>(
    config_path: String,
    read_only: bool,
    events: Seq<RunEvent<A, P, E>>,
)
    ensures
        every_action_is_due(
            read_only,
            events,
            trace::<_, RunAction<A, P, E>, _>(
                RunServer::<A, P>::LoadingSettings { config_path, read_only },
                events,
            ).1,
        ),
{
    let inv = |
        past: Seq<RunEvent<A, P, E>>,
        at: (RunServer<A, P>, Seq<RunActionView<A, P, E>>),
    | is_on_course(read_only, past, at);
    assert forall|
        past: Seq<RunEvent<A, P, E>>,
        at: (RunServer<A, P>, Seq<RunActionView<A, P, E>>),
        event: RunEvent<A, P, E>,
    | inv(past, at) implies inv(
        #[trigger] past.push(event),
        #[trigger] advance::<_, RunAction<A, P, E>, _>(at, event),
    ) by {
        lemma_step_stays_on_course(read_only, past, at, event);
    }
    invariant_holds_on_every_trace::<_, RunAction<A, P, E>, _>(
        RunServer::<A, P>::LoadingSettings { config_path, read_only },
        events,
        inv,
    );
}

/// A read-only server never creates the directory of NBD devices, never flushes,
/// brings its file system up read-only and does not watch the garbage collection.
pub proof fn read_only_process_neither_creates_nor_flushes<A: Copy, P, E>(
    config_path: String,
    events: Seq<RunEvent<A, P, E>>,
)
    ensures
        ({
            let actions = trace::<_, RunAction<A, P, E>, _>(
                RunServer::<A, P>::LoadingSettings { config_path, read_only: true },
                events,
            ).1;
            forall|i: int| 0 <= i < actions.len() ==> match #[trigger] actions[i] {
                RunActionView::InitializeFilesystem { read_only } => read_only,
                RunActionView::EnsureNbdDirectory => false,
                RunActionView::Flush => false,
                RunActionView::Serve { watch_gc, .. } => !watch_gc,
                _ => true,
            }
        }),
{
    process_does_only_what_is_due(config_path, true, events);
    let actions = trace::<_, RunAction<A, P, E>, _>(
        RunServer::<A, P>::LoadingSettings { config_path, read_only: true },
        events,
    ).1;
    assert forall|i: int| 0 <= i < actions.len() implies match #[trigger] actions[i] {
        RunActionView::InitializeFilesystem { read_only } => read_only,
        RunActionView::EnsureNbdDirectory => false,
        RunActionView::Flush => false,
        RunActionView::Serve { watch_gc, .. } => !watch_gc,
        _ => true,
    } by {
        assert(is_due(true, events, actions, i));
    }
}

/// Once its servers are launched, a process announces that it is ready exactly if
/// there is a server; if the configuration names no address and no socket, it ends
/// for want of servers.
pub proof fn process_needs_a_server<A: Copy, P, E>(
    read_only: bool,
    servers: ServerConfig<A>,
    refresh: Option<P>,
)
    ensures
        ({
            let actions = trace::<_, RunAction<A, P, E>, _>(
                launch::<A, P, E>(read_only, servers, refresh).0,
                seq![RunEvent::Launched, RunEvent::TerminationRegistered(Ok(()))],
            ).1;
            &&& actions.len() == 2
            &&& actions[0] is RegisterTermination
            &&& if endpoint_count(servers) == 0 {
                actions[1] == RunActionView::<A, P, E>::Finish(Err(RunError::NoServers))
            } else {
                actions[1] is NotifyReady
            }
        }),
{
    as_many_servers_as_endpoints(servers);
    let first = seq![RunEvent::<A, P, E>::Launched];
    let both = seq![RunEvent::<A, P, E>::Launched, RunEvent::TerminationRegistered(Ok(()))];
    assert(both.drop_last() =~= first);
    assert(first.drop_last() =~= Seq::empty());
    reveal_with_fuel(trace, 3);
}

/// The end of one server is the end of the process, with the outcome of that
/// server; nothing is flushed or closed.
pub proof fn stopped_server_ends_the_process<A: Copy, P, E>(
    read_only: bool,
    stopped: Result<Result<(), E>, E>,
)
    ensures
        Machine::<_, RunAction<A, P, E>>::next(
            RunServer::<A, P>::Serving { read_only },
            RunEvent::ServerStopped(stopped),
        ) == end::<A, P, E>(
            match stopped {
                Ok(result) => outcome_of(result),
                Err(why) => Err(RunError::Step(why)),
            },
        ),
{
}

/// What a shutdown does, by how the flush and the closing go.
pub open spec fn shutdown_actions<A, P, E>(
    read_only: bool,
    flushed: Result<(), E>,
    closed: Result<(), E>,
) -> Seq<RunActionView<A, P, E>> {
    if read_only {
        seq![RunActionView::CloseDb, RunActionView::Finish(outcome_of(closed))]
    } else {
        match flushed {
            Ok(_) => seq![
                RunActionView::Flush,
                RunActionView::CloseDb,
                RunActionView::Finish(outcome_of(closed)),
            ],
            Err(e) => seq![RunActionView::Flush, RunActionView::Finish(Err(RunError::Step(e)))],
        }
    }
}

/// On either signal a server that can write flushes and then closes the database,
/// and a read-only one closes it at once; how that went is the outcome. A flush
/// that fails is the end, and the database is not closed.
pub proof fn shutdown_flushes_before_it_closes<A: Copy, P, E>(
    read_only: bool,
    signal: Signal,
    flushed: Result<(), E>,
    closed: Result<(), E>,
)
    ensures
        trace::<_, RunAction<A, P, E>, _>(
            RunServer::<A, P>::Serving { read_only },
            seq![
                RunEvent::ShutdownRequested(signal),
                RunEvent::Flushed(flushed),
                RunEvent::Closed(closed),
            ],
        ).1 == shutdown_actions::<A, P, E>(read_only, flushed, closed),
{
    let events = seq![
        RunEvent::<A, P, E>::ShutdownRequested(signal),
        RunEvent::Flushed(flushed),
        RunEvent::Closed(closed),
    ];
    let first = seq![RunEvent::<A, P, E>::ShutdownRequested(signal)];
    let second = first.push(RunEvent::Flushed(flushed));
    assert(events.drop_last() =~= second);
    assert(second.drop_last() =~= first);
    assert(first.drop_last() =~= Seq::empty());
    reveal_with_fuel(trace, 4);
}

/// What is seen of an action is all that it holds.
pub proof fn run_action_shows_all_it_holds<A, P, E>(action: RunAction<A, P, E>)
    ensures
        match action {
            RunAction::LoadSettings { config_path } => action@ == (RunActionView::<A, P, E>::LoadSettings {
                config_path: config_path@,
            }),
            RunAction::InitializeFilesystem { read_only } => {
                action@ == (RunActionView::<A, P, E>::InitializeFilesystem { read_only })
            },
            RunAction::EnsureNbdDirectory => action@ == RunActionView::<A, P, E>::EnsureNbdDirectory,
            RunAction::Launch { servers, tasks } => {
                &&& action@ matches RunActionView::Launch { servers: seen, tasks: beside }
                &&& seen.len() == servers@.len()
                &&& forall|i: int| 0 <= i < servers@.len() ==> #[trigger] seen[i] == servers@[i]@
                &&& beside == tasks@
            },
            RunAction::RegisterTermination => action@ == RunActionView::<A, P, E>::RegisterTermination,
            RunAction::NotifyReady => action@ == RunActionView::<A, P, E>::NotifyReady,
            RunAction::Serve { watch_gc, watch_refresh } => action@ == (RunActionView::<A, P, E>::Serve {
                watch_gc,
                watch_refresh,
            }),
            RunAction::Flush => action@ == RunActionView::<A, P, E>::Flush,
            RunAction::CloseDb => action@ == RunActionView::<A, P, E>::CloseDb,
            RunAction::Finish(outcome) => action@ == RunActionView::<A, P, E>::Finish(outcome),
        },
{
}

/// The life of a process up to its service, whatever its steps report. As long as they
/// succeed: the file system is brought up in the mode of the process; exactly a process
/// that can write and serves NBD provides the directory of NBD devices; all configured
/// servers are launched, and beside them garbage collection, statistics and, exactly if
/// the file system came with parameters for it, the refresh with those; the termination
/// signal is registered; and readiness is announced, then served. Without a server it
/// ends for want of one. The first step that fails is the end, with its own error.
pub proof fn process_comes_up_unless_a_step_fails<A: Copy, P, E>(
    config_path: String,
    read_only: bool,
    loaded: Result<ServerConfig<A>, E>,
    initialized: Result<Option<P>, E>,
    ensured: Result<(), E>,
    registered: Result<(), E>,
)
    ensures
        ({
            let (end, actions) = trace::<_, RunAction<A, P, E>, _>(
                RunServer::<A, P>::LoadingSettings { config_path, read_only },
                seq![
                    RunEvent::SettingsLoaded(loaded),
                    RunEvent::FilesystemInitialized(initialized),
                    RunEvent::NbdDirectoryEnsured(ensured),
                    RunEvent::Launched,
                    RunEvent::TerminationRegistered(registered),
                    RunEvent::ReadyNotified,
                ],
            );
            match loaded {
                Err(cause) => end is Finished && actions =~= seq![
                    RunActionView::<A, P, E>::Finish(Err(RunError::Settings { config_path, cause })),
                ],
                Ok(servers) => {
                    // Whether there is a step for the directory of NBD devices.
                    let nbd = !read_only && servers.nbd is Some;
                    let n: int = if nbd {
                        2
                    } else {
                        1
                    };
                    &&& actions.len() >= 2
                    &&& actions[0] == (RunActionView::<A, P, E>::InitializeFilesystem { read_only })
                    &&& match initialized {
                        Err(e) => end is Finished && actions.len() == 2 && actions[1] == RunActionView::<A, P, E>::Finish(
                            Err(RunError::Step(e)),
                        ),
                        Ok(refresh) => {
                            &&& nbd ==> actions[1] == RunActionView::<A, P, E>::EnsureNbdDirectory
                            &&& if nbd && ensured is Err {
                                &&& end is Finished
                                &&& actions.len() == 3
                                &&& actions[2] == RunActionView::<A, P, E>::Finish(Err(RunError::Step(ensured->Err_0)))
                            } else {
                                &&& actions.len() >= n + 3
                                &&& actions[n] matches RunActionView::Launch {
                                    servers: launched,
                                    tasks,
                                } && {
                                    &&& launched == configured_servers(servers)
                                    &&& refresh matches Some(params) ==> tasks =~= seq![
                                        BackgroundTask::GarbageCollection,
                                        BackgroundTask::Statistics,
                                        BackgroundTask::Refresh(params),
                                    ]
                                    &&& refresh is None ==> tasks =~= seq![
                                        BackgroundTask::GarbageCollection,
                                        BackgroundTask::Statistics,
                                    ]
                                }
                                &&& actions[n + 1] == RunActionView::<A, P, E>::RegisterTermination
                                &&& match registered {
                                    Err(e) => {
                                        &&& end is Finished
                                        &&& actions.len() == n + 3
                                        &&& actions[n + 2] == RunActionView::<A, P, E>::Finish(Err(RunError::Step(e)))
                                    },
                                    Ok(_) => if configured_servers(servers).len() == 0 {
                                        &&& end is Finished
                                        &&& actions.len() == n + 3
                                        &&& actions[n + 2] == RunActionView::<A, P, E>::Finish(Err(RunError::NoServers))
                                    } else {
                                        &&& end == (RunServer::<A, P>::Serving { read_only })
                                        &&& actions.len() == n + 4
                                        &&& actions[n + 2] == RunActionView::<A, P, E>::NotifyReady
                                        &&& actions[n + 3] == (RunActionView::<A, P, E>::Serve {
                                            watch_gc: !read_only,
                                            watch_refresh: refresh is Some,
                                        })
                                    },
                                }
                            }
                        },
                    }
                },
            }
        }),
{
    let start = RunServer::<A, P>::LoadingSettings { config_path, read_only };
    let none = Seq::<RunEvent<A, P, E>>::empty();
    let one = none.push(RunEvent::SettingsLoaded(loaded));
    let two = one.push(RunEvent::FilesystemInitialized(initialized));
    let three = two.push(RunEvent::NbdDirectoryEnsured(ensured));
    let four = three.push(RunEvent::Launched);
    let five = four.push(RunEvent::TerminationRegistered(registered));
    trace_goes_on_event_by_event::<_, RunAction<A, P, E>, _>(
        start,
        none,
        RunEvent::SettingsLoaded(loaded),
    );
    trace_goes_on_event_by_event::<_, RunAction<A, P, E>, _>(
        start,
        one,
        RunEvent::FilesystemInitialized(initialized),
    );
    trace_goes_on_event_by_event::<_, RunAction<A, P, E>, _>(
        start,
        two,
        RunEvent::NbdDirectoryEnsured(ensured),
    );
    trace_goes_on_event_by_event::<_, RunAction<A, P, E>, _>(
        start,
        three,
        RunEvent::Launched,
    );
    trace_goes_on_event_by_event::<_, RunAction<A, P, E>, _>(
        start,
        four,
        RunEvent::TerminationRegistered(registered),
    );
    trace_goes_on_event_by_event::<_, RunAction<A, P, E>, _>(
        start,
        five,
        RunEvent::ReadyNotified,
    );
    assert(seq![
        RunEvent::SettingsLoaded(loaded),
        RunEvent::FilesystemInitialized(initialized),
        RunEvent::NbdDirectoryEnsured(ensured),
        RunEvent::Launched,
        RunEvent::TerminationRegistered(registered),
        RunEvent::ReadyNotified,
    ] =~= five.push(RunEvent::ReadyNotified));
}

/// A signal during service, whatever the steps report: a process that can write flushes
/// and, if that went well, closes the database; a read-only one closes it at once. The
/// process ends well exactly if all that was done went well, and else with the error of
/// the step that failed, which is the last one.
pub proof fn shutdown_ends_as_its_steps_report<A: Copy, P, E>(
    read_only: bool,
    signal: Signal,
    flushed: Result<(), E>,
    closed: Result<(), E>,
)
    ensures
        ({
            let (end, actions) = trace::<_, RunAction<A, P, E>, _>(
                RunServer::<A, P>::Serving { read_only },
                seq![
                    RunEvent::ShutdownRequested(signal),
                    RunEvent::Flushed(flushed),
                    RunEvent::Closed(closed),
                ],
            );
            let n: int = if read_only {
                0
            } else {
                1
            };
            &&& end is Finished
            &&& !read_only ==> actions.len() > 0 && actions[0] == RunActionView::<A, P, E>::Flush
            &&& if !read_only && flushed is Err {
                &&& actions.len() == 2
                &&& actions[1] == RunActionView::<A, P, E>::Finish(Err(RunError::Step(flushed->Err_0)))
            } else {
                &&& actions.len() == n + 2
                &&& actions[n] == RunActionView::<A, P, E>::CloseDb
                &&& closed is Ok ==> actions[n + 1] == RunActionView::<A, P, E>::Finish(Ok(()))
                &&& closed matches Err(e) ==> actions[n + 1] == RunActionView::<A, P, E>::Finish(Err(RunError::Step(e)))
            }
        }),
{
    let start = RunServer::<A, P>::Serving { read_only };
    let none = Seq::<RunEvent<A, P, E>>::empty();
    let one = none.push(RunEvent::ShutdownRequested(signal));
    let two = one.push(RunEvent::Flushed(flushed));
    trace_goes_on_event_by_event::<_, RunAction<A, P, E>, _>(
        start,
        none,
        RunEvent::ShutdownRequested(signal),
    );
    trace_goes_on_event_by_event::<_, RunAction<A, P, E>, _>(start, one, RunEvent::Flushed(flushed));
    trace_goes_on_event_by_event::<_, RunAction<A, P, E>, _>(start, two, RunEvent::Closed(closed));
    assert(seq![
        RunEvent::ShutdownRequested(signal),
        RunEvent::Flushed(flushed),
        RunEvent::Closed(closed),
    ] =~= two.push(RunEvent::Closed(closed)));
}

/// A server that stops ends the process at once: well exactly if the server's task could
/// be joined and the server ended well, and else with the error that was reported.
pub proof fn process_ends_as_its_server_does<A: Copy, P, E>(
    read_only: bool,
    stopped: Result<Result<(), E>, E>,
)
    ensures
        ({
            let (after, action) = Machine::<_, RunAction<A, P, E>>::next(
                RunServer::<A, P>::Serving { read_only },
                RunEvent::ServerStopped(stopped),
            );
            &&& after is Finished
            &&& match stopped {
                Ok(Ok(_)) => action == Some(RunActionView::<A, P, E>::Finish(Ok(()))),
                Ok(Err(e)) => action == Some(RunActionView::<A, P, E>::Finish(Err(RunError::Step(e)))),
                Err(e) => action == Some(RunActionView::<A, P, E>::Finish(Err(RunError::Step(e)))),
            }
        }),
{
}

/// A process ends with the error of a step only if the event that it was just told of
/// reports that error. An event that answers nothing that was asked changes nothing.
pub proof fn process_fails_only_with_a_reported_error<A: Copy, P, E>(
    run: RunServer<A, P>,
    event: RunEvent<A, P, E>,
)
    ensures
        ({
            let (after, action): (_, Option<RunActionView<A, P, E>>) = Machine::<
                _,
                RunAction<A, P, E>,
            >::next(run, event);
            &&& action matches Some(RunActionView::Finish(Err(RunError::Step(e)))) ==> {
                ||| event == RunEvent::<A, P, E>::FilesystemInitialized(Err(e))
                ||| event == RunEvent::<A, P, E>::NbdDirectoryEnsured(Err(e))
                ||| event == RunEvent::<A, P, E>::TerminationRegistered(Err(e))
                ||| event == RunEvent::<A, P, E>::ServerStopped(Err(e))
                ||| event == RunEvent::<A, P, E>::ServerStopped(Ok(Err(e)))
                ||| event == RunEvent::<A, P, E>::Flushed(Err(e))
                ||| event == RunEvent::<A, P, E>::Closed(Err(e))
            }
            &&& action matches Some(RunActionView::Finish(Err(RunError::Settings { cause, .. })))
                ==> event == RunEvent::<A, P, E>::SettingsLoaded(Err(cause))
            &&& action matches Some(RunActionView::Finish(Err(RunError::NoServers))) ==> event
                is TerminationRegistered
            &&& !{
                ||| run is LoadingSettings && event is SettingsLoaded
                ||| run is InitializingFilesystem && event is FilesystemInitialized
                ||| run is EnsuringNbdDirectory && event is NbdDirectoryEnsured
                ||| run is Launching && event is Launched
                ||| run is RegisteringTermination && event is TerminationRegistered
                ||| run is NotifyingReady && event is ReadyNotified
                ||| run is Serving && (event is ServerStopped || event is ShutdownRequested)
                ||| run is Flushing && event is Flushed
                ||| run is Closing && event is Closed
            } ==> after == run && action is None
        }),
{
}

} // verus!
