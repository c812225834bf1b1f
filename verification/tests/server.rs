use zerofs::config::{NbdConfig, NfsConfig, ServerConfig};
use zerofs::machine::Machine;
use zerofs::server::{
    run_server, BackgroundTask, RunAction, RunError, RunEvent, RunServer, Signal,
};
use zerofs::servers::Server;

type Run = RunServer<u16, &'static str>;
type Action = RunAction<u16, &'static str, &'static str>;
type Event = RunEvent<u16, &'static str, &'static str>;

fn start(read_only: bool) -> Run {
    let (run, action): (Run, Action) = run_server("/etc/zerofs.toml".to_string(), read_only);
    assert_eq!(
        action,
        RunAction::LoadSettings {
            config_path: "/etc/zerofs.toml".to_string()
        }
    );
    run
}

fn answer(run: Run, event: Event) -> (Run, Option<Action>) {
    run.step(event)
}

fn config(nfs: bool, nbd: bool) -> ServerConfig<u16> {
    ServerConfig {
        nfs: if nfs {
            Some(NfsConfig {
                addresses: vec![2049],
            })
        } else {
            None
        },
        ninep: None,
        nbd: if nbd {
            Some(NbdConfig {
                addresses: Some(vec![10809]),
                unix_socket: None,
            })
        } else {
            None
        },
    }
}

fn failed(e: &'static str) -> (Run, Option<Action>) {
    (
        RunServer::Finished,
        Some(RunAction::Finish(Err(RunError::Step(e)))),
    )
}

fn serving(read_only: bool) -> Run {
    let (run, _) = answer(start(read_only), RunEvent::SettingsLoaded(Ok(config(true, false))));
    let (run, _) = answer(run, RunEvent::FilesystemInitialized(Ok(None)));
    let (run, _) = answer(run, RunEvent::Launched);
    let (run, _) = answer(run, RunEvent::TerminationRegistered(Ok(())));
    answer(run, RunEvent::ReadyNotified).0
}

#[test]
fn a_writing_server_prepares_nbd_and_launches_in_order() {
    let (run, action) = answer(start(false), RunEvent::SettingsLoaded(Ok(config(true, true))));
    assert_eq!(
        action,
        Some(RunAction::InitializeFilesystem { read_only: false })
    );
    let (run, action) = answer(run, RunEvent::FilesystemInitialized(Ok(None)));
    assert_eq!(action, Some(RunAction::EnsureNbdDirectory));
    let (run, action) = answer(run, RunEvent::NbdDirectoryEnsured(Ok(())));
    assert_eq!(
        action,
        Some(RunAction::Launch {
            servers: vec![
                Server::NfsTcp { address: 2049 },
                Server::NbdTcp { address: 10809 }
            ],
            tasks: vec![
                BackgroundTask::GarbageCollection,
                BackgroundTask::Statistics
            ],
        })
    );
    let (run, action) = answer(run, RunEvent::Launched);
    assert_eq!(action, Some(RunAction::RegisterTermination));
    let (run, action) = answer(run, RunEvent::TerminationRegistered(Ok(())));
    assert_eq!(action, Some(RunAction::NotifyReady));
    let (run, action) = answer(run, RunEvent::ReadyNotified);
    assert_eq!(
        action,
        Some(RunAction::Serve {
            watch_gc: true,
            watch_refresh: false
        })
    );
    assert_eq!(run, RunServer::Serving { read_only: false });
}

#[test]
fn a_writing_server_without_nbd_prepares_no_directory() {
    let (run, _) = answer(start(false), RunEvent::SettingsLoaded(Ok(config(true, false))));
    let (_, action) = answer(run, RunEvent::FilesystemInitialized(Ok(None)));
    assert!(matches!(action, Some(RunAction::Launch { .. })));
}

#[test]
fn a_read_only_server_refreshes_and_prepares_no_directory() {
    let (run, action) = answer(start(true), RunEvent::SettingsLoaded(Ok(config(false, true))));
    assert_eq!(
        action,
        Some(RunAction::InitializeFilesystem { read_only: true })
    );
    let (run, action) = answer(run, RunEvent::FilesystemInitialized(Ok(Some("params"))));
    assert_eq!(
        action,
        Some(RunAction::Launch {
            servers: vec![Server::NbdTcp { address: 10809 }],
            tasks: vec![
                BackgroundTask::GarbageCollection,
                BackgroundTask::Statistics,
                BackgroundTask::Refresh("params")
            ],
        })
    );
    let (run, _) = answer(run, RunEvent::Launched);
    let (run, _) = answer(run, RunEvent::TerminationRegistered(Ok(())));
    let (_, action) = answer(run, RunEvent::ReadyNotified);
    assert_eq!(
        action,
        Some(RunAction::Serve {
            watch_gc: false,
            watch_refresh: true
        })
    );
}

#[test]
fn a_server_with_nothing_to_serve_is_refused() {
    let (run, _) = answer(start(false), RunEvent::SettingsLoaded(Ok(config(false, false))));
    let (run, action) = answer(run, RunEvent::FilesystemInitialized(Ok(None)));
    assert_eq!(
        action,
        Some(RunAction::Launch {
            servers: vec![],
            tasks: vec![
                BackgroundTask::GarbageCollection,
                BackgroundTask::Statistics
            ],
        })
    );
    let (run, _) = answer(run, RunEvent::Launched);
    let (run, action) = answer(run, RunEvent::TerminationRegistered(Ok(())));
    assert_eq!(run, RunServer::Finished);
    assert_eq!(action, Some(RunAction::Finish(Err(RunError::NoServers))));
    assert_eq!(
        RunError::<&str>::NoServers.message(),
        Some(
            "No servers configured. At least one server (NFS, 9P, or NBD) must be enabled."
                .to_string()
        )
    );
}

#[test]
fn an_empty_list_of_addresses_is_nothing_to_serve() {
    let config = ServerConfig {
        nfs: Some(NfsConfig { addresses: vec![] }),
        ninep: None,
        nbd: None,
    };
    let (run, _) = answer(start(true), RunEvent::SettingsLoaded(Ok(config)));
    let (run, _) = answer(run, RunEvent::FilesystemInitialized(Ok(None)));
    let (run, _) = answer(run, RunEvent::Launched);
    let (_, action) = answer(run, RunEvent::TerminationRegistered(Ok(())));
    assert_eq!(action, Some(RunAction::Finish(Err(RunError::NoServers))));
}

#[test]
fn a_writing_server_flushes_and_closes_on_either_signal() {
    for signal in [Signal::Interrupt, Signal::Terminate] {
        let (run, action) = answer(serving(false), RunEvent::ShutdownRequested(signal));
        assert_eq!(action, Some(RunAction::Flush));
        let (run, action) = answer(run, RunEvent::Flushed(Ok(())));
        assert_eq!(action, Some(RunAction::CloseDb));
        let (run, action) = answer(run, RunEvent::Closed(Ok(())));
        assert_eq!(run, RunServer::Finished);
        assert_eq!(action, Some(RunAction::Finish(Ok(()))));
    }
}

#[test]
fn a_read_only_server_only_closes() {
    let (run, action) = answer(
        serving(true),
        RunEvent::ShutdownRequested(Signal::Terminate),
    );
    assert_eq!(action, Some(RunAction::CloseDb));
    let (_, action) = answer(run, RunEvent::Closed(Ok(())));
    assert_eq!(action, Some(RunAction::Finish(Ok(()))));
}

#[test]
fn a_failed_flush_leaves_the_database_open() {
    let (run, _) = answer(
        serving(false),
        RunEvent::ShutdownRequested(Signal::Interrupt),
    );
    assert_eq!(answer(run, RunEvent::Flushed(Err("io"))), failed("io"));
}

#[test]
fn a_stopped_server_ends_the_process_with_its_outcome() {
    let (run, action) = answer(serving(false), RunEvent::ServerStopped(Ok(Ok(()))));
    assert_eq!(run, RunServer::Finished);
    assert_eq!(action, Some(RunAction::Finish(Ok(()))));
    let stopped = RunEvent::ServerStopped(Ok(Err("bind")));
    assert_eq!(answer(serving(false), stopped), failed("bind"));
    let stopped = RunEvent::ServerStopped(Err("join"));
    assert_eq!(answer(serving(true), stopped), failed("join"));
}

#[test]
fn every_failed_step_ends_the_process() {
    let (run, _) = answer(start(false), RunEvent::SettingsLoaded(Ok(config(true, true))));
    assert_eq!(
        answer(run, RunEvent::FilesystemInitialized(Err("init"))),
        failed("init")
    );
    let (run, _) = answer(start(false), RunEvent::SettingsLoaded(Ok(config(true, true))));
    let (run, _) = answer(run, RunEvent::FilesystemInitialized(Ok(None)));
    assert_eq!(
        answer(run, RunEvent::NbdDirectoryEnsured(Err("mkdir"))),
        failed("mkdir")
    );
    let (run, _) = answer(start(false), RunEvent::SettingsLoaded(Ok(config(false, false))));
    let (run, _) = answer(run, RunEvent::FilesystemInitialized(Ok(None)));
    let (run, _) = answer(run, RunEvent::Launched);
    assert_eq!(
        answer(run, RunEvent::TerminationRegistered(Err("signal"))),
        failed("signal")
    );
    let (run, _) = answer(
        serving(true),
        RunEvent::ShutdownRequested(Signal::Interrupt),
    );
    assert_eq!(answer(run, RunEvent::Closed(Err("close"))), failed("close"));
}

#[test]
fn a_signal_before_service_changes_nothing() {
    let (run, action) = answer(
        start(false),
        RunEvent::ShutdownRequested(Signal::Interrupt),
    );
    assert_eq!(run, start(false));
    assert_eq!(action, None);
}

#[test]
fn settings_that_cannot_be_loaded_end_the_process() {
    let (run, action) = answer(start(true), RunEvent::SettingsLoaded(Err("syntax")));
    assert_eq!(run, RunServer::Finished);
    match action {
        Some(RunAction::Finish(Err(e))) => {
            assert_eq!(
                e.message(),
                Some("Failed to load config from /etc/zerofs.toml".to_string())
            );
            assert!(matches!(e, RunError::Settings { cause: "syntax", .. }));
        }
        _ => panic!("a process needs its settings"),
    }
}

#[test]
fn the_error_of_a_step_has_no_message_here() {
    assert_eq!(RunError::Step("why").message(), None);
}
