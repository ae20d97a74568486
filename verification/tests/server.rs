use windbg_mcp_rs::callback_registration::{
    clear_target_event_callbacks, ensure_target_event_callbacks, RegistrationStep,
};
use windbg_mcp_rs::dispatcher::{dispatcher_spawned, keep_dispatcher, DispatcherStep};
use windbg_mcp_rs::execution_gate::{
    McpExecutionGate, McpExecutionPhase, UnloadProgress, UnloadWait, STOP_DURING_COMMAND_ERROR,
};
use windbg_mcp_rs::plugin_server::{
    publish_result, publish_target_snapshot, session_event_result, LockPoisoned,
    PluginServerControl, PluginServerStatus, PublishDecision, RunningPluginServer, SessionEffects,
    WorkerRequest,
};
use windbg_mcp_rs::server_bind::{bind_address_candidates, listening_status, BindSequence};
use windbg_mcp_rs::server_start::{
    ask_gate, open_gate, StartAction, StartEvent, StartSequence,
};
use windbg_mcp_rs::server_stop::{
    cleanup_running_server, cleanup_steps, shutdown_dispatcher, CleanupOutcome, CleanupStep,
    DispatcherShutdown, StopAction, StopEvent,
};
use windbg_mcp_rs::session::SessionEvent;

fn status(url: &str) -> PluginServerStatus {
    PluginServerStatus {
        mcp_url: url.to_string(),
        registry_path: None,
    }
}

fn server(has_registry: bool, has_worker: bool) -> RunningPluginServer {
    RunningPluginServer::new(status("http://h:1/mcp"), has_registry, has_worker)
}

fn good_cleanup() -> CleanupOutcome {
    CleanupOutcome {
        worker: Ok(()),
        server_panicked: false,
        dispatcher: Ok(()),
    }
}

fn error(text: &str) -> Result<(), String> {
    Err(text.to_string())
}

/// Runs a start whose actions end as told, up to the action that is named last.
fn start_up_to(start: StartSequence, events: Vec<StartEvent>) -> StartSequence {
    events
        .into_iter()
        .fold(start, |start, event| start.advance(event))
}

fn begun() -> StartSequence {
    start_up_to(
        PluginServerControl::start(None),
        vec![
            StartEvent::ServerSeen(Ok(None)),
            StartEvent::GateAsked(Ok(())),
            StartEvent::ServerSeen(Ok(None)),
            StartEvent::ServerSpawned(Ok(())),
        ],
    )
}

fn with_worker(path: Option<&str>) -> StartSequence {
    start_up_to(
        begun(),
        vec![
            StartEvent::StartupReported(Some(Ok(status("http://127.0.0.1:50051/mcp")))),
            StartEvent::Done,
            StartEvent::RegistryWritten(path.map(str::to_string)),
            StartEvent::WorkerSpawned(Ok(())),
        ],
    )
}

#[test]
fn plugin_server_bind_failure_leaves_no_running_instance() {
    let start = PluginServerControl::start(Some("not-a-socket-address"));
    assert_eq!(start.addresses(), &vec!["not-a-socket-address".to_string()]);
    let mut search = BindSequence::new(start.addresses().clone());
    while search.wanted().is_some() {
        search.record(error("invalid socket address"));
    }
    let report = search.result().expect_err("invalid bind address must fail");

    let start = start_up_to(
        start,
        vec![
            StartEvent::ServerSeen(Ok(None)),
            StartEvent::GateAsked(Ok(())),
            StartEvent::ServerSeen(Ok(None)),
            StartEvent::ServerSpawned(Ok(())),
            StartEvent::StartupReported(Some(Err(report))),
        ],
    );
    assert_eq!(start.action(), StartAction::CancelServer);
    assert!(start.server().is_none());
    let start = start.advance(StartEvent::Done);
    let error = start
        .result()
        .expect("finished")
        .expect_err("invalid bind address must fail");

    assert!(error.contains("failed to bind MCP server"));
    assert_eq!(
        error,
        "failed to bind MCP server; last error: not-a-socket-address: invalid socket address"
    );
    assert!(PluginServerControl::status(Ok(&None))
        .expect("status lock")
        .is_none());
}

#[test]
fn addresses_are_the_named_one_or_the_default_range() {
    assert_eq!(
        bind_address_candidates(Some(" 0.0.0.0:1 ")),
        vec!["0.0.0.0:1".to_string()]
    );
    for none in [None, Some(""), Some(" \t ")] {
        let addresses = bind_address_candidates(none);
        assert_eq!(addresses.len(), 20);
        assert_eq!(addresses[0], "127.0.0.1:50051");
        assert_eq!(addresses[19], "127.0.0.1:50070");
    }
}

#[test]
fn addresses_are_tried_until_one_binds() {
    let mut search = BindSequence::new(vec!["a".to_string(), "b".to_string(), "c".to_string()]);
    assert_eq!(search.wanted(), Some("a"));
    search.record(error("in use"));
    assert_eq!(search.wanted(), Some("b"));
    search.record(Ok(()));
    assert_eq!(search.wanted(), None);
    assert_eq!(search.result(), Ok(()));

    let mut search = BindSequence::new(vec!["a".to_string(), "b".to_string()]);
    search.record(error("one"));
    search.record(error("two"));
    assert_eq!(search.wanted(), None);
    search.record(Ok(()));
    assert_eq!(
        search.result(),
        Err("failed to bind MCP server; last error: b: two".to_string())
    );

    let search = BindSequence::new(Vec::new());
    assert_eq!(search.wanted(), None);
    assert_eq!(search.result(), Err("failed to bind MCP server".to_string()));
}

#[test]
fn a_listening_server_tells_its_url() {
    let status = listening_status("127.0.0.1", 50051);
    assert_eq!(status.mcp_url, "http://127.0.0.1:50051/mcp");
    assert_eq!(status.registry_path, None);
    assert_eq!(listening_status("::1", 0).mcp_url, "http://::1:0/mcp");
    assert_eq!(
        listening_status("h", 65535).mcp_url,
        "http://h:65535/mcp"
    );
}

#[test]
fn a_start_goes_through_its_steps() {
    let start = PluginServerControl::start(None);
    assert_eq!(start.action(), StartAction::LookForServer);
    let start = start.advance(StartEvent::ServerSeen(Ok(None)));
    assert_eq!(start.action(), StartAction::AskGate);
    let start = start.advance(StartEvent::Done);
    assert_eq!(start.action(), StartAction::AskGate);
    let start = start.advance(StartEvent::GateAsked(Ok(())));
    assert_eq!(start.action(), StartAction::LockServer);
    let start = start.advance(StartEvent::ServerSeen(Ok(None)));
    assert_eq!(start.action(), StartAction::SpawnServer);
    assert_eq!(start.addresses().len(), 20);
    let start = start.advance(StartEvent::ServerSpawned(Ok(())));
    assert_eq!(start.action(), StartAction::AwaitStartup);
    let start = start.advance(StartEvent::StartupReported(Some(Ok(status("u")))));
    assert_eq!(start.action(), StartAction::RemoveStaleRegistries);
    let start = start.advance(StartEvent::Done);
    assert_eq!(start.action(), StartAction::WriteRegistry);
    assert_eq!(start.status().map(|status| status.mcp_url.as_str()), Some("u"));
    let start = start.advance(StartEvent::RegistryWritten(Some("p".to_string())));
    assert_eq!(start.action(), StartAction::SpawnWorker);
    let start = start.advance(StartEvent::WorkerSpawned(Ok(())));
    assert_eq!(start.action(), StartAction::Install);
    let installed = start.server().expect("server");
    assert_eq!(installed.status().registry_path.as_deref(), Some("p"));
    assert!(installed.has_registry());
    assert!(installed.has_worker());
    let start = start.advance(StartEvent::Done);
    assert_eq!(start.action(), StartAction::OpenGate);
    let start = start.advance(StartEvent::GateOpened(Ok(())));
    assert_eq!(start.action(), StartAction::Nothing);
    let status = start.result().expect("finished").expect("started");
    assert_eq!(status.mcp_url, "u");
    assert_eq!(status.registry_path.as_deref(), Some("p"));
}

#[test]
fn a_running_server_is_not_started_again() {
    let start = PluginServerControl::start(None)
        .advance(StartEvent::ServerSeen(Ok(Some(status("u")))));
    assert_eq!(start.result().expect("finished").expect("status").mcp_url, "u");

    let start = start_up_to(
        PluginServerControl::start(None),
        vec![
            StartEvent::ServerSeen(Ok(None)),
            StartEvent::GateAsked(Ok(())),
            StartEvent::ServerSeen(Ok(Some(status("v")))),
        ],
    );
    assert_eq!(start.result().expect("finished").expect("status").mcp_url, "v");
}

#[test]
fn a_start_that_fails_says_why() {
    let poisoned = PluginServerControl::start(None)
        .advance(StartEvent::ServerSeen(Err(LockPoisoned)));
    assert_eq!(
        poisoned.result().expect("finished").err().as_deref(),
        Some("server state lock poisoned")
    );

    let refused = start_up_to(
        PluginServerControl::start(None),
        vec![
            StartEvent::ServerSeen(Ok(None)),
            StartEvent::GateAsked(error("stopping")),
        ],
    );
    assert_eq!(
        refused.result().expect("finished").err().as_deref(),
        Some("stopping")
    );

    let unspawned = start_up_to(
        PluginServerControl::start(None),
        vec![
            StartEvent::ServerSeen(Ok(None)),
            StartEvent::GateAsked(Ok(())),
            StartEvent::ServerSeen(Ok(None)),
            StartEvent::ServerSpawned(error("no threads")),
        ],
    );
    assert_eq!(
        unspawned.result().expect("finished").err().as_deref(),
        Some("no threads")
    );

    let silent = start_up_to(
        begun(),
        vec![StartEvent::StartupReported(None), StartEvent::Done],
    );
    assert_eq!(
        silent.result().expect("finished").err().as_deref(),
        Some("plugin server failed to report startup status")
    );
}

#[test]
fn a_worker_that_cannot_start_undoes_the_server_and_its_registry() {
    for (path, undone) in [(Some("p"), true), (None, false)] {
        let start = start_up_to(
            begun(),
            vec![
                StartEvent::StartupReported(Some(Ok(status("u")))),
                StartEvent::Done,
                StartEvent::RegistryWritten(path.map(str::to_string)),
                StartEvent::WorkerSpawned(error("no worker")),
            ],
        );
        assert_eq!(start.action(), StartAction::CancelServer);
        let mut start = start.advance(StartEvent::Done);
        assert_eq!(start.action() == StartAction::RemoveRegistry, undone);
        if undone {
            start = start.advance(StartEvent::Done);
        }
        assert_eq!(
            start.result().expect("finished").err().as_deref(),
            Some("no worker")
        );
    }
}

#[test]
fn a_gate_that_does_not_open_takes_the_server_back() {
    let opening = || with_worker(Some("p")).advance(StartEvent::Done);

    let start = start_up_to(
        opening(),
        vec![
            StartEvent::GateOpened(error("gate")),
            StartEvent::ServerTaken(Ok(Some(server(true, true)))),
        ],
    );
    assert_eq!(start.action(), StartAction::CleanUp);
    assert!(start.taken().is_some());
    let start = start.advance(StartEvent::Done);
    assert_eq!(start.result().expect("finished").err().as_deref(), Some("gate"));

    let start = start_up_to(
        opening(),
        vec![
            StartEvent::GateOpened(error("gate")),
            StartEvent::ServerTaken(Ok(None)),
        ],
    );
    assert_eq!(
        start.result().expect("finished").err().as_deref(),
        Some("server disappeared during startup")
    );

    let start = start_up_to(
        opening(),
        vec![
            StartEvent::GateOpened(error("gate")),
            StartEvent::ServerTaken(Err(LockPoisoned)),
        ],
    );
    assert_eq!(
        start.result().expect("finished").err().as_deref(),
        Some("server state lock poisoned")
    );
}

#[test]
fn a_stop_cleans_up_and_closes_the_gate() {
    let mut gate = McpExecutionGate::new();
    gate.mark_running().expect("running");
    let stop = PluginServerControl::stop(Ok(&mut gate));
    assert_eq!(gate.phase(), McpExecutionPhase::Stopping);
    assert_eq!(stop.action(), StopAction::TakeServer);
    let stop = stop.advance(StopEvent::ServerTaken(Ok(Some(server(true, true)))));
    assert_eq!(stop.action(), StopAction::CleanUp);
    assert_eq!(
        cleanup_steps(stop.running().expect("server")),
        vec![
            CleanupStep::ShutDownWorker,
            CleanupStep::CancelServer,
            CleanupStep::JoinServer,
            CleanupStep::ShutDownDispatcher,
            CleanupStep::RemoveRegistry
        ]
    );
    let stop = stop.advance(StopEvent::CleanedUp(good_cleanup()));
    assert_eq!(stop.action(), StopAction::FinishGate);
    gate.finish_stopped();
    let stop = stop.advance(StopEvent::GateSet);
    assert_eq!(stop.action(), StopAction::Nothing);
    let stopped = stop.result().expect("finished").expect("stopped");
    assert_eq!(stopped.expect("status").mcp_url, "http://h:1/mcp");
    assert_eq!(gate.phase(), McpExecutionPhase::Stopped);
}

#[test]
fn a_stop_without_a_server_shuts_the_dispatcher_down() {
    let mut gate = McpExecutionGate::new();
    gate.mark_running().expect("running");
    let stop = PluginServerControl::stop(Ok(&mut gate))
        .advance(StopEvent::ServerTaken(Ok(None)));
    assert_eq!(stop.action(), StopAction::ShutDownDispatcher);
    let stop = stop.advance(StopEvent::DispatcherShutDown(error("stuck")));
    assert_eq!(stop.action(), StopAction::FinishGate);
    let stop = stop.advance(StopEvent::GateSet);
    assert_eq!(
        stop.result().expect("finished").err().as_deref(),
        Some("stuck")
    );
}

#[test]
fn a_stop_that_cannot_take_the_server_lets_it_run() {
    let mut gate = McpExecutionGate::new();
    gate.mark_running().expect("running");
    let stop = PluginServerControl::stop(Ok(&mut gate))
        .advance(StopEvent::ServerTaken(Err(LockPoisoned)));
    assert_eq!(stop.action(), StopAction::RestoreGate);
    gate.restore_running();
    let stop = stop.advance(StopEvent::GateSet);
    assert_eq!(
        stop.result().expect("finished").err().as_deref(),
        Some("server state lock poisoned")
    );
    assert_eq!(gate.phase(), McpExecutionPhase::Running);
}

#[test]
fn a_stop_of_a_stopped_server_does_nothing() {
    let mut gate = McpExecutionGate::new();
    let stop = PluginServerControl::stop(Ok(&mut gate));
    assert_eq!(stop.action(), StopAction::Nothing);
    assert!(stop.result().expect("finished").expect("nothing").is_none());

    let stop = PluginServerControl::stop_for_unload(Ok(&mut gate));
    assert!(stop.result().expect("finished").expect("nothing").is_none());
}

#[test]
fn a_stop_is_refused_while_a_command_executes_and_an_unload_waits() {
    let mut gate = McpExecutionGate::new();
    gate.mark_running().expect("running");
    let guard = PluginServerControl::begin_execution(Ok(&mut gate))
        .ok()
        .expect("execution");
    assert_eq!(
        PluginServerControl::stop(Ok(&mut gate))
            .result()
            .expect("finished")
            .err()
            .as_deref(),
        Some(STOP_DURING_COMMAND_ERROR)
    );
    let stop = PluginServerControl::stop_for_unload(Ok(&mut gate));
    assert_eq!(stop.action(), StopAction::WaitForGate(UnloadWait::Idle));
    let stop = stop.advance(StopEvent::GateSeen(Ok(
        gate.continue_unload_stop(UnloadWait::Idle)
    )));
    assert_eq!(stop.action(), StopAction::WaitForGate(UnloadWait::Idle));
    gate.finish_execution(guard);
    let stop = stop.advance(StopEvent::GateSeen(Ok(
        gate.continue_unload_stop(UnloadWait::Idle)
    )));
    assert_eq!(stop.action(), StopAction::TakeServer);

    let other = PluginServerControl::stop_for_unload(Ok(&mut gate));
    assert_eq!(
        other.action(),
        StopAction::WaitForGate(UnloadWait::OtherStop)
    );
    let other = other.advance(StopEvent::GateSeen(Ok(UnloadProgress::Finished(false))));
    assert!(other.result().expect("finished").expect("nothing").is_none());
}

#[test]
fn a_clean_up_tells_its_first_error() {
    let both = CleanupOutcome {
        worker: error("worker"),
        server_panicked: true,
        dispatcher: error("dispatcher"),
    };
    assert_eq!(
        cleanup_running_server(&server(false, true), both).err().as_deref(),
        Some("worker")
    );
    let without_worker = CleanupOutcome {
        worker: error("worker"),
        server_panicked: true,
        dispatcher: error("dispatcher"),
    };
    assert_eq!(
        cleanup_running_server(&server(false, false), without_worker)
            .err()
            .as_deref(),
        Some("plugin server thread panicked")
    );
    let dispatcher = CleanupOutcome {
        dispatcher: error("dispatcher"),
        ..good_cleanup()
    };
    assert_eq!(
        cleanup_running_server(&server(false, true), dispatcher)
            .err()
            .as_deref(),
        Some("dispatcher")
    );
    assert!(cleanup_running_server(&server(false, true), good_cleanup()).is_ok());
    assert_eq!(
        cleanup_steps(&server(false, false)),
        vec![
            CleanupStep::CancelServer,
            CleanupStep::JoinServer,
            CleanupStep::ShutDownDispatcher
        ]
    );
}

#[test]
fn a_dispatcher_is_shut_down_if_there_is_one() {
    assert_eq!(
        shutdown_dispatcher(DispatcherShutdown::LockPoisoned),
        error("dispatcher state lock poisoned")
    );
    assert_eq!(shutdown_dispatcher(DispatcherShutdown::Absent), Ok(()));
    assert_eq!(
        shutdown_dispatcher(DispatcherShutdown::Done(error("stuck"))),
        error("stuck")
    );
}

#[test]
fn the_first_dispatcher_that_is_stored_is_used_by_all() {
    let mut slot: Option<String> = None;
    assert!(matches!(
        PluginServerControl::get_or_start_dispatcher(Ok(&slot)),
        DispatcherStep::Spawn
    ));
    assert_eq!(keep_dispatcher(Ok(&mut slot), "first".to_string()).as_deref(), Ok("first"));
    assert_eq!(keep_dispatcher(Ok(&mut slot), "second".to_string()).as_deref(), Ok("first"));
    assert_eq!(slot.as_deref(), Some("first"));
    assert_eq!(
        keep_dispatcher(Err(LockPoisoned), "third".to_string()),
        Err("dispatcher state lock poisoned".to_string())
    );
    match PluginServerControl::get_or_start_dispatcher(Ok(&slot)) {
        DispatcherStep::Finished(dispatcher) => assert_eq!(dispatcher.as_deref(), Ok("first")),
        DispatcherStep::Spawn => panic!("a dispatcher is stored"),
    }
    match PluginServerControl::get_or_start_dispatcher::<String>(Err(LockPoisoned)) {
        DispatcherStep::Finished(dispatcher) => assert_eq!(
            dispatcher.err().as_deref(),
            Some("dispatcher state lock poisoned")
        ),
        DispatcherStep::Spawn => panic!("the lock is poisoned"),
    }
}

#[test]
fn a_dispatcher_that_was_not_started_leaves_the_slot_as_it_is() {
    let mut slot: Option<String> = None;
    let failed = || Err::<String, String>("no thread".to_string());
    assert_eq!(dispatcher_spawned(Ok(&mut slot), failed()), failed());
    assert_eq!(slot, None);
    assert_eq!(dispatcher_spawned(Err(LockPoisoned), failed()), failed());
    assert_eq!(
        dispatcher_spawned(Ok(&mut slot), Ok("first".to_string())).as_deref(),
        Ok("first")
    );
    assert_eq!(
        dispatcher_spawned(Ok(&mut slot), Ok("second".to_string())).as_deref(),
        Ok("first")
    );
    assert_eq!(dispatcher_spawned(Ok(&mut slot), failed()), failed());
    assert_eq!(slot.as_deref(), Some("first"));
    assert_eq!(
        dispatcher_spawned(Err(LockPoisoned), Ok("third".to_string())),
        Err("dispatcher state lock poisoned".to_string())
    );
}

#[test]
fn the_status_is_that_of_the_server_in_the_slot() {
    let slot = Some(server(false, true));
    let status = PluginServerControl::status(Ok(&slot)).expect("status");
    assert_eq!(status.expect("running").mcp_url, "http://h:1/mcp");
    assert_eq!(
        PluginServerControl::status(Err(LockPoisoned)).err().as_deref(),
        Some("server state lock poisoned")
    );
}

#[test]
fn session_events_clear_the_target_and_ask_for_captures() {
    let nothing = SessionEffects {
        clear_target: false,
        request: WorkerRequest::Nothing,
    };
    assert_eq!(
        PluginServerControl::apply_session_event(Ok(&mut None), SessionEvent::Active),
        Ok(nothing)
    );

    let mut slot = Some(server(true, true));
    assert_eq!(
        PluginServerControl::apply_session_event(Ok(&mut slot), SessionEvent::Active),
        Ok(SessionEffects {
            clear_target: true,
            request: WorkerRequest::Nothing
        })
    );
    assert_eq!(
        PluginServerControl::request_target_snapshot_refresh(Ok(&slot)),
        Ok(None)
    );
    assert_eq!(
        PluginServerControl::apply_session_event(Ok(&mut slot), SessionEvent::Accessible),
        Ok(SessionEffects {
            clear_target: false,
            request: WorkerRequest::Capture(2)
        })
    );
    assert_eq!(
        PluginServerControl::request_target_snapshot_refresh(Ok(&slot)),
        Ok(Some(2))
    );
    assert_eq!(publish_target_snapshot(Ok(&slot), 2), Ok(PublishDecision::Write));
    assert_eq!(publish_target_snapshot(Ok(&slot), 1), Ok(PublishDecision::Discard));
    assert_eq!(publish_target_snapshot(Ok(&None), 2), Ok(PublishDecision::Discard));

    let mut bare = Some(server(false, false));
    assert_eq!(
        PluginServerControl::apply_session_event(Ok(&mut bare), SessionEvent::Active),
        Ok(nothing)
    );
    assert_eq!(
        PluginServerControl::apply_session_event(Ok(&mut bare), SessionEvent::Accessible),
        Ok(SessionEffects {
            clear_target: false,
            request: WorkerRequest::Unavailable
        })
    );
    assert_eq!(
        PluginServerControl::request_target_snapshot_refresh(Ok(&bare)),
        Err("snapshot worker is unavailable".to_string())
    );
    assert_eq!(publish_target_snapshot(Ok(&bare), 2), Ok(PublishDecision::Accept));
}

#[test]
fn poisoned_locks_are_told_of() {
    let server = "server state lock poisoned";
    let gate = "execution gate state lock poisoned";
    assert_eq!(
        PluginServerControl::apply_session_event(Err(LockPoisoned), SessionEvent::Active)
            .err()
            .as_deref(),
        Some(server)
    );
    assert_eq!(
        PluginServerControl::request_target_snapshot_refresh(Err(LockPoisoned)),
        Err(server.to_string())
    );
    assert_eq!(
        publish_target_snapshot(Err(LockPoisoned), 1),
        Err(server.to_string())
    );
    assert_eq!(ask_gate(Err(LockPoisoned)), error(gate));
    assert_eq!(open_gate(Err(LockPoisoned)), error(gate));
    assert_eq!(
        PluginServerControl::begin_execution(Err(LockPoisoned)).err().as_deref(),
        Some(gate)
    );
    for stop in [
        PluginServerControl::stop(Err(LockPoisoned)),
        PluginServerControl::stop_for_unload(Err(LockPoisoned)),
    ] {
        assert_eq!(stop.result().expect("finished").err().as_deref(), Some(gate));
    }

    let mut held = McpExecutionGate::new();
    assert_eq!(ask_gate(Ok(&held)), Ok(()));
    assert_eq!(open_gate(Ok(&mut held)), Ok(()));
    assert_eq!(
        open_gate(Ok(&mut held)),
        error("execution gate was not stopped before server startup")
    );
    let _guard = PluginServerControl::begin_execution(Ok(&mut held));
    let stop = PluginServerControl::stop_for_unload(Ok(&mut held))
        .advance(StopEvent::GateSeen(Err(LockPoisoned)));
    assert_eq!(stop.result().expect("finished").err().as_deref(), Some(gate));
}

#[test]
fn an_event_tells_its_first_error() {
    let both = SessionEffects {
        clear_target: true,
        request: WorkerRequest::Capture(1),
    };
    assert_eq!(session_event_result(both, Ok(()), Ok(())), Ok(()));
    assert_eq!(
        session_event_result(both, error("clear"), error("request")),
        error("clear")
    );
    assert_eq!(
        session_event_result(both, Ok(()), error("request")),
        error("request")
    );
    let unavailable = SessionEffects {
        clear_target: false,
        request: WorkerRequest::Unavailable,
    };
    assert_eq!(
        session_event_result(unavailable, error("unread"), Ok(())),
        error("snapshot worker is unavailable")
    );
}

#[test]
fn a_publication_counts_unless_it_is_discarded_or_fails() {
    assert_eq!(
        publish_result(PublishDecision::Discard, error("unread")),
        Ok(false)
    );
    assert_eq!(
        publish_result(PublishDecision::Accept, error("unread")),
        Ok(true)
    );
    assert_eq!(publish_result(PublishDecision::Write, Ok(())), Ok(true));
    assert_eq!(
        publish_result(PublishDecision::Write, error("disk")),
        Err("disk".to_string())
    );
}

#[test]
fn callbacks_are_registered_once() {
    let mut step = ensure_target_event_callbacks(Ok(false));
    let mut steps = Vec::new();
    loop {
        steps.push(match &step {
            RegistrationStep::CreateClient => "client",
            RegistrationStep::ConnectSession => "connect",
            RegistrationStep::SetCallbacks => "set",
            RegistrationStep::Keep => "keep",
            RegistrationStep::Finished(result) => {
                assert_eq!(result, &Ok(()));
                break;
            }
        });
        step = step.advance(Ok(()));
    }
    assert_eq!(steps, vec!["client", "connect", "set", "keep"]);

    assert!(matches!(
        ensure_target_event_callbacks(Ok(true)),
        RegistrationStep::Finished(Ok(()))
    ));
    match ensure_target_event_callbacks(Err(LockPoisoned)) {
        RegistrationStep::Finished(result) => {
            assert_eq!(result, error("event callback state lock poisoned"));
        }
        _ => panic!("the lock is poisoned"),
    }
    match ensure_target_event_callbacks(Ok(false))
        .advance(Ok(()))
        .advance(error("refused"))
        .advance(Ok(()))
    {
        RegistrationStep::Finished(result) => assert_eq!(result, error("refused")),
        _ => panic!("the first error ends a registration"),
    }

    assert_eq!(clear_target_event_callbacks(Ok(false), error("unread")), Ok(()));
    assert_eq!(
        clear_target_event_callbacks(Ok(true), error("refused")),
        error("refused")
    );
    assert_eq!(
        clear_target_event_callbacks(Err(LockPoisoned), Ok(())),
        error("event callback state lock poisoned")
    );
}
