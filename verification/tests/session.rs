use windbg_mcp_rs::dbgeng::{
    DEBUG_CES_CURRENT_THREAD, DEBUG_CES_EXECUTION_STATUS, DEBUG_CES_SYSTEMS,
    DEBUG_EVENT_CHANGE_ENGINE_STATE, DEBUG_EVENT_CREATE_PROCESS, DEBUG_EVENT_EXIT_PROCESS,
    DEBUG_EVENT_SESSION_STATUS, DEBUG_SESSION_ACTIVE, DEBUG_SESSION_END,
    DEBUG_SESSION_END_SESSION_ACTIVE_DETACH, DEBUG_SESSION_END_SESSION_ACTIVE_TERMINATE,
    DEBUG_SESSION_END_SESSION_PASSIVE, DEBUG_SESSION_FAILURE, DEBUG_SESSION_HIBERNATE,
    DEBUG_SESSION_REBOOT, DEBUG_STATUS_BREAK,
};
use windbg_mcp_rs::execution_gate::{
    McpExecutionGate, McpExecutionPhase, UnloadProgress, UnloadWait, EXECUTION_UNAVAILABLE_ERROR,
    GATE_NOT_STOPPED_ERROR, STOP_DURING_COMMAND_ERROR,
};
use windbg_mcp_rs::session::{
    reduce_session_event, snapshot_generation_can_publish, SessionEvent, SessionState,
    SessionTransition,
};
use windbg_mcp_rs::plugin_server::LockPoisoned;
use windbg_mcp_rs::snapshot_worker::{
    request_snapshot, run_snapshot_worker, shutdown_result, snapshot_worker_is_shutdown, wait_for_snapshot_delay,
    wait_for_snapshot_request, RequestPoll, SnapshotTiming, SnapshotWorkerRun,
    SnapshotWorkerState, SnapshotWorkerWake, WorkerAction, WorkerEvent,
};
use windbg_mcp_rs::target_events::{
    action_for_callback, engine_state_requests_refresh, get_interest_mask,
    session_event_for_status, CallbackAction, EngineCallback,
};
use windbg_mcp_rs::target_snapshot::CurrentTargetSnapshot;

fn test_snapshot(updated_unix_ms: u64) -> CurrentTargetSnapshot {
    CurrentTargetSnapshot {
        kind: "user".to_string(),
        name: Some("target.exe".to_string()),
        source_path: None,
        transport: None,
        endpoint: None,
        updated_unix_ms,
    }
}

/// A worker whose delays pass as soon as nothing else happens.
struct Worker {
    state: SnapshotWorkerState,
    run: SnapshotWorkerRun,
    captures: usize,
    published: Vec<u64>,
}

impl Worker {
    fn new(timing: SnapshotTiming) -> Worker {
        Worker {
            state: SnapshotWorkerState::default(),
            run: SnapshotWorkerRun::new(timing),
            captures: 0,
            published: Vec::new(),
        }
    }

    /// Performs one action, or tells that the worker waits for a request or a delay.
    fn step(
        &mut self,
        delays_pass: bool,
        captured: Option<CurrentTargetSnapshot>,
        publish: Result<bool, String>,
    ) -> bool {
        let event = match self.run.action() {
            WorkerAction::AwaitRequest => match wait_for_snapshot_request(&mut self.state) {
                RequestPoll::Wait => return false,
                RequestPoll::Requested(generation) => WorkerEvent::Request(Some(generation)),
                RequestPoll::Shutdown => WorkerEvent::Request(None),
            },
            WorkerAction::AwaitDelay(_) => {
                match wait_for_snapshot_delay(&mut self.state, delays_pass) {
                    Some(wake) => WorkerEvent::Woke(wake),
                    None => return false,
                }
            }
            WorkerAction::Capture => {
                self.captures += 1;
                WorkerEvent::Captured(captured)
            }
            WorkerAction::CheckShutdown => {
                WorkerEvent::ShutdownChecked(snapshot_worker_is_shutdown(&self.state))
            }
            WorkerAction::Publish(generation) => {
                self.published.push(generation);
                WorkerEvent::Published(publish)
            }
            WorkerAction::Exit => return false,
        };
        let next = run_snapshot_worker(&mut self.run, event);
        assert_eq!(next, self.run.action());
        true
    }

    fn settle(&mut self) {
        while self.step(true, Some(test_snapshot(1)), Ok(true)) {}
    }
}

#[test]
fn session_reducer_enforces_generation_and_target_rules() {
    let mut state = SessionState::Inactive;
    let mut generation = 0;
    let mut current_target = Some(test_snapshot(1));

    let transition = reduce_session_event(&mut state, &mut generation, SessionEvent::Active)
        .expect("active transition");
    if transition.clear_target {
        current_target = None;
    }
    assert_eq!(state, SessionState::Inaccessible);
    assert_eq!(generation, 1);
    assert!(current_target.is_none());

    let transition = reduce_session_event(&mut state, &mut generation, SessionEvent::Accessible)
        .expect("accessible transition");
    assert_eq!(state, SessionState::Accessible);
    assert_eq!(generation, 2);
    assert_eq!(transition.capture_generation, Some(2));
    assert!(!snapshot_generation_can_publish(state, generation, 1));
    assert!(snapshot_generation_can_publish(state, generation, 2));
    current_target = Some(test_snapshot(2));

    let transition = reduce_session_event(&mut state, &mut generation, SessionEvent::Accessible)
        .expect("duplicate accessible transition");
    assert_eq!(state, SessionState::Accessible);
    assert_eq!(generation, 2);
    assert_eq!(transition.capture_generation, Some(2));

    let transition = reduce_session_event(&mut state, &mut generation, SessionEvent::Active)
        .expect("late active transition");
    assert_eq!(state, SessionState::Accessible);
    assert_eq!(generation, 2);
    assert!(!transition.clear_target);

    let transition = reduce_session_event(&mut state, &mut generation, SessionEvent::Inaccessible)
        .expect("inaccessible transition");
    assert_eq!(state, SessionState::Inaccessible);
    assert_eq!(generation, 3);
    assert!(!transition.clear_target);
    assert!(!snapshot_generation_can_publish(state, generation, 3));
    assert_eq!(
        current_target.as_ref().map(|target| target.updated_unix_ms),
        Some(2)
    );

    let transition = reduce_session_event(&mut state, &mut generation, SessionEvent::Accessible)
        .expect("second accessible transition");
    assert_eq!(state, SessionState::Accessible);
    assert_eq!(generation, 4);
    assert_eq!(transition.capture_generation, Some(4));
    assert!(!snapshot_generation_can_publish(state, generation, 2));
    assert!(snapshot_generation_can_publish(state, generation, 4));

    let transition = reduce_session_event(&mut state, &mut generation, SessionEvent::Inactive)
        .expect("inactive transition");
    if transition.clear_target {
        current_target = None;
    }
    assert_eq!(state, SessionState::Inactive);
    assert_eq!(generation, 5);
    assert!(current_target.is_none());

    let transition = reduce_session_event(&mut state, &mut generation, SessionEvent::Inactive)
        .expect("duplicate inactive transition");
    assert_eq!(generation, 5);
    assert_eq!(transition, SessionTransition::default());
}

#[test]
fn session_reducer_rejects_generation_overflow_without_mutation() {
    let mut state = SessionState::Inactive;
    let mut generation = u64::MAX;

    let error = reduce_session_event(&mut state, &mut generation, SessionEvent::Active)
        .expect_err("overflow must fail");

    assert_eq!(error, "session generation overflow");
    assert_eq!(state, SessionState::Inactive);
    assert_eq!(generation, u64::MAX);
}

#[test]
fn a_generation_at_its_end_still_takes_events_that_change_nothing() {
    let mut state = SessionState::Accessible;
    let mut generation = u64::MAX;
    let transition = reduce_session_event(&mut state, &mut generation, SessionEvent::Accessible)
        .expect("no change");
    assert_eq!(transition.capture_generation, Some(u64::MAX));
    assert_eq!(generation, u64::MAX);
}

#[test]
fn maps_documented_session_statuses_to_lifecycle_events() {
    assert_eq!(
        session_event_for_status(DEBUG_SESSION_ACTIVE),
        Some(SessionEvent::Active)
    );
    for status in [
        DEBUG_SESSION_END_SESSION_ACTIVE_TERMINATE,
        DEBUG_SESSION_END_SESSION_ACTIVE_DETACH,
        DEBUG_SESSION_END_SESSION_PASSIVE,
        DEBUG_SESSION_END,
        DEBUG_SESSION_REBOOT,
        DEBUG_SESSION_HIBERNATE,
        DEBUG_SESSION_FAILURE,
    ] {
        assert_eq!(
            session_event_for_status(status),
            Some(SessionEvent::Inactive)
        );
    }
    assert_eq!(session_event_for_status(u32::MAX), None);
}

#[test]
fn maps_engine_state_flags_without_reading_undefined_arguments() {
    assert!(engine_state_requests_refresh(DEBUG_CES_CURRENT_THREAD, 0));
    assert!(engine_state_requests_refresh(DEBUG_CES_SYSTEMS, 0));
    assert!(engine_state_requests_refresh(
        DEBUG_CES_EXECUTION_STATUS,
        u64::from(DEBUG_STATUS_BREAK)
    ));
    assert!(!engine_state_requests_refresh(
        DEBUG_CES_EXECUTION_STATUS,
        0
    ));
    assert!(!engine_state_requests_refresh(
        DEBUG_CES_EXECUTION_STATUS | 0x8000_0000,
        u64::from(DEBUG_STATUS_BREAK)
    ));
}

#[test]
fn the_status_in_an_argument_is_in_its_low_bits() {
    assert!(engine_state_requests_refresh(
        DEBUG_CES_EXECUTION_STATUS,
        0xffff_ffff_0000_0020 | u64::from(DEBUG_STATUS_BREAK)
    ));
    assert!(!engine_state_requests_refresh(
        DEBUG_CES_EXECUTION_STATUS,
        u64::from(DEBUG_STATUS_BREAK) << 32
    ));
}

#[test]
fn callbacks_ask_for_a_refresh_or_an_event() {
    assert_eq!(
        action_for_callback(EngineCallback::CreateProcess),
        CallbackAction::RefreshSnapshot
    );
    assert_eq!(
        action_for_callback(EngineCallback::ExitProcess),
        CallbackAction::RefreshSnapshot
    );
    assert_eq!(
        action_for_callback(EngineCallback::SessionStatus(DEBUG_SESSION_END)),
        CallbackAction::ApplySessionEvent(SessionEvent::Inactive)
    );
    assert_eq!(
        action_for_callback(EngineCallback::SessionStatus(u32::MAX)),
        CallbackAction::Nothing
    );
    assert_eq!(
        action_for_callback(EngineCallback::ChangeEngineState {
            flags: DEBUG_CES_SYSTEMS,
            argument: 0
        }),
        CallbackAction::RefreshSnapshot
    );
    assert_eq!(
        action_for_callback(EngineCallback::ChangeEngineState {
            flags: 0,
            argument: 0
        }),
        CallbackAction::Nothing
    );
    assert_eq!(
        action_for_callback(EngineCallback::Other),
        CallbackAction::Nothing
    );
    assert_eq!(
        get_interest_mask(),
        DEBUG_EVENT_CREATE_PROCESS
            | DEBUG_EVENT_EXIT_PROCESS
            | DEBUG_EVENT_CHANGE_ENGINE_STATE
            | DEBUG_EVENT_SESSION_STATUS
    );
}

#[test]
fn snapshot_worker_coalesces_pending_requests_to_latest_generation() {
    let mut worker = Worker::new(SnapshotTiming {
        initial_delay_ms: 50,
        retry_delay_ms: 0,
        max_attempts: 1,
    });

    worker.state.request(1).expect("first request");
    worker.state.request(2).expect("second request");
    worker.state.request(3).expect("third request");
    worker.settle();
    worker.state.shutdown();
    worker.settle();

    assert_eq!(worker.published, vec![3]);
    assert_eq!(worker.run.action(), WorkerAction::Exit);
}

#[test]
fn a_request_during_the_delay_starts_it_anew() {
    let mut worker = Worker::new(SnapshotTiming {
        initial_delay_ms: 50,
        retry_delay_ms: 9,
        max_attempts: 2,
    });
    worker.state.request(1).expect("first request");
    assert!(worker.step(false, None, Ok(true)));
    assert_eq!(worker.run.action(), WorkerAction::AwaitDelay(50));
    assert!(!worker.step(false, None, Ok(true)));
    worker.state.request(2).expect("second request");
    worker.settle();
    assert_eq!(worker.published, vec![2]);
    assert_eq!(worker.captures, 1);
}

#[test]
fn snapshot_worker_repeats_request_received_during_capture() {
    let mut worker = Worker::new(SnapshotTiming {
        initial_delay_ms: 0,
        retry_delay_ms: 0,
        max_attempts: 1,
    });

    worker.state.request(7).expect("initial request");
    while worker.run.action() != WorkerAction::Capture {
        assert!(worker.step(true, None, Ok(true)));
    }
    worker.state.request(7).expect("request during capture");
    worker.settle();
    assert_eq!(worker.captures, 2);
    assert_eq!(worker.published, vec![7, 7]);
    worker.state.shutdown();
    worker.settle();

    assert!(worker.state.request(7).is_err());
    worker.settle();
    assert_eq!(worker.captures, 2);
    assert_eq!(worker.published, vec![7, 7]);
}

#[test]
fn snapshot_worker_shutdown_interrupts_long_initial_and_retry_delays() {
    let hour_ms = 60 * 60 * 1000;
    let mut initial = Worker::new(SnapshotTiming {
        initial_delay_ms: hour_ms,
        retry_delay_ms: hour_ms,
        max_attempts: 6,
    });
    initial.state.request(1).expect("initial request");
    assert!(initial.step(false, None, Ok(true)));
    assert_eq!(initial.run.action(), WorkerAction::AwaitDelay(hour_ms));
    initial.state.shutdown();
    assert!(initial.step(false, None, Ok(true)));
    assert_eq!(initial.run.action(), WorkerAction::Exit);

    let mut retry = Worker::new(SnapshotTiming {
        initial_delay_ms: 0,
        retry_delay_ms: hour_ms,
        max_attempts: 6,
    });
    retry.state.request(1).expect("retry request");
    assert!(retry.step(true, None, Ok(true)));
    assert!(retry.step(true, None, Ok(true)));
    assert!(retry.step(true, None, Ok(true)));
    assert_eq!(retry.captures, 1);
    assert_eq!(retry.run.action(), WorkerAction::AwaitDelay(hour_ms));
    retry.state.shutdown();
    assert!(retry.step(false, None, Ok(true)));
    assert_eq!(retry.run.action(), WorkerAction::Exit);
    assert_eq!(retry.captures, 1);
}

#[test]
fn a_request_gets_no_more_attempts_than_allowed() {
    let mut worker = Worker::new(SnapshotTiming {
        initial_delay_ms: 1,
        retry_delay_ms: 2,
        max_attempts: 3,
    });
    worker.state.request(5).expect("request");
    while worker.step(true, None, Ok(true)) {}
    assert_eq!(worker.captures, 3);
    assert_eq!(worker.run.action(), WorkerAction::AwaitRequest);

    let mut once = Worker::new(SnapshotTiming {
        initial_delay_ms: 1,
        retry_delay_ms: 2,
        max_attempts: 0,
    });
    once.state.request(5).expect("request");
    while once.step(true, None, Ok(true)) {}
    assert_eq!(once.captures, 1);
}

#[test]
fn a_captured_snapshot_is_published_again_without_a_new_capture() {
    let mut worker = Worker::new(SnapshotTiming {
        initial_delay_ms: 1,
        retry_delay_ms: 2,
        max_attempts: 3,
    });
    worker.state.request(5).expect("request");
    while worker.step(true, Some(test_snapshot(9)), Err("disk".to_string())) {}
    assert_eq!(worker.captures, 1);
    assert_eq!(worker.published, vec![5, 5, 5]);
    assert_eq!(
        worker.run.snapshot().map(|snapshot| snapshot.updated_unix_ms),
        Some(9)
    );
}

#[test]
fn a_stop_is_reached_from_every_point_without_new_work() {
    for actions in 0..12 {
        for publish in [Ok(true), Err("disk".to_string())] {
            let mut worker = Worker::new(SnapshotTiming {
                initial_delay_ms: 1,
                retry_delay_ms: 2,
                max_attempts: 3,
            });
            worker.state.request(5).expect("request");
            for _ in 0..actions {
                worker.step(true, Some(test_snapshot(1)), publish.clone());
            }
            let mut allowed = (worker.captures, worker.published.len());
            match worker.run.action() {
                WorkerAction::Capture => allowed.0 += 1,
                WorkerAction::Publish(_) => allowed.1 += 1,
                _ => {}
            }
            worker.state.shutdown();
            worker.step(true, Some(test_snapshot(1)), publish.clone());
            worker.step(true, Some(test_snapshot(1)), publish.clone());
            assert_eq!(worker.run.action(), WorkerAction::Exit);
            assert_eq!((worker.captures, worker.published.len()), allowed);
        }
    }
}

#[test]
fn a_stop_before_publication_publishes_nothing() {
    let mut worker = Worker::new(SnapshotTiming::default());
    worker.state.request(5).expect("request");
    while worker.run.action() != WorkerAction::CheckShutdown {
        assert!(worker.step(true, Some(test_snapshot(1)), Ok(true)));
    }
    worker.state.shutdown();
    worker.settle();
    assert!(worker.published.is_empty());
    assert_eq!(worker.run.action(), WorkerAction::Exit);
}

#[test]
fn a_mailbox_tells_of_a_stop_first() {
    let mut state = SnapshotWorkerState::default();
    assert_eq!(wait_for_snapshot_delay(&mut state, false), None);
    assert_eq!(
        wait_for_snapshot_delay(&mut state, true),
        Some(SnapshotWorkerWake::TimedOut)
    );
    state.request(3).expect("request");
    assert_eq!(
        wait_for_snapshot_delay(&mut state, true),
        Some(SnapshotWorkerWake::Requested(3))
    );
    assert_eq!(wait_for_snapshot_request(&mut state), RequestPoll::Wait);
    state.request(4).expect("request");
    state.shutdown();
    assert_eq!(
        wait_for_snapshot_delay(&mut state, true),
        Some(SnapshotWorkerWake::Shutdown)
    );
    assert_eq!(wait_for_snapshot_request(&mut state), RequestPoll::Shutdown);
    assert_eq!(
        state.request(5),
        Err("snapshot worker is stopped".to_string())
    );
    assert_eq!(
        request_snapshot(Ok(&mut state), 5),
        Err("snapshot worker is stopped".to_string())
    );
    assert_eq!(
        request_snapshot(Err(LockPoisoned), 5),
        Err("snapshot worker state lock poisoned".to_string())
    );
    let mut state = SnapshotWorkerState::default();
    assert_eq!(request_snapshot(Ok(&mut state), 6), Ok(()));
    assert_eq!(
        wait_for_snapshot_request(&mut state),
        RequestPoll::Requested(6)
    );
}

#[test]
fn a_worker_that_panicked_is_told_of() {
    assert_eq!(shutdown_result(None), Ok(()));
    assert_eq!(shutdown_result(Some(false)), Ok(()));
    assert_eq!(
        shutdown_result(Some(true)),
        Err("snapshot worker thread panicked".to_string())
    );
}

#[test]
fn the_worker_waits_as_the_extension_does_by_default() {
    let timing = SnapshotTiming::default();
    assert_eq!(timing.initial_delay_ms, 750);
    assert_eq!(timing.retry_delay_ms, 1000);
    assert_eq!(timing.max_attempts, 6);
}

#[test]
fn execution_gate_rejects_command_stop_while_execution_is_active() {
    let mut gate = McpExecutionGate::new();
    gate.mark_running().expect("gate should run");
    let guard = gate.begin_execution().ok().expect("execution should start");

    let error = gate
        .begin_command_stop()
        .expect_err("command stop must fail while active");

    assert_eq!(error, STOP_DURING_COMMAND_ERROR);
    assert_eq!(gate.phase(), McpExecutionPhase::Running);
    gate.finish_execution(guard);

    assert!(gate.begin_command_stop().expect("command stop transition"));
    let cleanup_result: Result<(), String> = Err("simulated cleanup failure".to_string());
    gate.finish_stopped();
    assert!(cleanup_result.is_err());
    assert_eq!(gate.phase(), McpExecutionPhase::Stopped);
}

#[test]
fn execution_gate_unload_waits_and_rejects_new_execution() {
    let mut gate = McpExecutionGate::new();
    gate.mark_running().expect("gate should run");
    let guard = gate.begin_execution().ok().expect("execution should start");

    assert_eq!(
        gate.begin_unload_stop(),
        UnloadProgress::Wait(UnloadWait::Idle)
    );
    assert_eq!(gate.phase(), McpExecutionPhase::Stopping);
    let execution_error = match gate.begin_execution() {
        Ok(_) => panic!("stopping gate must reject execution"),
        Err(error) => error,
    };
    assert_eq!(execution_error, EXECUTION_UNAVAILABLE_ERROR);
    assert_eq!(
        gate.continue_unload_stop(UnloadWait::Idle),
        UnloadProgress::Wait(UnloadWait::Idle),
        "unload must remain blocked while the guard is active"
    );

    gate.finish_execution(guard);
    assert_eq!(
        gate.continue_unload_stop(UnloadWait::Idle),
        UnloadProgress::Finished(true)
    );
    gate.finish_stopped();
    assert_eq!(gate.phase(), McpExecutionPhase::Stopped);
}

#[test]
fn a_gate_opens_once_and_closes_once() {
    let mut gate = McpExecutionGate::new();
    assert_eq!(gate.ensure_startable(), Ok(()));
    assert_eq!(gate.begin_command_stop(), Ok(false));
    assert_eq!(gate.begin_unload_stop(), UnloadProgress::Finished(false));
    assert_eq!(
        gate.begin_execution().err().as_deref(),
        Some(EXECUTION_UNAVAILABLE_ERROR)
    );
    gate.mark_running().expect("gate should run");
    assert_eq!(
        gate.mark_running(),
        Err(GATE_NOT_STOPPED_ERROR.to_string())
    );
    assert_eq!(
        gate.ensure_startable(),
        Err(EXECUTION_UNAVAILABLE_ERROR.to_string())
    );
    assert_eq!(gate.begin_command_stop(), Ok(true));
    assert_eq!(
        gate.begin_command_stop(),
        Err(EXECUTION_UNAVAILABLE_ERROR.to_string())
    );
    assert_eq!(
        gate.begin_unload_stop(),
        UnloadProgress::Wait(UnloadWait::OtherStop)
    );
    gate.restore_running();
    assert_eq!(gate.phase(), McpExecutionPhase::Running);
    assert_eq!(
        gate.continue_unload_stop(UnloadWait::OtherStop),
        UnloadProgress::Finished(false)
    );
}
