//! The running server of the extension: its status, its session, and what events and captures
//! mean for it.

use vstd::prelude::*;

use crate::execution_gate::{GateOp, McpExecutionGate, McpExecutionGuard};
use crate::session;
use crate::session::{
    reduce_session_event, snapshot_generation_can_publish, Session, SessionEvent, SessionState,
};
use crate::text;

verus! {

pub const SERVER_LOCK_POISONED: &'static str = "server state lock poisoned";

pub const GATE_LOCK_POISONED: &'static str = "execution gate state lock poisoned";

pub const WORKER_UNAVAILABLE: &'static str = "snapshot worker is unavailable";

pub const SERVER_PANICKED: &'static str = "plugin server thread panicked";

/// A lock whose holder panicked.
#[derive(Debug, Clone, Copy, PartialEq, Eq, Structural)]
pub struct LockPoisoned;

/// The endpoint of a running server, and the file in the registry that names it.
#[derive(Debug)]
pub struct PluginServerStatus {
    pub mcp_url: String,
    pub registry_path: Option<String>,
}

/// What the fields of a [`PluginServerStatus`] hold.
pub struct StatusView {
    pub mcp_url: Seq<char>,
    pub registry_path: Option<Seq<char>>,
}

impl View for PluginServerStatus {
    type V = StatusView;

    open spec fn view(&self) -> StatusView {
        StatusView { mcp_url: self.mcp_url@, registry_path: text::text_of(self.registry_path) }
    }
}

impl Clone for PluginServerStatus {
    fn clone(&self) -> (r: Self)
        ensures
            r@ == self@,
    {
        PluginServerStatus {
            mcp_url: self.mcp_url.clone(),
            registry_path: text::owned_text(text::as_text(&self.registry_path)),
        }
    }
}

/// A status that may be missing, and a result of one.
pub open spec fn status_of(o: Option<PluginServerStatus>) -> Option<StatusView> {
    match o {
        Some(status) => Some(status@),
        None => None,
    }
}

pub open spec fn status_outcome(r: Result<PluginServerStatus, String>) -> Result<
    StatusView,
    Seq<char>,
> {
    match r {
        Ok(status) => Ok(status@),
        Err(error) => Err(error@),
    }
}

pub open spec fn stop_outcome(r: Result<Option<PluginServerStatus>, String>) -> Result<
    Option<StatusView>,
    Seq<char>,
> {
    match r {
        Ok(status) => Ok(status_of(status)),
        Err(error) => Err(error@),
    }
}

/// A server that runs: its status, the session it serves, and whether it has a file in the
/// registry and a worker for snapshots.
pub struct RunningPluginServer {
    status: PluginServerStatus,
    has_registry: bool,
    has_worker: bool,
    session_state: SessionState,
    session_generation: u64,
}

/// What a [`RunningPluginServer`] holds.
pub struct RunningView {
    pub status: StatusView,
    pub has_registry: bool,
    pub has_worker: bool,
    pub session: Session,
}

impl View for RunningPluginServer {
    type V = RunningView;

    closed spec fn view(&self) -> RunningView {
        RunningView {
            status: self.status@,
            has_registry: self.has_registry,
            has_worker: self.has_worker,
            session: Session { state: self.session_state, generation: self.session_generation },
        }
    }
}

/// The server that a slot holds, if it holds one.
pub open spec fn running_of(slot: Option<RunningPluginServer>) -> Option<RunningView> {
    match slot {
        Some(running) => Some(running@),
        None => None,
    }
}

impl RunningPluginServer {
    /// A server that has just started, without a session.
    pub fn new(status: PluginServerStatus, has_registry: bool, has_worker: bool) -> (r: Self)
        ensures
            r@ == RunningView::started(status@, has_registry, has_worker),
    {
        RunningPluginServer {
            status,
            has_registry,
            has_worker,
            session_state: SessionState::Inactive,
            session_generation: 0,
        }
    }

    /// The status of the server.
    pub fn status(&self) -> (r: &PluginServerStatus)
        ensures
            r@ == self@.status,
    {
        &self.status
    }

    /// Whether the server has a file in the registry.
    pub fn has_registry(&self) -> (r: bool)
        ensures
            r == self@.has_registry,
    {
        self.has_registry
    }

    /// Whether the server has a worker for snapshots.
    pub fn has_worker(&self) -> (r: bool)
        ensures
            r == self@.has_worker,
    {
        self.has_worker
    }
}

/// What an event asks of the worker.
#[derive(Debug, Clone, Copy, PartialEq, Eq, Structural)]
pub enum WorkerRequest {
    Nothing,
    /// A capture is wanted, and there is no worker.
    Unavailable,
    /// A capture for this generation.
    Capture(u64),
}

/// What an event asks for: to clear the target in the registry, and a capture.
#[derive(Debug, Clone, Copy, PartialEq, Eq, Structural)]
pub struct SessionEffects {
    pub clear_target: bool,
    pub request: WorkerRequest,
}

impl RunningView {
    /// A server that has just started, without a session.
    pub open spec fn started(status: StatusView, has_registry: bool, has_worker: bool) -> Self {
        RunningView {
            status,
            has_registry,
            has_worker,
            session: Session { state: SessionState::Inactive, generation: 0 },
        }
    }

    /// What a capture for a generation asks of the worker.
    pub open spec fn request(self, generation: u64) -> WorkerRequest {
        if self.has_worker {
            WorkerRequest::Capture(generation)
        } else {
            WorkerRequest::Unavailable
        }
    }

    /// What an event asks for. There is a target to clear only in a registry.
    pub open spec fn effects(self, event: SessionEvent) -> SessionEffects {
        let transition = session::transition_of(
            self.session.state,
            self.session.generation,
            event,
        );
        SessionEffects {
            clear_target: transition.clear_target && self.has_registry,
            request: match transition.capture_generation {
                Some(generation) => self.request(generation),
                None => WorkerRequest::Nothing,
            },
        }
    }

    pub open spec fn overflows(self, event: SessionEvent) -> bool {
        session::overflows(self.session.state, self.session.generation, event)
    }
}

/// What is to be done with a snapshot that was captured.
#[derive(Debug, Clone, Copy, PartialEq, Eq, Structural)]
pub enum PublishDecision {
    /// It is out of date, or there is no server.
    Discard,
    /// It counts as published; there is no registry to write it to.
    Accept,
    Write,
}

pub open spec fn publish_decision(
    running: Option<RunningView>,
    generation: u64,
) -> PublishDecision {
    match running {
        None => PublishDecision::Discard,
        Some(running) => if !session::can_publish(
            running.session.state,
            running.session.generation,
            generation,
        ) {
            PublishDecision::Discard
        } else if running.has_registry {
            PublishDecision::Write
        } else {
            PublishDecision::Accept
        },
    }
}

/// What is to be done with a snapshot that was captured for `generation`.
pub fn publish_target_snapshot(
    running: Result<&Option<RunningPluginServer>, LockPoisoned>,
    generation: u64,
) -> (r: Result<PublishDecision, String>)
    ensures
        text::outcome_of(r) == (match running {
            Ok(running) => Ok(publish_decision(running_of(*running), generation)),
            Err(_) => Err(SERVER_LOCK_POISONED@),
        }),
{
    let running = match running {
        Ok(running) => running,
        Err(_) => {
            return Err(SERVER_LOCK_POISONED.to_owned());
        },
    };
    match running {
        None => Ok(PublishDecision::Discard),
        Some(running) => if !snapshot_generation_can_publish(
            running.session_state,
            running.session_generation,
            generation,
        ) {
            Ok(PublishDecision::Discard)
        } else if running.has_registry {
            Ok(PublishDecision::Write)
        } else {
            Ok(PublishDecision::Accept)
        },
    }
}

/// Whether a snapshot was published, or the error of writing it; `written` is how the writing
/// ended where there was any.
pub fn publish_result(decision: PublishDecision, written: Result<(), String>) -> (r: Result<
    bool,
    String,
>)
    ensures
        text::outcome_of(r) == (match decision {
            PublishDecision::Discard => Ok(false),
            PublishDecision::Accept => Ok(true),
            PublishDecision::Write => match text::outcome_of(written) {
                Ok(()) => Ok(true),
                Err(error) => Err(error),
            },
        }),
        r == Ok::<bool, String>(false) <==> decision == PublishDecision::Discard,
        r is Err <==> decision == PublishDecision::Write && written is Err,
{
    match decision {
        PublishDecision::Discard => Ok(false),
        PublishDecision::Accept => Ok(true),
        PublishDecision::Write => match written {
            Ok(()) => Ok(true),
            Err(error) => Err(error),
        },
    }
}

/// The first of two errors, where there is one.
pub open spec fn first_error(
    first: Result<(), Seq<char>>,
    second: Result<(), Seq<char>>,
) -> Result<(), Seq<char>> {
    if first is Err {
        first
    } else {
        second
    }
}

/// How an event ended: both of its effects are attempted, and the first error is told.
pub open spec fn effects_result(
    effects: SessionEffects,
    cleared: Result<(), Seq<char>>,
    requested: Result<(), Seq<char>>,
) -> Result<(), Seq<char>> {
    first_error(
        if effects.clear_target {
            cleared
        } else {
            Ok(())
        },
        match effects.request {
            WorkerRequest::Nothing => Ok(()),
            WorkerRequest::Unavailable => Err(WORKER_UNAVAILABLE@),
            WorkerRequest::Capture(_) => requested,
        },
    )
}

/// How an event ended, from how its effects ended, as far as it had them.
pub fn session_event_result(
    effects: SessionEffects,
    cleared: Result<(), String>,
    requested: Result<(), String>,
) -> (r: Result<(), String>)
    ensures
        text::outcome_of(r) == effects_result(
            effects,
            text::outcome_of(cleared),
            text::outcome_of(requested),
        ),
{
    if effects.clear_target {
        if let Err(error) = cleared {
            return Err(error);
        }
    }
    match effects.request {
        WorkerRequest::Nothing => Ok(()),
        WorkerRequest::Unavailable => Err(WORKER_UNAVAILABLE.to_owned()),
        WorkerRequest::Capture(_) => requested,
    }
}

/// The operations on the server of the extension. The state that they share, a slot for the
/// running server, the execution gate and a slot for the dispatcher, is held by the caller,
/// each under a lock of its own.
pub struct PluginServerControl;

impl PluginServerControl {
    /// The status of the server that runs, if one does.
    pub fn status(running: Result<&Option<RunningPluginServer>, LockPoisoned>) -> (r: Result<
        Option<PluginServerStatus>,
        String,
    >)
        ensures
            stop_outcome(r) == (match running {
                Ok(running) => Ok(
                    match running_of(*running) {
                        Some(running) => Some(running.status),
                        None => None,
                    },
                ),
                Err(_) => Err(SERVER_LOCK_POISONED@),
            }),
    {
        match running {
            Ok(running) => match running {
                Some(running) => Ok(Some(running.status.clone())),
                None => Ok(None),
            },
            Err(_) => Err(SERVER_LOCK_POISONED.to_owned()),
        }
    }

    /// Lets one command execute, while the server runs.
    pub fn begin_execution(gate: Result<&mut McpExecutionGate, LockPoisoned>) -> (r: Result<
        McpExecutionGuard,
        String,
    >)
        ensures
            match gate {
                Ok(gate) => {
                    &&& r is Ok <==> gate@.execution_error() is None
                    &&& r is Err ==> gate@.execution_error() == Some(r->Err_0@)
                    &&& final(gate)@ == gate@.after(GateOp::BeginExecution)
                },
                Err(_) => r is Err && r->Err_0@ == GATE_LOCK_POISONED@,
            },
    {
        match gate {
            Ok(gate) => gate.begin_execution(),
            Err(_) => Err(GATE_LOCK_POISONED.to_owned()),
        }
    }

    /// Applies an event to the session of the running server, and tells what it asks for.
    /// Without a server it asks for nothing; one that is refused changes nothing.
    pub fn apply_session_event(
        running: Result<&mut Option<RunningPluginServer>, LockPoisoned>,
        event: SessionEvent,
    ) -> (r: Result<SessionEffects, String>)
        ensures
            match running {
                Err(_) => text::outcome_of(r) == Err::<SessionEffects, Seq<char>>(
                    SERVER_LOCK_POISONED@,
                ),
                Ok(running) => match running_of(*running) {
                    None => {
                        &&& r == Ok::<SessionEffects, String>(
                            SessionEffects { clear_target: false, request: WorkerRequest::Nothing },
                        )
                        &&& running_of(*final(running)) is None
                    },
                    Some(server) => {
                        &&& text::outcome_of(r) == (if server.overflows(event) {
                            Err("session generation overflow"@)
                        } else {
                            Ok(server.effects(event))
                        })
                        &&& running_of(*final(running)) == Some(
                            RunningView { session: server.session.after(event), ..server },
                        )
                    },
                },
            },
    {
        let running = match running {
            Ok(running) => running,
            Err(_) => {
                return Err(SERVER_LOCK_POISONED.to_owned());
            },
        };
        match running {
            None => Ok(
                SessionEffects { clear_target: false, request: WorkerRequest::Nothing },
            ),
            Some(server) => {
                let transition = match reduce_session_event(
                    &mut server.session_state,
                    &mut server.session_generation,
                    event,
                ) {
                    Ok(transition) => transition,
                    Err(error) => {
                        return Err(error);
                    },
                };
                Ok(
                    SessionEffects {
                        clear_target: transition.clear_target && server.has_registry,
                        request: match transition.capture_generation {
                            Some(generation) => if server.has_worker {
                                WorkerRequest::Capture(generation)
                            } else {
                                WorkerRequest::Unavailable
                            },
                            None => WorkerRequest::Nothing,
                        },
                    },
                )
            },
        }
    }

    /// The generation for which the target is to be captured anew, if it is: there is a server
    /// and its target is accessible.
    pub fn request_target_snapshot_refresh(
        running: Result<&Option<RunningPluginServer>, LockPoisoned>,
    ) -> (r: Result<Option<u64>, String>)
        ensures
            text::outcome_of(r) == (match running {
                Err(_) => Err(SERVER_LOCK_POISONED@),
                Ok(running) => match running_of(*running) {
                    None => Ok(None),
                    Some(server) => if server.session.state != SessionState::Accessible {
                        Ok(None)
                    } else if server.has_worker {
                        Ok(Some(server.session.generation))
                    } else {
                        Err(WORKER_UNAVAILABLE@)
                    },
                },
            }),
            running is Ok && r is Ok ==> (match r->Ok_0 {
                Some(generation) => publish_decision(running_of(*running->Ok_0), generation)
                    != PublishDecision::Discard,
                None => forall|generation: u64|
                    #[trigger] publish_decision(running_of(*running->Ok_0), generation)
                        == PublishDecision::Discard,
            }),
    {
        let running = match running {
            Ok(running) => running,
            Err(_) => {
                return Err(SERVER_LOCK_POISONED.to_owned());
            },
        };
        match running {
            None => Ok(None),
            Some(server) => if server.session_state != SessionState::Accessible {
                Ok(None)
            } else if server.has_worker {
                Ok(Some(server.session_generation))
            } else {
                Err(WORKER_UNAVAILABLE.to_owned())
            },
        }
    }
}

/// A snapshot that is asked for in one moment of a session and captured in another is written
/// only if it was asked for in the same generation and the target is accessible again or
/// still: no other snapshot reaches the registry.
pub proof fn only_current_snapshots_reach_the_registry(running: RunningView, generation: u64)
    ensures
        publish_decision(Some(running), generation) != PublishDecision::Discard <==> (
        running.session.state == SessionState::Accessible && running.session.generation
            == generation),
        publish_decision(None, generation) == PublishDecision::Discard,
{
}

/// After an accessible event, the snapshot that it asks for can be published, until the
/// session changes.
pub proof fn a_requested_snapshot_can_be_published(running: RunningView)
    requires
        !running.overflows(SessionEvent::Accessible),
        running.has_worker,
    ensures
        ({
            let after = RunningView {
                session: running.session.after(SessionEvent::Accessible),
                ..running
            };
            &&& running.effects(SessionEvent::Accessible).request == WorkerRequest::Capture(
                after.session.generation,
            )
            &&& publish_decision(Some(after), after.session.generation)
                != PublishDecision::Discard
        }),
{
}

/// What an event asks for, by where the session is: the target in the registry is cleared when
/// a session begins and when one ends, and a capture is asked of the worker whenever the
/// target is accessible, for the generation that the session then has.
pub proof fn an_event_asks_for_what_the_session_needs(running: RunningView)
    ensures
        ({
            let state = running.session.state;
            let generation = running.session.generation;
            let begins = running.effects(SessionEvent::Active);
            let ends = running.effects(SessionEvent::Inactive);
            let reached = running.effects(SessionEvent::Accessible);
            let lost = running.effects(SessionEvent::Inaccessible);
            &&& begins.clear_target <==> running.has_registry && state == SessionState::Inactive
            &&& ends.clear_target <==> running.has_registry && state != SessionState::Inactive
            &&& !reached.clear_target
            &&& !lost.clear_target
            &&& begins.request == WorkerRequest::Nothing
            &&& ends.request == WorkerRequest::Nothing
            &&& lost.request == WorkerRequest::Nothing
            &&& !running.has_worker ==> reached.request == WorkerRequest::Unavailable
            &&& running.has_worker && state == SessionState::Accessible ==> reached.request
                == WorkerRequest::Capture(generation)
            &&& running.has_worker && state != SessionState::Accessible && generation < u64::MAX
                ==> reached.request == WorkerRequest::Capture((generation + 1) as u64)
        }),
{
}

/// An event goes well where all that it asked for did; else it tells the error of the clearing,
/// and only without one that of the request. What it did not ask for does not count.
pub proof fn an_event_tells_its_first_error(
    effects: SessionEffects,
    cleared: Result<(), Seq<char>>,
    requested: Result<(), Seq<char>>,
    error: Seq<char>,
)
    ensures
        effects.clear_target && cleared == Err::<(), Seq<char>>(error) ==> effects_result(
            effects,
            cleared,
            requested,
        ) == Err::<(), Seq<char>>(error),
        !effects.clear_target || cleared is Ok ==> {
            let result = effects_result(effects, cleared, requested);
            &&& effects.request == WorkerRequest::Nothing ==> result is Ok
            &&& effects.request == WorkerRequest::Unavailable ==> result == Err::<(), Seq<char>>(
                "snapshot worker is unavailable"@,
            )
            &&& effects.request is Capture ==> result == requested
        },
{
}

/// A snapshot of the generation that is current is written to the registry where there is one,
/// and counts as published where there is none.
pub proof fn a_current_snapshot_is_written_where_there_is_a_registry(
    running: RunningView,
    generation: u64,
)
    requires
        running.session.state == SessionState::Accessible,
        running.session.generation == generation,
    ensures
        publish_decision(Some(running), generation) == PublishDecision::Write
            <==> running.has_registry,
        publish_decision(Some(running), generation) == PublishDecision::Accept
            <==> !running.has_registry,
{
}

/// A server that has just started publishes nothing: it has no session. The first one that
/// begins asks for nothing but to clear the target, and the first capture is for the second
/// generation.
pub proof fn a_server_starts_without_a_session(
    status: StatusView,
    has_registry: bool,
    has_worker: bool,
    generation: u64,
)
    ensures
        ({
            let started = RunningView::started(status, has_registry, has_worker);
            let active = RunningView {
                session: started.session.after(SessionEvent::Active),
                ..started
            };
            &&& started.status == status
            &&& started.has_registry == has_registry
            &&& started.has_worker == has_worker
            &&& publish_decision(Some(started), generation) == PublishDecision::Discard
            &&& started.effects(SessionEvent::Active) == (SessionEffects {
                clear_target: has_registry,
                request: WorkerRequest::Nothing,
            })
            &&& publish_decision(Some(active), generation) == PublishDecision::Discard
            &&& has_worker ==> active.effects(SessionEvent::Accessible).request
                == WorkerRequest::Capture(2)
        }),
{
}

/// What is told where a lock, a thread or the worker fails.
pub proof fn failures_of_the_server_are_told_apart()
    ensures
        SERVER_LOCK_POISONED@ == "server state lock poisoned"@,
        GATE_LOCK_POISONED@ == "execution gate state lock poisoned"@,
        WORKER_UNAVAILABLE@ == "snapshot worker is unavailable"@,
        SERVER_PANICKED@ == "plugin server thread panicked"@,
{
}

} // verus!
