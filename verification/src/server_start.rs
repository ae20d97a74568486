//! Starting the server: the order in which a start goes through the server, the execution gate, the
//! registry and the worker, and what it undoes where it fails.

use vstd::prelude::*;

use crate::execution_gate::{GateOp, McpExecutionGate, GATE_NOT_STOPPED_ERROR};
use crate::plugin_server;
use crate::plugin_server::{
    LockPoisoned, PluginServerControl, PluginServerStatus, RunningPluginServer, RunningView,
    StatusView, GATE_LOCK_POISONED, SERVER_LOCK_POISONED,
};
use crate::server_bind;
use crate::server_bind::bind_address_candidates;
use crate::text;

verus! {

pub const STARTUP_NOT_REPORTED: &'static str = "plugin server failed to report startup status";

pub const SERVER_DISAPPEARED: &'static str = "server disappeared during startup";

/// What a start asks to be done next.
#[derive(Debug, Clone, Copy, PartialEq, Eq, Structural)]
pub enum StartAction {
    /// Look whether a server runs.
    LookForServer,
    /// Ask the execution gate whether a server may start.
    AskGate,
    /// Lock the slot of the server, look again, and keep the lock.
    LockServer,
    /// Start a thread that listens on one of the addresses.
    SpawnServer,
    /// Wait until that thread reports.
    AwaitStartup,
    /// Remove what instances that are gone left in the registry.
    RemoveStaleRegistries,
    /// Write this instance into the registry.
    WriteRegistry,
    /// Start the worker for snapshots.
    SpawnWorker,
    /// Put the server in its slot, and give the lock back.
    Install,
    /// Open the execution gate for commands.
    OpenGate,
    /// Take the server out of its slot again.
    TakeServer,
    /// Clean up after the server that was taken.
    CleanUp,
    /// Cancel the server and wait for its thread.
    CancelServer,
    /// Remove this instance from the registry.
    RemoveRegistry,
    Nothing,
}

/// What came of an action.
pub enum StartEvent {
    ServerSeen(Result<Option<PluginServerStatus>, LockPoisoned>),
    GateAsked(Result<(), String>),
    ServerSpawned(Result<(), String>),
    /// What the thread reported, unless it ended without a report.
    StartupReported(Option<Result<PluginServerStatus, String>>),
    /// The file in the registry, unless it could not be written.
    RegistryWritten(Option<String>),
    WorkerSpawned(Result<(), String>),
    GateOpened(Result<(), String>),
    ServerTaken(Result<Option<RunningPluginServer>, LockPoisoned>),
    Done,
}

/// What a [`StartEvent`] holds.
pub enum StartEventView {
    ServerSeen(Result<Option<StatusView>, LockPoisoned>),
    GateAsked(Result<(), Seq<char>>),
    ServerSpawned(Result<(), Seq<char>>),
    StartupReported(Option<Result<StatusView, Seq<char>>>),
    RegistryWritten(Option<Seq<char>>),
    WorkerSpawned(Result<(), Seq<char>>),
    GateOpened(Result<(), Seq<char>>),
    ServerTaken(Result<Option<RunningView>, LockPoisoned>),
    Done,
}

impl View for StartEvent {
    type V = StartEventView;

    open spec fn view(&self) -> StartEventView {
        match *self {
            StartEvent::ServerSeen(seen) => StartEventView::ServerSeen(
                match seen {
                    Ok(status) => Ok(plugin_server::status_of(status)),
                    Err(poisoned) => Err(poisoned),
                },
            ),
            StartEvent::GateAsked(result) => StartEventView::GateAsked(text::outcome_of(result)),
            StartEvent::ServerSpawned(result) => StartEventView::ServerSpawned(
                text::outcome_of(result),
            ),
            StartEvent::StartupReported(report) => StartEventView::StartupReported(
                match report {
                    Some(report) => Some(plugin_server::status_outcome(report)),
                    None => None,
                },
            ),
            StartEvent::RegistryWritten(path) => StartEventView::RegistryWritten(
                text::text_of(path),
            ),
            StartEvent::WorkerSpawned(result) => StartEventView::WorkerSpawned(
                text::outcome_of(result),
            ),
            StartEvent::GateOpened(result) => StartEventView::GateOpened(text::outcome_of(result)),
            StartEvent::ServerTaken(taken) => StartEventView::ServerTaken(
                match taken {
                    Ok(slot) => Ok(plugin_server::running_of(slot)),
                    Err(poisoned) => Err(poisoned),
                },
            ),
            StartEvent::Done => StartEventView::Done,
        }
    }
}

enum StartStage {
    Looking,
    AskingGate,
    Locking,
    Spawning,
    Awaiting,
    RemovingStale(PluginServerStatus),
    Writing(PluginServerStatus),
    SpawningWorker(PluginServerStatus, bool),
    Installing(PluginServerStatus, bool),
    OpeningGate(PluginServerStatus),
    TakingBack(String),
    CleaningUp(RunningPluginServer, String),
    Cancelling(String, bool),
    RemovingRegistry(String),
    Finished(Result<PluginServerStatus, String>),
}

/// How far a start has come. Beside the status stands whether it is in the registry; beside
/// an error that there is something to undo first.
pub enum StartView {
    Looking,
    AskingGate,
    Locking,
    Spawning,
    Awaiting,
    RemovingStale(StatusView),
    Writing(StatusView),
    SpawningWorker(StatusView, bool),
    Installing(StatusView, bool),
    OpeningGate(StatusView),
    TakingBack(Seq<char>),
    CleaningUp(RunningView, Seq<char>),
    Cancelling(Seq<char>, bool),
    RemovingRegistry(Seq<char>),
    Finished(Result<StatusView, Seq<char>>),
}

impl StartView {
    /// What is to be done next.
    pub open spec fn action(self) -> StartAction {
        match self {
            StartView::Looking => StartAction::LookForServer,
            StartView::AskingGate => StartAction::AskGate,
            StartView::Locking => StartAction::LockServer,
            StartView::Spawning => StartAction::SpawnServer,
            StartView::Awaiting => StartAction::AwaitStartup,
            StartView::RemovingStale(_) => StartAction::RemoveStaleRegistries,
            StartView::Writing(_) => StartAction::WriteRegistry,
            StartView::SpawningWorker(_, _) => StartAction::SpawnWorker,
            StartView::Installing(_, _) => StartAction::Install,
            StartView::OpeningGate(_) => StartAction::OpenGate,
            StartView::TakingBack(_) => StartAction::TakeServer,
            StartView::CleaningUp(_, _) => StartAction::CleanUp,
            StartView::Cancelling(_, _) => StartAction::CancelServer,
            StartView::RemovingRegistry(_) => StartAction::RemoveRegistry,
            StartView::Finished(_) => StartAction::Nothing,
        }
    }

    /// Where a start is after it looked for a server: a server that runs is left alone.
    pub open spec fn seen(
        seen: Result<Option<StatusView>, LockPoisoned>,
        otherwise: StartView,
    ) -> StartView {
        match seen {
            Err(_) => StartView::Finished(Err(SERVER_LOCK_POISONED@)),
            Ok(Some(status)) => StartView::Finished(Ok(status)),
            Ok(None) => otherwise,
        }
    }

    /// Where a start is after an event. One that does not answer its action changes nothing.
    pub open spec fn after(self, event: StartEventView) -> StartView {
        match (self, event) {
            (StartView::Looking, StartEventView::ServerSeen(seen)) => StartView::seen(
                seen,
                StartView::AskingGate,
            ),
            (StartView::AskingGate, StartEventView::GateAsked(Ok(()))) => StartView::Locking,
            (StartView::AskingGate, StartEventView::GateAsked(Err(error))) => StartView::Finished(
                Err(error),
            ),
            (StartView::Locking, StartEventView::ServerSeen(seen)) => StartView::seen(
                seen,
                StartView::Spawning,
            ),
            (StartView::Spawning, StartEventView::ServerSpawned(Ok(()))) => StartView::Awaiting,
            (StartView::Spawning, StartEventView::ServerSpawned(Err(error))) => StartView::Finished(
                Err(error),
            ),
            (StartView::Awaiting, StartEventView::StartupReported(report)) => match report {
                Some(Ok(status)) => StartView::RemovingStale(status),
                Some(Err(error)) => StartView::Cancelling(error, false),
                None => StartView::Cancelling(STARTUP_NOT_REPORTED@, false),
            },
            (StartView::RemovingStale(status), StartEventView::Done) => StartView::Writing(status),
            (
                StartView::Writing(status),
                StartEventView::RegistryWritten(path),
            ) => StartView::SpawningWorker(
                StatusView { registry_path: path, ..status },
                path is Some,
            ),
            (
                StartView::SpawningWorker(status, in_registry),
                StartEventView::WorkerSpawned(Ok(())),
            ) => StartView::Installing(status, in_registry),
            (
                StartView::SpawningWorker(_, in_registry),
                StartEventView::WorkerSpawned(Err(error)),
            ) => StartView::Cancelling(error, in_registry),
            (StartView::Installing(status, _), StartEventView::Done) => StartView::OpeningGate(
                status,
            ),
            (
                StartView::OpeningGate(status),
                StartEventView::GateOpened(Ok(())),
            ) => StartView::Finished(Ok(status)),
            (
                StartView::OpeningGate(_),
                StartEventView::GateOpened(Err(error)),
            ) => StartView::TakingBack(error),
            (StartView::TakingBack(error), StartEventView::ServerTaken(taken)) => match taken {
                Err(_) => StartView::Finished(Err(SERVER_LOCK_POISONED@)),
                Ok(None) => StartView::Finished(Err(SERVER_DISAPPEARED@)),
                Ok(Some(running)) => StartView::CleaningUp(running, error),
            },
            (StartView::CleaningUp(_, error), StartEventView::Done) => StartView::Finished(
                Err(error),
            ),
            (StartView::Cancelling(error, false), StartEventView::Done) => StartView::Finished(
                Err(error),
            ),
            (
                StartView::Cancelling(error, true),
                StartEventView::Done,
            ) => StartView::RemovingRegistry(error),
            (StartView::RemovingRegistry(error), StartEventView::Done) => StartView::Finished(
                Err(error),
            ),
            _ => self,
        }
    }

    /// Where a start is after a row of events.
    pub open spec fn run(self, events: Seq<StartEventView>) -> StartView
        decreases events.len(),
    {
        if events.len() == 0 {
            self
        } else {
            self.after(events.first()).run(events.drop_first())
        }
    }

    /// The server that is put in its slot.
    pub open spec fn installed(self) -> Option<RunningView> {
        match self {
            StartView::Installing(status, in_registry) => Some(
                RunningView::started(status, in_registry, true),
            ),
            _ => None,
        }
    }
}

/// A start under way.
pub struct StartSequence {
    addresses: Vec<String>,
    stage: StartStage,
}

impl View for StartSequence {
    type V = StartView;

    closed spec fn view(&self) -> StartView {
        match self.stage {
            StartStage::Looking => StartView::Looking,
            StartStage::AskingGate => StartView::AskingGate,
            StartStage::Locking => StartView::Locking,
            StartStage::Spawning => StartView::Spawning,
            StartStage::Awaiting => StartView::Awaiting,
            StartStage::RemovingStale(status) => StartView::RemovingStale(status@),
            StartStage::Writing(status) => StartView::Writing(status@),
            StartStage::SpawningWorker(status, in_registry) => StartView::SpawningWorker(
                status@,
                in_registry,
            ),
            StartStage::Installing(status, in_registry) => StartView::Installing(
                status@,
                in_registry,
            ),
            StartStage::OpeningGate(status) => StartView::OpeningGate(status@),
            StartStage::TakingBack(error) => StartView::TakingBack(error@),
            StartStage::CleaningUp(running, error) => StartView::CleaningUp(running@, error@),
            StartStage::Cancelling(error, in_registry) => StartView::Cancelling(
                error@,
                in_registry,
            ),
            StartStage::RemovingRegistry(error) => StartView::RemovingRegistry(error@),
            StartStage::Finished(result) => StartView::Finished(
                plugin_server::status_outcome(result),
            ),
        }
    }
}

impl StartSequence {
    /// The addresses that the server is to try.
    pub closed spec fn candidates(&self) -> Seq<Seq<char>> {
        text::texts(self.addresses@)
    }

    /// The addresses that the server is to try, in their order.
    pub fn addresses(&self) -> (r: &Vec<String>)
        ensures
            text::texts(r@) == self.candidates(),
    {
        &self.addresses
    }

    /// What is to be done next.
    pub fn action(&self) -> (r: StartAction)
        ensures
            r == self@.action(),
    {
        match &self.stage {
            StartStage::Looking => StartAction::LookForServer,
            StartStage::AskingGate => StartAction::AskGate,
            StartStage::Locking => StartAction::LockServer,
            StartStage::Spawning => StartAction::SpawnServer,
            StartStage::Awaiting => StartAction::AwaitStartup,
            StartStage::RemovingStale(_) => StartAction::RemoveStaleRegistries,
            StartStage::Writing(_) => StartAction::WriteRegistry,
            StartStage::SpawningWorker(_, _) => StartAction::SpawnWorker,
            StartStage::Installing(_, _) => StartAction::Install,
            StartStage::OpeningGate(_) => StartAction::OpenGate,
            StartStage::TakingBack(_) => StartAction::TakeServer,
            StartStage::CleaningUp(_, _) => StartAction::CleanUp,
            StartStage::Cancelling(_, _) => StartAction::CancelServer,
            StartStage::RemovingRegistry(_) => StartAction::RemoveRegistry,
            StartStage::Finished(_) => StartAction::Nothing,
        }
    }

    /// The status to write into the registry.
    pub fn status(&self) -> (r: Option<&PluginServerStatus>)
        ensures
            match (r, self@) {
                (Some(status), StartView::Writing(view)) => status@ == view,
                (None, StartView::Writing(_)) => false,
                (Some(_), _) => false,
                (None, _) => true,
            },
    {
        match &self.stage {
            StartStage::Writing(status) => Some(status),
            _ => None,
        }
    }

    /// The server to put in its slot.
    pub fn server(&self) -> (r: Option<RunningPluginServer>)
        ensures
            plugin_server::running_of(r) == self@.installed(),
    {
        match &self.stage {
            StartStage::Installing(status, in_registry) => Some(
                RunningPluginServer::new(status.clone(), *in_registry, true),
            ),
            _ => None,
        }
    }

    /// The server to clean up after.
    pub fn taken(&self) -> (r: Option<&RunningPluginServer>)
        ensures
            match (r, self@) {
                (Some(running), StartView::CleaningUp(view, _)) => running@ == view,
                (None, StartView::CleaningUp(_, _)) => false,
                (Some(_), _) => false,
                (None, _) => true,
            },
    {
        match &self.stage {
            StartStage::CleaningUp(running, _) => Some(running),
            _ => None,
        }
    }

    /// Takes in what came of the action.
    pub fn advance(self, event: StartEvent) -> (r: Self)
        ensures
            r@ == self@.after(event@),
            r.candidates() == self.candidates(),
    {
        let stage = match (self.stage, event) {
            (StartStage::Looking, StartEvent::ServerSeen(seen)) => match seen {
                Err(_) => StartStage::Finished(Err(SERVER_LOCK_POISONED.to_owned())),
                Ok(Some(status)) => StartStage::Finished(Ok(status)),
                Ok(None) => StartStage::AskingGate,
            },
            (StartStage::AskingGate, StartEvent::GateAsked(result)) => match result {
                Ok(()) => StartStage::Locking,
                Err(error) => StartStage::Finished(Err(error)),
            },
            (StartStage::Locking, StartEvent::ServerSeen(seen)) => match seen {
                Err(_) => StartStage::Finished(Err(SERVER_LOCK_POISONED.to_owned())),
                Ok(Some(status)) => StartStage::Finished(Ok(status)),
                Ok(None) => StartStage::Spawning,
            },
            (StartStage::Spawning, StartEvent::ServerSpawned(result)) => match result {
                Ok(()) => StartStage::Awaiting,
                Err(error) => StartStage::Finished(Err(error)),
            },
            (StartStage::Awaiting, StartEvent::StartupReported(report)) => match report {
                Some(Ok(status)) => StartStage::RemovingStale(status),
                Some(Err(error)) => StartStage::Cancelling(error, false),
                None => StartStage::Cancelling(STARTUP_NOT_REPORTED.to_owned(), false),
            },
            (StartStage::RemovingStale(status), StartEvent::Done) => StartStage::Writing(status),
            (StartStage::Writing(status), StartEvent::RegistryWritten(path)) => {
                let in_registry = path.is_some();
                StartStage::SpawningWorker(
                    PluginServerStatus { mcp_url: status.mcp_url, registry_path: path },
                    in_registry,
                )
            },
            (
                StartStage::SpawningWorker(status, in_registry),
                StartEvent::WorkerSpawned(result),
            ) => match result {
                Ok(()) => StartStage::Installing(status, in_registry),
                Err(error) => StartStage::Cancelling(error, in_registry),
            },
            (StartStage::Installing(status, _), StartEvent::Done) => StartStage::OpeningGate(
                status,
            ),
            (StartStage::OpeningGate(status), StartEvent::GateOpened(result)) => match result {
                Ok(()) => StartStage::Finished(Ok(status)),
                Err(error) => StartStage::TakingBack(error),
            },
            (StartStage::TakingBack(error), StartEvent::ServerTaken(taken)) => match taken {
                Err(_) => StartStage::Finished(Err(SERVER_LOCK_POISONED.to_owned())),
                Ok(None) => StartStage::Finished(Err(SERVER_DISAPPEARED.to_owned())),
                Ok(Some(running)) => StartStage::CleaningUp(running, error),
            },
            (StartStage::CleaningUp(_, error), StartEvent::Done) => StartStage::Finished(
                Err(error),
            ),
            (StartStage::Cancelling(error, in_registry), StartEvent::Done) => if in_registry {
                StartStage::RemovingRegistry(error)
            } else {
                StartStage::Finished(Err(error))
            },
            (StartStage::RemovingRegistry(error), StartEvent::Done) => StartStage::Finished(
                Err(error),
            ),
            (stage, _) => stage,
        };
        StartSequence { addresses: self.addresses, stage }
    }

    /// What the start gives, once it is finished.
    pub fn result(self) -> (r: Option<Result<PluginServerStatus, String>>)
        ensures
            match (r, self@) {
                (Some(result), StartView::Finished(view)) => plugin_server::status_outcome(result)
                    == view,
                (None, StartView::Finished(_)) => false,
                (Some(_), _) => false,
                (None, _) => true,
            },
    {
        match self.stage {
            StartStage::Finished(result) => Some(result),
            _ => None,
        }
    }
}

/// Whether the execution gate lets a server start.
pub fn ask_gate(gate: Result<&McpExecutionGate, LockPoisoned>) -> (r: Result<(), String>)
    ensures
        text::outcome_of(r) == (match gate {
            Ok(gate) => gate@.startable(),
            Err(_) => Err(GATE_LOCK_POISONED@),
        }),
{
    match gate {
        Ok(gate) => gate.ensure_startable(),
        Err(_) => Err(GATE_LOCK_POISONED.to_owned()),
    }
}

/// Opens the execution gate for a server that has started.
pub fn open_gate(gate: Result<&mut McpExecutionGate, LockPoisoned>) -> (r: Result<(), String>)
    ensures
        match gate {
            Ok(gate) => {
                &&& text::outcome_of(r) == (if gate@.can_run() {
                    Ok(())
                } else {
                    Err(GATE_NOT_STOPPED_ERROR@)
                })
                &&& final(gate)@ == gate@.after(GateOp::MarkRunning)
                &&& r is Ok ==> final(gate)@.execution_error() is None
                &&& r is Err ==> final(gate)@ == gate@
            },
            Err(_) => text::outcome_of(r) == Err::<(), Seq<char>>(GATE_LOCK_POISONED@),
        },
{
    match gate {
        Ok(gate) => gate.mark_running(),
        Err(_) => Err(GATE_LOCK_POISONED.to_owned()),
    }
}

impl PluginServerControl {
    /// Begins a start on the address that is named, or on the first of the default ones that
    /// is free.
    pub fn start(bind_address: Option<&str>) -> (r: StartSequence)
        ensures
            r@ == StartView::Looking,
            r.candidates() == server_bind::address_candidates(text::text_ref(bind_address)),
    {
        StartSequence {
            addresses: bind_address_candidates(bind_address),
            stage: StartStage::Looking,
        }
    }
}

/// What a start has begun and not undone: the thread of the server, the worker, the file in
/// the registry; and whether all of it was put in the slot, where a stop finds it.
pub struct Held {
    pub thread: bool,
    pub worker: bool,
    pub registry: bool,
    pub slot: bool,
}

impl Held {
    pub open spec fn nothing() -> Held {
        Held { thread: false, worker: false, registry: false, slot: false }
    }

    /// What is held after an event. A server that another caller took is in the hands of
    /// that caller.
    pub open spec fn after(self, start: StartView, event: StartEventView) -> Held {
        match (start, event) {
            (StartView::Spawning, StartEventView::ServerSpawned(Ok(()))) => Held {
                thread: true,
                ..self
            },
            (StartView::Writing(_), StartEventView::RegistryWritten(path)) => Held {
                registry: path is Some,
                ..self
            },
            (StartView::SpawningWorker(_, _), StartEventView::WorkerSpawned(Ok(()))) => Held {
                worker: true,
                ..self
            },
            (StartView::Installing(_, _), StartEventView::Done) => Held { slot: true, ..self },
            (StartView::TakingBack(_), StartEventView::ServerTaken(Ok(Some(_)))) => Held {
                slot: false,
                ..self
            },
            (StartView::TakingBack(_), StartEventView::ServerTaken(Ok(None))) => Held::nothing(),
            (StartView::CleaningUp(_, _), StartEventView::Done) => Held::nothing(),
            (StartView::Cancelling(_, _), StartEventView::Done) => Held { thread: false, ..self },
            (StartView::RemovingRegistry(_), StartEventView::Done) => Held {
                registry: false,
                ..self
            },
            _ => self,
        }
    }

    /// What is held after a row of events.
    pub open spec fn run(self, start: StartView, events: Seq<StartEventView>) -> Held
        decreases events.len(),
    {
        if events.len() == 0 {
            self
        } else {
            self.after(start, events.first()).run(
                start.after(events.first()),
                events.drop_first(),
            )
        }
    }

    /// What is held at each point of a start.
    pub open spec fn fits(self, start: StartView) -> bool {
        match start {
            StartView::Looking
            | StartView::AskingGate
            | StartView::Locking
            | StartView::Spawning => self == Held::nothing(),
            StartView::Awaiting | StartView::RemovingStale(_) | StartView::Writing(_) => self == (
            Held { thread: true, ..Held::nothing() }),
            StartView::SpawningWorker(_, in_registry)
            | StartView::Cancelling(_, in_registry) => self == (Held {
                thread: true,
                registry: in_registry,
                ..Held::nothing()
            }),
            StartView::Installing(_, in_registry) => self == (Held {
                thread: true,
                worker: true,
                registry: in_registry,
                slot: false,
            }),
            StartView::OpeningGate(_)
            | StartView::TakingBack(_) => self.slot && self.thread && self.worker,
            StartView::CleaningUp(_, _) => !self.slot && self.thread && self.worker,
            StartView::RemovingRegistry(_) => self == (Held { registry: true, ..Held::nothing() }),
            StartView::Finished(Ok(_)) => self == Held::nothing() || (self.slot && self.thread
                && self.worker),
            StartView::Finished(Err(error)) => self == Held::nothing() || (error
                == SERVER_LOCK_POISONED@ && self.slot && self.thread && self.worker),
        }
    }
}

/// Whatever happens on the way, a start never leaves behind what it began: where it is
/// finished, there is a whole server in the slot, or nothing of it is left. Where it failed,
/// nothing is left, unless a poisoned lock kept it from the slot.
pub proof fn a_start_leaves_a_whole_server_or_nothing(events: Seq<StartEventView>)
    ensures
        ({
            let held = Held::nothing().run(StartView::Looking, events);
            match StartView::Looking.run(events) {
                StartView::Finished(Ok(_)) => held == Held::nothing() || (held.slot && held.thread
                    && held.worker),
                StartView::Finished(Err(error)) => {
                    &&& error != SERVER_LOCK_POISONED@ ==> held == Held::nothing()
                    &&& held == Held::nothing() || (held.slot && held.thread && held.worker)
                },
                _ => true,
            }
        }),
{
    lemma_held_fits(StartView::Looking, Held::nothing(), events);
}

proof fn lemma_held_fits(start: StartView, held: Held, events: Seq<StartEventView>)
    requires
        held.fits(start),
    ensures
        held.run(start, events).fits(start.run(events)),
    decreases events.len(),
{
    if events.len() > 0 {
        lemma_held_fits(
            start.after(events.first()),
            held.after(start, events.first()),
            events.drop_first(),
        );
    }
}

/// A start that meets no obstacle gives what the thread of the server reported, together with
/// the file in the registry, and that is what stands in the slot.
pub proof fn an_unhindered_start_gives_the_reported_status(
    reported: StatusView,
    path: Option<Seq<char>>,
)
    ensures
        ({
            let status = StatusView { registry_path: path, ..reported };
            let begun = seq![
                StartEventView::ServerSeen(Ok(None)),
                StartEventView::GateAsked(Ok(())),
                StartEventView::ServerSeen(Ok(None)),
                StartEventView::ServerSpawned(Ok(())),
                StartEventView::StartupReported(Some(Ok(reported))),
                StartEventView::Done,
                StartEventView::RegistryWritten(path),
                StartEventView::WorkerSpawned(Ok(())),
            ];
            &&& StartView::Looking.run(begun).installed() == Some(
                RunningView::started(status, path is Some, true),
            )
            &&& StartView::Looking.run(begun).after(StartEventView::Done).after(
                StartEventView::GateOpened(Ok(())),
            ) == StartView::Finished(Ok(status))
        }),
{
    reveal_with_fuel(StartView::run, 9);
}

/// A server that runs is left alone: a start that finds one gives its status, and has begun
/// nothing.
pub proof fn a_running_server_is_left_alone(status: StatusView)
    ensures
        StartView::Looking.after(StartEventView::ServerSeen(Ok(Some(status))))
            == StartView::Finished(Ok(status)),
        StartView::Locking.after(StartEventView::ServerSeen(Ok(Some(status))))
            == StartView::Finished(Ok(status)),
        Held::nothing().after(StartView::Looking, StartEventView::ServerSeen(Ok(Some(status))))
            == Held::nothing(),
        Held::nothing().after(StartView::Locking, StartEventView::ServerSeen(Ok(Some(status))))
            == Held::nothing(),
{
}

/// A start that has come to the report of the server: nothing ran, the execution gate allowed
/// it, nothing ran still, and the thread was started.
pub open spec fn awaiting_report() -> StartView {
    StartView::Looking.after(StartEventView::ServerSeen(Ok(None))).after(
        StartEventView::GateAsked(Ok(())),
    ).after(StartEventView::ServerSeen(Ok(None))).after(StartEventView::ServerSpawned(Ok(())))
}

/// A start that has come to the worker: the server reported its status, and the registry took
/// it in under a path or did not.
pub open spec fn awaiting_worker(status: StatusView, path: Option<Seq<char>>) -> StartView {
    awaiting_report().after(StartEventView::StartupReported(Some(Ok(status)))).after(
        StartEventView::Done,
    ).after(StartEventView::RegistryWritten(path))
}

/// The order of a start in which nothing goes wrong, and the server that comes of it: it has
/// the URL that was reported and the path that was written, a file in the registry where there
/// is such a path, a worker, and no session.
pub proof fn a_start_goes_in_order(status: StatusView, path: Option<Seq<char>>)
    ensures
        ({
            let none = StartEventView::ServerSeen(Ok(None));
            let looked = StartView::Looking.after(none);
            let asked = looked.after(StartEventView::GateAsked(Ok(())));
            let locked = asked.after(none);
            let reported = awaiting_report().after(StartEventView::StartupReported(Some(Ok(status))));
            let written = awaiting_worker(status, path);
            let ready = written.after(StartEventView::WorkerSpawned(Ok(())));
            let installed = ready.after(StartEventView::Done);
            let opened = installed.after(StartEventView::GateOpened(Ok(())));
            let known = StatusView { mcp_url: status.mcp_url, registry_path: path };
            &&& StartView::Looking.action() == StartAction::LookForServer
            &&& looked.action() == StartAction::AskGate
            &&& asked.action() == StartAction::LockServer
            &&& locked.action() == StartAction::SpawnServer
            &&& awaiting_report().action() == StartAction::AwaitStartup
            &&& reported.action() == StartAction::RemoveStaleRegistries
            &&& reported.after(StartEventView::Done).action() == StartAction::WriteRegistry
            &&& written.action() == StartAction::SpawnWorker
            &&& ready.action() == StartAction::Install
            &&& ready.installed() is Some
            &&& ready.installed()->0.status == known
            &&& ready.installed()->0.has_registry == (path is Some)
            &&& ready.installed()->0.has_worker
            &&& installed.action() == StartAction::OpenGate
            &&& opened == StartView::Finished(Ok(known))
            &&& opened.action() == StartAction::Nothing
        }),
{
}

/// A server that another caller started meanwhile is the one that is given, and nothing is
/// started beside it; a lock whose holder panicked is an error at either look.
pub proof fn a_start_looks_twice(status: StatusView)
    ensures
        ({
            let poisoned = StartEventView::ServerSeen(Err(LockPoisoned));
            let seen = StartEventView::ServerSeen(Ok(Some(status)));
            let asked = StartView::Looking.after(StartEventView::ServerSeen(Ok(None))).after(
                StartEventView::GateAsked(Ok(())),
            );
            let failed = StartView::Finished(Err("server state lock poisoned"@));
            &&& StartView::Looking.after(seen) == StartView::Finished(Ok(status))
            &&& asked.after(seen) == StartView::Finished(Ok(status))
            &&& StartView::Looking.after(poisoned) == failed
            &&& asked.after(poisoned) == failed
        }),
{
}

/// A start that fails tells the error that it met first, once it has undone what it began:
/// before the thread was started there is nothing to undo; after that the server is cancelled,
/// and then this instance removed from the registry where it had been written.
pub proof fn a_failed_start_tells_its_first_error(
    error: Seq<char>,
    status: StatusView,
    path: Option<Seq<char>>,
)
    ensures
        ({
            let failed = StartView::Finished(Err(error));
            let looked = StartView::Looking.after(StartEventView::ServerSeen(Ok(None)));
            let locked = looked.after(StartEventView::GateAsked(Ok(()))).after(
                StartEventView::ServerSeen(Ok(None)),
            );
            let refused = awaiting_report().after(StartEventView::StartupReported(Some(Err(error))));
            let silent = awaiting_report().after(StartEventView::StartupReported(None));
            let alone = awaiting_worker(status, path).after(
                StartEventView::WorkerSpawned(Err(error)),
            );
            let cancelled = alone.after(StartEventView::Done);
            &&& looked.after(StartEventView::GateAsked(Err(error))) == failed
            &&& locked.after(StartEventView::ServerSpawned(Err(error))) == failed
            &&& refused.action() == StartAction::CancelServer
            &&& refused.after(StartEventView::Done) == failed
            &&& silent.action() == StartAction::CancelServer
            &&& silent.after(StartEventView::Done) == StartView::Finished(
                Err("plugin server failed to report startup status"@),
            )
            &&& alone.action() == StartAction::CancelServer
            &&& path is None ==> cancelled == failed
            &&& path is Some ==> cancelled.action() == StartAction::RemoveRegistry
                && cancelled.after(StartEventView::Done) == failed
        }),
{
}

/// Where the execution gate does not open, the server is taken out of its slot again and
/// cleaned up, and the error of that gate is told, unless the server could not be taken.
pub proof fn a_start_is_undone_where_the_gate_stays_shut(
    error: Seq<char>,
    status: StatusView,
    path: Option<Seq<char>>,
    running: RunningView,
)
    ensures
        ({
            let shut = awaiting_worker(status, path).after(
                StartEventView::WorkerSpawned(Ok(())),
            ).after(StartEventView::Done).after(StartEventView::GateOpened(Err(error)));
            let taken = shut.after(StartEventView::ServerTaken(Ok(Some(running))));
            &&& shut.action() == StartAction::TakeServer
            &&& taken.action() == StartAction::CleanUp
            &&& taken == StartView::CleaningUp(running, error)
            &&& taken.after(StartEventView::Done) == StartView::Finished(Err(error))
            &&& shut.after(StartEventView::ServerTaken(Ok(None))) == StartView::Finished(
                Err("server disappeared during startup"@),
            )
            &&& shut.after(StartEventView::ServerTaken(Err(LockPoisoned))) == StartView::Finished(
                Err("server state lock poisoned"@),
            )
        }),
{
}

} // verus!
