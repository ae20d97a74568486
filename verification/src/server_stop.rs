//! Stopping the server: the steps of a clean-up, and the order in which a stop goes through
//! the execution gate, the server and the dispatcher.

use vstd::prelude::*;

use crate::execution_gate::{
    GateOp, GateView, McpExecutionGate, McpExecutionPhase, UnloadProgress, UnloadWait,
};
use crate::plugin_server;
use crate::plugin_server::{
    LockPoisoned, PluginServerControl, PluginServerStatus, RunningPluginServer, RunningView,
    StatusView, GATE_LOCK_POISONED, SERVER_LOCK_POISONED, SERVER_PANICKED,
};
use crate::text;

verus! {

pub const DISPATCHER_LOCK_POISONED: &'static str = "dispatcher state lock poisoned";

/// A step of the clean-up after a server.
#[derive(Debug, Clone, Copy, PartialEq, Eq, Structural)]
pub enum CleanupStep {
    ShutDownWorker,
    CancelServer,
    JoinServer,
    ShutDownDispatcher,
    RemoveRegistry,
}

/// The steps of a clean-up, in their order. Nothing that fails keeps a later step back.
pub open spec fn steps_of_cleanup(running: RunningView) -> Seq<CleanupStep> {
    let worker: Seq<CleanupStep> = if running.has_worker {
        seq![CleanupStep::ShutDownWorker]
    } else {
        Seq::empty()
    };
    let registry: Seq<CleanupStep> = if running.has_registry {
        seq![CleanupStep::RemoveRegistry]
    } else {
        Seq::empty()
    };
    worker + seq![
        CleanupStep::CancelServer,
        CleanupStep::JoinServer,
        CleanupStep::ShutDownDispatcher,
    ] + registry
}

/// The steps of the clean-up after `running`, in their order.
pub fn cleanup_steps(running: &RunningPluginServer) -> (r: Vec<CleanupStep>)
    ensures
        r@ == steps_of_cleanup(running@),
{
    let mut steps: Vec<CleanupStep> = Vec::new();
    if running.has_worker() {
        steps.push(CleanupStep::ShutDownWorker);
    }
    steps.push(CleanupStep::CancelServer);
    steps.push(CleanupStep::JoinServer);
    steps.push(CleanupStep::ShutDownDispatcher);
    if running.has_registry() {
        steps.push(CleanupStep::RemoveRegistry);
    }
    steps
}

/// How the steps of a clean-up ended: that of the worker counts only where there was one.
pub struct CleanupOutcome {
    pub worker: Result<(), String>,
    pub server_panicked: bool,
    pub dispatcher: Result<(), String>,
}

/// What a [`CleanupOutcome`] holds.
pub struct CleanupView {
    pub worker: Result<(), Seq<char>>,
    pub server_panicked: bool,
    pub dispatcher: Result<(), Seq<char>>,
}

impl View for CleanupOutcome {
    type V = CleanupView;

    open spec fn view(&self) -> CleanupView {
        CleanupView {
            worker: text::outcome_of(self.worker),
            server_panicked: self.server_panicked,
            dispatcher: text::outcome_of(self.dispatcher),
        }
    }
}

/// What a clean-up gives: the status that the server had, or the first error.
pub open spec fn cleanup_result(running: RunningView, outcome: CleanupView) -> Result<
    StatusView,
    Seq<char>,
> {
    let worker = if running.has_worker {
        outcome.worker
    } else {
        Ok(())
    };
    let server = if outcome.server_panicked {
        Err(SERVER_PANICKED@)
    } else {
        Ok(())
    };
    match plugin_server::first_error(
        worker,
        plugin_server::first_error(server, outcome.dispatcher),
    ) {
        Ok(()) => Ok(running.status),
        Err(error) => Err(error),
    }
}

/// What the clean-up after `running` gives, from how its steps ended.
pub fn cleanup_running_server(running: &RunningPluginServer, outcome: CleanupOutcome) -> (r: Result<
    PluginServerStatus,
    String,
>)
    ensures
        plugin_server::status_outcome(r) == cleanup_result(running@, outcome@),
{
    if running.has_worker() {
        if let Err(error) = outcome.worker {
            return Err(error);
        }
    }
    if outcome.server_panicked {
        return Err(SERVER_PANICKED.to_owned());
    }
    match outcome.dispatcher {
        Ok(()) => Ok(running.status().clone()),
        Err(error) => Err(error),
    }
}

/// How it went with the dispatcher when it was to be shut down.
pub enum DispatcherShutdown {
    LockPoisoned,
    /// None was started.
    Absent,
    Done(Result<(), String>),
}

/// What shutting down the dispatcher gives: without one there is nothing to do.
pub fn shutdown_dispatcher(shutdown: DispatcherShutdown) -> (r: Result<(), String>)
    ensures
        text::outcome_of(r) == (match shutdown {
            DispatcherShutdown::LockPoisoned => Err(DISPATCHER_LOCK_POISONED@),
            DispatcherShutdown::Absent => Ok(()),
            DispatcherShutdown::Done(result) => text::outcome_of(result),
        }),
{
    match shutdown {
        DispatcherShutdown::LockPoisoned => Err(DISPATCHER_LOCK_POISONED.to_owned()),
        DispatcherShutdown::Absent => Ok(()),
        DispatcherShutdown::Done(result) => result,
    }
}

/// What a stop asks to be done next.
#[derive(Debug, Clone, Copy, PartialEq, Eq, Structural)]
pub enum StopAction {
    /// Wait until the execution gate changes, and look at it again.
    WaitForGate(UnloadWait),
    /// Take the server out of its slot.
    TakeServer,
    /// Let the server run on.
    RestoreGate,
    ShutDownDispatcher,
    /// Clean up after the server that was taken.
    CleanUp,
    /// Let the execution gate be stopped.
    FinishGate,
    Nothing,
}

/// What came of an action.
pub enum StopEvent {
    GateSeen(Result<UnloadProgress, LockPoisoned>),
    ServerTaken(Result<Option<RunningPluginServer>, LockPoisoned>),
    GateSet,
    DispatcherShutDown(Result<(), String>),
    CleanedUp(CleanupOutcome),
}

/// What a [`StopEvent`] holds.
pub enum StopEventView {
    GateSeen(Result<UnloadProgress, LockPoisoned>),
    ServerTaken(Result<Option<RunningView>, LockPoisoned>),
    GateSet,
    DispatcherShutDown(Result<(), Seq<char>>),
    CleanedUp(CleanupView),
}

impl View for StopEvent {
    type V = StopEventView;

    open spec fn view(&self) -> StopEventView {
        match *self {
            StopEvent::GateSeen(progress) => StopEventView::GateSeen(progress),
            StopEvent::ServerTaken(taken) => StopEventView::ServerTaken(
                match taken {
                    Ok(slot) => Ok(plugin_server::running_of(slot)),
                    Err(poisoned) => Err(poisoned),
                },
            ),
            StopEvent::GateSet => StopEventView::GateSet,
            StopEvent::DispatcherShutDown(result) => StopEventView::DispatcherShutDown(
                text::outcome_of(result),
            ),
            StopEvent::CleanedUp(outcome) => StopEventView::CleanedUp(outcome@),
        }
    }
}

enum StopStage {
    Waiting(UnloadWait),
    Taking,
    Restoring,
    WithoutServer,
    Cleaning(RunningPluginServer),
    Finishing(Result<Option<PluginServerStatus>, String>),
    Finished(Result<Option<PluginServerStatus>, String>),
}

/// How far a stop has come.
pub enum StopView {
    Waiting(UnloadWait),
    Taking,
    Restoring,
    WithoutServer,
    Cleaning(RunningView),
    Finishing(Result<Option<StatusView>, Seq<char>>),
    Finished(Result<Option<StatusView>, Seq<char>>),
}

impl StopView {
    /// What is to be done next.
    pub open spec fn action(self) -> StopAction {
        match self {
            StopView::Waiting(wait) => StopAction::WaitForGate(wait),
            StopView::Taking => StopAction::TakeServer,
            StopView::Restoring => StopAction::RestoreGate,
            StopView::WithoutServer => StopAction::ShutDownDispatcher,
            StopView::Cleaning(_) => StopAction::CleanUp,
            StopView::Finishing(_) => StopAction::FinishGate,
            StopView::Finished(_) => StopAction::Nothing,
        }
    }

    /// Where a stop is after it looked at the execution gate: the clean-up is its own, or
    /// another's, or it was refused.
    pub open spec fn admitted(progress: Result<UnloadProgress, Seq<char>>) -> StopView {
        match progress {
            Ok(UnloadProgress::Wait(wait)) => StopView::Waiting(wait),
            Ok(UnloadProgress::Finished(true)) => StopView::Taking,
            Ok(UnloadProgress::Finished(false)) => StopView::Finished(Ok(None)),
            Err(error) => StopView::Finished(Err(error)),
        }
    }

    /// Where a stop is after an event. One that does not answer its action changes nothing.
    pub open spec fn after(self, event: StopEventView) -> StopView {
        match (self, event) {
            (StopView::Waiting(_), StopEventView::GateSeen(progress)) => StopView::admitted(
                match progress {
                    Ok(progress) => Ok(progress),
                    Err(_) => Err(GATE_LOCK_POISONED@),
                },
            ),
            (StopView::Taking, StopEventView::ServerTaken(Err(_))) => StopView::Restoring,
            (StopView::Taking, StopEventView::ServerTaken(Ok(None))) => StopView::WithoutServer,
            (StopView::Taking, StopEventView::ServerTaken(Ok(Some(running)))) => StopView::Cleaning(
                running,
            ),
            (StopView::Restoring, StopEventView::GateSet) => StopView::Finished(
                Err(SERVER_LOCK_POISONED@),
            ),
            (
                StopView::WithoutServer,
                StopEventView::DispatcherShutDown(result),
            ) => StopView::Finishing(
                match result {
                    Ok(()) => Ok(None),
                    Err(error) => Err(error),
                },
            ),
            (StopView::Cleaning(running), StopEventView::CleanedUp(outcome)) => StopView::Finishing(
                match cleanup_result(running, outcome) {
                    Ok(status) => Ok(Some(status)),
                    Err(error) => Err(error),
                },
            ),
            (StopView::Finishing(result), StopEventView::GateSet) => StopView::Finished(result),
            _ => self,
        }
    }

    /// Where a stop is after a row of events.
    pub open spec fn run(self, events: Seq<StopEventView>) -> StopView
        decreases events.len(),
    {
        if events.len() == 0 {
            self
        } else {
            self.after(events.first()).run(events.drop_first())
        }
    }

    /// What an event says was done to the execution gate.
    pub open spec fn gate_after(self, gate: GateView, event: StopEventView) -> GateView {
        match (self, event) {
            (StopView::Restoring, StopEventView::GateSet) => gate.after(GateOp::RestoreRunning),
            (StopView::Finishing(_), StopEventView::GateSet) => gate.after(GateOp::FinishStopped),
            _ => gate,
        }
    }

    /// What a row of events says was done to the execution gate.
    pub open spec fn gate_run(self, gate: GateView, events: Seq<StopEventView>) -> GateView
        decreases events.len(),
    {
        if events.len() == 0 {
            gate
        } else {
            self.after(events.first()).gate_run(
                self.gate_after(gate, events.first()),
                events.drop_first(),
            )
        }
    }

    /// Whether the execution gate is in the hands of this stop: the clean-up is its own, and
    /// not done.
    pub open spec fn holds_gate(self) -> bool {
        !(self is Waiting) && !(self is Finished)
    }
}

/// A stop under way, from the moment it went to the execution gate.
pub struct StopSequence {
    stage: StopStage,
}

impl View for StopSequence {
    type V = StopView;

    closed spec fn view(&self) -> StopView {
        match self.stage {
            StopStage::Waiting(wait) => StopView::Waiting(wait),
            StopStage::Taking => StopView::Taking,
            StopStage::Restoring => StopView::Restoring,
            StopStage::WithoutServer => StopView::WithoutServer,
            StopStage::Cleaning(running) => StopView::Cleaning(running@),
            StopStage::Finishing(result) => StopView::Finishing(
                plugin_server::stop_outcome(result),
            ),
            StopStage::Finished(result) => StopView::Finished(plugin_server::stop_outcome(result)),
        }
    }
}

impl StopSequence {
    fn enter(progress: Result<UnloadProgress, String>) -> (r: Self)
        ensures
            r@ == StopView::admitted(text::outcome_of(progress)),
    {
        let stage = match progress {
            Ok(UnloadProgress::Wait(wait)) => StopStage::Waiting(wait),
            Ok(UnloadProgress::Finished(own)) => if own {
                StopStage::Taking
            } else {
                StopStage::Finished(Ok(None))
            },
            Err(error) => StopStage::Finished(Err(error)),
        };
        StopSequence { stage }
    }

    /// What is to be done next.
    pub fn action(&self) -> (r: StopAction)
        ensures
            r == self@.action(),
    {
        match &self.stage {
            StopStage::Waiting(wait) => StopAction::WaitForGate(*wait),
            StopStage::Taking => StopAction::TakeServer,
            StopStage::Restoring => StopAction::RestoreGate,
            StopStage::WithoutServer => StopAction::ShutDownDispatcher,
            StopStage::Cleaning(_) => StopAction::CleanUp,
            StopStage::Finishing(_) => StopAction::FinishGate,
            StopStage::Finished(_) => StopAction::Nothing,
        }
    }

    /// The server that is to be cleaned up.
    pub fn running(&self) -> (r: Option<&RunningPluginServer>)
        ensures
            match (r, self@) {
                (Some(running), StopView::Cleaning(view)) => running@ == view,
                (None, StopView::Cleaning(_)) => false,
                (Some(_), _) => false,
                (None, _) => true,
            },
    {
        match &self.stage {
            StopStage::Cleaning(running) => Some(running),
            _ => None,
        }
    }

    /// Takes in what came of the action.
    pub fn advance(self, event: StopEvent) -> (r: Self)
        ensures
            r@ == self@.after(event@),
    {
        let stage = match (self.stage, event) {
            (StopStage::Waiting(_), StopEvent::GateSeen(progress)) => {
                return StopSequence::enter(
                    match progress {
                        Ok(progress) => Ok(progress),
                        Err(_) => Err(GATE_LOCK_POISONED.to_owned()),
                    },
                );
            },
            (StopStage::Taking, StopEvent::ServerTaken(taken)) => match taken {
                Err(_) => StopStage::Restoring,
                Ok(None) => StopStage::WithoutServer,
                Ok(Some(running)) => StopStage::Cleaning(running),
            },
            (StopStage::Restoring, StopEvent::GateSet) => StopStage::Finished(
                Err(SERVER_LOCK_POISONED.to_owned()),
            ),
            (StopStage::WithoutServer, StopEvent::DispatcherShutDown(result)) => {
                StopStage::Finishing(
                    match result {
                        Ok(()) => Ok(None),
                        Err(error) => Err(error),
                    },
                )
            },
            (StopStage::Cleaning(running), StopEvent::CleanedUp(outcome)) => StopStage::Finishing(
                match cleanup_running_server(&running, outcome) {
                    Ok(status) => Ok(Some(status)),
                    Err(error) => Err(error),
                },
            ),
            (StopStage::Finishing(result), StopEvent::GateSet) => StopStage::Finished(result),
            (stage, _) => stage,
        };
        StopSequence { stage }
    }

    /// What the stop gives, once it is finished.
    pub fn result(self) -> (r: Option<Result<Option<PluginServerStatus>, String>>)
        ensures
            match (r, self@) {
                (Some(result), StopView::Finished(view)) => plugin_server::stop_outcome(result)
                    == view,
                (None, StopView::Finished(_)) => false,
                (Some(_), _) => false,
                (None, _) => true,
            },
    {
        match self.stage {
            StopStage::Finished(result) => Some(result),
            _ => None,
        }
    }
}

impl PluginServerControl {
    /// Begins a stop that a command asked for. While a command executes, or another stop is
    /// under way, it is refused.
    pub fn stop(gate: Result<&mut McpExecutionGate, LockPoisoned>) -> (r: StopSequence)
        ensures
            match gate {
                Ok(gate) => {
                    &&& r@ == StopView::admitted(
                        match gate@.command_stop() {
                            Ok(own) => Ok(UnloadProgress::Finished(own)),
                            Err(error) => Err(error),
                        },
                    )
                    &&& final(gate)@ == gate@.after(GateOp::BeginCommandStop)
                    &&& r@.action() == StopAction::TakeServer <==> gate@.phase
                        == McpExecutionPhase::Running && gate@.active == 0
                    &&& r@.action() == StopAction::TakeServer ==> final(gate)@.phase
                        == McpExecutionPhase::Stopping
                    &&& r@.action() != StopAction::TakeServer ==> final(gate)@ == gate@
                        && r@.action() == StopAction::Nothing
                },
                Err(_) => r@ == StopView::Finished(Err(GATE_LOCK_POISONED@)),
            },
    {
        match gate {
            Ok(gate) => match gate.begin_command_stop() {
                Ok(own) => StopSequence::enter(Ok(UnloadProgress::Finished(own))),
                Err(error) => StopSequence::enter(Err(error)),
            },
            Err(_) => StopSequence::enter(Err(GATE_LOCK_POISONED.to_owned())),
        }
    }

    /// Begins a stop for the sake of an unload. It is never refused: it waits.
    pub fn stop_for_unload(gate: Result<&mut McpExecutionGate, LockPoisoned>) -> (r: StopSequence)
        ensures
            match gate {
                Ok(gate) => {
                    &&& r@ == StopView::admitted(Ok(gate@.unload_stop()))
                    &&& final(gate)@ == gate@.after(GateOp::BeginUnloadStop)
                    &&& r@.action() == StopAction::TakeServer <==> gate@.phase
                        == McpExecutionPhase::Running && gate@.active == 0
                    &&& r@.action() == StopAction::Nothing <==> gate@.phase
                        == McpExecutionPhase::Stopped
                    &&& gate@.phase == McpExecutionPhase::Running ==> final(gate)@.phase
                        == McpExecutionPhase::Stopping && final(gate)@.active == gate@.active
                    &&& gate@.phase != McpExecutionPhase::Running ==> final(gate)@ == gate@
                },
                Err(_) => r@ == StopView::Finished(Err(GATE_LOCK_POISONED@)),
            },
    {
        match gate {
            Ok(gate) => StopSequence::enter(Ok(gate.begin_unload_stop())),
            Err(_) => StopSequence::enter(Err(GATE_LOCK_POISONED.to_owned())),
        }
    }
}

/// A clean-up gives the status of the server only if every one of its steps went well.
pub proof fn a_clean_up_succeeds_only_whole(running: RunningView, outcome: CleanupView)
    ensures
        cleanup_result(running, outcome) == Ok::<StatusView, Seq<char>>(running.status) <==> (
        running.has_worker ==> outcome.worker is Ok) && !outcome.server_panicked
            && outcome.dispatcher is Ok,
        cleanup_result(running, outcome) is Ok ==> cleanup_result(running, outcome)->Ok_0
            == running.status,
{
}

/// A stop that has the execution gate in its hands gives it back: when it is finished, that
/// gate is stopped, or, where the server could not be taken, running as before. Until then it
/// lets no command begin.
pub proof fn a_stop_gives_the_gate_back(
    stop: StopView,
    gate: GateView,
    events: Seq<StopEventView>,
)
    requires
        stop.holds_gate(),
        gate.phase == McpExecutionPhase::Stopping,
    ensures
        stop.run(events).holds_gate() ==> stop.gate_run(gate, events).phase
            == McpExecutionPhase::Stopping,
        stop.run(events) is Finished ==> stop.gate_run(gate, events).phase
            != McpExecutionPhase::Stopping,
        stop.run(events).holds_gate() || stop.run(events) is Finished,
    decreases events.len(),
{
    if events.len() > 0 {
        let next = stop.after(events.first());
        let rest = events.drop_first();
        if next.holds_gate() {
            a_stop_gives_the_gate_back(next, stop.gate_after(gate, events.first()), rest);
        } else {
            lemma_finished_stays(next, stop.gate_after(gate, events.first()), rest);
        }
    }
}

proof fn lemma_finished_stays(stop: StopView, gate: GateView, events: Seq<StopEventView>)
    requires
        stop is Finished,
    ensures
        stop.run(events) == stop,
        stop.gate_run(gate, events) == gate,
    decreases events.len(),
{
    if events.len() > 0 {
        lemma_finished_stays(stop, gate, events.drop_first());
    }
}

/// A stop that could take what is in the slot ends with the execution gate stopped, whatever
/// came of the clean-up or of the dispatcher; its result is that of the clean-up, or without
/// a server that of the dispatcher.
pub proof fn a_stop_finishes_whatever_the_clean_up_gives(
    running: RunningView,
    outcome: CleanupView,
    dispatcher: Result<(), Seq<char>>,
    gate: GateView,
)
    ensures
        ({
            let events = seq![
                StopEventView::ServerTaken(Ok(Some(running))),
                StopEventView::CleanedUp(outcome),
                StopEventView::GateSet,
            ];
            &&& StopView::Taking.run(events) == StopView::Finished(
                match cleanup_result(running, outcome) {
                    Ok(status) => Ok(Some(status)),
                    Err(error) => Err(error),
                },
            )
            &&& StopView::Taking.gate_run(gate, events) == gate.after(GateOp::FinishStopped)
        }),
        ({
            let events = seq![
                StopEventView::ServerTaken(Ok(None)),
                StopEventView::DispatcherShutDown(dispatcher),
                StopEventView::GateSet,
            ];
            &&& StopView::Taking.run(events) == StopView::Finished(
                match dispatcher {
                    Ok(()) => Ok(None),
                    Err(error) => Err(error),
                },
            )
            &&& StopView::Taking.gate_run(gate, events) == gate.after(GateOp::FinishStopped)
        }),
{
    reveal_with_fuel(StopView::run, 4);
    reveal_with_fuel(StopView::gate_run, 4);
}

/// A clean-up undoes all that a start began: the worker and the thread of the server, and the
/// file in the registry where there is one, which goes last, after the thread has ended.
pub proof fn a_clean_up_undoes_a_start(status: StatusView, in_registry: bool)
    ensures
        ({
            let steps = steps_of_cleanup(RunningView::started(status, in_registry, true));
            &&& steps.contains(CleanupStep::ShutDownWorker)
            &&& steps.contains(CleanupStep::CancelServer)
            &&& steps.contains(CleanupStep::JoinServer)
            &&& steps.contains(CleanupStep::ShutDownDispatcher)
            &&& steps.contains(CleanupStep::RemoveRegistry) <==> in_registry
            &&& in_registry ==> steps.last() == CleanupStep::RemoveRegistry
        }),
{
    let steps = steps_of_cleanup(RunningView::started(status, in_registry, true));
    assert(steps[0] == CleanupStep::ShutDownWorker);
    assert(steps[1] == CleanupStep::CancelServer);
    assert(steps[2] == CleanupStep::JoinServer);
    assert(steps[3] == CleanupStep::ShutDownDispatcher);
    if in_registry {
        assert(steps[4] == CleanupStep::RemoveRegistry);
    } else {
        assert(steps.len() == 4);
    }
}

/// The order of a clean-up: the worker first, where there is one, then the server and its
/// thread, then the dispatcher, and last the registry, where the server is in it.
pub proof fn a_clean_up_goes_in_order(running: RunningView)
    ensures
        ({
            let steps = steps_of_cleanup(running);
            let first: int = if running.has_worker {
                1
            } else {
                0
            };
            &&& steps.contains(CleanupStep::ShutDownWorker) <==> running.has_worker
            &&& running.has_worker ==> steps[0] == CleanupStep::ShutDownWorker
            &&& steps[first] == CleanupStep::CancelServer
            &&& steps[first + 1] == CleanupStep::JoinServer
            &&& steps[first + 2] == CleanupStep::ShutDownDispatcher
            &&& running.has_registry ==> steps[first + 3] == CleanupStep::RemoveRegistry
            &&& steps.len() == first + 3 + (if running.has_registry {
                1int
            } else {
                0int
            })
        }),
{
    let steps = steps_of_cleanup(running);
    if running.has_worker {
        assert(steps[0] == CleanupStep::ShutDownWorker);
    }
}

/// Of several errors of a clean-up the first in the order of its steps is told: that of the
/// worker, where there was one, then that of the server, then that of the dispatcher.
pub proof fn a_clean_up_tells_its_first_error(
    running: RunningView,
    outcome: CleanupView,
    error: Seq<char>,
)
    ensures
        running.has_worker && outcome.worker == Err::<(), Seq<char>>(error) ==> cleanup_result(
            running,
            outcome,
        ) == Err::<StatusView, Seq<char>>(error),
        (!running.has_worker || outcome.worker is Ok) && outcome.server_panicked
            ==> cleanup_result(running, outcome) == Err::<StatusView, Seq<char>>(
            "plugin server thread panicked"@,
        ),
        (!running.has_worker || outcome.worker is Ok) && !outcome.server_panicked
            && outcome.dispatcher == Err::<(), Seq<char>>(error) ==> cleanup_result(
            running,
            outcome,
        ) == Err::<StatusView, Seq<char>>(error),
{
}

/// A stop by command at a gate where nothing executes takes the server; it is refused, and
/// does nothing, while a command executes or another stop is under way; where the server is
/// stopped already, it is over at once.
pub proof fn a_stop_by_command_is_granted_or_refused(gate: GateView)
    ensures
        ({
            let begun = StopView::admitted(
                match gate.command_stop() {
                    Ok(own) => Ok(UnloadProgress::Finished(own)),
                    Err(error) => Err(error),
                },
            );
            &&& gate.phase == McpExecutionPhase::Running && gate.active == 0 ==> begun.action()
                == StopAction::TakeServer && gate.after(GateOp::BeginCommandStop).phase
                == McpExecutionPhase::Stopping
            &&& gate.phase == McpExecutionPhase::Running && gate.active > 0 ==> begun
                == StopView::Finished(
                Err(
                    "Cannot stop WinDbg MCP server while an MCP command is executing. Wait for the command to finish and run !mcp stop again."@,
                ),
            ) && gate.after(GateOp::BeginCommandStop) == gate
            &&& gate.phase == McpExecutionPhase::Stopping ==> begun == StopView::Finished(
                Err("MCP server is stopping; debugger execution is unavailable."@),
            ) && gate.after(GateOp::BeginCommandStop) == gate
            &&& gate.phase == McpExecutionPhase::Stopped ==> begun == StopView::Finished(Ok(None))
                && gate.after(GateOp::BeginCommandStop) == gate
        }),
{
}

/// A stop for an unload is never refused: it takes the server where nothing executes, waits
/// for the commands that do, or for another stop, and is over where the server is stopped.
/// When it looks again it goes on as if it had just begun, but leaves the clean-up to the stop
/// that it waited for.
pub proof fn a_stop_by_unload_waits(gate: GateView, now: GateView, wait: UnloadWait)
    ensures
        ({
            let begun = StopView::admitted(Ok(gate.unload_stop()));
            let again = StopView::Waiting(wait).after(
                StopEventView::GateSeen(Ok(now.unload_wait(wait))),
            );
            &&& gate.phase == McpExecutionPhase::Running && gate.active == 0 ==> begun.action()
                == StopAction::TakeServer
            &&& gate.phase == McpExecutionPhase::Running && gate.active > 0 ==> begun.action()
                == StopAction::WaitForGate(UnloadWait::Idle)
            &&& gate.phase == McpExecutionPhase::Running ==> gate.after(
                GateOp::BeginUnloadStop,
            ).phase == McpExecutionPhase::Stopping
            &&& gate.phase == McpExecutionPhase::Stopping ==> begun.action()
                == StopAction::WaitForGate(UnloadWait::OtherStop)
            &&& gate.phase == McpExecutionPhase::Stopped ==> begun == StopView::Finished(Ok(None))
            &&& wait == UnloadWait::Idle && now.active > 0 ==> again == StopView::Waiting(wait)
            &&& wait == UnloadWait::Idle && now.active == 0 ==> again.action()
                == StopAction::TakeServer
            &&& wait == UnloadWait::OtherStop && now.phase == McpExecutionPhase::Stopping ==> again
                == StopView::Waiting(wait)
            &&& wait == UnloadWait::OtherStop && now.phase != McpExecutionPhase::Stopping ==> again
                == StopView::Finished(Ok(None))
        }),
{
}

/// The order of a stop that was granted: the server is taken and cleaned up, or the dispatcher
/// alone is shut down where there is no server, and then the execution gate is stopped. Where
/// the server cannot be taken, it runs on, and that is told.
pub proof fn a_granted_stop_goes_in_order(
    running: RunningView,
    outcome: CleanupView,
    dispatcher: Result<(), Seq<char>>,
    gate: GateView,
)
    ensures
        ({
            let granted = StopView::admitted(Ok(UnloadProgress::Finished(true)));
            let taken = granted.after(StopEventView::ServerTaken(Ok(Some(running))));
            let empty = granted.after(StopEventView::ServerTaken(Ok(None)));
            let stuck = granted.after(StopEventView::ServerTaken(Err(LockPoisoned)));
            let cleaned = taken.after(StopEventView::CleanedUp(outcome));
            let closed = empty.after(StopEventView::DispatcherShutDown(dispatcher));
            &&& taken.action() == StopAction::CleanUp
            &&& taken == StopView::Cleaning(running)
            &&& cleaned.action() == StopAction::FinishGate
            &&& cleaned.gate_after(gate, StopEventView::GateSet) == (GateView {
                phase: McpExecutionPhase::Stopped,
                active: 0,
            })
            &&& empty.action() == StopAction::ShutDownDispatcher
            &&& closed.action() == StopAction::FinishGate
            &&& closed.gate_after(gate, StopEventView::GateSet) == (GateView {
                phase: McpExecutionPhase::Stopped,
                active: 0,
            })
            &&& stuck.action() == StopAction::RestoreGate
            &&& gate.phase == McpExecutionPhase::Stopping ==> stuck.gate_after(
                gate,
                StopEventView::GateSet,
            ) == (GateView { phase: McpExecutionPhase::Running, active: gate.active })
            &&& stuck.after(StopEventView::GateSet) == StopView::Finished(
                Err("server state lock poisoned"@),
            )
            &&& StopView::Waiting(UnloadWait::Idle).after(
                StopEventView::GateSeen(Err(LockPoisoned)),
            ) == StopView::Finished(Err("execution gate state lock poisoned"@))
            &&& StopView::Waiting(UnloadWait::OtherStop).after(
                StopEventView::GateSeen(Err(LockPoisoned)),
            ) == StopView::Finished(Err("execution gate state lock poisoned"@))
        }),
{
}

} // verus!
