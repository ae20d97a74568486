//! The execution gate, between the execution of debugger commands and the stopping of the
//! server: while a command executes the server is not stopped, and while the server stops no
//! command starts.

use vstd::prelude::*;

use crate::text;

verus! {

pub const STOP_DURING_COMMAND_ERROR: &'static str =
    "Cannot stop WinDbg MCP server while an MCP command is executing. Wait for the command to finish and run !mcp stop again.";

pub const EXECUTION_UNAVAILABLE_ERROR: &'static str =
    "MCP server is stopping; debugger execution is unavailable.";

pub const GATE_NOT_STOPPED_ERROR: &'static str =
    "execution gate was not stopped before server startup";

pub const EXECUTION_COUNTER_ERROR: &'static str = "active MCP execution counter overflow";

/// Where the server is between a start and a stop.
#[derive(Debug, Clone, Copy, PartialEq, Eq, Structural)]
pub enum McpExecutionPhase {
    Stopped,
    Running,
    Stopping,
}

/// The right to execute one command, from [`McpExecutionGate::begin_execution`] until it is
/// given back to [`McpExecutionGate::finish_execution`].
pub struct McpExecutionGuard {
    _held: (),
}

/// What an unload waits for.
#[derive(Debug, Clone, Copy, PartialEq, Eq, Structural)]
pub enum UnloadWait {
    /// For a stop that another caller began.
    OtherStop,
    /// For the commands that still execute.
    Idle,
}

/// How far an unload has come: it waits, or it knows whether the clean-up is its own to do.
#[derive(Debug, Clone, Copy, PartialEq, Eq, Structural)]
pub enum UnloadProgress {
    Wait(UnloadWait),
    Finished(bool),
}

/// The state of a gate: the phase, and the number of commands that execute.
pub struct GateView {
    pub phase: McpExecutionPhase,
    pub active: usize,
}

/// An operation on a gate.
pub enum GateOp {
    MarkRunning,
    BeginExecution,
    FinishExecution,
    BeginCommandStop,
    BeginUnloadStop,
    RestoreRunning,
    FinishStopped,
}

impl GateView {
    /// A gate that is stopped has no command that executes.
    pub open spec fn wf(self) -> bool {
        self.phase == McpExecutionPhase::Stopped ==> self.active == 0
    }

    pub open spec fn startable(self) -> Result<(), Seq<char>> {
        if self.phase == McpExecutionPhase::Stopped {
            Ok(())
        } else {
            Err(EXECUTION_UNAVAILABLE_ERROR@)
        }
    }

    pub open spec fn can_run(self) -> bool {
        self.phase == McpExecutionPhase::Stopped && self.active == 0
    }

    /// The error of an execution that may not begin.
    pub open spec fn execution_error(self) -> Option<Seq<char>> {
        if self.phase != McpExecutionPhase::Running {
            Some(EXECUTION_UNAVAILABLE_ERROR@)
        } else if self.active == usize::MAX {
            Some(EXECUTION_COUNTER_ERROR@)
        } else {
            None
        }
    }

    /// What a stop by command gets: whether there is anything to clean up, or why it may not.
    pub open spec fn command_stop(self) -> Result<bool, Seq<char>> {
        match self.phase {
            McpExecutionPhase::Stopped => Ok(false),
            McpExecutionPhase::Stopping => Err(EXECUTION_UNAVAILABLE_ERROR@),
            McpExecutionPhase::Running => if self.active > 0 {
                Err(STOP_DURING_COMMAND_ERROR@)
            } else {
                Ok(true)
            },
        }
    }

    /// What a stop by unload gets at once.
    pub open spec fn unload_stop(self) -> UnloadProgress {
        match self.phase {
            McpExecutionPhase::Stopped => UnloadProgress::Finished(false),
            McpExecutionPhase::Stopping => UnloadProgress::Wait(UnloadWait::OtherStop),
            McpExecutionPhase::Running => self.unload_wait(UnloadWait::Idle),
        }
    }

    /// What a stop by unload gets when it looks again after it waited.
    pub open spec fn unload_wait(self, wait: UnloadWait) -> UnloadProgress {
        match wait {
            UnloadWait::OtherStop => if self.phase == McpExecutionPhase::Stopping {
                UnloadProgress::Wait(wait)
            } else {
                UnloadProgress::Finished(false)
            },
            UnloadWait::Idle => if self.active > 0 {
                UnloadProgress::Wait(wait)
            } else {
                UnloadProgress::Finished(true)
            },
        }
    }

    /// The execution gate after an operation.
    pub open spec fn after(self, op: GateOp) -> GateView {
        match op {
            GateOp::MarkRunning => if self.can_run() {
                GateView { phase: McpExecutionPhase::Running, ..self }
            } else {
                self
            },
            GateOp::BeginExecution => if self.execution_error() is None {
                GateView { active: (self.active + 1) as usize, ..self }
            } else {
                self
            },
            GateOp::FinishExecution => if self.active > 0 {
                GateView { active: (self.active - 1) as usize, ..self }
            } else {
                self
            },
            GateOp::BeginCommandStop => if self.command_stop() == Ok::<bool, Seq<char>>(true) {
                GateView { phase: McpExecutionPhase::Stopping, ..self }
            } else {
                self
            },
            GateOp::BeginUnloadStop => if self.phase == McpExecutionPhase::Running {
                GateView { phase: McpExecutionPhase::Stopping, ..self }
            } else {
                self
            },
            GateOp::RestoreRunning => if self.phase == McpExecutionPhase::Stopping {
                GateView { phase: McpExecutionPhase::Running, ..self }
            } else {
                self
            },
            GateOp::FinishStopped => GateView { phase: McpExecutionPhase::Stopped, active: 0 },
        }
    }

    /// The execution gate after a sequence of operations.
    pub open spec fn run(self, ops: Seq<GateOp>) -> GateView
        decreases ops.len(),
    {
        if ops.len() == 0 {
            self
        } else {
            self.after(ops.first()).run(ops.drop_first())
        }
    }
}

/// The state that callers share; they hold it under a lock and wake each other after every
/// operation.
pub struct McpExecutionGate {
    phase: McpExecutionPhase,
    active: usize,
}

impl View for McpExecutionGate {
    type V = GateView;

    closed spec fn view(&self) -> GateView {
        GateView { phase: self.phase, active: self.active }
    }
}

impl McpExecutionGate {
    /// A gate that is stopped.
    pub fn new() -> (r: Self)
        ensures
            r@ == (GateView { phase: McpExecutionPhase::Stopped, active: 0 }),
            r@.wf(),
    {
        McpExecutionGate { phase: McpExecutionPhase::Stopped, active: 0 }
    }

    /// The phase the execution gate is in.
    pub fn phase(&self) -> (r: McpExecutionPhase)
        ensures
            r == self@.phase,
    {
        self.phase
    }

    /// Whether a server may start.
    pub fn ensure_startable(&self) -> (r: Result<(), String>)
        ensures
            text::outcome_of(r) == self@.startable(),
    {
        if self.phase == McpExecutionPhase::Stopped {
            Ok(())
        } else {
            Err(EXECUTION_UNAVAILABLE_ERROR.to_owned())
        }
    }

    /// Opens the execution gate for a server that has started.
    pub fn mark_running(&mut self) -> (r: Result<(), String>)
        ensures
            text::outcome_of(r) == (if old(self)@.can_run() {
                Ok(())
            } else {
                Err(GATE_NOT_STOPPED_ERROR@)
            }),
            final(self)@ == old(self)@.after(GateOp::MarkRunning),
            old(self)@.wf() ==> final(self)@.wf(),
    {
        if self.phase != McpExecutionPhase::Stopped || self.active != 0 {
            return Err(GATE_NOT_STOPPED_ERROR.to_owned());
        }
        self.phase = McpExecutionPhase::Running;
        Ok(())
    }

    /// Lets one command execute, while the server runs.
    pub fn begin_execution(&mut self) -> (r: Result<McpExecutionGuard, String>)
        ensures
            r is Ok <==> old(self)@.execution_error() is None,
            r is Err ==> old(self)@.execution_error() == Some(r->Err_0@),
            final(self)@ == old(self)@.after(GateOp::BeginExecution),
            old(self)@.wf() ==> final(self)@.wf(),
    {
        if self.phase != McpExecutionPhase::Running {
            return Err(EXECUTION_UNAVAILABLE_ERROR.to_owned());
        }
        if self.active == usize::MAX {
            return Err(EXECUTION_COUNTER_ERROR.to_owned());
        }
        self.active = self.active + 1;
        Ok(McpExecutionGuard { _held: () })
    }

    /// Takes back the right to execute one command.
    pub fn finish_execution(&mut self, guard: McpExecutionGuard)
        ensures
            final(self)@ == old(self)@.after(GateOp::FinishExecution),
            old(self)@.wf() ==> final(self)@.wf(),
    {
        if self.active > 0 {
            self.active = self.active - 1;
        }
    }

    /// Begins a stop that a user asked for: it is refused while a command executes or another
    /// stop is on its way, and has nothing to do where the server is stopped.
    pub fn begin_command_stop(&mut self) -> (r: Result<bool, String>)
        ensures
            text::outcome_of(r) == old(self)@.command_stop(),
            final(self)@ == old(self)@.after(GateOp::BeginCommandStop),
            old(self)@.wf() ==> final(self)@.wf(),
    {
        match self.phase {
            McpExecutionPhase::Stopped => Ok(false),
            McpExecutionPhase::Stopping => Err(EXECUTION_UNAVAILABLE_ERROR.to_owned()),
            McpExecutionPhase::Running => if self.active > 0 {
                Err(STOP_DURING_COMMAND_ERROR.to_owned())
            } else {
                self.phase = McpExecutionPhase::Stopping;
                Ok(true)
            },
        }
    }

    /// Begins a stop that cannot be refused: it waits for commands that execute, or for a stop
    /// that another caller began.
    pub fn begin_unload_stop(&mut self) -> (r: UnloadProgress)
        ensures
            r == old(self)@.unload_stop(),
            final(self)@ == old(self)@.after(GateOp::BeginUnloadStop),
            old(self)@.wf() ==> final(self)@.wf(),
    {
        match self.phase {
            McpExecutionPhase::Stopped => UnloadProgress::Finished(false),
            McpExecutionPhase::Stopping => UnloadProgress::Wait(UnloadWait::OtherStop),
            McpExecutionPhase::Running => {
                self.phase = McpExecutionPhase::Stopping;
                if self.active > 0 {
                    UnloadProgress::Wait(UnloadWait::Idle)
                } else {
                    UnloadProgress::Finished(true)
                }
            },
        }
    }

    /// Looks at the execution gate again, for an unload that waited.
    pub fn continue_unload_stop(&self, wait: UnloadWait) -> (r: UnloadProgress)
        ensures
            r == self@.unload_wait(wait),
    {
        match wait {
            UnloadWait::OtherStop => if self.phase == McpExecutionPhase::Stopping {
                UnloadProgress::Wait(wait)
            } else {
                UnloadProgress::Finished(false)
            },
            UnloadWait::Idle => if self.active > 0 {
                UnloadProgress::Wait(wait)
            } else {
                UnloadProgress::Finished(true)
            },
        }
    }

    /// Takes a stop back.
    pub fn restore_running(&mut self)
        ensures
            final(self)@ == old(self)@.after(GateOp::RestoreRunning),
            old(self)@.wf() ==> final(self)@.wf(),
    {
        if self.phase == McpExecutionPhase::Stopping {
            self.phase = McpExecutionPhase::Running;
        }
    }

    /// Closes the execution gate: the server has stopped.
    pub fn finish_stopped(&mut self)
        ensures
            final(self)@ == old(self)@.after(GateOp::FinishStopped),
            final(self)@.wf(),
    {
        self.phase = McpExecutionPhase::Stopped;
        self.active = 0;
    }
}

/// Every gate that came from a new one by operations is well formed.
pub proof fn operations_keep_the_gate_well_formed(gate: GateView, ops: Seq<GateOp>)
    requires
        gate.wf(),
    ensures
        gate.run(ops).wf(),
    decreases ops.len(),
{
    if ops.len() > 0 {
        operations_keep_the_gate_well_formed(gate.after(ops.first()), ops.drop_first());
    }
}

/// While a command executes, a stop by command is refused and changes nothing, and a stop by
/// unload waits until the command is finished.
pub proof fn active_commands_hold_off_stops(gate: GateView)
    requires
        gate.phase == McpExecutionPhase::Running,
        gate.active > 0,
    ensures
        gate.command_stop() == Err::<bool, Seq<char>>(STOP_DURING_COMMAND_ERROR@),
        gate.after(GateOp::BeginCommandStop) == gate,
        gate.unload_stop() == UnloadProgress::Wait(UnloadWait::Idle),
        gate.after(GateOp::BeginUnloadStop).unload_wait(UnloadWait::Idle) == UnloadProgress::Wait(
            UnloadWait::Idle,
        ),
{
}

/// A stop that was begun has the execution gate to itself: until it is taken back or finished
/// no command begins to execute, the commands that execute become no more, and no other stop
/// gets the clean-up.
pub proof fn a_stop_has_the_gate_to_itself(gate: GateView, ops: Seq<GateOp>)
    requires
        gate.phase == McpExecutionPhase::Stopping,
        forall|i: int|
            0 <= i < ops.len() ==> !((#[trigger] ops[i]) is RestoreRunning) && !(
            ops[i] is FinishStopped),
    ensures
        gate.run(ops).phase == McpExecutionPhase::Stopping,
        gate.run(ops).active <= gate.active,
        gate.run(ops).execution_error() == Some(EXECUTION_UNAVAILABLE_ERROR@),
        gate.run(ops).command_stop() == Err::<bool, Seq<char>>(EXECUTION_UNAVAILABLE_ERROR@),
        gate.run(ops).unload_stop() == UnloadProgress::Wait(UnloadWait::OtherStop),
        gate.run(ops).unload_wait(UnloadWait::OtherStop) == UnloadProgress::Wait(
            UnloadWait::OtherStop,
        ),
    decreases ops.len(),
{
    if ops.len() > 0 {
        let rest = ops.drop_first();
        assert(!(ops[0] is RestoreRunning) && !(ops[0] is FinishStopped));
        assert forall|i: int| 0 <= i < rest.len() implies !((#[trigger] rest[i]) is RestoreRunning)
            && !(rest[i] is FinishStopped) by {
            assert(rest[i] == ops[i + 1]);
        }
        a_stop_has_the_gate_to_itself(gate.after(ops.first()), rest);
    }
}

/// A stop gets the clean-up only when no command executes.
pub proof fn clean_up_finds_no_active_command(gate: GateView)
    ensures
        gate.command_stop() == Ok::<bool, Seq<char>>(true) ==> gate.active == 0,
        gate.unload_stop() == UnloadProgress::Finished(true) ==> gate.active == 0,
        gate.unload_wait(UnloadWait::Idle) == UnloadProgress::Finished(true) ==> gate.active == 0,
        gate.unload_wait(UnloadWait::OtherStop) != UnloadProgress::Finished(true),
{
}

/// The number of executions that operations begin.
pub open spec fn begun(ops: Seq<GateOp>) -> nat
    decreases ops.len(),
{
    if ops.len() == 0 {
        0
    } else {
        begun(ops.drop_first()) + (if ops.first() is BeginExecution {
            1nat
        } else {
            0nat
        })
    }
}

/// The number of executions that operations finish.
pub open spec fn finished(ops: Seq<GateOp>) -> nat
    decreases ops.len(),
{
    if ops.len() == 0 {
        0
    } else {
        finished(ops.drop_first()) + (if ops.first() is FinishExecution {
            1nat
        } else {
            0nat
        })
    }
}

/// Whether operations do nothing but begin and finish executions, and never more executions
/// have finished than there were.
pub open spec fn executes(active: nat, ops: Seq<GateOp>) -> bool
    decreases ops.len(),
{
    ops.len() > 0 ==> {
        &&& ops.first() is BeginExecution || ops.first() is FinishExecution
        &&& ops.first() is FinishExecution ==> active > 0
        &&& executes(
            if ops.first() is BeginExecution {
                active + 1
            } else {
                (active - 1) as nat
            },
            ops.drop_first(),
        )
    }
}

/// The number of active commands is the number of executions begun less the number finished.
/// So a stop by command is granted exactly when every execution that began has finished, and
/// an unload waits exactly as long as one has not.
pub proof fn active_commands_are_those_begun_and_not_finished(gate: GateView, ops: Seq<GateOp>)
    requires
        gate.phase == McpExecutionPhase::Running,
        executes(gate.active as nat, ops),
        gate.active + begun(ops) <= usize::MAX,
    ensures
        ({
            let now = gate.run(ops);
            let open = gate.active + begun(ops) - finished(ops);
            &&& now.phase == McpExecutionPhase::Running
            &&& now.active == open
            &&& now.command_stop() == Ok::<bool, Seq<char>>(true) <==> open == 0
            &&& open > 0 ==> now.command_stop() == Err::<bool, Seq<char>>(
                STOP_DURING_COMMAND_ERROR@,
            )
            &&& now.unload_stop() == UnloadProgress::Finished(true) <==> open == 0
            &&& open > 0 ==> now.unload_stop() == UnloadProgress::Wait(UnloadWait::Idle)
        }),
    decreases ops.len(),
{
    if ops.len() > 0 {
        active_commands_are_those_begun_and_not_finished(gate.after(ops.first()), ops.drop_first());
    }
}

/// Whether operations do nothing but finish executions, no more than there are.
pub open spec fn only_finishes(active: nat, ops: Seq<GateOp>) -> bool {
    ops.len() <= active && forall|i: int| 0 <= i < ops.len() ==> (#[trigger] ops[i]) is FinishExecution
}

/// An unload that has begun waits until each command that was active has finished, and for no
/// longer.
pub proof fn an_unload_waits_for_every_active_command(gate: GateView, ops: Seq<GateOp>)
    requires
        gate.phase == McpExecutionPhase::Stopping,
        only_finishes(gate.active as nat, ops),
    ensures
        gate.run(ops).phase == McpExecutionPhase::Stopping,
        gate.run(ops).active == gate.active - ops.len(),
        gate.run(ops).unload_wait(UnloadWait::Idle) == (if ops.len() < gate.active {
            UnloadProgress::Wait(UnloadWait::Idle)
        } else {
            UnloadProgress::Finished(true)
        }),
    decreases ops.len(),
{
    if ops.len() > 0 {
        let rest = ops.drop_first();
        assert(ops[0] is FinishExecution);
        assert forall|i: int| 0 <= i < rest.len() implies (#[trigger] rest[i]) is FinishExecution by {
            assert(rest[i] == ops[i + 1]);
        }
        an_unload_waits_for_every_active_command(gate.after(ops.first()), rest);
    }
}

/// Commands begin while the server runs, and at no other time; each that begins counts, and
/// one that is refused changes nothing.
pub proof fn commands_begin_only_while_the_server_runs(gate: GateView)
    ensures
        gate.execution_error() is None <==> gate.phase == McpExecutionPhase::Running && gate.active
            < usize::MAX,
        gate.execution_error() is None ==> gate.after(GateOp::BeginExecution).active == gate.active
            + 1,
        gate.execution_error() is Some ==> gate.after(GateOp::BeginExecution) == gate,
        gate.after(GateOp::BeginExecution).phase == gate.phase,
        gate.after(GateOp::FinishExecution).phase == gate.phase,
        gate.execution_error() is None ==> gate.after(GateOp::BeginExecution).after(
            GateOp::FinishExecution,
        ) == gate,
{
}

/// The life of a server at the execution gate: it opens once from stopped, a stop that was
/// granted closes it to commands, and it is then either stopped, and can open again, or taken
/// back, and runs on as before.
pub proof fn a_gate_opens_stops_and_opens_again(gate: GateView)
    requires
        gate.wf(),
    ensures
        gate.startable() is Ok <==> gate.phase == McpExecutionPhase::Stopped,
        gate.can_run() <==> gate.phase == McpExecutionPhase::Stopped,
        gate.can_run() ==> gate.after(GateOp::MarkRunning) == (GateView {
            phase: McpExecutionPhase::Running,
            active: 0,
        }),
        !gate.can_run() ==> gate.after(GateOp::MarkRunning) == gate,
        gate.command_stop() == Ok::<bool, Seq<char>>(false) <==> gate.phase
            == McpExecutionPhase::Stopped,
        gate.command_stop() == Ok::<bool, Seq<char>>(true) ==> gate.after(
            GateOp::BeginCommandStop,
        ).phase == McpExecutionPhase::Stopping,
        gate.command_stop() != Ok::<bool, Seq<char>>(true) ==> gate.after(GateOp::BeginCommandStop)
            == gate,
        gate.phase == McpExecutionPhase::Running ==> {
            &&& gate.after(GateOp::BeginUnloadStop).phase == McpExecutionPhase::Stopping
            &&& gate.after(GateOp::BeginUnloadStop).active == gate.active
            &&& gate.after(GateOp::BeginUnloadStop).after(GateOp::RestoreRunning) == gate
        },
        gate.phase != McpExecutionPhase::Running ==> gate.after(GateOp::BeginUnloadStop) == gate,
        gate.phase != McpExecutionPhase::Stopping ==> gate.after(GateOp::RestoreRunning) == gate,
        gate.after(GateOp::FinishStopped).can_run(),
        gate.after(GateOp::FinishStopped).active == 0,
{
}

} // verus!
