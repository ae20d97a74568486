//! The worker that captures and publishes snapshots of the target: which request it works
//! on, when it waits, captures, publishes, tries again and gives up.

use vstd::prelude::*;

use crate::plugin_server::LockPoisoned;
use crate::target_snapshot::{CurrentTargetSnapshot, SnapshotView};
use crate::text;

verus! {

pub const TARGET_SNAPSHOT_INITIAL_DELAY_MS: u64 = 750;

pub const TARGET_SNAPSHOT_RETRY_DELAY_MS: u64 = 1000;

pub const TARGET_SNAPSHOT_MAX_ATTEMPTS: usize = 6;

pub const WORKER_LOCK_POISONED: &'static str = "snapshot worker state lock poisoned";

pub const WORKER_PANICKED: &'static str = "snapshot worker thread panicked";

pub const WORKER_STOPPED_ERROR: &'static str = "snapshot worker is stopped";

/// How long the worker waits before the first attempt and before the others, in
/// milliseconds, and how many attempts it makes.
#[derive(Debug, Clone, Copy, PartialEq, Eq, Structural)]
pub struct SnapshotTiming {
    pub initial_delay_ms: u64,
    pub retry_delay_ms: u64,
    pub max_attempts: usize,
}

impl Default for SnapshotTiming {
    fn default() -> (r: Self)
        ensures
            r == (SnapshotTiming {
                initial_delay_ms: TARGET_SNAPSHOT_INITIAL_DELAY_MS,
                retry_delay_ms: TARGET_SNAPSHOT_RETRY_DELAY_MS,
                max_attempts: TARGET_SNAPSHOT_MAX_ATTEMPTS,
            }),
    {
        SnapshotTiming {
            initial_delay_ms: TARGET_SNAPSHOT_INITIAL_DELAY_MS,
            retry_delay_ms: TARGET_SNAPSHOT_RETRY_DELAY_MS,
            max_attempts: TARGET_SNAPSHOT_MAX_ATTEMPTS,
        }
    }
}

/// What the worker and those who ask it share: the generation that is asked for and not yet
/// taken, and whether the worker is to stop.
pub struct MailboxView {
    pub requested: Option<u64>,
    pub shutdown: bool,
}

/// What a worker without a request finds.
#[derive(Debug, Clone, Copy, PartialEq, Eq, Structural)]
pub enum RequestPoll {
    Wait,
    Requested(u64),
    Shutdown,
}

/// What ends a delay.
#[derive(Debug, Clone, Copy, PartialEq, Eq, Structural)]
pub enum SnapshotWorkerWake {
    Requested(u64),
    TimedOut,
    Shutdown,
}

impl MailboxView {
    pub open spec fn taken(self) -> MailboxView {
        MailboxView { requested: None, ..self }
    }

    /// The mailbox after a request; a mailbox that is shut down takes none.
    pub open spec fn asked(self, generation: u64) -> MailboxView {
        if self.shutdown {
            self
        } else {
            MailboxView { requested: Some(generation), ..self }
        }
    }

    /// The mailbox after a sequence of requests.
    pub open spec fn asked_all(self, generations: Seq<u64>) -> MailboxView
        decreases generations.len(),
    {
        if generations.len() == 0 {
            self
        } else {
            self.asked_all(generations.drop_last()).asked(generations.last())
        }
    }

    /// What a worker without a request finds. To stop comes first.
    pub open spec fn poll_request(self) -> RequestPoll {
        if self.shutdown {
            RequestPoll::Shutdown
        } else {
            match self.requested {
                Some(generation) => RequestPoll::Requested(generation),
                None => RequestPoll::Wait,
            }
        }
    }

    /// What a worker in a delay finds. To stop comes first, then a request, then the deadline.
    pub open spec fn poll_delay(self, deadline_passed: bool) -> Option<SnapshotWorkerWake> {
        if self.shutdown {
            Some(SnapshotWorkerWake::Shutdown)
        } else if self.requested is Some {
            Some(SnapshotWorkerWake::Requested(self.requested->0))
        } else if deadline_passed {
            Some(SnapshotWorkerWake::TimedOut)
        } else {
            None
        }
    }

    /// The mailbox after a look: a request that was found is taken.
    pub open spec fn after_poll(self) -> MailboxView {
        if self.shutdown {
            self
        } else {
            self.taken()
        }
    }
}

/// The shared state of a worker; it is held under a lock.
#[derive(Debug)]
pub struct SnapshotWorkerState {
    requested_generation: Option<u64>,
    shutdown: bool,
}

impl View for SnapshotWorkerState {
    type V = MailboxView;

    closed spec fn view(&self) -> MailboxView {
        MailboxView { requested: self.requested_generation, shutdown: self.shutdown }
    }
}

impl Default for SnapshotWorkerState {
    /// Nothing is asked for.
    fn default() -> (r: Self)
        ensures
            r@ == (MailboxView { requested: None, shutdown: false }),
    {
        SnapshotWorkerState { requested_generation: None, shutdown: false }
    }
}

impl SnapshotWorkerState {
    /// Asks for a snapshot of a generation, in place of any that is not yet taken.
    pub fn request(&mut self, generation: u64) -> (r: Result<(), String>)
        ensures
            text::outcome_of(r) == (if old(self)@.shutdown {
                Err(WORKER_STOPPED_ERROR@)
            } else {
                Ok(())
            }),
            final(self)@ == old(self)@.asked(generation),
            r is Ok ==> final(self)@.poll_request() == RequestPoll::Requested(generation),
            r is Err ==> final(self)@ == old(self)@ && final(self)@.poll_request()
                == RequestPoll::Shutdown,
    {
        if self.shutdown {
            return Err(WORKER_STOPPED_ERROR.to_owned());
        }
        self.requested_generation = Some(generation);
        Ok(())
    }

    /// Tells the worker to stop.
    pub fn shutdown(&mut self)
        ensures
            final(self)@ == (MailboxView { shutdown: true, ..old(self)@ }),
            final(self)@.poll_request() == RequestPoll::Shutdown,
            final(self)@.poll_delay(false) == Some(SnapshotWorkerWake::Shutdown),
    {
        self.shutdown = true;
    }
}

/// Asks a worker for a snapshot of a generation, in place of any that it has not yet taken.
pub fn request_snapshot(
    state: Result<&mut SnapshotWorkerState, LockPoisoned>,
    generation: u64,
) -> (r: Result<(), String>)
    ensures
        match state {
            Ok(state) => {
                &&& text::outcome_of(r) == (if state@.shutdown {
                    Err(WORKER_STOPPED_ERROR@)
                } else {
                    Ok(())
                })
                &&& final(state)@ == state@.asked(generation)
            },
            Err(_) => text::outcome_of(r) == Err::<(), Seq<char>>(WORKER_LOCK_POISONED@),
        },
{
    match state {
        Ok(state) => state.request(generation),
        Err(_) => Err(WORKER_LOCK_POISONED.to_owned()),
    }
}

/// What stopping a worker gives; `panicked` tells how its thread ended, where there was one to
/// wait for.
pub fn shutdown_result(panicked: Option<bool>) -> (r: Result<(), String>)
    ensures
        text::outcome_of(r) == (if panicked == Some(true) {
            Err(WORKER_PANICKED@)
        } else {
            Ok(())
        }),
{
    match panicked {
        Some(panicked) => if panicked {
            Err(WORKER_PANICKED.to_owned())
        } else {
            Ok(())
        },
        None => Ok(()),
    }
}

/// What a worker without a request is to do; a request that it finds is taken.
pub fn wait_for_snapshot_request(state: &mut SnapshotWorkerState) -> (r: RequestPoll)
    ensures
        r == old(state)@.poll_request(),
        final(state)@ == old(state)@.after_poll(),
{
    if state.shutdown {
        return RequestPoll::Shutdown;
    }
    match state.requested_generation {
        Some(generation) => {
            state.requested_generation = None;
            RequestPoll::Requested(generation)
        },
        None => RequestPoll::Wait,
    }
}

/// What ends the delay of a worker, if anything does yet; a request that it finds is taken.
pub fn wait_for_snapshot_delay(state: &mut SnapshotWorkerState, deadline_passed: bool) -> (r:
    Option<SnapshotWorkerWake>)
    ensures
        r == old(state)@.poll_delay(deadline_passed),
        final(state)@ == old(state)@.after_poll(),
{
    if state.shutdown {
        return Some(SnapshotWorkerWake::Shutdown);
    }
    match state.requested_generation {
        Some(generation) => {
            state.requested_generation = None;
            return Some(SnapshotWorkerWake::Requested(generation));
        },
        None => {},
    }
    if deadline_passed {
        Some(SnapshotWorkerWake::TimedOut)
    } else {
        None
    }
}

/// Whether the worker is to stop.
pub fn snapshot_worker_is_shutdown(state: &SnapshotWorkerState) -> (r: bool)
    ensures
        r == state@.shutdown,
{
    state.shutdown
}

/// What a worker is about.
#[derive(Debug, Clone, Copy, PartialEq, Eq, Structural)]
pub enum WorkerPhase {
    /// It has no request.
    Idle,
    /// It waits before an attempt.
    Delaying,
    /// It captures the target.
    Capturing,
    /// It has a snapshot, and looks whether it is to stop.
    Checking,
    /// It publishes the snapshot.
    Publishing,
    /// It has stopped.
    Exited,
}

/// What a worker is to do next.
#[derive(Debug, Clone, Copy, PartialEq, Eq, Structural)]
pub enum WorkerAction {
    AwaitRequest,
    /// Wait this many milliseconds, or until something is asked.
    AwaitDelay(u64),
    Capture,
    CheckShutdown,
    /// Publish the snapshot for this generation.
    Publish(u64),
    Exit,
}

/// What came of an action.
pub enum WorkerEvent {
    /// The generation that was asked for, or none where the worker is to stop.
    Request(Option<u64>),
    Woke(SnapshotWorkerWake),
    Captured(Option<CurrentTargetSnapshot>),
    ShutdownChecked(bool),
    Published(Result<bool, String>),
}

/// A [`WorkerEvent`] as far as the worker reads it.
pub enum WorkerEventView {
    Request(Option<u64>),
    Woke(SnapshotWorkerWake),
    Captured(Option<SnapshotView>),
    ShutdownChecked(bool),
    /// Whether the publication went without error.
    Published(bool),
}

pub open spec fn shown(snapshot: Option<CurrentTargetSnapshot>) -> Option<SnapshotView> {
    match snapshot {
        Some(snapshot) => Some(snapshot@),
        None => None,
    }
}

impl View for WorkerEvent {
    type V = WorkerEventView;

    open spec fn view(&self) -> WorkerEventView {
        match *self {
            WorkerEvent::Request(generation) => WorkerEventView::Request(generation),
            WorkerEvent::Woke(wake) => WorkerEventView::Woke(wake),
            WorkerEvent::Captured(snapshot) => WorkerEventView::Captured(shown(snapshot)),
            WorkerEvent::ShutdownChecked(stop) => WorkerEventView::ShutdownChecked(stop),
            WorkerEvent::Published(result) => WorkerEventView::Published(result is Ok),
        }
    }
}

/// Where a worker stands: the request it works on, the snapshot it has for it, and the
/// attempts it has made.
pub struct WorkerView {
    pub timing: SnapshotTiming,
    pub phase: WorkerPhase,
    pub generation: u64,
    pub snapshot: Option<SnapshotView>,
    pub attempts: usize,
    pub delay_ms: u64,
}

impl WorkerView {
    /// The number of attempts for a request: at least one.
    pub open spec fn max_attempts(self) -> usize {
        if self.timing.max_attempts == 0 {
            1
        } else {
            self.timing.max_attempts
        }
    }

    pub open spec fn wf(self) -> bool {
        match self.phase {
            WorkerPhase::Idle | WorkerPhase::Exited => true,
            WorkerPhase::Delaying => self.attempts < self.max_attempts(),
            WorkerPhase::Capturing => 1 <= self.attempts <= self.max_attempts() && self.snapshot
                is None,
            WorkerPhase::Checking | WorkerPhase::Publishing => 1 <= self.attempts
                <= self.max_attempts() && self.snapshot is Some,
        }
    }

    pub open spec fn action(self) -> WorkerAction {
        match self.phase {
            WorkerPhase::Idle => WorkerAction::AwaitRequest,
            WorkerPhase::Delaying => WorkerAction::AwaitDelay(self.delay_ms),
            WorkerPhase::Capturing => WorkerAction::Capture,
            WorkerPhase::Checking => WorkerAction::CheckShutdown,
            WorkerPhase::Publishing => WorkerAction::Publish(self.generation),
            WorkerPhase::Exited => WorkerAction::Exit,
        }
    }

    pub open spec fn in_phase(self, phase: WorkerPhase) -> WorkerView {
        WorkerView { phase, ..self }
    }

    /// The worker with a request that it has just taken.
    pub open spec fn started(self, generation: u64) -> WorkerView {
        WorkerView {
            phase: WorkerPhase::Delaying,
            generation,
            snapshot: None,
            attempts: 0,
            delay_ms: self.timing.initial_delay_ms,
            ..self
        }
    }

    /// The worker after an attempt that failed: it waits for the next one while there is one
    /// left.
    pub open spec fn failed(self) -> WorkerView {
        if self.attempts < self.max_attempts() {
            WorkerView {
                phase: WorkerPhase::Delaying,
                delay_ms: self.timing.retry_delay_ms,
                ..self
            }
        } else {
            self.in_phase(WorkerPhase::Idle)
        }
    }

    /// The worker after an event. An event that does not answer its action changes nothing.
    pub open spec fn after(self, event: WorkerEventView) -> WorkerView {
        match (self.phase, event) {
            (WorkerPhase::Idle, WorkerEventView::Request(request)) => match request {
                Some(generation) => self.started(generation),
                None => self.in_phase(WorkerPhase::Exited),
            },
            (WorkerPhase::Delaying, WorkerEventView::Woke(wake)) => match wake {
                SnapshotWorkerWake::Requested(generation) => self.started(generation),
                SnapshotWorkerWake::TimedOut => WorkerView {
                    phase: if self.snapshot is None {
                        WorkerPhase::Capturing
                    } else {
                        WorkerPhase::Checking
                    },
                    attempts: (self.attempts + 1) as usize,
                    ..self
                },
                SnapshotWorkerWake::Shutdown => self.in_phase(WorkerPhase::Exited),
            },
            (WorkerPhase::Capturing, WorkerEventView::Captured(snapshot)) => if snapshot is Some {
                WorkerView { phase: WorkerPhase::Checking, snapshot, ..self }
            } else {
                self.failed()
            },
            (WorkerPhase::Checking, WorkerEventView::ShutdownChecked(stop)) => self.in_phase(
                if stop {
                    WorkerPhase::Exited
                } else {
                    WorkerPhase::Publishing
                },
            ),
            (WorkerPhase::Publishing, WorkerEventView::Published(ok)) => if ok {
                self.in_phase(WorkerPhase::Idle)
            } else {
                self.failed()
            },
            _ => self,
        }
    }

    pub open spec fn run(self, events: Seq<WorkerEventView>) -> WorkerView
        decreases events.len(),
    {
        if events.len() == 0 {
            self
        } else {
            self.after(events.first()).run(events.drop_first())
        }
    }
}

/// A worker between two actions. [`run_snapshot_worker`] takes what came of one action and
/// gives the next.
pub struct SnapshotWorkerRun {
    timing: SnapshotTiming,
    phase: WorkerPhase,
    generation: u64,
    snapshot: Option<CurrentTargetSnapshot>,
    attempts: usize,
    delay_ms: u64,
}

impl View for SnapshotWorkerRun {
    type V = WorkerView;

    closed spec fn view(&self) -> WorkerView {
        WorkerView {
            timing: self.timing,
            phase: self.phase,
            generation: self.generation,
            snapshot: shown(self.snapshot),
            attempts: self.attempts,
            delay_ms: self.delay_ms,
        }
    }
}

impl SnapshotWorkerRun {
    /// A worker without a request.
    pub fn new(timing: SnapshotTiming) -> (r: Self)
        ensures
            r@.timing == timing,
            r@.phase == WorkerPhase::Idle,
            r@.wf(),
    {
        SnapshotWorkerRun {
            timing,
            phase: WorkerPhase::Idle,
            generation: 0,
            snapshot: None,
            attempts: 0,
            delay_ms: timing.initial_delay_ms,
        }
    }

    /// What the worker is to do next.
    pub fn action(&self) -> (r: WorkerAction)
        ensures
            r == self@.action(),
    {
        match self.phase {
            WorkerPhase::Idle => WorkerAction::AwaitRequest,
            WorkerPhase::Delaying => WorkerAction::AwaitDelay(self.delay_ms),
            WorkerPhase::Capturing => WorkerAction::Capture,
            WorkerPhase::Checking => WorkerAction::CheckShutdown,
            WorkerPhase::Publishing => WorkerAction::Publish(self.generation),
            WorkerPhase::Exited => WorkerAction::Exit,
        }
    }

    /// The snapshot that the worker has captured for its request.
    pub fn snapshot(&self) -> (r: Option<&CurrentTargetSnapshot>)
        ensures
            r is Some <==> self@.snapshot is Some,
            r is Some ==> Some(r->0@) == self@.snapshot,
    {
        self.snapshot.as_ref()
    }

    fn start(&mut self, generation: u64)
        ensures
            final(self)@ == old(self)@.started(generation),
    {
        self.phase = WorkerPhase::Delaying;
        self.generation = generation;
        self.snapshot = None;
        self.attempts = 0;
        self.delay_ms = self.timing.initial_delay_ms;
    }

    fn fail(&mut self)
        ensures
            final(self)@ == old(self)@.failed(),
    {
        let max_attempts: usize = if self.timing.max_attempts == 0 {
            1
        } else {
            self.timing.max_attempts
        };
        if self.attempts < max_attempts {
            self.phase = WorkerPhase::Delaying;
            self.delay_ms = self.timing.retry_delay_ms;
        } else {
            self.phase = WorkerPhase::Idle;
        }
    }
}

/// Tells a worker what came of its action, and gives the next action.
pub fn run_snapshot_worker(run: &mut SnapshotWorkerRun, event: WorkerEvent) -> (r: WorkerAction)
    requires
        old(run)@.wf(),
    ensures
        final(run)@ == old(run)@.after(event@),
        final(run)@.wf(),
        r == final(run)@.action(),
{
    match (run.phase, event) {
        (WorkerPhase::Idle, WorkerEvent::Request(request)) => match request {
            Some(generation) => run.start(generation),
            None => {
                run.phase = WorkerPhase::Exited;
            },
        },
        (WorkerPhase::Delaying, WorkerEvent::Woke(wake)) => match wake {
            SnapshotWorkerWake::Requested(generation) => run.start(generation),
            SnapshotWorkerWake::TimedOut => {
                run.attempts = run.attempts + 1;
                run.phase =
                if run.snapshot.is_none() {
                    WorkerPhase::Capturing
                } else {
                    WorkerPhase::Checking
                };
            },
            SnapshotWorkerWake::Shutdown => {
                run.phase = WorkerPhase::Exited;
            },
        },
        (WorkerPhase::Capturing, WorkerEvent::Captured(snapshot)) => if snapshot.is_some() {
            run.snapshot = snapshot;
            run.phase = WorkerPhase::Checking;
        } else {
            run.fail();
        },
        (WorkerPhase::Checking, WorkerEvent::ShutdownChecked(stop)) => if stop {
            run.phase = WorkerPhase::Exited;
        } else {
            run.phase = WorkerPhase::Publishing;
        },
        (WorkerPhase::Publishing, WorkerEvent::Published(result)) => if result.is_ok() {
            run.phase = WorkerPhase::Idle;
        } else {
            run.fail();
        },
        _ => {},
    }
    run.action()
}

/// Requests that the worker has not taken yet count as one, for the generation that was asked
/// for last; when it is taken, nothing is left.
pub proof fn pending_requests_coalesce_to_the_latest(mailbox: MailboxView, generations: Seq<u64>)
    requires
        !mailbox.shutdown,
        generations.len() > 0,
    ensures
        ({
            let asked = mailbox.asked_all(generations);
            &&& asked.poll_request() == RequestPoll::Requested(generations.last())
            &&& forall|passed: bool|
                #[trigger] asked.poll_delay(passed) == Some(
                    SnapshotWorkerWake::Requested(generations.last()),
                )
            &&& asked.after_poll().poll_request() == RequestPoll::Wait
        }),
    decreases generations.len(),
{
    lemma_asked_all_keeps_shutdown(mailbox, generations.drop_last());
}

proof fn lemma_asked_all_keeps_shutdown(mailbox: MailboxView, generations: Seq<u64>)
    ensures
        mailbox.asked_all(generations).shutdown == mailbox.shutdown,
        mailbox.shutdown ==> mailbox.asked_all(generations) == mailbox,
    decreases generations.len(),
{
    if generations.len() > 0 {
        lemma_asked_all_keeps_shutdown(mailbox, generations.drop_last());
    }
}

/// A worker that is told to stop takes no more requests, and finds out whether it waits for a
/// request or in a delay, before any deadline; once it has stopped it does nothing more.
pub proof fn a_stop_is_final(
    mailbox: MailboxView,
    generations: Seq<u64>,
    worker: WorkerView,
    events: Seq<WorkerEventView>,
)
    requires
        mailbox.shutdown,
        worker.phase == WorkerPhase::Exited,
    ensures
        ({
            let asked = mailbox.asked_all(generations);
            &&& asked == mailbox
            &&& asked.poll_request() == RequestPoll::Shutdown
            &&& asked.poll_delay(false) == Some(SnapshotWorkerWake::Shutdown)
            &&& asked.after_poll() == asked
        }),
        worker.run(events) == worker,
        worker.action() == WorkerAction::Exit,
    decreases events.len(),
{
    lemma_asked_all_keeps_shutdown(mailbox, generations);
    if events.len() > 0 {
        a_stop_is_final(mailbox, generations, worker.after(events.first()), events.drop_first());
    }
}

/// Whether an event brings the worker a request.
pub open spec fn is_request(event: WorkerEventView) -> bool {
    match event {
        WorkerEventView::Request(request) => request is Some,
        WorkerEventView::Woke(wake) => wake is Requested,
        _ => false,
    }
}

pub open spec fn without_requests(events: Seq<WorkerEventView>) -> bool {
    forall|i: int| 0 <= i < events.len() ==> !is_request(#[trigger] events[i])
}

/// The number of attempts that a worker begins during the events.
pub open spec fn attempts_begun(worker: WorkerView, events: Seq<WorkerEventView>) -> nat
    decreases events.len(),
{
    if events.len() == 0 {
        0
    } else {
        let begins = worker.phase == WorkerPhase::Delaying && events.first()
            == WorkerEventView::Woke(SnapshotWorkerWake::TimedOut);
        attempts_begun(worker.after(events.first()), events.drop_first()) + (if begins {
            1nat
        } else {
            0nat
        })
    }
}

/// The number of snapshots that a worker captures during the events.
pub open spec fn snapshots_captured(worker: WorkerView, events: Seq<WorkerEventView>) -> nat
    decreases events.len(),
{
    if events.len() == 0 {
        0
    } else {
        let captures = worker.phase == WorkerPhase::Capturing && events.first() is Captured
            && events.first()->Captured_0 is Some;
        snapshots_captured(worker.after(events.first()), events.drop_first()) + (if captures {
            1nat
        } else {
            0nat
        })
    }
}

/// The attempts that a worker has left for the request it works on.
pub open spec fn attempts_left(worker: WorkerView) -> nat {
    match worker.phase {
        WorkerPhase::Idle | WorkerPhase::Exited => 0,
        _ => (worker.max_attempts() - worker.attempts) as nat,
    }
}

proof fn lemma_drop_first_without_requests(events: Seq<WorkerEventView>)
    requires
        without_requests(events),
        events.len() > 0,
    ensures
        !is_request(events.first()),
        without_requests(events.drop_first()),
{
    let rest = events.drop_first();
    assert(!is_request(events[0]));
    assert forall|i: int| 0 <= i < rest.len() implies !is_request(#[trigger] rest[i]) by {
        assert(rest[i] == events[i + 1]);
    }
}

proof fn lemma_attempts_bounded(worker: WorkerView, events: Seq<WorkerEventView>)
    requires
        worker.wf(),
        without_requests(events),
    ensures
        attempts_begun(worker, events) <= attempts_left(worker),
    decreases events.len(),
{
    if events.len() > 0 {
        lemma_drop_first_without_requests(events);
        lemma_attempts_bounded(worker.after(events.first()), events.drop_first());
    }
}

/// For one request the worker makes no more attempts than it may, and at least one attempt
/// is allowed.
pub proof fn a_request_gets_a_bounded_number_of_attempts(
    worker: WorkerView,
    generation: u64,
    events: Seq<WorkerEventView>,
)
    requires
        without_requests(events),
    ensures
        attempts_begun(worker.started(generation), events) <= worker.max_attempts(),
        worker.max_attempts() >= 1,
{
    lemma_attempts_bounded(worker.started(generation), events);
}

proof fn lemma_captured_once(worker: WorkerView, events: Seq<WorkerEventView>)
    requires
        worker.wf(),
        without_requests(events),
    ensures
        snapshots_captured(worker, events) <= (if worker.snapshot is Some || worker.phase
            == WorkerPhase::Idle || worker.phase == WorkerPhase::Exited {
            0nat
        } else {
            1nat
        }),
        worker.run(events).generation == worker.generation,
    decreases events.len(),
{
    if events.len() > 0 {
        lemma_drop_first_without_requests(events);
        lemma_captured_once(worker.after(events.first()), events.drop_first());
    }
}

/// For one request the worker captures at most one snapshot, which it keeps while it tries to
/// publish it, and publishes it for the generation that was asked for.
pub proof fn a_request_is_captured_once_and_published_as_asked(
    worker: WorkerView,
    generation: u64,
    events: Seq<WorkerEventView>,
)
    requires
        without_requests(events),
    ensures
        snapshots_captured(worker.started(generation), events) <= 1,
        ({
            let now = worker.started(generation).run(events);
            now.phase == WorkerPhase::Publishing ==> now.action() == WorkerAction::Publish(
                generation,
            ) && now.snapshot is Some
        }),
{
    lemma_captured_once(worker.started(generation), events);
    lemma_run_wf(worker.started(generation), events);
}

proof fn lemma_run_wf(worker: WorkerView, events: Seq<WorkerEventView>)
    requires
        worker.wf(),
    ensures
        worker.run(events).wf(),
    decreases events.len(),
{
    if events.len() > 0 {
        lemma_run_wf(worker.after(events.first()), events.drop_first());
    }
}

/// Whether an event lets the worker give up on its request before its attempts are used up: it
/// brings another request, tells it to stop, or says that the snapshot was published.
pub open spec fn cuts_short(event: WorkerEventView) -> bool {
    match event {
        WorkerEventView::Request(_) => true,
        WorkerEventView::Woke(wake) => wake != SnapshotWorkerWake::TimedOut,
        WorkerEventView::ShutdownChecked(stop) => stop,
        WorkerEventView::Published(ok) => ok,
        WorkerEventView::Captured(_) => false,
    }
}

proof fn lemma_attempts_counted(worker: WorkerView, events: Seq<WorkerEventView>)
    requires
        worker.wf(),
        worker.phase != WorkerPhase::Exited,
        worker.phase == WorkerPhase::Idle ==> worker.attempts == worker.max_attempts(),
        forall|i: int| 0 <= i < events.len() ==> !cuts_short(#[trigger] events[i]),
    ensures
        ({
            let now = worker.run(events);
            &&& now.phase != WorkerPhase::Exited
            &&& now.max_attempts() == worker.max_attempts()
            &&& now.phase == WorkerPhase::Idle ==> now.attempts == now.max_attempts()
            &&& attempts_begun(worker, events) == now.attempts - worker.attempts
        }),
    decreases events.len(),
{
    if events.len() > 0 {
        let rest = events.drop_first();
        assert(!cuts_short(events[0]));
        assert forall|i: int| 0 <= i < rest.len() implies !cuts_short(#[trigger] rest[i]) by {
            assert(rest[i] == events[i + 1]);
        }
        lemma_attempts_counted(worker.after(events.first()), rest);
    }
}

/// A request is not given up early: where the worker is done with one that was not published,
/// whether its captures or its publications failed, it has made every attempt that it may.
pub proof fn a_failing_request_gets_every_attempt(
    worker: WorkerView,
    generation: u64,
    events: Seq<WorkerEventView>,
)
    requires
        forall|i: int| 0 <= i < events.len() ==> !cuts_short(#[trigger] events[i]),
    ensures
        ({
            let now = worker.started(generation).run(events);
            &&& now.phase == WorkerPhase::Idle ==> attempts_begun(
                worker.started(generation),
                events,
            ) == worker.max_attempts()
            &&& now.phase != WorkerPhase::Idle ==> attempts_begun(
                worker.started(generation),
                events,
            ) == now.attempts
            &&& now.phase != WorkerPhase::Exited
        }),
{
    lemma_attempts_counted(worker.started(generation), events);
}

/// What a worker is told over a number of attempts of which each captures nothing.
pub open spec fn failed_captures(attempts: nat) -> Seq<WorkerEventView>
    decreases attempts,
{
    if attempts == 0 {
        Seq::empty()
    } else {
        seq![
            WorkerEventView::Woke(SnapshotWorkerWake::TimedOut),
            WorkerEventView::Captured(None),
        ] + failed_captures((attempts - 1) as nat)
    }
}

/// What a worker that has a snapshot is told over a number of attempts of which each fails to
/// publish it.
pub open spec fn failed_publications(attempts: nat) -> Seq<WorkerEventView>
    decreases attempts,
{
    if attempts == 0 {
        Seq::empty()
    } else {
        seq![
            WorkerEventView::Woke(SnapshotWorkerWake::TimedOut),
            WorkerEventView::ShutdownChecked(false),
            WorkerEventView::Published(false),
        ] + failed_publications((attempts - 1) as nat)
    }
}

proof fn lemma_failed_captures(worker: WorkerView, attempts: nat)
    requires
        worker.wf(),
        worker.phase == WorkerPhase::Delaying,
        worker.snapshot is None,
        worker.attempts + attempts == worker.max_attempts(),
    ensures
        worker.run(failed_captures(attempts)).phase == WorkerPhase::Idle,
        attempts_begun(worker, failed_captures(attempts)) == attempts,
    decreases attempts,
{
    let events = failed_captures(attempts);
    let left = (attempts - 1) as nat;
    let next = worker.after(events[0]).after(events[1]);
    assert(events.drop_first().drop_first() =~= failed_captures(left));
    reveal_with_fuel(WorkerView::run, 3);
    reveal_with_fuel(attempts_begun, 3);
    assert(worker.run(events) == next.run(failed_captures(left)));
    assert(attempts_begun(worker, events) == attempts_begun(next, failed_captures(left)) + 1);
    if left > 0 {
        lemma_failed_captures(next, left);
    } else {
        assert(failed_captures(left) =~= Seq::empty());
    }
}

proof fn lemma_failed_publications(worker: WorkerView, attempts: nat)
    requires
        worker.wf(),
        attempts > 0 ==> worker.phase == WorkerPhase::Delaying && worker.snapshot is Some,
        attempts == 0 ==> worker.phase == WorkerPhase::Idle,
        worker.attempts + attempts == worker.max_attempts(),
    ensures
        worker.run(failed_publications(attempts)).phase == WorkerPhase::Idle,
        attempts_begun(worker, failed_publications(attempts)) == attempts,
    decreases attempts,
{
    if attempts > 0 {
        let events = failed_publications(attempts);
        let left = (attempts - 1) as nat;
        let next = worker.after(events[0]).after(events[1]).after(events[2]);
        assert(events.drop_first().drop_first().drop_first() =~= failed_publications(left));
        reveal_with_fuel(WorkerView::run, 4);
        reveal_with_fuel(attempts_begun, 4);
        assert(worker.run(events) == next.run(failed_publications(left)));
        assert(attempts_begun(worker, events) == attempts_begun(next, failed_publications(left))
            + 1);
        lemma_failed_publications(next, left);
    }
}

/// A request of which every capture fails is tried exactly as often as it may be, and then
/// given up.
pub proof fn failing_captures_use_up_the_attempts(worker: WorkerView, generation: u64)
    ensures
        ({
            let events = failed_captures(worker.max_attempts() as nat);
            &&& worker.started(generation).run(events).phase == WorkerPhase::Idle
            &&& attempts_begun(worker.started(generation), events) == worker.max_attempts()
        }),
{
    lemma_failed_captures(worker.started(generation), worker.max_attempts() as nat);
}

/// A request of which every publication fails is tried exactly as often as it may be, with
/// the one snapshot that its first attempt captured, and then given up.
pub proof fn failing_publications_use_up_the_attempts(
    worker: WorkerView,
    generation: u64,
    snapshot: SnapshotView,
)
    ensures
        ({
            let first = seq![
                WorkerEventView::Woke(SnapshotWorkerWake::TimedOut),
                WorkerEventView::Captured(Some(snapshot)),
                WorkerEventView::ShutdownChecked(false),
                WorkerEventView::Published(false),
            ];
            let events = first + failed_publications((worker.max_attempts() - 1) as nat);
            &&& worker.started(generation).run(events).phase == WorkerPhase::Idle
            &&& attempts_begun(worker.started(generation), events) == worker.max_attempts()
        }),
{
    let first = seq![
        WorkerEventView::Woke(SnapshotWorkerWake::TimedOut),
        WorkerEventView::Captured(Some(snapshot)),
        WorkerEventView::ShutdownChecked(false),
        WorkerEventView::Published(false),
    ];
    let left = (worker.max_attempts() - 1) as nat;
    let events = first + failed_publications(left);
    let start = worker.started(generation);
    let next = start.after(first[0]).after(first[1]).after(first[2]).after(first[3]);
    assert(events.drop_first().drop_first().drop_first().drop_first() =~= failed_publications(
        left,
    ));
    reveal_with_fuel(WorkerView::run, 5);
    reveal_with_fuel(attempts_begun, 5);
    assert(start.run(events) == next.run(failed_publications(left)));
    assert(attempts_begun(start, events) == attempts_begun(next, failed_publications(left)) + 1);
    lemma_failed_publications(next, left);
}

/// Whether an event is one that the worker's action can end with, while the mailbox is as it
/// is. Once it has stopped, nothing reaches it.
pub open spec fn answers(worker: WorkerView, mailbox: MailboxView, event: WorkerEventView) -> bool {
    match (worker.action(), event) {
        (WorkerAction::AwaitRequest, WorkerEventView::Request(request)) => match request {
            Some(generation) => mailbox.poll_request() == RequestPoll::Requested(generation),
            None => mailbox.poll_request() == RequestPoll::Shutdown,
        },
        (WorkerAction::AwaitDelay(_), WorkerEventView::Woke(wake)) => mailbox.poll_delay(true)
            == Some(wake) || mailbox.poll_delay(false) == Some(wake),
        (WorkerAction::Capture, WorkerEventView::Captured(_)) => true,
        (WorkerAction::CheckShutdown, WorkerEventView::ShutdownChecked(stop)) => stop
            == mailbox.shutdown,
        (WorkerAction::Publish(_), WorkerEventView::Published(_)) => true,
        (WorkerAction::Exit, _) => true,
        _ => false,
    }
}

/// Whether each event answers the worker, while the mailbox stays as it is.
pub open spec fn all_answer(
    worker: WorkerView,
    mailbox: MailboxView,
    events: Seq<WorkerEventView>,
) -> bool
    decreases events.len(),
{
    events.len() > 0 ==> answers(worker, mailbox, events.first()) && all_answer(
        worker.after(events.first()),
        mailbox,
        events.drop_first(),
    )
}

pub open spec fn is_working(worker: WorkerView) -> bool {
    worker.phase == WorkerPhase::Capturing || worker.phase == WorkerPhase::Publishing
}

/// The number of captures and publications that a worker begins during the events.
pub open spec fn work_begun(worker: WorkerView, events: Seq<WorkerEventView>) -> nat
    decreases events.len(),
{
    if events.len() == 0 {
        0
    } else {
        let next = worker.after(events.first());
        work_begun(next, events.drop_first()) + (if is_working(next) && next.phase != worker.phase {
            1nat
        } else {
            0nat
        })
    }
}

/// A worker whose mailbox is shut down stops, whatever it is about: it ends at most what it
/// is doing, begins no capture and no publication, and has stopped after two answers.
pub proof fn a_worker_that_is_told_to_stop_stops(
    worker: WorkerView,
    mailbox: MailboxView,
    events: Seq<WorkerEventView>,
)
    requires
        worker.wf(),
        mailbox.shutdown,
        all_answer(worker, mailbox, events),
    ensures
        work_begun(worker, events) == 0,
        events.len() >= 2 ==> worker.run(events).phase == WorkerPhase::Exited,
        events.len() >= 1 && !is_working(worker) ==> worker.run(events).phase
            == WorkerPhase::Exited,
        mailbox.after_poll() == mailbox,
    decreases events.len(),
{
    if events.len() > 0 {
        a_worker_that_is_told_to_stop_stops(
            worker.after(events.first()),
            mailbox,
            events.drop_first(),
        );
    }
}

/// A request begins afresh, whatever the worker was about: whether it had none or waits for an
/// attempt at another, it waits the initial delay and then captures the target. Nothing of an
/// earlier request is left.
pub proof fn a_request_begins_afresh(idle: WorkerView, delaying: WorkerView, generation: u64)
    requires
        idle.action() == WorkerAction::AwaitRequest,
        delaying.action() is AwaitDelay,
        idle.timing == delaying.timing,
    ensures
        ({
            let timed_out = WorkerEventView::Woke(SnapshotWorkerWake::TimedOut);
            let started = idle.after(WorkerEventView::Request(Some(generation)));
            &&& started == delaying.after(
                WorkerEventView::Woke(SnapshotWorkerWake::Requested(generation)),
            )
            &&& started.action() == WorkerAction::AwaitDelay(idle.timing.initial_delay_ms)
            &&& started.snapshot is None
            &&& started.after(timed_out).action() == WorkerAction::Capture
        }),
{
}

/// A captured snapshot is the one that is published, for the generation that was asked for,
/// once the worker has seen that it is not to stop; after that it waits for another request.
pub proof fn a_captured_snapshot_is_published(
    idle: WorkerView,
    generation: u64,
    snapshot: SnapshotView,
)
    requires
        idle.action() == WorkerAction::AwaitRequest,
    ensures
        ({
            let captured = idle.after(WorkerEventView::Request(Some(generation))).after(
                WorkerEventView::Woke(SnapshotWorkerWake::TimedOut),
            ).after(WorkerEventView::Captured(Some(snapshot)));
            let checked = captured.after(WorkerEventView::ShutdownChecked(false));
            &&& captured.action() == WorkerAction::CheckShutdown
            &&& checked.action() == WorkerAction::Publish(generation)
            &&& checked.snapshot == Some(snapshot)
            &&& checked.after(WorkerEventView::Published(true)).action()
                == WorkerAction::AwaitRequest
        }),
{
}

/// After an attempt that failed the worker waits the retry delay. A target that was not
/// captured is captured again; a snapshot that was not published is published again, the same
/// and for the same generation.
pub proof fn a_failed_attempt_is_made_again(worker: WorkerView)
    requires
        worker.wf(),
        worker.attempts < worker.max_attempts(),
    ensures
        ({
            let timed_out = WorkerEventView::Woke(SnapshotWorkerWake::TimedOut);
            let missed = worker.after(WorkerEventView::Captured(None));
            let refused = worker.after(WorkerEventView::Published(false));
            let again = refused.after(timed_out);
            &&& worker.action() == WorkerAction::Capture ==> {
                &&& missed.action() == WorkerAction::AwaitDelay(worker.timing.retry_delay_ms)
                &&& missed.after(timed_out).action() == WorkerAction::Capture
                &&& missed.after(timed_out).attempts == worker.attempts + 1
            }
            &&& worker.action() is Publish ==> {
                &&& refused.action() == WorkerAction::AwaitDelay(worker.timing.retry_delay_ms)
                &&& again.action() == WorkerAction::CheckShutdown
                &&& again.attempts == worker.attempts + 1
                &&& again.after(WorkerEventView::ShutdownChecked(false)).action()
                    == worker.action()
                &&& again.snapshot == worker.snapshot
            }
        }),
{
}

/// The last attempt is followed by no other: the worker waits for another request.
pub proof fn the_last_attempt_ends_the_request(worker: WorkerView)
    requires
        worker.wf(),
        worker.attempts == worker.max_attempts(),
    ensures
        worker.action() == WorkerAction::Capture ==> worker.after(
            WorkerEventView::Captured(None),
        ).action() == WorkerAction::AwaitRequest,
        worker.action() is Publish ==> worker.after(WorkerEventView::Published(false)).action()
            == WorkerAction::AwaitRequest,
{
}

/// Wherever a worker learns that it is to stop, it stops, and what it has is not published.
pub proof fn a_worker_stops_where_it_is_told(worker: WorkerView)
    ensures
        worker.action() == WorkerAction::AwaitRequest ==> worker.after(
            WorkerEventView::Request(None),
        ).action() == WorkerAction::Exit,
        worker.action() is AwaitDelay ==> worker.after(
            WorkerEventView::Woke(SnapshotWorkerWake::Shutdown),
        ).action() == WorkerAction::Exit,
        worker.action() == WorkerAction::CheckShutdown ==> worker.after(
            WorkerEventView::ShutdownChecked(true),
        ).action() == WorkerAction::Exit,
{
}

/// A request makes as many attempts as the timing says, and one where it says none.
pub proof fn the_timing_says_how_many_attempts(worker: WorkerView)
    ensures
        worker.timing.max_attempts > 0 ==> worker.max_attempts() == worker.timing.max_attempts,
        worker.timing.max_attempts == 0 ==> worker.max_attempts() == 1,
        TARGET_SNAPSHOT_INITIAL_DELAY_MS == 750,
        TARGET_SNAPSHOT_RETRY_DELAY_MS == 1000,
        TARGET_SNAPSHOT_MAX_ATTEMPTS == 6,
{
}

/// A publication that was declined is over as much as one that was made: only an error counts
/// as a failure.
pub proof fn only_an_error_fails_a_publication(published: bool, error: String)
    ensures
        WorkerEvent::Published(Ok(published))@ == WorkerEventView::Published(true),
        WorkerEvent::Published(Err(error))@ == WorkerEventView::Published(false),
{
}

/// A delay ends when its deadline has passed, and not before, unless something is asked; what
/// is asked for comes before the deadline.
pub proof fn a_delay_ends_at_its_deadline(mailbox: MailboxView, generation: u64, passed: bool)
    requires
        !mailbox.shutdown,
    ensures
        mailbox.requested is None ==> mailbox.poll_delay(true) == Some(
            SnapshotWorkerWake::TimedOut,
        ),
        mailbox.requested is None ==> mailbox.poll_delay(false) is None,
        mailbox.requested is None ==> mailbox.poll_request() == RequestPoll::Wait,
        mailbox.requested is None ==> mailbox.after_poll() == mailbox,
        mailbox.asked(generation).poll_delay(passed) == Some(
            SnapshotWorkerWake::Requested(generation),
        ),
        mailbox.asked(generation).poll_request() == RequestPoll::Requested(generation),
        mailbox.asked(generation).after_poll().poll_delay(false) is None,
        !mailbox.asked(generation).after_poll().shutdown,
{
}

/// What a worker publishes was captured after its request: it is among what it was told.
pub proof fn the_snapshot_is_one_captured_for_the_request(
    idle: WorkerView,
    generation: u64,
    events: Seq<WorkerEventView>,
)
    requires
        idle.action() == WorkerAction::AwaitRequest,
        without_requests(events),
    ensures
        ({
            let now = idle.after(WorkerEventView::Request(Some(generation))).run(events);
            now.action() is Publish ==> events.contains(WorkerEventView::Captured(now.snapshot))
                && now.snapshot is Some && now.action() == WorkerAction::Publish(generation)
        }),
{
    let started = idle.after(WorkerEventView::Request(Some(generation)));
    lemma_snapshot_from_events(started, events);
    lemma_run_wf(started, events);
    lemma_captured_once(started, events);
}

proof fn lemma_snapshot_from_events(worker: WorkerView, events: Seq<WorkerEventView>)
    requires
        worker.wf(),
        without_requests(events),
    ensures
        ({
            let now = worker.run(events);
            now.snapshot is Some ==> now.snapshot == worker.snapshot || events.contains(
                WorkerEventView::Captured(now.snapshot),
            )
        }),
    decreases events.len(),
{
    if events.len() > 0 {
        let rest = events.drop_first();
        lemma_drop_first_without_requests(events);
        lemma_snapshot_from_events(worker.after(events.first()), rest);
        let now = worker.run(events);
        if rest.contains(WorkerEventView::Captured(now.snapshot)) {
            let i = choose|i: int|
                0 <= i < rest.len() && rest[i] == WorkerEventView::Captured(now.snapshot);
            assert(events[i + 1] == rest[i]);
        }
        if worker.after(events.first()).snapshot != worker.snapshot {
            assert(events[0] == WorkerEventView::Captured(
                worker.after(events.first()).snapshot,
            ));
        }
    }
}

} // verus!
