//! What the extension does when the debugger tells it about its session, and what it tells
//! the user where something fails.

use vstd::prelude::*;

use crate::dbgeng::{
    DEBUG_NOTIFY_SESSION_ACCESSIBLE, DEBUG_NOTIFY_SESSION_ACTIVE, DEBUG_NOTIFY_SESSION_INACCESSIBLE,
    DEBUG_NOTIFY_SESSION_INACTIVE,
};
use crate::extension;
use crate::extension::format_status;
use crate::plugin_server;
use crate::plugin_server::{PluginServerStatus, StatusView};
use crate::session::SessionEvent;
use crate::text;
use crate::text::concat3;

verus! {

/// Something that failed while the extension answered the debugger.
#[derive(Debug, Clone, Copy, PartialEq, Eq, Structural)]
pub enum Failure {
    PrimaryClient,
    CallbackRemoval,
    UnloadCleanup,
    AutoStart,
    AutoStartOnAccessible,
    CallbackRegistration,
    CallbackRegistrationOnAccessible,
    Transition(SessionEvent),
}

/// What is told of a failure, before its reason.
pub open spec fn failure_heading(failure: Failure) -> Seq<char> {
    match failure {
        Failure::PrimaryClient => "Failed to initialize WinDbg MCP primary client: "@,
        Failure::CallbackRemoval => "WinDbg MCP event callback unregistration failed: "@,
        Failure::UnloadCleanup => "WinDbg MCP server unload cleanup failed: "@,
        Failure::AutoStart => "WinDbg MCP server auto-start failed: "@,
        Failure::AutoStartOnAccessible =>
            "WinDbg MCP server auto-start failed on accessible session: "@,
        Failure::CallbackRegistration => "WinDbg MCP event callback registration failed: "@,
        Failure::CallbackRegistrationOnAccessible =>
            "WinDbg MCP event callback registration failed on accessible session: "@,
        Failure::Transition(SessionEvent::Active) =>
            "WinDbg MCP active session transition failed: "@,
        Failure::Transition(SessionEvent::Accessible) =>
            "WinDbg MCP accessible session transition failed: "@,
        Failure::Transition(SessionEvent::Inaccessible) =>
            "WinDbg MCP inaccessible session transition failed: "@,
        Failure::Transition(SessionEvent::Inactive) =>
            "WinDbg MCP inactive session transition failed: "@,
    }
}

/// What is told of a failure.
pub open spec fn failure_message(failure: Failure, reason: Seq<char>) -> Seq<char> {
    failure_heading(failure) + reason + "\n"@
}

/// What is told of a failure.
pub fn failure_text(failure: Failure, reason: &str) -> (r: String)
    ensures
        r@ == failure_message(failure, reason@),
{
    let heading = match failure {
        Failure::PrimaryClient => "Failed to initialize WinDbg MCP primary client: ",
        Failure::CallbackRemoval => "WinDbg MCP event callback unregistration failed: ",
        Failure::UnloadCleanup => "WinDbg MCP server unload cleanup failed: ",
        Failure::AutoStart => "WinDbg MCP server auto-start failed: ",
        Failure::AutoStartOnAccessible =>
            "WinDbg MCP server auto-start failed on accessible session: ",
        Failure::CallbackRegistration => "WinDbg MCP event callback registration failed: ",
        Failure::CallbackRegistrationOnAccessible =>
            "WinDbg MCP event callback registration failed on accessible session: ",
        Failure::Transition(event) => match event {
            SessionEvent::Active => "WinDbg MCP active session transition failed: ",
            SessionEvent::Accessible => "WinDbg MCP accessible session transition failed: ",
            SessionEvent::Inaccessible => "WinDbg MCP inaccessible session transition failed: ",
            SessionEvent::Inactive => "WinDbg MCP inactive session transition failed: ",
        },
    };
    concat3(heading, reason, "\n")
}

/// The event that a notification of the debugger tells of.
pub open spec fn notified_event(notify: u32) -> Option<SessionEvent> {
    if notify == DEBUG_NOTIFY_SESSION_ACTIVE {
        Some(SessionEvent::Active)
    } else if notify == DEBUG_NOTIFY_SESSION_ACCESSIBLE {
        Some(SessionEvent::Accessible)
    } else if notify == DEBUG_NOTIFY_SESSION_INACCESSIBLE {
        Some(SessionEvent::Inaccessible)
    } else if notify == DEBUG_NOTIFY_SESSION_INACTIVE {
        Some(SessionEvent::Inactive)
    } else {
        None
    }
}

/// What is to be done next.
#[derive(Debug, Clone, Copy, PartialEq, Eq, Structural)]
pub enum NotifyAction {
    /// Start the server, unless it runs.
    StartServer,
    /// Ask the debugger for its callbacks.
    RegisterCallbacks,
    ApplySessionEvent(SessionEvent),
    Nothing,
}

/// What came of an action.
pub enum NotifyOutcome {
    Started(Result<PluginServerStatus, String>),
    Registered(Result<(), String>),
    Applied(Result<(), String>),
}

/// What a [`NotifyOutcome`] holds.
pub enum NotifyOutcomeView {
    Started(Result<StatusView, Seq<char>>),
    Registered(Result<(), Seq<char>>),
    Applied(Result<(), Seq<char>>),
}

impl View for NotifyOutcome {
    type V = NotifyOutcomeView;

    open spec fn view(&self) -> NotifyOutcomeView {
        match *self {
            NotifyOutcome::Started(result) => NotifyOutcomeView::Started(
                plugin_server::status_outcome(result),
            ),
            NotifyOutcome::Registered(result) => NotifyOutcomeView::Registered(
                text::outcome_of(result),
            ),
            NotifyOutcome::Applied(result) => NotifyOutcomeView::Applied(text::outcome_of(result)),
        }
    }
}

/// How far the answer to a notification has come. The status that a start gave is told at
/// the end, where the session became active.
pub enum NotifyView {
    Starting(SessionEvent),
    Registering(SessionEvent, StatusView),
    Applying(SessionEvent, Option<StatusView>),
    Done,
}

/// Something that failed, told where it did.
pub open spec fn told(failure: Failure, result: Result<(), Seq<char>>) -> Seq<Seq<char>> {
    match result {
        Ok(()) => Seq::empty(),
        Err(reason) => seq![failure_message(failure, reason)],
    }
}

impl NotifyView {
    /// Where the answer begins: for a session that ends there is no server to start.
    pub open spec fn begun(notify: u32) -> NotifyView {
        match notified_event(notify) {
            Some(SessionEvent::Active) => NotifyView::Starting(SessionEvent::Active),
            Some(SessionEvent::Accessible) => NotifyView::Starting(SessionEvent::Accessible),
            Some(event) => NotifyView::Applying(event, None),
            None => NotifyView::Done,
        }
    }

    /// What is to be done next.
    pub open spec fn action(self) -> NotifyAction {
        match self {
            NotifyView::Starting(_) => NotifyAction::StartServer,
            NotifyView::Registering(_, _) => NotifyAction::RegisterCallbacks,
            NotifyView::Applying(event, _) => NotifyAction::ApplySessionEvent(event),
            NotifyView::Done => NotifyAction::Nothing,
        }
    }

    /// Where the answer is after an outcome. One of another action changes nothing.
    pub open spec fn after(self, outcome: NotifyOutcomeView) -> NotifyView {
        match (self, outcome) {
            (
                NotifyView::Starting(event),
                NotifyOutcomeView::Started(Ok(status)),
            ) => NotifyView::Registering(event, status),
            (NotifyView::Starting(_), NotifyOutcomeView::Started(Err(_))) => NotifyView::Done,
            (
                NotifyView::Registering(event, status),
                NotifyOutcomeView::Registered(_),
            ) => NotifyView::Applying(event, Some(status)),
            (NotifyView::Applying(_, _), NotifyOutcomeView::Applied(_)) => NotifyView::Done,
            _ => self,
        }
    }

    /// What the user is told on an outcome.
    pub open spec fn messages(self, outcome: NotifyOutcomeView) -> Seq<Seq<char>> {
        match (self, outcome) {
            (NotifyView::Starting(event), NotifyOutcomeView::Started(Err(reason))) => seq![
                failure_message(
                    if event == SessionEvent::Active {
                        Failure::AutoStart
                    } else {
                        Failure::AutoStartOnAccessible
                    },
                    reason,
                ),
            ],
            (NotifyView::Registering(event, _), NotifyOutcomeView::Registered(result)) => told(
                if event == SessionEvent::Active {
                    Failure::CallbackRegistration
                } else {
                    Failure::CallbackRegistrationOnAccessible
                },
                result,
            ),
            (NotifyView::Applying(event, status), NotifyOutcomeView::Applied(result)) => told(
                Failure::Transition(event),
                result,
            ) + (match status {
                Some(status) => if event == SessionEvent::Active {
                    seq![extension::status_text(status)]
                } else {
                    Seq::empty()
                },
                None => Seq::empty(),
            }),
            _ => Seq::empty(),
        }
    }

    /// Where the answer is after a row of outcomes.
    pub open spec fn run(self, outcomes: Seq<NotifyOutcomeView>) -> NotifyView
        decreases outcomes.len(),
    {
        if outcomes.len() == 0 {
            self
        } else {
            self.after(outcomes.first()).run(outcomes.drop_first())
        }
    }
}

enum NotifyStage {
    Starting(SessionEvent),
    Registering(SessionEvent, PluginServerStatus),
    Applying(SessionEvent, Option<PluginServerStatus>),
    Done,
}

/// The answer to a notification of the debugger, under way.
pub struct NotifySequence {
    stage: NotifyStage,
}

impl View for NotifySequence {
    type V = NotifyView;

    closed spec fn view(&self) -> NotifyView {
        match self.stage {
            NotifyStage::Starting(event) => NotifyView::Starting(event),
            NotifyStage::Registering(event, status) => NotifyView::Registering(event, status@),
            NotifyStage::Applying(event, status) => NotifyView::Applying(
                event,
                plugin_server::status_of(status),
            ),
            NotifyStage::Done => NotifyView::Done,
        }
    }
}

impl NotifySequence {
    /// The answer to the notification `notify`.
    pub fn new(notify: u32) -> (r: Self)
        ensures
            r@ == NotifyView::begun(notify),
    {
        let stage = if notify == DEBUG_NOTIFY_SESSION_ACTIVE {
            NotifyStage::Starting(SessionEvent::Active)
        } else if notify == DEBUG_NOTIFY_SESSION_ACCESSIBLE {
            NotifyStage::Starting(SessionEvent::Accessible)
        } else if notify == DEBUG_NOTIFY_SESSION_INACCESSIBLE {
            NotifyStage::Applying(SessionEvent::Inaccessible, None)
        } else if notify == DEBUG_NOTIFY_SESSION_INACTIVE {
            NotifyStage::Applying(SessionEvent::Inactive, None)
        } else {
            NotifyStage::Done
        };
        NotifySequence { stage }
    }

    /// What is to be done next.
    pub fn action(&self) -> (r: NotifyAction)
        ensures
            r == self@.action(),
    {
        match &self.stage {
            NotifyStage::Starting(_) => NotifyAction::StartServer,
            NotifyStage::Registering(_, _) => NotifyAction::RegisterCallbacks,
            NotifyStage::Applying(event, _) => NotifyAction::ApplySessionEvent(*event),
            NotifyStage::Done => NotifyAction::Nothing,
        }
    }

    /// Takes in what came of the action, and gives what the user is told, in its order.
    pub fn advance(self, outcome: NotifyOutcome) -> (r: (Self, Vec<String>))
        ensures
            r.0@ == self@.after(outcome@),
            text::texts(r.1@) == self@.messages(outcome@),
    {
        let mut messages: Vec<String> = Vec::new();
        let stage = match (self.stage, outcome) {
            (NotifyStage::Starting(event), NotifyOutcome::Started(result)) => match result {
                Ok(status) => NotifyStage::Registering(event, status),
                Err(reason) => {
                    let failure = match event {
                        SessionEvent::Active => Failure::AutoStart,
                        _ => Failure::AutoStartOnAccessible,
                    };
                    messages.push(failure_text(failure, &reason));
                    NotifyStage::Done
                },
            },
            (NotifyStage::Registering(event, status), NotifyOutcome::Registered(result)) => {
                if let Err(reason) = result {
                    let failure = match event {
                        SessionEvent::Active => Failure::CallbackRegistration,
                        _ => Failure::CallbackRegistrationOnAccessible,
                    };
                    messages.push(failure_text(failure, &reason));
                }
                NotifyStage::Applying(event, Some(status))
            },
            (NotifyStage::Applying(event, status), NotifyOutcome::Applied(result)) => {
                if let Err(reason) = result {
                    messages.push(failure_text(Failure::Transition(event), &reason));
                }
                if let Some(status) = status {
                    if event == SessionEvent::Active {
                        messages.push(format_status(&status));
                    }
                }
                NotifyStage::Done
            },
            (stage, _) => stage,
        };
        assert(text::texts(messages@) =~= self@.messages(outcome@));
        (NotifySequence { stage }, messages)
    }
}

/// A session becomes active or accessible only for a server that runs: where the start
/// failed, no event is applied, whatever follows.
pub proof fn without_a_server_no_event_is_applied(
    notify: u32,
    reason: Seq<char>,
    outcomes: Seq<NotifyOutcomeView>,
)
    requires
        NotifyView::begun(notify).action() == NotifyAction::StartServer,
    ensures
        NotifyView::begun(notify).after(NotifyOutcomeView::Started(Err(reason))).run(outcomes)
            == NotifyView::Done,
{
    lemma_done_stays(outcomes);
}

proof fn lemma_done_stays(outcomes: Seq<NotifyOutcomeView>)
    ensures
        NotifyView::Done.run(outcomes) == NotifyView::Done,
    decreases outcomes.len(),
{
    if outcomes.len() > 0 {
        lemma_done_stays(outcomes.drop_first());
    }
}

/// Where the server runs, the event that the debugger told of is applied, whether the
/// callbacks could be registered or not.
pub proof fn a_started_server_gets_the_event(
    notify: u32,
    status: StatusView,
    registered: Result<(), Seq<char>>,
)
    requires
        NotifyView::begun(notify).action() == NotifyAction::StartServer,
    ensures
        NotifyView::begun(notify).run(
            seq![NotifyOutcomeView::Started(Ok(status)), NotifyOutcomeView::Registered(registered)],
        ).action() == NotifyAction::ApplySessionEvent(notified_event(notify)->0),
{
    reveal_with_fuel(NotifyView::run, 3);
}

/// The debugger's notifications, in its numbers: a session that becomes active or accessible
/// starts the server, then asks for the callbacks, then is applied; one that becomes inactive
/// or inaccessible is applied at once; nothing else is answered. Whatever was asked for, the
/// answer ends with the event.
pub proof fn each_notification_is_answered_in_order(
    notify: u32,
    status: StatusView,
    registered: Result<(), Seq<char>>,
    applied: Result<(), Seq<char>>,
)
    ensures
        ({
            let begun = NotifyView::begun(notify);
            let event = if notify == 0 {
                SessionEvent::Active
            } else if notify == 1 {
                SessionEvent::Inactive
            } else if notify == 2 {
                SessionEvent::Accessible
            } else {
                SessionEvent::Inaccessible
            };
            let started = begun.after(NotifyOutcomeView::Started(Ok(status)));
            let asked = started.after(NotifyOutcomeView::Registered(registered));
            &&& notify == 0 || notify == 2 ==> {
                &&& begun.action() == NotifyAction::StartServer
                &&& started.action() == NotifyAction::RegisterCallbacks
                &&& asked.action() == NotifyAction::ApplySessionEvent(event)
                &&& asked.after(NotifyOutcomeView::Applied(applied)).action()
                    == NotifyAction::Nothing
            }
            &&& notify == 1 || notify == 3 ==> {
                &&& begun.action() == NotifyAction::ApplySessionEvent(event)
                &&& begun.after(NotifyOutcomeView::Applied(applied)).action()
                    == NotifyAction::Nothing
            }
            &&& notify > 3 ==> begun.action() == NotifyAction::Nothing
        }),
{
}

/// Where all goes well, the user is told of the server once, after a session became active,
/// and of nothing else.
pub proof fn success_is_told_once(notify: u32, status: StatusView)
    ensures
        ({
            let begun = NotifyView::begun(notify);
            let started = NotifyOutcomeView::Started(Ok(status));
            let registered = NotifyOutcomeView::Registered(Ok(()));
            let applied = NotifyOutcomeView::Applied(Ok(()));
            let asked = begun.after(started).after(registered);
            &&& begun.messages(started) =~= Seq::empty()
            &&& begun.after(started).messages(registered) =~= Seq::empty()
            &&& notify == 0 ==> asked.messages(applied) =~= seq![extension::status_text(status)]
            &&& notify != 0 ==> asked.messages(applied) =~= Seq::empty()
            &&& notify != 0 ==> begun.messages(applied) =~= Seq::empty()
        }),
{
}

/// Each failure is told once, with its reason; of a session that became active although its
/// transition failed, the server is told of after that.
pub proof fn each_failure_is_told_with_its_reason(
    notify: u32,
    status: StatusView,
    registered: Result<(), Seq<char>>,
    reason: Seq<char>,
)
    ensures
        ({
            let begun = NotifyView::begun(notify);
            let failed = NotifyOutcomeView::Started(Err(reason));
            let refused = NotifyOutcomeView::Registered(Err(reason));
            let rejected = NotifyOutcomeView::Applied(Err(reason));
            let started = begun.after(NotifyOutcomeView::Started(Ok(status)));
            let asked = started.after(NotifyOutcomeView::Registered(registered));
            &&& notify == 0 ==> {
                &&& begun.messages(failed) =~= seq![
                    "WinDbg MCP server auto-start failed: "@ + reason + "\n"@,
                ]
                &&& started.messages(refused) =~= seq![
                    "WinDbg MCP event callback registration failed: "@ + reason + "\n"@,
                ]
                &&& asked.messages(rejected) =~= seq![
                    "WinDbg MCP active session transition failed: "@ + reason + "\n"@,
                    extension::status_text(status),
                ]
            }
            &&& notify == 2 ==> {
                &&& begun.messages(failed) =~= seq![
                    "WinDbg MCP server auto-start failed on accessible session: "@ + reason
                        + "\n"@,
                ]
                &&& started.messages(refused) =~= seq![
                    "WinDbg MCP event callback registration failed on accessible session: "@
                        + reason + "\n"@,
                ]
                &&& asked.messages(rejected) =~= seq![
                    "WinDbg MCP accessible session transition failed: "@ + reason + "\n"@,
                ]
            }
            &&& notify == 1 ==> begun.messages(rejected) =~= seq![
                "WinDbg MCP inactive session transition failed: "@ + reason + "\n"@,
            ]
            &&& notify == 3 ==> begun.messages(rejected) =~= seq![
                "WinDbg MCP inaccessible session transition failed: "@ + reason + "\n"@,
            ]
        }),
{
}

/// What is told of the failures at the edges of the extension's life: when it is loaded and
/// when it is unloaded.
pub proof fn failures_at_load_and_unload_are_told(reason: Seq<char>)
    ensures
        failure_message(Failure::PrimaryClient, reason)
            == "Failed to initialize WinDbg MCP primary client: "@ + reason + "\n"@,
        failure_message(Failure::CallbackRemoval, reason)
            == "WinDbg MCP event callback unregistration failed: "@ + reason + "\n"@,
        failure_message(Failure::UnloadCleanup, reason)
            == "WinDbg MCP server unload cleanup failed: "@ + reason + "\n"@,
{
}

/// An outcome that does not answer what was asked for changes nothing and is not told.
pub proof fn other_outcomes_are_passed_over(sequence: NotifyView, outcome: NotifyOutcomeView)
    requires
        outcome is Started ==> sequence.action() != NotifyAction::StartServer,
        outcome is Registered ==> sequence.action() != NotifyAction::RegisterCallbacks,
        outcome is Applied ==> !(sequence.action() is ApplySessionEvent),
    ensures
        sequence.after(outcome) == sequence,
        sequence.messages(outcome) =~= Seq::empty(),
{
}

} // verus!
