//! What the callbacks of the debugger engine mean for the session and its target.

use vstd::prelude::*;

use crate::dbgeng::{
    DEBUG_CES_CURRENT_THREAD, DEBUG_CES_EXECUTION_STATUS, DEBUG_CES_SYSTEMS,
    DEBUG_EVENT_CHANGE_ENGINE_STATE, DEBUG_EVENT_CREATE_PROCESS, DEBUG_EVENT_EXIT_PROCESS,
    DEBUG_EVENT_SESSION_STATUS, DEBUG_SESSION_ACTIVE, DEBUG_SESSION_END,
    DEBUG_SESSION_END_SESSION_ACTIVE_DETACH, DEBUG_SESSION_END_SESSION_ACTIVE_TERMINATE,
    DEBUG_SESSION_END_SESSION_PASSIVE, DEBUG_SESSION_FAILURE, DEBUG_SESSION_HIBERNATE,
    DEBUG_SESSION_REBOOT, DEBUG_STATUS_BREAK, DEBUG_STATUS_MASK,
};
use crate::session::SessionEvent;

verus! {

/// The statuses that end a session, or take it out of reach.
pub open spec fn ends_session(status: u32) -> bool {
    ||| status == DEBUG_SESSION_END_SESSION_ACTIVE_TERMINATE
    ||| status == DEBUG_SESSION_END_SESSION_ACTIVE_DETACH
    ||| status == DEBUG_SESSION_END_SESSION_PASSIVE
    ||| status == DEBUG_SESSION_END
    ||| status == DEBUG_SESSION_REBOOT
    ||| status == DEBUG_SESSION_HIBERNATE
    ||| status == DEBUG_SESSION_FAILURE
}

/// The session event that a status stands for.
pub open spec fn status_event(status: u32) -> Option<SessionEvent> {
    if status == DEBUG_SESSION_ACTIVE {
        Some(SessionEvent::Active)
    } else if ends_session(status) {
        Some(SessionEvent::Inactive)
    } else {
        None
    }
}

/// Whether a change of engine state may have changed the target: the current thread or the
/// systems, or a break. The argument is read only where the flags are those of the execution
/// status alone; of it, the low five bits are the status.
pub open spec fn changes_target(flags: u32, argument: u64) -> bool {
    ||| flags & (DEBUG_CES_CURRENT_THREAD | DEBUG_CES_SYSTEMS) != 0
    ||| flags == DEBUG_CES_EXECUTION_STATUS && argument % 32 == DEBUG_STATUS_BREAK
}

/// The session event that a session status stands for.
pub fn session_event_for_status(status: u32) -> (r: Option<SessionEvent>)
    ensures
        r == status_event(status),
{
    if status == DEBUG_SESSION_ACTIVE {
        Some(SessionEvent::Active)
    } else if status == DEBUG_SESSION_END_SESSION_ACTIVE_TERMINATE || status
        == DEBUG_SESSION_END_SESSION_ACTIVE_DETACH || status == DEBUG_SESSION_END_SESSION_PASSIVE
        || status == DEBUG_SESSION_END || status == DEBUG_SESSION_REBOOT || status
        == DEBUG_SESSION_HIBERNATE || status == DEBUG_SESSION_FAILURE {
        Some(SessionEvent::Inactive)
    } else {
        None
    }
}

/// Whether a change of engine state asks for a fresh snapshot of the target.
pub fn engine_state_requests_refresh(flags: u32, argument: u64) -> (r: bool)
    ensures
        r == changes_target(flags, argument),
{
    assert((argument as u32) & 0x1f == argument % 32) by (bit_vector);
    flags & (DEBUG_CES_CURRENT_THREAD | DEBUG_CES_SYSTEMS) != 0 || (flags
        == DEBUG_CES_EXECUTION_STATUS && (argument as u32) & DEBUG_STATUS_MASK
        == DEBUG_STATUS_BREAK)
}

/// A callback of the engine, as far as the extension listens to it.
#[derive(Debug, Clone, Copy, PartialEq, Eq, Structural)]
pub enum EngineCallback {
    CreateProcess,
    ExitProcess,
    SessionStatus(u32),
    ChangeEngineState { flags: u32, argument: u64 },
    /// A callback that says nothing of the target.
    Other,
}

/// What a callback asks for.
#[derive(Debug, Clone, Copy, PartialEq, Eq, Structural)]
pub enum CallbackAction {
    Nothing,
    RefreshSnapshot,
    ApplySessionEvent(SessionEvent),
}

pub open spec fn callback_action(callback: EngineCallback) -> CallbackAction {
    match callback {
        EngineCallback::CreateProcess | EngineCallback::ExitProcess =>
            CallbackAction::RefreshSnapshot,
        EngineCallback::SessionStatus(status) => match status_event(status) {
            Some(event) => CallbackAction::ApplySessionEvent(event),
            None => CallbackAction::Nothing,
        },
        EngineCallback::ChangeEngineState { flags, argument } => if changes_target(
            flags,
            argument,
        ) {
            CallbackAction::RefreshSnapshot
        } else {
            CallbackAction::Nothing
        },
        EngineCallback::Other => CallbackAction::Nothing,
    }
}

/// What a callback of the engine asks for.
pub fn action_for_callback(callback: EngineCallback) -> (r: CallbackAction)
    ensures
        r == callback_action(callback),
{
    match callback {
        EngineCallback::CreateProcess | EngineCallback::ExitProcess =>
            CallbackAction::RefreshSnapshot,
        EngineCallback::SessionStatus(status) => match session_event_for_status(status) {
            Some(event) => CallbackAction::ApplySessionEvent(event),
            None => CallbackAction::Nothing,
        },
        EngineCallback::ChangeEngineState { flags, argument } => if engine_state_requests_refresh(
            flags,
            argument,
        ) {
            CallbackAction::RefreshSnapshot
        } else {
            CallbackAction::Nothing
        },
        EngineCallback::Other => CallbackAction::Nothing,
    }
}

/// The bit of the interest mask that asks the engine for a callback.
pub open spec fn interest_bit(callback: EngineCallback) -> u32 {
    match callback {
        EngineCallback::CreateProcess => DEBUG_EVENT_CREATE_PROCESS,
        EngineCallback::ExitProcess => DEBUG_EVENT_EXIT_PROCESS,
        EngineCallback::SessionStatus(_) => DEBUG_EVENT_SESSION_STATUS,
        EngineCallback::ChangeEngineState { .. } => DEBUG_EVENT_CHANGE_ENGINE_STATE,
        EngineCallback::Other => 0,
    }
}

/// The callbacks that the extension asks the engine for.
pub open spec fn interest_mask() -> u32 {
    DEBUG_EVENT_CREATE_PROCESS | DEBUG_EVENT_EXIT_PROCESS | DEBUG_EVENT_CHANGE_ENGINE_STATE
        | DEBUG_EVENT_SESSION_STATUS
}

/// The callbacks that the extension asks the engine for.
pub fn get_interest_mask() -> (r: u32)
    ensures
        r == interest_mask(),
{
    DEBUG_EVENT_CREATE_PROCESS | DEBUG_EVENT_EXIT_PROCESS | DEBUG_EVENT_CHANGE_ENGINE_STATE
        | DEBUG_EVENT_SESSION_STATUS
}

/// The extension asks the engine for every callback that it acts on.
pub proof fn interest_covers_every_action(callback: EngineCallback)
    requires
        callback_action(callback) != CallbackAction::Nothing,
    ensures
        interest_mask() & interest_bit(callback) != 0,
{
    assert((0x10u32 | 0x20 | 0x800 | 0x200) & 0x10 != 0) by (bit_vector);
    assert((0x10u32 | 0x20 | 0x800 | 0x200) & 0x20 != 0) by (bit_vector);
    assert((0x10u32 | 0x20 | 0x800 | 0x200) & 0x800 != 0) by (bit_vector);
    assert((0x10u32 | 0x20 | 0x800 | 0x200) & 0x200 != 0) by (bit_vector);
}

/// A session begins with the one status of the engine that says so, and ends with any of the
/// seven that follow it; no other status says anything, and none tells of access.
pub proof fn a_status_begins_or_ends_a_session(status: u32)
    ensures
        status_event(status) == Some(SessionEvent::Active) <==> status == 0,
        status_event(status) == Some(SessionEvent::Inactive) <==> 1 <= status <= 7,
        status_event(status) is None <==> status > 7,
{
}

/// A change of the current thread or of the systems asks for a refresh whatever else changed
/// and whatever the argument is. A change of the execution status alone asks for one where the
/// low five bits of the argument are those of a break, whatever the others are. Nothing else
/// does.
pub proof fn a_refresh_is_asked_for_by_threads_systems_and_breaks(
    flags: u32,
    argument: u64,
    other: u64,
)
    ensures
        flags & 1 == 1 || flags & 0x800 == 0x800 ==> changes_target(flags, argument),
        flags & 1 == 0 && flags & 0x800 == 0 && flags != 0x10 ==> !changes_target(flags, argument),
        flags != 0x10 ==> changes_target(flags, argument) == changes_target(flags, other),
        changes_target(0x10, argument) <==> argument % 32 == 6,
        argument % 32 == other % 32 ==> changes_target(flags, argument) == changes_target(
            flags,
            other,
        ),
{
    assert(flags & 1 == 1 || flags & 0x800 == 0x800 ==> flags & (0x1u32 | 0x800u32) != 0) by (bit_vector);
    assert(flags & 1 == 0 && flags & 0x800 == 0 ==> flags & (0x1u32 | 0x800u32) == 0) by (bit_vector);
    assert(0x10u32 & (0x1u32 | 0x800u32) == 0) by (bit_vector);
}

/// The extension asks for four kinds of callbacks and no others. A process that comes or goes
/// refreshes the snapshot; what else the engine tells of does nothing.
pub proof fn the_interest_is_in_four_kinds_of_callbacks()
    ensures
        interest_mask() == 0xa30,
        callback_action(EngineCallback::CreateProcess) == CallbackAction::RefreshSnapshot,
        callback_action(EngineCallback::ExitProcess) == CallbackAction::RefreshSnapshot,
        callback_action(EngineCallback::Other) == CallbackAction::Nothing,
{
    assert(0x10u32 | 0x20u32 | 0x800u32 | 0x200u32 == 0xa30u32) by (bit_vector);
}

/// A callback applies the event of its status and refreshes on the changes that ask for it;
/// no callback does both.
pub proof fn a_callback_does_what_its_report_asks_for(status: u32, flags: u32, argument: u64)
    ensures
        status == 0 ==> callback_action(EngineCallback::SessionStatus(status))
            == CallbackAction::ApplySessionEvent(SessionEvent::Active),
        1 <= status <= 7 ==> callback_action(EngineCallback::SessionStatus(status))
            == CallbackAction::ApplySessionEvent(SessionEvent::Inactive),
        status > 7 ==> callback_action(EngineCallback::SessionStatus(status))
            == CallbackAction::Nothing,
        callback_action(EngineCallback::ChangeEngineState { flags, argument }) == (
        if changes_target(flags, argument) {
            CallbackAction::RefreshSnapshot
        } else {
            CallbackAction::Nothing
        }),
{
}

} // verus!
