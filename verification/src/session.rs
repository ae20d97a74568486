//! The life of a debugging session: when its generation grows, when the published target is
//! cleared, and which capture may still publish.

use vstd::prelude::*;

use crate::text;

verus! {

/// What the debugger says happened to the session.
#[derive(Debug, Clone, Copy, PartialEq, Eq, Structural)]
pub enum SessionEvent {
    Active,
    Accessible,
    Inaccessible,
    Inactive,
}

/// Whether there is a session and whether its target can be read.
#[derive(Debug, Clone, Copy, PartialEq, Eq, Structural)]
pub enum SessionState {
    Inactive,
    Inaccessible,
    Accessible,
}

/// What an event asks for: to clear the published target, and to capture it anew for a
/// generation.
#[derive(Debug, Clone, Copy, PartialEq, Eq, Structural)]
pub struct SessionTransition {
    pub clear_target: bool,
    pub capture_generation: Option<u64>,
}

impl Default for SessionTransition {
    /// The transition that asks for nothing.
    fn default() -> (r: Self)
        ensures
            r == (SessionTransition { clear_target: false, capture_generation: None }),
    {
        SessionTransition { clear_target: false, capture_generation: None }
    }
}

/// The state that an event leads to. A session becomes active only once, and inaccessible
/// only from accessible.
pub open spec fn next_state(state: SessionState, event: SessionEvent) -> SessionState {
    match event {
        SessionEvent::Active => if state == SessionState::Inactive {
            SessionState::Inaccessible
        } else {
            state
        },
        SessionEvent::Accessible => SessionState::Accessible,
        SessionEvent::Inaccessible => if state == SessionState::Accessible {
            SessionState::Inaccessible
        } else {
            state
        },
        SessionEvent::Inactive => SessionState::Inactive,
    }
}

/// Whether an event changes the state.
pub open spec fn changes(state: SessionState, event: SessionEvent) -> bool {
    next_state(state, event) != state
}

/// The generation after an event: one more where the state changes.
pub open spec fn next_generation(state: SessionState, generation: u64, event: SessionEvent) -> int {
    if changes(state, event) {
        generation + 1
    } else {
        generation as int
    }
}

/// What an event asks for. The target is cleared when a session begins and when it ends;
/// every accessible event asks for a capture.
pub open spec fn transition_of(
    state: SessionState,
    generation: u64,
    event: SessionEvent,
) -> SessionTransition {
    SessionTransition {
        clear_target: changes(state, event) && (event == SessionEvent::Active || event
            == SessionEvent::Inactive),
        capture_generation: if event == SessionEvent::Accessible {
            Some(next_generation(state, generation, event) as u64)
        } else {
            None
        },
    }
}

/// Whether the event would take the generation past its last number.
pub open spec fn overflows(state: SessionState, generation: u64, event: SessionEvent) -> bool {
    next_generation(state, generation, event) > u64::MAX
}

/// Applies an event to a session. A generation that cannot grow is an error, and leaves the
/// session as it was.
pub fn reduce_session_event(
    state: &mut SessionState,
    generation: &mut u64,
    event: SessionEvent,
) -> (r: Result<SessionTransition, String>)
    ensures
        text::outcome_of(r) == (if overflows(*old(state), *old(generation), event) {
            Err("session generation overflow"@)
        } else {
            Ok(transition_of(*old(state), *old(generation), event))
        }),
        r is Ok ==> *final(state) == next_state(*old(state), event),
        r is Ok ==> *final(generation) == next_generation(*old(state), *old(generation), event),
        r is Err ==> *final(state) == *old(state) && *final(generation) == *old(generation),
{
    let mut transition = SessionTransition::default();
    let next = match event {
        SessionEvent::Active => if *state == SessionState::Inactive {
            SessionState::Inaccessible
        } else {
            *state
        },
        SessionEvent::Accessible => SessionState::Accessible,
        SessionEvent::Inaccessible => if *state == SessionState::Accessible {
            SessionState::Inaccessible
        } else {
            *state
        },
        SessionEvent::Inactive => SessionState::Inactive,
    };
    if next != *state {
        if *generation == u64::MAX {
            return Err("session generation overflow".to_owned());
        }
        *generation = *generation + 1;
        *state = next;
        transition.clear_target = event == SessionEvent::Active || event == SessionEvent::Inactive;
    }
    if event == SessionEvent::Accessible {
        transition.capture_generation = Some(*generation);
    }
    Ok(transition)
}

/// Whether a capture that was asked for in one generation may publish in another: only in its
/// own, and only while the target is accessible.
pub open spec fn can_publish(state: SessionState, current: u64, requested: u64) -> bool {
    state == SessionState::Accessible && current == requested
}

/// Whether a capture for `requested_generation` may be published now.
pub fn snapshot_generation_can_publish(
    state: SessionState,
    current_generation: u64,
    requested_generation: u64,
) -> (r: bool)
    ensures
        r == can_publish(state, current_generation, requested_generation),
{
    state == SessionState::Accessible && current_generation == requested_generation
}

/// A session as its state and its generation.
pub struct Session {
    pub state: SessionState,
    pub generation: u64,
}

impl Session {
    /// The session after one event; an event that is refused changes nothing.
    pub open spec fn after(self, event: SessionEvent) -> Session {
        if overflows(self.state, self.generation, event) {
            self
        } else {
            Session {
                state: next_state(self.state, event),
                generation: next_generation(self.state, self.generation, event) as u64,
            }
        }
    }

    /// The session after a sequence of events.
    pub open spec fn run(self, events: Seq<SessionEvent>) -> Session
        decreases events.len(),
    {
        if events.len() == 0 {
            self
        } else {
            self.after(events.first()).run(events.drop_first())
        }
    }

    /// The target stays accessible through all of the events.
    pub open spec fn stays_accessible(self, events: Seq<SessionEvent>) -> bool
        decreases events.len(),
    {
        self.state == SessionState::Accessible && (events.len() > 0 ==> self.after(
            events.first(),
        ).stays_accessible(events.drop_first()))
    }
}

/// The generation of a session never goes back.
pub proof fn generations_never_go_back(session: Session, events: Seq<SessionEvent>)
    ensures
        session.run(events).generation >= session.generation,
    decreases events.len(),
{
    if events.len() > 0 {
        generations_never_go_back(session.after(events.first()), events.drop_first());
    }
}

/// A capture that was asked for while the target was accessible can publish only if the
/// target has stayed accessible ever since: once it was not, that capture stays unpublished,
/// whatever happens later.
pub proof fn stale_captures_never_publish(session: Session, events: Seq<SessionEvent>)
    requires
        session.state == SessionState::Accessible,
        can_publish(
            session.run(events).state,
            session.run(events).generation,
            session.generation,
        ),
    ensures
        session.stays_accessible(events),
    decreases events.len(),
{
    if events.len() > 0 {
        let next = session.after(events.first());
        let rest = events.drop_first();
        generations_never_go_back(next, rest);
        stale_captures_never_publish(next, rest);
    }
}

/// What happens to the published target: an event of the session, or a capture of some
/// generation that is ready.
pub enum TargetStep {
    Event(SessionEvent),
    Capture(u64),
}

/// A session and whether a target is published for it.
pub struct Published {
    pub session: Session,
    pub target: bool,
}

impl Published {
    /// After one step: events clear the target as they ask, captures publish as they may.
    pub open spec fn after(self, step: TargetStep) -> Published {
        match step {
            TargetStep::Event(event) => Published {
                session: self.session.after(event),
                target: self.target && (overflows(
                    self.session.state,
                    self.session.generation,
                    event,
                ) || !transition_of(
                    self.session.state,
                    self.session.generation,
                    event,
                ).clear_target),
            },
            TargetStep::Capture(generation) => Published {
                target: self.target || can_publish(
                    self.session.state,
                    self.session.generation,
                    generation,
                ),
                ..self
            },
        }
    }

    pub open spec fn run(self, steps: Seq<TargetStep>) -> Published
        decreases steps.len(),
    {
        if steps.len() == 0 {
            self
        } else {
            self.after(steps.first()).run(steps.drop_first())
        }
    }
}

/// Without an active session no target is published.
pub proof fn inactive_sessions_publish_no_target(start: Published, steps: Seq<TargetStep>)
    requires
        start.session.state == SessionState::Inactive ==> !start.target,
    ensures
        ({
            let end = start.run(steps);
            end.session.state == SessionState::Inactive ==> !end.target
        }),
    decreases steps.len(),
{
    if steps.len() > 0 {
        inactive_sessions_publish_no_target(start.after(steps.first()), steps.drop_first());
    }
}

/// An inactive event ends the session, whatever state it was in: what was published is
/// cleared and the generation moves on. Where there was no session, nothing happens.
pub proof fn an_inactive_event_ends_the_session(session: Session)
    requires
        session.state == SessionState::Inactive || session.generation < u64::MAX,
    ensures
        !overflows(session.state, session.generation, SessionEvent::Inactive),
        session.after(SessionEvent::Inactive).state == SessionState::Inactive,
        session.state != SessionState::Inactive ==> {
            &&& session.after(SessionEvent::Inactive).generation == session.generation + 1
            &&& transition_of(
                session.state,
                session.generation,
                SessionEvent::Inactive,
            ).clear_target
        },
        session.state == SessionState::Inactive ==> {
            &&& session.after(SessionEvent::Inactive) == session
            &&& !transition_of(
                session.state,
                session.generation,
                SessionEvent::Inactive,
            ).clear_target
        },
        transition_of(
            session.state,
            session.generation,
            SessionEvent::Inactive,
        ).capture_generation is None,
{
}

/// An active event begins a session where there is none: its target is out of reach and what
/// was published is cleared. During a session it means nothing.
pub proof fn an_active_event_begins_a_session(session: Session)
    requires
        session.state != SessionState::Inactive || session.generation < u64::MAX,
    ensures
        ({
            let next = session.after(SessionEvent::Active);
            let transition = transition_of(
                session.state,
                session.generation,
                SessionEvent::Active,
            );
            &&& !overflows(session.state, session.generation, SessionEvent::Active)
            &&& next.state != SessionState::Inactive
            &&& transition.capture_generation is None
            &&& session.state == SessionState::Inactive ==> next.state == SessionState::Inaccessible
                && next.generation == session.generation + 1 && transition.clear_target
            &&& session.state != SessionState::Inactive ==> next == session
                && !transition.clear_target
        }),
{
}

/// An accessible event brings the target within reach from every state, and asks for a capture
/// that may be published at once. The generation moves on where the target was out of reach;
/// what is published stays.
pub proof fn an_accessible_event_asks_for_a_capture(session: Session)
    requires
        session.state == SessionState::Accessible || session.generation < u64::MAX,
    ensures
        ({
            let next = session.after(SessionEvent::Accessible);
            let transition = transition_of(
                session.state,
                session.generation,
                SessionEvent::Accessible,
            );
            &&& !overflows(session.state, session.generation, SessionEvent::Accessible)
            &&& next.state == SessionState::Accessible
            &&& next.generation - session.generation == (if session.state
                == SessionState::Accessible {
                0int
            } else {
                1int
            })
            &&& transition.capture_generation == Some(next.generation)
            &&& can_publish(next.state, next.generation, transition.capture_generation->0)
            &&& !transition.clear_target
        }),
{
}

/// An inaccessible event takes the target out of reach and keeps what is published. A target
/// that was not within reach is left as it is.
pub proof fn an_inaccessible_event_keeps_the_target(session: Session)
    requires
        session.state != SessionState::Accessible || session.generation < u64::MAX,
    ensures
        ({
            let next = session.after(SessionEvent::Inaccessible);
            let transition = transition_of(
                session.state,
                session.generation,
                SessionEvent::Inaccessible,
            );
            &&& !overflows(session.state, session.generation, SessionEvent::Inaccessible)
            &&& next.state != SessionState::Accessible
            &&& !transition.clear_target
            &&& transition.capture_generation is None
            &&& session.state == SessionState::Accessible ==> next.state
                == SessionState::Inaccessible && next.generation == session.generation + 1
            &&& session.state != SessionState::Accessible ==> next == session
        }),
{
}

/// The generation tells two states apart: it moves on by one where an event changes the state,
/// and stays where the state stays. An event is refused only where the generation would have
/// to move on past its last number, and then changes nothing.
pub proof fn the_generation_moves_on_with_the_state(session: Session, event: SessionEvent)
    ensures
        ({
            let next = session.after(event);
            &&& next.state == session.state ==> next == session
            &&& next.state != session.state ==> next.generation == session.generation + 1
            &&& overflows(session.state, session.generation, event) ==> next == session
                && session.generation == u64::MAX
            &&& session.generation < u64::MAX ==> !overflows(
                session.state,
                session.generation,
                event,
            )
            &&& next.after(event) == next || overflows(next.state, next.generation, event)
        }),
{
}

/// After any steps that end in an inactive event that was accepted, no target is published.
pub proof fn the_end_of_a_session_clears_its_target(start: Published, steps: Seq<TargetStep>)
    requires
        start.session.state == SessionState::Inactive ==> !start.target,
        steps.len() > 0,
        steps.last() == TargetStep::Event(SessionEvent::Inactive),
        start.run(steps.drop_last()).session.generation < u64::MAX,
    ensures
        !start.run(steps).target,
        start.run(steps).session.state == SessionState::Inactive,
{
    lemma_run_last(start, steps);
    inactive_sessions_publish_no_target(start, steps);
}

proof fn lemma_run_last(start: Published, steps: Seq<TargetStep>)
    requires
        steps.len() > 0,
    ensures
        start.run(steps) == start.run(steps.drop_last()).after(steps.last()),
    decreases steps.len(),
{
    reveal_with_fuel(Published::run, 2);
    if steps.len() > 1 {
        lemma_run_last(start.after(steps.first()), steps.drop_first());
        assert(steps.drop_first().drop_last() =~= steps.drop_last().drop_first());
        assert(steps.drop_last().first() == steps.first());
    }
}

/// What is published changes in two ways alone: a capture of the present generation, while the
/// target is accessible, publishes it; the beginning or the end of a session clears it.
pub proof fn a_target_is_published_by_captures_and_cleared_by_sessions(
    now: Published,
    step: TargetStep,
)
    ensures
        ({
            let next = now.after(step);
            &&& !now.target && next.target ==> now.session.state == SessionState::Accessible && step
                == TargetStep::Capture(now.session.generation)
            &&& now.session.state == SessionState::Accessible && step == TargetStep::Capture(
                now.session.generation,
            ) ==> next.target
            &&& !next.target <==> !now.target && !(step == TargetStep::Capture(
                now.session.generation,
            ) && now.session.state == SessionState::Accessible) || (step == TargetStep::Event(
                SessionEvent::Active,
            ) || step == TargetStep::Event(SessionEvent::Inactive)) && next.session.state
                != now.session.state
            &&& step is Capture ==> next.session == now.session
        }),
{
}

} // verus!
