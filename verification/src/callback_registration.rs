//! The registration of the extension's callbacks with the debugger engine: it is made once,
//! and kept until the extension is unloaded.

use vstd::prelude::*;

use crate::plugin_server::LockPoisoned;
use crate::text;

verus! {

pub const CALLBACK_LOCK_POISONED: &'static str = "event callback state lock poisoned";

/// What a registration asks to be done next.
pub enum RegistrationStep {
    CreateClient,
    ConnectSession,
    SetCallbacks,
    /// Keep the client and the callbacks.
    Keep,
    Finished(Result<(), String>),
}

/// What a [`RegistrationStep`] holds.
pub enum RegistrationView {
    CreateClient,
    ConnectSession,
    SetCallbacks,
    Keep,
    Finished(Result<(), Seq<char>>),
}

impl View for RegistrationStep {
    type V = RegistrationView;

    open spec fn view(&self) -> RegistrationView {
        match *self {
            RegistrationStep::CreateClient => RegistrationView::CreateClient,
            RegistrationStep::ConnectSession => RegistrationView::ConnectSession,
            RegistrationStep::SetCallbacks => RegistrationView::SetCallbacks,
            RegistrationStep::Keep => RegistrationView::Keep,
            RegistrationStep::Finished(result) => RegistrationView::Finished(
                text::outcome_of(result),
            ),
        }
    }
}

impl RegistrationView {
    /// Where a registration begins: with callbacks that are registered there is nothing to
    /// do.
    pub open spec fn begun(registered: Result<bool, LockPoisoned>) -> RegistrationView {
        match registered {
            Err(_) => RegistrationView::Finished(Err(CALLBACK_LOCK_POISONED@)),
            Ok(true) => RegistrationView::Finished(Ok(())),
            Ok(false) => RegistrationView::CreateClient,
        }
    }

    /// Where a registration is after the outcome of its step. The first error ends it.
    pub open spec fn after(self, outcome: Result<(), Seq<char>>) -> RegistrationView {
        match (self, outcome) {
            (RegistrationView::Finished(_), _) => self,
            (_, Err(error)) => RegistrationView::Finished(Err(error)),
            (RegistrationView::CreateClient, Ok(())) => RegistrationView::ConnectSession,
            (RegistrationView::ConnectSession, Ok(())) => RegistrationView::SetCallbacks,
            (RegistrationView::SetCallbacks, Ok(())) => RegistrationView::Keep,
            (RegistrationView::Keep, Ok(())) => RegistrationView::Finished(Ok(())),
        }
    }

    /// Where a registration is after a row of outcomes.
    pub open spec fn run(self, outcomes: Seq<Result<(), Seq<char>>>) -> RegistrationView
        decreases outcomes.len(),
    {
        if outcomes.len() == 0 {
            self
        } else {
            self.run(outcomes.drop_last()).after(outcomes.last())
        }
    }
}

/// Begins to register the callbacks; `registered` tells whether they are.
pub fn ensure_target_event_callbacks(registered: Result<bool, LockPoisoned>) -> (r:
    RegistrationStep)
    ensures
        r@ == RegistrationView::begun(registered),
{
    match registered {
        Err(_) => RegistrationStep::Finished(Err(CALLBACK_LOCK_POISONED.to_owned())),
        Ok(registered) => if registered {
            RegistrationStep::Finished(Ok(()))
        } else {
            RegistrationStep::CreateClient
        },
    }
}

impl RegistrationStep {
    /// Takes in the outcome of the step, and gives the next one.
    pub fn advance(self, outcome: Result<(), String>) -> (r: Self)
        ensures
            r@ == self@.after(text::outcome_of(outcome)),
    {
        if let RegistrationStep::Finished(_) = self {
            return self;
        }
        if let Err(error) = outcome {
            return RegistrationStep::Finished(Err(error));
        }
        match self {
            RegistrationStep::CreateClient => RegistrationStep::ConnectSession,
            RegistrationStep::ConnectSession => RegistrationStep::SetCallbacks,
            RegistrationStep::SetCallbacks => RegistrationStep::Keep,
            _ => RegistrationStep::Finished(Ok(())),
        }
    }
}

/// What the removal of the callbacks gives; `taken` tells whether there was a registration to
/// take back, and `removed` what the engine said to that.
pub fn clear_target_event_callbacks(
    taken: Result<bool, LockPoisoned>,
    removed: Result<(), String>,
) -> (r: Result<(), String>)
    ensures
        text::outcome_of(r) == (match taken {
            Err(_) => Err(CALLBACK_LOCK_POISONED@),
            Ok(true) => text::outcome_of(removed),
            Ok(false) => Ok(()),
        }),
{
    match taken {
        Err(_) => Err(CALLBACK_LOCK_POISONED.to_owned()),
        Ok(taken) => if taken {
            removed
        } else {
            Ok(())
        },
    }
}

/// A registration is kept only where each of its steps went well, and callbacks that are
/// registered are not registered again.
pub proof fn callbacks_are_kept_only_when_set(
    registered: Result<bool, LockPoisoned>,
    outcomes: Seq<Result<(), Seq<char>>>,
)
    requires
        RegistrationView::begun(registered).run(outcomes) == RegistrationView::Keep,
    ensures
        registered == Ok::<bool, LockPoisoned>(false),
        outcomes.len() == 3,
        forall|i: int| 0 <= i < outcomes.len() ==> (#[trigger] outcomes[i]) is Ok,
{
    lemma_registration_runs(registered, outcomes);
}

proof fn lemma_registration_runs(
    registered: Result<bool, LockPoisoned>,
    outcomes: Seq<Result<(), Seq<char>>>,
)
    ensures
        ({
            let reached = RegistrationView::begun(registered).run(outcomes);
            let steps: int = match reached {
                RegistrationView::CreateClient => 0,
                RegistrationView::ConnectSession => 1,
                RegistrationView::SetCallbacks => 2,
                RegistrationView::Keep => 3,
                RegistrationView::Finished(_) => outcomes.len() as int,
            };
            &&& outcomes.len() == steps
            &&& !(reached is Finished) ==> registered == Ok::<bool, LockPoisoned>(false) && forall|
                i: int,
            |
                0 <= i < outcomes.len() ==> (#[trigger] outcomes[i]) is Ok
        }),
    decreases outcomes.len(),
{
    if outcomes.len() > 0 {
        lemma_registration_runs(registered, outcomes.drop_last());
        assert forall|i: int|
            0 <= i < outcomes.len() && !(RegistrationView::begun(registered).run(
                outcomes,
            ) is Finished) implies (#[trigger] outcomes[i]) is Ok by {
            if i < outcomes.len() - 1 {
                assert(outcomes.drop_last()[i] is Ok);
            }
        }
    }
}

/// A registration makes a client, connects it to the session, sets the callbacks and keeps
/// them, in that order; the error of the step at which it fails is the one that it gives. Where
/// the callbacks are registered it gives success at once.
pub proof fn a_registration_goes_in_order(error: Seq<char>, outcome: Result<(), Seq<char>>)
    ensures
        ({
            let begun = RegistrationView::begun(Ok(false));
            let created = begun.after(Ok(()));
            let connected = created.after(Ok(()));
            let set = connected.after(Ok(()));
            let failed = RegistrationView::Finished(Err(error));
            &&& begun == RegistrationView::CreateClient
            &&& created == RegistrationView::ConnectSession
            &&& connected == RegistrationView::SetCallbacks
            &&& set == RegistrationView::Keep
            &&& set.after(Ok(())) == RegistrationView::Finished(Ok(()))
            &&& begun.after(Err(error)) == failed
            &&& created.after(Err(error)) == failed
            &&& connected.after(Err(error)) == failed
            &&& set.after(Err(error)) == failed
            &&& failed.after(outcome) == failed
            &&& RegistrationView::begun(Ok(true)) == RegistrationView::Finished(Ok(()))
            &&& RegistrationView::begun(Err(LockPoisoned)) == RegistrationView::Finished(
                Err("event callback state lock poisoned"@),
            )
        }),
{
}

} // verus!
