//! The dispatcher that all callers share: it is started when it is first needed, and where
//! two callers start one at a time, the first that is stored serves both.

use vstd::prelude::*;

use crate::plugin_server::{LockPoisoned, PluginServerControl};
use crate::server_stop::DISPATCHER_LOCK_POISONED;
use crate::text;

verus! {

/// What a caller that needs the dispatcher does next.
pub enum DispatcherStep<D> {
    /// Start one, without the lock, and tell [`dispatcher_spawned`] what came of it.
    Spawn,
    Finished(Result<D, String>),
}

/// What the slot holds after a dispatcher was offered to it.
pub open spec fn kept<D>(slot: Option<D>, offered: D) -> D {
    match slot {
        Some(existing) => existing,
        None => offered,
    }
}

impl PluginServerControl {
    /// Looks for the dispatcher, and tells whether one is to be started.
    pub fn get_or_start_dispatcher<D: Clone>(slot: Result<&Option<D>, LockPoisoned>) -> (r:
        DispatcherStep<D>)
        ensures
            match (slot, r) {
                (Err(_), DispatcherStep::Finished(Err(error))) => error@
                    == DISPATCHER_LOCK_POISONED@,
                (Ok(Some(existing)), DispatcherStep::Finished(Ok(dispatcher))) => cloned(
                    *existing,
                    dispatcher,
                ),
                (Ok(None), DispatcherStep::Spawn) => true,
                _ => false,
            },
    {
        match slot {
            Err(_) => DispatcherStep::Finished(Err(DISPATCHER_LOCK_POISONED.to_owned())),
            Ok(slot) => match slot {
                Some(existing) => DispatcherStep::Finished(Ok(existing.clone())),
                None => DispatcherStep::Spawn,
            },
        }
    }
}

/// Stores a dispatcher that was started, unless another caller was first, and gives the one
/// that is stored.
pub fn keep_dispatcher<D: Clone>(slot: Result<&mut Option<D>, LockPoisoned>, offered: D) -> (r:
    Result<D, String>)
    ensures
        match slot {
            Ok(slot) => {
                &&& *final(slot) == Some(kept(*slot, offered))
                &&& r is Ok
                &&& cloned(kept(*slot, offered), r->Ok_0)
            },
            Err(_) => r is Err && r->Err_0@ == DISPATCHER_LOCK_POISONED@,
        },
{
    let slot = match slot {
        Ok(slot) => slot,
        Err(_) => {
            return Err(DISPATCHER_LOCK_POISONED.to_owned());
        },
    };
    if let Some(existing) = slot {
        return Ok(existing.clone());
    }
    let r = offered.clone();
    *slot = Some(offered);
    Ok(r)
}

/// What the slot holds after a caller came with what starting a dispatcher gave.
pub open spec fn slot_after<D>(slot: Option<D>, spawned: Result<D, Seq<char>>) -> Option<D> {
    match spawned {
        Ok(offered) => Some(kept(slot, offered)),
        Err(_) => slot,
    }
}

/// What that caller gets: the dispatcher that is stored, or the error of its own start.
pub open spec fn given<D>(slot: Option<D>, spawned: Result<D, Seq<char>>) -> Result<D, Seq<char>> {
    match spawned {
        Ok(offered) => Ok(kept(slot, offered)),
        Err(error) => Err(error),
    }
}

/// What the slot holds after a row of callers.
pub open spec fn slot_run<D>(slot: Option<D>, callers: Seq<Result<D, Seq<char>>>) -> Option<D>
    decreases callers.len(),
{
    if callers.len() == 0 {
        slot
    } else {
        slot_after(slot_run(slot, callers.drop_last()), callers.last())
    }
}

/// Takes in what starting a dispatcher gave: one that was started is stored, unless another
/// caller was first, and the caller gets the one that is stored; where none was started, the
/// caller gets the error and the slot stays as it is.
pub fn dispatcher_spawned<D: Clone>(
    slot: Result<&mut Option<D>, LockPoisoned>,
    spawned: Result<D, String>,
) -> (r: Result<D, String>)
    ensures
        slot is Ok ==> *final(slot->Ok_0) == slot_after(*slot->Ok_0, text::outcome_of(spawned)),
        match (spawned, slot) {
            (Err(error), _) => r is Err && r->Err_0@ == error@,
            (Ok(offered), Ok(slot)) => r is Ok && cloned(kept(*slot, offered), r->Ok_0),
            (Ok(_), Err(_)) => r is Err && r->Err_0@ == DISPATCHER_LOCK_POISONED@,
        },
{
    match spawned {
        Ok(offered) => keep_dispatcher(slot, offered),
        Err(error) => Err(error),
    }
}

/// Whatever callers come, all that started a dispatcher get the same one, which is stored
/// from then on; as long as every start fails, the slot stays as it was.
pub proof fn the_first_dispatcher_serves_all<D>(
    slot: Option<D>,
    callers: Seq<Result<D, Seq<char>>>,
    one: int,
    other: int,
)
    requires
        0 <= one <= other < callers.len(),
    ensures
        callers[one] is Ok && callers[other] is Ok ==> given(
            slot_run(slot, callers.take(one)),
            callers[one],
        ) == given(slot_run(slot, callers.take(other)), callers[other]),
        callers[one] is Ok ==> slot_run(slot, callers.take(other + 1)) == Some(
            given(slot_run(slot, callers.take(one)), callers[one])->Ok_0,
        ),
        slot is Some ==> slot_run(slot, callers) == slot,
        (forall|i: int| 0 <= i < callers.len() ==> (#[trigger] callers[i]) is Err) ==> slot_run(
            slot,
            callers,
        ) == slot,
{
    lemma_callers(slot, callers);
    if callers[one] is Ok {
        let first = given(slot_run(slot, callers.take(one)), callers[one])->Ok_0;
        let since = callers.take(one + 1);
        assert(since.drop_last() =~= callers.take(one));
        assert(slot_run(slot, since) == Some(first));
        lemma_run_split(slot, callers.take(other + 1), one + 1);
        assert(callers.take(other + 1).take(one + 1) =~= since);
        lemma_callers(Some(first), callers.take(other + 1).skip(one + 1));
        if one < other {
            lemma_run_split(slot, callers.take(other), one + 1);
            assert(callers.take(other).take(one + 1) =~= since);
            lemma_callers(Some(first), callers.take(other).skip(one + 1));
        }
    }
}

proof fn lemma_callers<D>(slot: Option<D>, callers: Seq<Result<D, Seq<char>>>)
    ensures
        slot is Some ==> slot_run(slot, callers) == slot,
        (forall|i: int| 0 <= i < callers.len() ==> (#[trigger] callers[i]) is Err) ==> slot_run(
            slot,
            callers,
        ) == slot,
    decreases callers.len(),
{
    if callers.len() > 0 {
        let before = callers.drop_last();
        lemma_callers(slot, before);
        if forall|i: int| 0 <= i < callers.len() ==> (#[trigger] callers[i]) is Err {
            assert forall|i: int| 0 <= i < before.len() implies (#[trigger] before[i]) is Err by {
                assert(callers[i] is Err);
            }
            assert(callers[callers.len() - 1] is Err);
        }
    }
}

proof fn lemma_run_split<D>(slot: Option<D>, callers: Seq<Result<D, Seq<char>>>, at: int)
    requires
        0 <= at <= callers.len(),
    ensures
        slot_run(slot, callers) == slot_run(slot_run(slot, callers.take(at)), callers.skip(at)),
    decreases callers.len(),
{
    if at == callers.len() {
        assert(callers.take(at) =~= callers);
    } else {
        let before = callers.drop_last();
        lemma_run_split(slot, before, at);
        assert(before.take(at) =~= callers.take(at));
        assert(before.skip(at) =~= callers.skip(at).drop_last());
        assert(callers.skip(at).last() == callers.last());
    }
}

/// The first dispatcher that is started is the one that is stored, and its caller gets it; one
/// that is started beside it is dropped. A caller whose own start fails gets that error, though
/// a dispatcher may be stored.
pub proof fn the_first_dispatcher_is_stored<D>(
    first: D,
    second: D,
    slot: Option<D>,
    error: Seq<char>,
)
    ensures
        slot_after(None::<D>, Ok(first)) == Some(first),
        given(None::<D>, Ok(first)) == Ok::<D, Seq<char>>(first),
        slot_after(Some(first), Ok(second)) == Some(first),
        given(Some(first), Ok(second)) == Ok::<D, Seq<char>>(first),
        slot_after(slot, Err(error)) == slot,
        given(slot, Err(error)) == Err::<D, Seq<char>>(error),
{
}

} // verus!
