//! How the files of an instance are created, written and removed.

use vstd::prelude::*;

use crate::text;

verus! {

/// One step of writing a payload so that readers see either the old one or the new one.
#[derive(Debug, Clone, Copy, PartialEq, Eq, Structural)]
pub enum WriteStep {
    OpenTemp,
    WritePayload,
    WriteNewline,
    Flush,
    Sync,
    /// Put the temporary file in the place of the payload.
    Replace,
    RemoveTemp,
    Finished,
}

/// How far a write has come, and what went wrong first.
pub struct WriteView {
    pub step: WriteStep,
    pub error: Option<Seq<char>>,
}

/// The step that follows one that went well.
pub open spec fn following(step: WriteStep) -> WriteStep {
    match step {
        WriteStep::OpenTemp => WriteStep::WritePayload,
        WriteStep::WritePayload => WriteStep::WriteNewline,
        WriteStep::WriteNewline => WriteStep::Flush,
        WriteStep::Flush => WriteStep::Sync,
        WriteStep::Sync => WriteStep::Replace,
        WriteStep::Replace | WriteStep::RemoveTemp | WriteStep::Finished => WriteStep::Finished,
    }
}

impl WriteView {
    /// The write after its step ended. What fails before the end has the temporary file
    /// removed; whether that works does not matter.
    pub open spec fn after(self, outcome: Result<(), Seq<char>>) -> WriteView {
        if self.step == WriteStep::RemoveTemp || self.step == WriteStep::Finished {
            WriteView { step: WriteStep::Finished, ..self }
        } else {
            match outcome {
                Ok(()) => WriteView { step: following(self.step), ..self },
                Err(error) => WriteView { step: WriteStep::RemoveTemp, error: Some(error) },
            }
        }
    }

    pub open spec fn run(self, outcomes: Seq<Result<(), Seq<char>>>) -> WriteView
        decreases outcomes.len(),
    {
        if outcomes.len() == 0 {
            self
        } else {
            self.after(outcomes.first()).run(outcomes.drop_first())
        }
    }

    pub open spec fn result(self) -> Result<(), Seq<char>> {
        match self.error {
            Some(error) => Err(error),
            None => Ok(()),
        }
    }
}

/// The writing of a payload: [`AtomicWrite::step`] names what to do,
/// [`AtomicWrite::advance`] takes how it ended.
pub struct AtomicWrite {
    step: WriteStep,
    error: Option<String>,
}

impl View for AtomicWrite {
    type V = WriteView;

    closed spec fn view(&self) -> WriteView {
        WriteView { step: self.step, error: text::text_of(self.error) }
    }
}

impl AtomicWrite {
    /// A write of which nothing is done.
    pub fn new() -> (r: Self)
        ensures
            r@ == (WriteView { step: WriteStep::OpenTemp, error: None }),
    {
        AtomicWrite { step: WriteStep::OpenTemp, error: None }
    }

    /// What to do next.
    pub fn step(&self) -> (r: WriteStep)
        ensures
            r == self@.step,
    {
        self.step
    }

    /// Takes how the step ended.
    pub fn advance(&mut self, outcome: Result<(), String>)
        ensures
            final(self)@ == old(self)@.after(text::outcome_of(outcome)),
    {
        match self.step {
            WriteStep::RemoveTemp | WriteStep::Finished => {
                self.step = WriteStep::Finished;
            },
            _ => match outcome {
                Ok(()) => {
                    self.step =
                    match self.step {
                        WriteStep::OpenTemp => WriteStep::WritePayload,
                        WriteStep::WritePayload => WriteStep::WriteNewline,
                        WriteStep::WriteNewline => WriteStep::Flush,
                        WriteStep::Flush => WriteStep::Sync,
                        WriteStep::Sync => WriteStep::Replace,
                        _ => WriteStep::Finished,
                    };
                },
                Err(error) => {
                    self.step = WriteStep::RemoveTemp;
                    self.error = Some(error);
                },
            },
        }
    }

    /// How the write ended: with the first error, if there was one.
    pub fn result(self) -> (r: Result<(), String>)
        ensures
            text::outcome_of(r) == self@.result(),
    {
        match self.error {
            Some(error) => Err(error),
            None => Ok(()),
        }
    }
}

/// The steps up to the replacement, in their order.
pub open spec fn write_order(i: int) -> WriteStep {
    if i <= 0 {
        WriteStep::OpenTemp
    } else if i == 1 {
        WriteStep::WritePayload
    } else if i == 2 {
        WriteStep::WriteNewline
    } else if i == 3 {
        WriteStep::Flush
    } else if i == 4 {
        WriteStep::Sync
    } else if i == 5 {
        WriteStep::Replace
    } else {
        WriteStep::Finished
    }
}

proof fn lemma_write_in_order(i: int, outcomes: Seq<Result<(), Seq<char>>>)
    requires
        0 <= i,
        i + outcomes.len() <= 6,
        forall|j: int| 0 <= j < outcomes.len() ==> (#[trigger] outcomes[j]) is Ok,
    ensures
        (WriteView { step: write_order(i), error: None }).run(outcomes) == (WriteView {
            step: write_order(i + outcomes.len()),
            error: None,
        }),
    decreases outcomes.len(),
{
    if outcomes.len() > 0 {
        let rest = outcomes.drop_first();
        assert(outcomes[0] is Ok);
        assert forall|j: int| 0 <= j < rest.len() implies (#[trigger] rest[j]) is Ok by {
            assert(rest[j] == outcomes[j + 1]);
        }
        lemma_write_in_order(i + 1, rest);
    }
}

proof fn lemma_run_append(v: WriteView, outcomes: Seq<Result<(), Seq<char>>>, last: Result<
    (),
    Seq<char>,
>)
    ensures
        v.run(outcomes.push(last)) == v.run(outcomes).after(last),
    decreases outcomes.len(),
{
    let all = outcomes.push(last);
    if outcomes.len() > 0 {
        assert(all.drop_first() =~= outcomes.drop_first().push(last));
        lemma_run_append(v.after(outcomes.first()), outcomes.drop_first(), last);
    } else {
        assert(all.drop_first() =~= Seq::<Result<(), Seq<char>>>::empty());
        reveal_with_fuel(WriteView::run, 2);
    }
}

/// The payload is replaced only after its new content was written, flushed and synced whole;
/// when every step goes well the write ends well.
pub proof fn the_payload_is_replaced_when_the_new_one_is_whole(
    outcomes: Seq<Result<(), Seq<char>>>,
)
    requires
        outcomes.len() == 6,
        forall|i: int| 0 <= i < 6 ==> (#[trigger] outcomes[i]) is Ok,
    ensures
        ({
            let start = WriteView { step: WriteStep::OpenTemp, error: None };
            &&& forall|i: int|
                0 <= i <= 6 ==> (#[trigger] start.run(outcomes.take(i))).step == write_order(i)
            &&& start.run(outcomes).step == WriteStep::Finished
            &&& start.run(outcomes).result() == Ok::<(), Seq<char>>(())
        }),
{
    let start = WriteView { step: WriteStep::OpenTemp, error: None };
    assert forall|i: int| 0 <= i <= 6 implies (#[trigger] start.run(outcomes.take(i))).step
        == write_order(i) by {
        assert forall|j: int| 0 <= j < i implies (#[trigger] outcomes.take(i)[j]) is Ok by {
            assert(outcomes.take(i)[j] == outcomes[j]);
        }
        lemma_write_in_order(0, outcomes.take(i));
    }
    lemma_write_in_order(0, outcomes);
}

/// A step that fails, the replacement itself or one before it, leaves the old payload: nothing
/// but the removal of the temporary file follows, and the write ends with that error.
pub proof fn a_failed_write_keeps_the_old_payload(
    done: Seq<Result<(), Seq<char>>>,
    error: Seq<char>,
    removal: Result<(), Seq<char>>,
)
    requires
        done.len() < 6,
        forall|i: int| 0 <= i < done.len() ==> (#[trigger] done[i]) is Ok,
    ensures
        ({
            let start = WriteView { step: WriteStep::OpenTemp, error: None };
            let failed = start.run(done.push(Err(error)));
            &&& failed.step == WriteStep::RemoveTemp
            &&& failed.after(removal).step == WriteStep::Finished
            &&& failed.after(removal).result() == Err::<(), Seq<char>>(error)
        }),
{
    let start = WriteView { step: WriteStep::OpenTemp, error: None };
    lemma_write_in_order(0, done);
    lemma_run_append(start, done, Err(error));
}

/// One step of creating the files of an instance.
#[derive(Debug, Clone, Copy, PartialEq, Eq, Structural)]
pub enum CreationStep {
    CreateDirectory,
    /// Create the lock, which must not exist, and keep it open.
    OpenLock,
    ReadClock,
    WritePayload,
    /// Undo what was done, in the order of [`rollback_steps`].
    RollBack,
    Finished,
}

/// How far a creation has come, and what went wrong.
pub struct CreationView {
    pub step: CreationStep,
    pub error: Option<Seq<char>>,
}

impl CreationView {
    /// The creation after its step ended. Only a payload that could not be written is undone.
    pub open spec fn after(self, outcome: Result<(), Seq<char>>) -> CreationView {
        match (self.step, outcome) {
            (CreationStep::RollBack, _) | (CreationStep::Finished, _) => CreationView {
                step: CreationStep::Finished,
                ..self
            },
            (CreationStep::WritePayload, Err(error)) => CreationView {
                step: CreationStep::RollBack,
                error: Some(error),
            },
            (_, Err(error)) => CreationView {
                step: CreationStep::Finished,
                error: Some(error),
            },
            (CreationStep::CreateDirectory, Ok(())) => CreationView {
                step: CreationStep::OpenLock,
                ..self
            },
            (CreationStep::OpenLock, Ok(())) => CreationView {
                step: CreationStep::ReadClock,
                ..self
            },
            (CreationStep::ReadClock, Ok(())) => CreationView {
                step: CreationStep::WritePayload,
                ..self
            },
            (CreationStep::WritePayload, Ok(())) => CreationView {
                step: CreationStep::Finished,
                ..self
            },
        }
    }

    pub open spec fn result(self) -> Result<(), Seq<char>> {
        match self.error {
            Some(error) => Err(error),
            None => Ok(()),
        }
    }
}

/// The creation of the files of an instance: [`RegistryCreation::step`] names what to do,
/// [`RegistryCreation::advance`] takes how it ended.
pub struct RegistryCreation {
    step: CreationStep,
    error: Option<String>,
}

impl View for RegistryCreation {
    type V = CreationView;

    closed spec fn view(&self) -> CreationView {
        CreationView { step: self.step, error: text::text_of(self.error) }
    }
}

impl RegistryCreation {
    /// A creation of which nothing is done.
    pub fn new() -> (r: Self)
        ensures
            r@ == (CreationView { step: CreationStep::CreateDirectory, error: None }),
    {
        RegistryCreation { step: CreationStep::CreateDirectory, error: None }
    }

    /// What to do next.
    pub fn step(&self) -> (r: CreationStep)
        ensures
            r == self@.step,
    {
        self.step
    }

    /// Takes how the step ended.
    pub fn advance(&mut self, outcome: Result<(), String>)
        ensures
            final(self)@ == old(self)@.after(text::outcome_of(outcome)),
    {
        match self.step {
            CreationStep::RollBack | CreationStep::Finished => {
                self.step = CreationStep::Finished;
            },
            _ => match outcome {
                Ok(()) => {
                    self.step =
                    match self.step {
                        CreationStep::CreateDirectory => CreationStep::OpenLock,
                        CreationStep::OpenLock => CreationStep::ReadClock,
                        CreationStep::ReadClock => CreationStep::WritePayload,
                        _ => CreationStep::Finished,
                    };
                },
                Err(error) => {
                    self.step =
                    match self.step {
                        CreationStep::WritePayload => CreationStep::RollBack,
                        _ => CreationStep::Finished,
                    };
                    self.error = Some(error);
                },
            },
        }
    }

    /// How the creation ended.
    pub fn result(self) -> (r: Result<(), String>)
        ensures
            text::outcome_of(r) == self@.result(),
    {
        match self.error {
            Some(error) => Err(error),
            None => Ok(()),
        }
    }
}

/// One step of removing the files of an instance. None of them can fail the removal.
#[derive(Debug, Clone, Copy, PartialEq, Eq, Structural)]
pub enum RemovalStep {
    RemovePayload,
    RemoveTemp,
    ReleaseLock,
    RemoveLock,
}

/// How the files of an instance are removed when its server stops: the lock is held until no
/// other file is left.
pub fn remove_instance_registry() -> (r: Vec<RemovalStep>)
    ensures
        r@ == seq![
            RemovalStep::RemovePayload,
            RemovalStep::RemoveTemp,
            RemovalStep::ReleaseLock,
            RemovalStep::RemoveLock,
        ],
{
    vec![
        RemovalStep::RemovePayload,
        RemovalStep::RemoveTemp,
        RemovalStep::ReleaseLock,
        RemovalStep::RemoveLock,
    ]
}

/// How a creation that failed is undone.
pub fn rollback_steps() -> (r: Vec<RemovalStep>)
    ensures
        r@ == seq![
            RemovalStep::ReleaseLock,
            RemovalStep::RemoveTemp,
            RemovalStep::RemovePayload,
            RemovalStep::RemoveLock,
        ],
{
    vec![
        RemovalStep::ReleaseLock,
        RemovalStep::RemoveTemp,
        RemovalStep::RemovePayload,
        RemovalStep::RemoveLock,
    ]
}

/// The order of a write: the temporary file is opened, the payload and a line feed are written
/// to it, it is flushed and synced, and only then put in the place of the old one.
pub proof fn a_write_goes_in_order()
    ensures
        ({
            let begun = WriteView { step: WriteStep::OpenTemp, error: None };
            let opened = begun.after(Ok(()));
            let written = opened.after(Ok(()));
            let ended = written.after(Ok(()));
            let flushed = ended.after(Ok(()));
            let synced = flushed.after(Ok(()));
            let replaced = synced.after(Ok(()));
            &&& opened.step == WriteStep::WritePayload
            &&& written.step == WriteStep::WriteNewline
            &&& ended.step == WriteStep::Flush
            &&& flushed.step == WriteStep::Sync
            &&& synced.step == WriteStep::Replace
            &&& replaced.step == WriteStep::Finished
            &&& replaced.result() is Ok
        }),
{
}

/// Whatever step a write fails at, the temporary file is removed and nothing else is done; the
/// error of that step is the result, whatever comes of the removal.
pub proof fn a_write_that_fails_removes_its_temporary_file(
    write: WriteView,
    error: Seq<char>,
    removal: Result<(), Seq<char>>,
    later: Result<(), Seq<char>>,
)
    requires
        write.step != WriteStep::RemoveTemp,
        write.step != WriteStep::Finished,
    ensures
        ({
            let failed = write.after(Err(error));
            let over = failed.after(removal);
            &&& failed.step == WriteStep::RemoveTemp
            &&& over.step == WriteStep::Finished
            &&& over.result() == Err::<(), Seq<char>>(error)
            &&& over.after(later) == over
        }),
{
}

/// The order of a creation: the directory, the lock, the clock, the payload. Where one of the
/// first three fails there is nothing to undo; where the payload fails, all is undone. The
/// error of the step that failed is the result, whatever comes of the undoing.
pub proof fn a_creation_goes_in_order(error: Seq<char>, undone: Result<(), Seq<char>>)
    ensures
        ({
            let begun = CreationView { step: CreationStep::CreateDirectory, error: None };
            let made = begun.after(Ok(()));
            let locked = made.after(Ok(()));
            let timed = locked.after(Ok(()));
            let written = timed.after(Ok(()));
            let failed = CreationView { step: CreationStep::Finished, error: Some(error) };
            let lost = timed.after(Err(error));
            &&& made.step == CreationStep::OpenLock
            &&& locked.step == CreationStep::ReadClock
            &&& timed.step == CreationStep::WritePayload
            &&& written.step == CreationStep::Finished
            &&& written.result() is Ok
            &&& begun.after(Err(error)) == failed
            &&& made.after(Err(error)) == failed
            &&& locked.after(Err(error)) == failed
            &&& lost.step == CreationStep::RollBack
            &&& lost.after(undone) == failed
            &&& failed.result() == Err::<(), Seq<char>>(error)
            &&& failed.after(undone) == failed
        }),
{
}

} // verus!
