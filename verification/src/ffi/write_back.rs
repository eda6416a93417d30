//! The order in which a plan is written into the host's values: which
//! buffer is made next, what is given back when one cannot be made, and
//! when the values themselves are changed.
//!
//! Making, filling and giving back buffers is the caller's work. This module
//! says which step is next, from the steps so far and from whether the last
//! buffer could be made.

use crate::interface::{ParamValue, ParamValueView};
use vstd::prelude::*;

verus! {

/// What an entry of a plan asks for.
#[derive(Clone, Copy, Debug, PartialEq, Eq, Structural)]
pub enum EntryKind {
    /// Nothing: the value stays as it is.
    Keep,
    /// A value that lies in the payload itself.
    Scalar,
    /// Text or binary data, which needs a buffer.
    Buffer,
}

/// What an entry of a plan asks for.
pub open spec fn spec_kind(entry: Option<ParamValueView>) -> EntryKind {
    match entry {
        None => EntryKind::Keep,
        Some(ParamValueView::String(_)) => EntryKind::Buffer,
        Some(ParamValueView::Blob(_)) => EntryKind::Buffer,
        Some(_) => EntryKind::Scalar,
    }
}

/// What an entry of a plan asks for.
pub fn kind_of(entry: &Option<ParamValue>) -> (kind: EntryKind)
    ensures
        kind == spec_kind(
            match entry {
                Some(v) => Some(v@),
                None => None,
            },
        ),
{
    match entry {
        None => EntryKind::Keep,
        Some(ParamValue::String(_)) => EntryKind::Buffer,
        Some(ParamValue::Blob(_)) => EntryKind::Buffer,
        Some(_) => EntryKind::Scalar,
    }
}

/// One step of writing a plan.
#[derive(Clone, Copy, Debug, PartialEq, Eq, Structural)]
pub enum WriteStep {
    /// Make the buffer of the entry at this index, and fill it.
    Stage(usize),
    /// Give back the buffer that was made for the entry at this index.
    Release(usize),
    /// Give the target at this index its new value; where the value lies in
    /// a buffer, give back the buffer that the target pointed to before.
    Install(usize),
    /// Nothing is left to do. The plan was written, or nothing was.
    Done(bool),
}

/// How far the writing of a plan has come.
#[derive(Clone, Copy, Debug, PartialEq, Eq, Structural)]
pub enum WritePhase {
    /// Buffers are being made.
    Staging,
    /// A buffer could not be made; those made before it are given back.
    Releasing,
    /// All buffers exist; the targets get their values.
    Installing,
    /// Nothing is left to do.
    Finished(bool),
}

/// The writing of one plan, step by step.
///
/// First the buffer of every entry that needs one is made, in the order of
/// the entries. If one cannot be made, those made before it are given back,
/// the last first, and nothing was written. Otherwise every target with an
/// entry gets its new value, in the order of the entries, and the plan was
/// written.
#[derive(Debug)]
pub struct WriteBack {
    /// What each entry of the plan asks for.
    pub kinds: Vec<EntryKind>,
    /// How far the current phase has come: the entries below this index are
    /// done with when buffers are made or values given, those at and above
    /// it when buffers are given back.
    pub cursor: usize,
    pub phase: WritePhase,
    /// Whether the last step asked for a buffer, so that the next step
    /// depends on whether it could be made.
    pub pending: bool,
}

/// No entry from `from` up to `to` needs a buffer.
pub open spec fn no_buffer(kinds: Seq<EntryKind>, from: int, to: int) -> bool {
    forall|k: int| from <= k < to ==> !(#[trigger] kinds[k] is Buffer)
}

/// No entry from `from` up to `to` asks for anything.
pub open spec fn no_write(kinds: Seq<EntryKind>, from: int, to: int) -> bool {
    forall|k: int| from <= k < to ==> #[trigger] kinds[k] is Keep
}

impl WriteBack {
    /// The state is one that the steps lead to.
    pub open spec fn wf(&self) -> bool {
        &&& self.cursor <= self.kinds@.len()
        &&& self.pending ==> self.phase is Staging && self.cursor >= 1
            && self.kinds@[self.cursor - 1] is Buffer
    }

    /// What is left to do at most, as a number that every step lowers.
    pub open spec fn steps_left(&self) -> nat {
        match self.phase {
            WritePhase::Staging => (2 * self.kinds@.len() + 3 - self.cursor) as nat,
            WritePhase::Releasing => (1 + self.cursor) as nat,
            WritePhase::Installing => (self.kinds@.len() + 1 - self.cursor) as nat,
            WritePhase::Finished(_) => 0,
        }
    }

    /// The step that follows when buffers are being made and those of the
    /// entries below `from` exist: the next buffer; or, where no entry is
    /// left that needs one, the first step of giving the targets their
    /// values.
    pub open spec fn staging_from(
        kinds: Seq<EntryKind>,
        from: int,
        step: WriteStep,
        after: WriteBack,
    ) -> bool {
        ||| {
            &&& step matches WriteStep::Stage(i)
            &&& from <= i < kinds.len()
            &&& kinds[i as int] is Buffer
            &&& no_buffer(kinds, from, i as int)
            &&& after.phase is Staging
            &&& after.pending
            &&& after.cursor == i + 1
        }
        ||| {
            &&& no_buffer(kinds, from, kinds.len() as int)
            &&& Self::installing_from(kinds, 0, step, after)
        }
    }

    /// The step that follows when the buffers of the entries below `below`
    /// are to be given back: the last of them; or, where none is left, the
    /// end, with nothing written.
    pub open spec fn releasing_from(
        kinds: Seq<EntryKind>,
        below: int,
        step: WriteStep,
        after: WriteBack,
    ) -> bool {
        ||| {
            &&& step matches WriteStep::Release(j)
            &&& 0 <= j < below
            &&& kinds[j as int] is Buffer
            &&& no_buffer(kinds, j + 1, below)
            &&& after.phase is Releasing
            &&& !after.pending
            &&& after.cursor == j
        }
        ||| {
            &&& no_buffer(kinds, 0, below)
            &&& step == WriteStep::Done(false)
            &&& after.phase == WritePhase::Finished(false)
            &&& !after.pending
        }
    }

    /// The step that follows when the targets below `from` have their
    /// values: the next target with an entry; or, where none is left, the
    /// end, with the plan written.
    pub open spec fn installing_from(
        kinds: Seq<EntryKind>,
        from: int,
        step: WriteStep,
        after: WriteBack,
    ) -> bool {
        ||| {
            &&& step matches WriteStep::Install(i)
            &&& from <= i < kinds.len()
            &&& !(kinds[i as int] is Keep)
            &&& no_write(kinds, from, i as int)
            &&& after.phase is Installing
            &&& !after.pending
            &&& after.cursor == i + 1
        }
        ||| {
            &&& no_write(kinds, from, kinds.len() as int)
            &&& step == WriteStep::Done(true)
            &&& after.phase == WritePhase::Finished(true)
            &&& !after.pending
        }
    }

    /// The step that follows `before`, where `staged` says whether the
    /// buffer that the last step asked for, if it asked for one, could be
    /// made.
    pub open spec fn spec_step(
        before: WriteBack,
        staged: bool,
        step: WriteStep,
        after: WriteBack,
    ) -> bool {
        match before.phase {
            WritePhase::Staging => if before.pending && !staged {
                Self::releasing_from(before.kinds@, before.cursor - 1, step, after)
            } else {
                Self::staging_from(before.kinds@, before.cursor as int, step, after)
            },
            WritePhase::Releasing => Self::releasing_from(
                before.kinds@,
                before.cursor as int,
                step,
                after,
            ),
            WritePhase::Installing => Self::installing_from(
                before.kinds@,
                before.cursor as int,
                step,
                after,
            ),
            WritePhase::Finished(done) => step == WriteStep::Done(done) && after.phase
                == before.phase && !after.pending,
        }
    }

    /// The writing of `plan`, before its first step.
    pub fn new(plan: &Vec<Option<ParamValue>>) -> (writing: WriteBack)
        ensures
            writing.wf(),
            writing.kinds@.len() == plan@.len(),
            forall|i: int|
                0 <= i < plan@.len() ==> #[trigger] writing.kinds@[i] == spec_kind(
                    match plan@[i] {
                        Some(v) => Some(v@),
                        None => None,
                    },
                ),
            writing.cursor == 0,
            writing.phase is Staging,
            !writing.pending,
    {
        let mut kinds: Vec<EntryKind> = Vec::new();
        let n: usize = plan.len();
        let mut i: usize = 0;
        while i < n
            invariant
                n == plan@.len(),
                i <= n,
                kinds@.len() == i,
                forall|k: int|
                    0 <= k < i ==> #[trigger] kinds@[k] == spec_kind(
                        match plan@[k] {
                            Some(v) => Some(v@),
                            None => None,
                        },
                    ),
            decreases n - i,
        {
            kinds.push(kind_of(&plan[i]));
            i += 1;
        }
        WriteBack { kinds, cursor: 0, phase: WritePhase::Staging, pending: false }
    }

    /// The next step. `staged` says whether the buffer that the last step
    /// asked for could be made; it does not count where the last step asked
    /// for none.
    pub fn step(&mut self, staged: bool) -> (step: WriteStep)
        requires
            old(self).wf(),
        ensures
            final(self).wf(),
            final(self).kinds == old(self).kinds,
            WriteBack::spec_step(*old(self), staged, step, *final(self)),
            !(step is Done) ==> final(self).steps_left() < old(self).steps_left(),
    {
        let n: usize = self.kinds.len();
        match self.phase {
            WritePhase::Staging => {
                if self.pending && !staged {
                    self.pending = false;
                    self.phase = WritePhase::Releasing;
                    self.cursor = self.cursor - 1;
                    self.release()
                } else {
                    self.pending = false;
                    let mut i: usize = self.cursor;
                    while i < n && !matches!(self.kinds[i], EntryKind::Buffer)
                        invariant
                            n == self.kinds@.len(),
                            self.cursor <= i <= n,
                            no_buffer(self.kinds@, self.cursor as int, i as int),
                        decreases n - i,
                    {
                        i += 1;
                    }
                    if i < n {
                        self.cursor = i + 1;
                        self.pending = true;
                        WriteStep::Stage(i)
                    } else {
                        self.phase = WritePhase::Installing;
                        self.cursor = 0;
                        self.install()
                    }
                }
            },
            WritePhase::Releasing => self.release(),
            WritePhase::Installing => self.install(),
            WritePhase::Finished(done) => {
                self.pending = false;
                WriteStep::Done(done)
            },
        }
    }

    /// The next step of giving buffers back.
    fn release(&mut self) -> (step: WriteStep)
        requires
            old(self).phase is Releasing,
            !old(self).pending,
            old(self).cursor <= old(self).kinds@.len(),
        ensures
            final(self).wf(),
            final(self).kinds == old(self).kinds,
            WriteBack::releasing_from(old(self).kinds@, old(self).cursor as int, step, *final(self)),
            !(step is Done) ==> final(self).cursor < old(self).cursor,
    {
        let mut j: usize = self.cursor;
        while j > 0 && !matches!(self.kinds[j - 1], EntryKind::Buffer)
            invariant
                j <= self.cursor <= self.kinds@.len(),
                no_buffer(self.kinds@, j as int, self.cursor as int),
            decreases j,
        {
            j -= 1;
        }
        if j > 0 {
            self.cursor = j - 1;
            WriteStep::Release(j - 1)
        } else {
            self.phase = WritePhase::Finished(false);
            WriteStep::Done(false)
        }
    }

    /// The next step of giving the targets their values.
    fn install(&mut self) -> (step: WriteStep)
        requires
            old(self).phase is Installing,
            !old(self).pending,
            old(self).cursor <= old(self).kinds@.len(),
        ensures
            final(self).wf(),
            final(self).kinds == old(self).kinds,
            WriteBack::installing_from(old(self).kinds@, old(self).cursor as int, step, *final(self)),
            !(step is Done) ==> final(self).phase is Installing && final(self).cursor > old(
                self,
            ).cursor,
    {
        let n: usize = self.kinds.len();
        let mut i: usize = self.cursor;
        while i < n && matches!(self.kinds[i], EntryKind::Keep)
            invariant
                n == self.kinds@.len(),
                self.cursor <= i <= n,
                no_write(self.kinds@, self.cursor as int, i as int),
            decreases n - i,
        {
            i += 1;
        }
        if i < n {
            self.cursor = i + 1;
            WriteStep::Install(i)
        } else {
            self.phase = WritePhase::Finished(true);
            WriteStep::Done(true)
        }
    }
}

} // verus!
