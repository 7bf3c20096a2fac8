//! The extraction writer: a state machine that sequences the file-system
//! actions of one run. The caller performs each action and reports whether
//! it succeeded; the machine answers with the next one.
//!
//! The write root is acquired at most once and released before the run
//! ends, whether the writes succeeded or not. A failed write ends the run:
//! the writes after it are not attempted.

use vstd::prelude::*;
use crate::text::text_view;
use crate::yank::{ExtractionPlan, PlanView, PlannedWrite, WriteView, YankError};

verus! {

/// How an extraction run ended.
#[derive(Debug, Clone, Copy, PartialEq, Eq, Structural)]
pub enum Outcome {
    /// Every file was written; the number of files.
    Written(usize),
    /// The plan held no file: nothing was created or written.
    NoArtifacts,
    /// The write root could not be created or entered; nothing was written.
    RootFailed,
    /// The write with this index failed; those before it were made, those
    /// after it were not attempted.
    WriteFailed(usize),
    /// The write root could not be restored.
    RestoreFailed,
}

impl Outcome {
    /// The error that the outcome stands for, if it is a failure.
    pub open spec fn spec_error(self) -> Option<YankError> {
        match self {
            Outcome::Written(_) => None,
            Outcome::NoArtifacts => None,
            _ => Some(YankError::IoError),
        }
    }

    /// The error that the outcome stands for, if it is a failure: every
    /// failure of a run is a failed directory or file operation.
    #[verifier::when_used_as_spec(spec_error)]
    pub fn error(self) -> (r: Option<YankError>)
        ensures
            r == self.spec_error(),
    {
        match self {
            Outcome::Written(_) => None,
            Outcome::NoArtifacts => None,
            _ => Some(YankError::IoError),
        }
    }
}

/// What the machine waits for.
#[derive(Debug, Clone, Copy, PartialEq, Eq, Structural)]
pub enum Phase {
    /// For the write root to be created and entered.
    Entering,
    /// For the write with this index.
    Writing(usize),
    /// For the write root to be restored; the outcome to report once it is.
    Leaving(Outcome),
    /// For nothing: the run has ended with this outcome.
    Done(Outcome),
}

/// What an action is.
pub enum ActionView {
    Enter(Seq<char>),
    Write(WriteView),
    Leave,
    Stop(Outcome),
}

/// One step for the caller to perform.
#[derive(Debug)]
pub enum Action {
    /// Create the named directory if it is absent, remember the current
    /// write root and make the directory the write root. On failure the
    /// write root is unchanged.
    Enter(String),
    /// Create the missing parent directories of the path, then create or
    /// truncate the file and write the whole content.
    Write(PlannedWrite),
    /// Make the remembered write root current again.
    Leave,
    /// Nothing is left to do: the run has ended.
    Stop(Outcome),
}

impl View for Action {
    type V = ActionView;

    open spec fn view(&self) -> ActionView {
        match self {
            Action::Enter(name) => ActionView::Enter(name@),
            Action::Write(w) => ActionView::Write(w@),
            Action::Leave => ActionView::Leave,
            Action::Stop(o) => ActionView::Stop(*o),
        }
    }
}

/// Whether a phase can occur in a run of `plan`.
pub open spec fn phase_fits(plan: PlanView, phase: Phase) -> bool {
    match phase {
        Phase::Entering => plan.root is Some && plan.writes.len() > 0,
        Phase::Writing(i) => i < plan.writes.len(),
        Phase::Leaving(o) => plan.root is Some && plan.writes.len() > 0 && match o {
            Outcome::Written(n) => n == plan.writes.len(),
            Outcome::WriteFailed(i) => i < plan.writes.len(),
            _ => false,
        },
        Phase::Done(o) => match o {
            Outcome::Written(n) => n == plan.writes.len() && n > 0,
            Outcome::NoArtifacts => plan.writes.len() == 0,
            Outcome::RootFailed => plan.root is Some && plan.writes.len() > 0,
            Outcome::WriteFailed(i) => i < plan.writes.len(),
            Outcome::RestoreFailed => plan.root is Some && plan.writes.len() > 0,
        },
    }
}

/// The phase in which a run of `plan` begins: a plan without files is over
/// at once; one with a root begins by entering it; another by its first
/// write.
pub open spec fn first_phase(plan: PlanView) -> Phase {
    if plan.writes.len() == 0 {
        Phase::Done(Outcome::NoArtifacts)
    } else if plan.root is Some {
        Phase::Entering
    } else {
        Phase::Writing(0)
    }
}

/// The action that a phase waits for.
pub open spec fn action_of(plan: PlanView, phase: Phase) -> ActionView {
    match phase {
        Phase::Entering => ActionView::Enter(plan.root->0),
        Phase::Writing(i) => ActionView::Write(plan.writes[i as int]),
        Phase::Leaving(_) => ActionView::Leave,
        Phase::Done(o) => ActionView::Stop(o),
    }
}

/// The path at which a run that ended with outcome `o` failed: the write
/// root where entering or restoring it failed, the file where a write did;
/// none where the run did not fail.
pub open spec fn failed_path_of(plan: PlanView, o: Outcome) -> Option<Seq<char>> {
    match o {
        Outcome::RootFailed => plan.root,
        Outcome::RestoreFailed => plan.root,
        Outcome::WriteFailed(i) => Some(plan.writes[i as int].path),
        _ => None,
    }
}

/// The phase in which the writes of a run end with outcome `o`: the write
/// root is restored first where one was entered.
pub open spec fn winding_up(plan: PlanView, o: Outcome) -> Phase {
    if plan.root is Some {
        Phase::Leaving(o)
    } else {
        Phase::Done(o)
    }
}

/// The phase that follows `phase` once its action has succeeded (`ok`) or
/// failed.
pub open spec fn next_phase(plan: PlanView, phase: Phase, ok: bool) -> Phase {
    match phase {
        Phase::Entering => if ok {
            Phase::Writing(0)
        } else {
            Phase::Done(Outcome::RootFailed)
        },
        Phase::Writing(i) => if !ok {
            winding_up(plan, Outcome::WriteFailed(i))
        } else if i + 1 < plan.writes.len() {
            Phase::Writing((i + 1) as usize)
        } else {
            winding_up(plan, Outcome::Written((i + 1) as usize))
        },
        Phase::Leaving(o) => if ok {
            Phase::Done(o)
        } else {
            Phase::Done(Outcome::RestoreFailed)
        },
        Phase::Done(o) => Phase::Done(o),
    }
}

/// The state of one extraction run.
#[derive(Debug)]
pub struct Writer {
    plan: ExtractionPlan,
    phase: Phase,
}

impl Writer {
    #[verifier::type_invariant]
    spec fn fits(&self) -> bool {
        phase_fits(self.plan@, self.phase)
    }

    /// The plan that the run carries out.
    pub closed spec fn plan(&self) -> PlanView {
        self.plan@
    }

    /// What the run waits for.
    pub closed spec fn phase(&self) -> Phase {
        self.phase
    }

    /// Begins a run of `plan` and gives its first action.
    pub fn begin(plan: ExtractionPlan) -> (r: (Writer, Action))
        ensures
            r.0.plan() == plan@,
            r.0.phase() == first_phase(plan@),
            r.1@ == action_of(plan@, first_phase(plan@)),
    {
        let phase = if plan.writes.len() == 0 {
            Phase::Done(Outcome::NoArtifacts)
        } else if plan.root.is_some() {
            Phase::Entering
        } else {
            Phase::Writing(0)
        };
        let writer = Writer { plan, phase };
        let action = writer.action();
        (writer, action)
    }

    /// The action that the run waits for.
    pub fn action(&self) -> (r: Action)
        ensures
            r@ == action_of(self.plan(), self.phase()),
    {
        proof {
            use_type_invariant(self);
        }
        match self.phase {
            Phase::Entering => match &self.plan.root {
                Some(name) => Action::Enter(name.clone()),
                None => vstd::pervasive::unreached(),
            },
            Phase::Writing(i) => Action::Write(self.plan.writes[i].clone()),
            Phase::Leaving(_) => Action::Leave,
            Phase::Done(o) => Action::Stop(o),
        }
    }

    /// Takes the result of the action that the run waited for, and gives
    /// the next action.
    pub fn advance(&mut self, ok: bool) -> (r: Action)
        ensures
            final(self).plan() == old(self).plan(),
            final(self).phase() == next_phase(old(self).plan(), old(self).phase(), ok),
            r@ == action_of(final(self).plan(), final(self).phase()),
    {
        proof {
            use_type_invariant(&*self);
        }
        let rooted = self.plan.root.is_some();
        let count = self.plan.writes.len();
        let next = match self.phase {
            Phase::Entering => if ok {
                Phase::Writing(0)
            } else {
                Phase::Done(Outcome::RootFailed)
            },
            Phase::Writing(i) => {
                let o = if !ok {
                    Some(Outcome::WriteFailed(i))
                } else if i + 1 < count {
                    None
                } else {
                    Some(Outcome::Written(i + 1))
                };
                match o {
                    None => Phase::Writing(i + 1),
                    Some(o) => if rooted {
                        Phase::Leaving(o)
                    } else {
                        Phase::Done(o)
                    },
                }
            },
            Phase::Leaving(o) => if ok {
                Phase::Done(o)
            } else {
                Phase::Done(Outcome::RestoreFailed)
            },
            Phase::Done(o) => Phase::Done(o),
        };
        self.phase = next;
        self.action()
    }

    /// The path at which the run failed, once it has ended in a failure.
    pub fn failed_path(&self) -> (r: Option<String>)
        ensures
            text_view(r) == (match self.phase() {
                Phase::Done(o) => failed_path_of(self.plan(), o),
                _ => None,
            }),
    {
        proof {
            use_type_invariant(self);
        }
        match self.phase {
            Phase::Done(Outcome::RootFailed) => self.root_name(),
            Phase::Done(Outcome::RestoreFailed) => self.root_name(),
            Phase::Done(Outcome::WriteFailed(i)) => Some(self.plan.writes[i].path.clone()),
            _ => None,
        }
    }

    fn root_name(&self) -> (r: Option<String>)
        ensures
            text_view(r) == self.plan().root,
    {
        match &self.plan.root {
            Some(name) => Some(name.clone()),
            None => None,
        }
    }

    /// How the run ended, once it has.
    pub fn outcome(&self) -> (r: Option<Outcome>)
        ensures
            r == (match self.phase() {
                Phase::Done(o) => Some(o),
                _ => None,
            }),
    {
        match self.phase {
            Phase::Done(o) => Some(o),
            _ => None,
        }
    }
}

} // verus!
