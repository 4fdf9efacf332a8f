//! The fail-fast driver that runs the steps of a plan one at a time.
//!
//! The driver makes every decision and performs no step itself: its caller
//! performs the step that `current` names and hands the outcome to `record`,
//! which says what comes next. A run stops at the first step that fails, with
//! that step's error, and leaves what earlier steps made in place. The one
//! exception keeps the process's working directory sound: when the metadata
//! generator fails, the step that restores the working directory still runs,
//! and the run then stops with the generator's error.
use vstd::prelude::*;
use crate::layout::{Step, StepView, plan, scaffold_steps, views};

verus! {

/// What the driver does after a step's outcome.
pub enum Decision {
    /// Run the next step; the flag says whether an error is held back until
    /// that step is done.
    Continue(bool),
    /// The run is over.
    Stop,
}

/// Whether the step at `pos` is the metadata generator, directly followed by
/// the step that restores the working directory.
pub open spec fn generator_before_restore(steps: Seq<StepView>, pos: int) -> bool {
    &&& 0 <= pos
    &&& pos + 1 < steps.len()
    &&& steps[pos] is GenerateMetadata
    &&& steps[pos + 1] is RestoreWorkingDir
}

/// The decision after the step at `pos` succeeded (`ok`) or failed, with
/// `deferred` saying whether an earlier error is being held back.
pub open spec fn decide(steps: Seq<StepView>, pos: int, deferred: bool, ok: bool) -> Decision {
    if !ok {
        if !deferred && generator_before_restore(steps, pos) {
            Decision::Continue(true)
        } else {
            Decision::Stop
        }
    } else if deferred || pos + 1 >= steps.len() {
        Decision::Stop
    } else {
        Decision::Continue(false)
    }
}

/// The result of a run that stops on `outcome`: a held-back error comes first.
pub open spec fn stop_result<E>(deferred: Option<E>, outcome: Result<(), E>) -> Result<(), E> {
    match deferred {
        Some(e) => Err(e),
        None => outcome,
    }
}

/// A run of the steps that build one project.
pub struct Driver<E> {
    steps: Vec<Step>,
    pos: usize,
    deferred: Option<E>,
    done: bool,
}

impl<E> Driver<E> {
    /// The steps of the run.
    pub closed spec fn steps(&self) -> Seq<Step> {
        self.steps@
    }

    /// Index of the step to perform next (of the last one, once done).
    pub closed spec fn pos(&self) -> int {
        self.pos as int
    }

    /// The error held back until the working directory is restored.
    pub closed spec fn deferred(&self) -> Option<E> {
        self.deferred
    }

    /// Whether the run is over.
    pub closed spec fn is_done(&self) -> bool {
        self.done
    }

    pub closed spec fn wf(&self) -> bool {
        &&& self.pos < self.steps@.len()
        &&& self.deferred is Some ==> self.pos > 0 && generator_before_restore(
            views(self.steps@),
            self.pos - 1,
        )
    }

    /// Starts the run that builds a project called `name`.
    pub fn new(name: &str) -> (d: Self)
        ensures
            d.wf(),
            views(d.steps()) == plan(name@),
            d.pos() == 0,
            d.deferred() is None,
            !d.is_done(),
    {
        let steps = scaffold_steps(name);
        assert(views(steps@).len() == steps@.len());
        Driver { steps, pos: 0, deferred: None, done: false }
    }

    pub fn is_finished(&self) -> (r: bool)
        ensures
            r == self.is_done(),
    {
        self.done
    }

    /// The step to perform next.
    pub fn current(&self) -> (r: &Step)
        requires
            self.wf(),
        ensures
            *r == self.steps()[self.pos()],
    {
        &self.steps[self.pos]
    }

    /// Takes the outcome of the current step. Returns `None` while there is
    /// a next step to perform, and the run's result once it is over.
    pub fn record(&mut self, outcome: Result<(), E>) -> (r: Option<Result<(), E>>)
        requires
            old(self).wf(),
            !old(self).is_done(),
        ensures
            final(self).wf(),
            final(self).steps() == old(self).steps(),
            match decide(
                views(old(self).steps()),
                old(self).pos(),
                old(self).deferred() is Some,
                outcome is Ok,
            ) {
                Decision::Continue(held) => {
                    &&& r is None
                    &&& !final(self).is_done()
                    &&& final(self).pos() == old(self).pos() + 1
                    &&& final(self).deferred() == (if held {
                        outcome.err()
                    } else {
                        None
                    })
                },
                Decision::Stop => {
                    &&& r == Some(stop_result(old(self).deferred(), outcome))
                    &&& final(self).is_done()
                    &&& final(self).pos() == old(self).pos()
                },
            },
    {
        let ghost s = views(self.steps@);
        assert(s.len() == self.steps@.len());
        let pos = self.pos;
        let last = pos >= self.steps.len() - 1;
        let holding = self.deferred.is_some();
        match outcome {
            Ok(()) => {
                if holding || last {
                    self.done = true;
                    let held = self.deferred.take();
                    match held {
                        Some(e) => Some(Err(e)),
                        None => Some(outcome),
                    }
                } else {
                    self.pos = pos + 1;
                    None
                }
            },
            Err(e) => {
                let defer = !holding && !last && matches!(self.steps[pos], Step::GenerateMetadata)
                    && matches!(self.steps[pos + 1], Step::RestoreWorkingDir);
                assert(defer == (!holding && generator_before_restore(s, pos as int)));
                if defer {
                    self.pos = pos + 1;
                    self.deferred = Some(e);
                    None
                } else {
                    self.done = true;
                    let held = self.deferred.take();
                    match held {
                        Some(h) => Some(Err(h)),
                        None => Some(Err(e)),
                    }
                }
            },
        }
    }
}

} // verus!
