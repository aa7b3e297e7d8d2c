//! The run of a list of steps: which step comes next, and how the outcome of
//! each decides whether the run goes on.
use vstd::prelude::*;
use crate::exec::{command_text, failure_of, launch_ok, settle, Launch, CommandError};
use crate::repo::{Policy, PullrError, Step};

verus! {

/// Whether a step with `policy` and the outcome `ok` ends the run.
pub open spec fn fatal(policy: Policy, ok: bool) -> bool {
    !ok && policy != Policy::BestEffort
}

/// Whether `e` is the error that a failed step with `policy` reports for
/// `err`.
pub open spec fn reports(policy: Policy, err: CommandError, e: PullrError) -> bool {
    if policy == Policy::Rebase {
        e == PullrError::RebaseConflict(err)
    } else {
        e == PullrError::Command(err)
    }
}

/// Runs steps one at a time, in order. The caller launches each step that
/// `next_step` hands out and records what happened; the driver stops at the
/// first failure that is not best effort.
pub struct Driver {
    pub steps: Vec<Step>,
    /// The index of the step to run next, or of the step that failed.
    pub pos: usize,
    /// The error that ended the run, if one did.
    pub failure: Option<PullrError>,
    /// For each step recorded so far, whether it succeeded.
    pub oks: Ghost<Seq<bool>>,
}

impl Driver {
    /// Every step before `pos` was recorded and did not end the run; a
    /// failure is the failed, fatal outcome of the step at `pos`.
    pub open spec fn wf(&self) -> bool {
        &&& self.pos <= self.steps@.len()
        &&& self.oks@.len() == self.pos + if self.failure is Some {
            1int
        } else {
            0int
        }
        &&& forall|j: int| 0 <= j < self.pos ==> !fatal(self.steps@[j].policy, #[trigger] self.oks@[j])
        &&& self.failure is Some ==> self.pos < self.steps@.len() && fatal(
            self.steps@[self.pos as int].policy,
            self.oks@[self.pos as int],
        )
    }

    /// Whether no step is left to run.
    pub open spec fn done(&self) -> bool {
        self.failure is Some || self.pos >= self.steps@.len()
    }

    /// A driver at the first of `steps`.
    pub fn new(steps: Vec<Step>) -> (r: Driver)
        ensures
            r.wf(),
            r.steps@ == steps@,
            r.pos == 0,
            r.failure is None,
    {
        Driver { steps, pos: 0, failure: None, oks: Ghost(Seq::empty()) }
    }

    /// Whether the run is over.
    pub fn is_done(&self) -> (r: bool)
        ensures
            r == self.done(),
    {
        self.failure.is_some() || self.pos >= self.steps.len()
    }

    /// The step to run next, if the run is not over.
    pub fn next_step(&self) -> (r: Option<&Step>)
        requires
            self.wf(),
        ensures
            r is None <==> self.done(),
            r matches Some(s) ==> *s == self.steps@[self.pos as int],
    {
        if self.is_done() {
            None
        } else {
            Some(&self.steps[self.pos])
        }
    }

    /// Records what happened to the step handed out last. A success, or a
    /// failure of a best-effort step, moves to the next step; any other
    /// failure ends the run with the error of that step.
    pub fn record(&mut self, launch: Launch)
        requires
            old(self).wf(),
            !old(self).done(),
        ensures
            final(self).wf(),
            final(self).steps@ == old(self).steps@,
            ({
                let s = old(self).steps@[old(self).pos as int];
                let ok = launch_ok(s.inv.dry_run, launch);
                &&& final(self).oks@ == old(self).oks@.push(ok)
                &&& if fatal(s.policy, ok) {
                    &&& final(self).pos == old(self).pos
                    &&& final(self).failure matches Some(e) && exists|err: CommandError|
                        #[trigger] reports(s.policy, err, e) && err.kind == failure_of(launch)
                            && err.command@ == command_text(s.inv.program@, s.inv.arg_views())
                } else {
                    &&& final(self).pos == old(self).pos + 1
                    &&& final(self).failure is None
                }
            }),
    {
        let i = self.pos;
        let n = self.steps.len();
        assert(i < n);
        let outcome = settle(&self.steps[i].inv, launch);
        let policy = self.steps[i].policy;
        let ghost ok = outcome is Ok;
        proof {
            self.oks@ = self.oks@.push(ok);
        }
        match outcome {
            Ok(()) => {
                self.pos = i + 1;
            },
            Err(err) => {
                if policy == Policy::BestEffort {
                    self.pos = i + 1;
                } else if policy == Policy::Rebase {
                    self.failure = Some(PullrError::RebaseConflict(err));
                    assert(reports(policy, err, self.failure->Some_0));
                } else {
                    self.failure = Some(PullrError::Command(err));
                    assert(reports(policy, err, self.failure->Some_0));
                }
            },
        }
    }

    /// How the run ended: `Ok` when every step ran without a fatal failure,
    /// else the error that ended it.
    pub fn finish(self) -> (r: Result<(), PullrError>)
        requires
            self.wf(),
            self.done(),
        ensures
            r is Ok <==> self.failure is None,
            r is Ok ==> forall|j: int|
                0 <= j < self.steps@.len() ==> !fatal(self.steps@[j].policy, #[trigger] self.oks@[j]),
            r matches Err(e) ==> self.failure == Some(e),
    {
        match self.failure {
            None => Ok(()),
            Some(e) => Err(e),
        }
    }
}

} // verus!
