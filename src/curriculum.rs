use vstd::prelude::*;

use crate::compare::Trend;

verus! {

/// The epoch of the last convergence event before any has happened; the
/// first event can then come after epoch 200.
pub const INITIAL_LAST_CONVERGENCE: i64 = -300;

/// A convergence event needs more than this many epochs since the last one.
pub const CONVERGENCE_GAP: i64 = 500;

/// How many leading polynomial terms contribute to the model, and when the
/// last convergence event unlocked one.
#[derive(Clone, Copy, Debug, PartialEq, Eq, Structural)]
pub struct Curriculum {
    /// The number of coefficients, `N`.
    pub degree: usize,
    /// The number of leading terms that contribute, within `1..=degree`.
    pub active_terms: usize,
    /// The epoch of the last convergence event.
    pub last_convergence_epoch: i64,
}

/// What one convergence check decided.
#[derive(Clone, Copy, Debug, PartialEq, Eq, Structural)]
pub struct ConvergenceOutcome {
    /// A convergence event was declared at this epoch.
    pub converged: bool,
    /// The event unlocked the next polynomial term.
    pub expanded: bool,
    /// The threshold is to become twice the loss change.
    pub retune_threshold: bool,
}

impl Curriculum {
    pub open spec fn wf(self) -> bool {
        &&& 1 <= self.active_terms <= self.degree
        &&& INITIAL_LAST_CONVERGENCE <= self.last_convergence_epoch <= u32::MAX
    }

    /// A convergence event: the loss change `dl` lies above the threshold and
    /// more than `CONVERGENCE_GAP` epochs passed since the last event.
    pub open spec fn converges(self, epoch: u32, vs_threshold: Trend) -> bool {
        vs_threshold == Trend::Above && epoch - self.last_convergence_epoch > CONVERGENCE_GAP
    }

    /// The curriculum after a check at `epoch`.
    pub open spec fn after_check(self, epoch: u32, vs_threshold: Trend) -> Curriculum {
        if self.converges(epoch, vs_threshold) {
            Curriculum {
                degree: self.degree,
                active_terms: if self.active_terms < self.degree {
                    (self.active_terms + 1) as usize
                } else {
                    self.active_terms
                },
                last_convergence_epoch: epoch as i64,
            }
        } else {
            self
        }
    }

    /// What a check at `epoch` reports. The threshold is retuned only when the
    /// loss change also lies below it, after the event, with more than one
    /// active term.
    pub open spec fn outcome_of(self, epoch: u32, vs_threshold: Trend) -> ConvergenceOutcome {
        let converged = self.converges(epoch, vs_threshold);
        ConvergenceOutcome {
            converged,
            expanded: converged && self.active_terms < self.degree,
            retune_threshold: converged && vs_threshold == Trend::Below
                && self.after_check(epoch, vs_threshold).active_terms > 1,
        }
    }

    /// A curriculum over `degree` terms with `active_terms` of them active
    /// and no convergence event yet.
    pub fn new(degree: usize, active_terms: usize) -> (r: Curriculum)
        requires
            1 <= active_terms <= degree,
        ensures
            r.wf(),
            r.degree == degree,
            r.active_terms == active_terms,
            r.last_convergence_epoch == INITIAL_LAST_CONVERGENCE,
    {
        Curriculum { degree, active_terms, last_convergence_epoch: INITIAL_LAST_CONVERGENCE }
    }

    /// The periodic convergence check at `epoch`, given how the epoch's loss
    /// change stands against the threshold. On an event it records the epoch
    /// and unlocks the next term if one is left.
    ///
    /// The retune condition asks for the loss change to lie below the
    /// threshold inside a branch that found it above, so it never holds; the
    /// check is kept as the controller states it.
    pub fn check(&mut self, epoch: u32, vs_threshold: Trend) -> (r: ConvergenceOutcome)
        requires
            old(self).wf(),
        ensures
            final(self).wf(),
            *final(self) == old(self).after_check(epoch, vs_threshold),
            r == old(self).outcome_of(epoch, vs_threshold),
            old(self).active_terms <= final(self).active_terms,
            !r.retune_threshold,
    {
        let mut outcome = ConvergenceOutcome {
            converged: false,
            expanded: false,
            retune_threshold: false,
        };
        if vs_threshold == Trend::Above && epoch as i64 - self.last_convergence_epoch
            > CONVERGENCE_GAP {
            outcome.converged = true;
            self.last_convergence_epoch = epoch as i64;
            if self.active_terms < self.degree {
                self.active_terms = self.active_terms + 1;
                outcome.expanded = true;
            }
            if vs_threshold == Trend::Below && self.active_terms > 1 {
                outcome.retune_threshold = true;
            }
        }
        outcome
    }
}

} // verus!
