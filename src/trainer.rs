use vstd::prelude::*;

use crate::compare::Trend;
use crate::curriculum::{ConvergenceOutcome, Curriculum, INITIAL_LAST_CONVERGENCE};
use crate::error::TrainError;
use crate::schedule::{rate_action, rate_action_for, RateAction};

verus! {

/// The convergence check runs at every epoch whose index is a multiple of this.
pub const CHECK_EVERY: u32 = 5;

/// What the caller measured in one epoch, after the gradient step.
#[derive(Clone, Copy, Debug, PartialEq, Eq, Structural)]
pub struct EpochReport {
    /// The new loss and every gradient component were finite numbers.
    pub finite: bool,
    /// How the loss change `dl = l_new - l_previous` stands against zero.
    pub loss_change: Trend,
    /// How `dl` stands against the convergence threshold.
    pub vs_threshold: Trend,
}

/// What the caller is to do at the end of an epoch.
#[derive(Clone, Copy, Debug, PartialEq, Eq, Structural)]
pub struct EpochPlan {
    /// The index of the epoch that ended.
    pub epoch: u32,
    /// The scheduler's action on the learning rate.
    pub rate: RateAction,
    /// The convergence check's outcome, at the epochs where it runs.
    pub convergence: Option<ConvergenceOutcome>,
    /// The loss curve and the function comparison are to be rendered.
    pub render: bool,
}

/// The control state of one training run: the epoch budget, how far the run
/// has got, and the curriculum. The caller keeps the coefficients, the
/// learning rate, the threshold and the loss history, and appends one loss to
/// the history per finished epoch.
#[derive(Clone, Copy, Debug, PartialEq, Eq, Structural)]
pub struct Trainer {
    /// The number of epochs the run lasts.
    pub epochs: u32,
    /// Reports are rendered every this many epochs.
    pub render_every: u32,
    /// The number of epochs finished, which is also the index of the next one.
    pub epoch: u32,
    /// Which polynomial terms contribute.
    pub curriculum: Curriculum,
}

impl EpochReport {
    /// The report holds only finite, comparable numbers.
    pub open spec fn is_sound(self) -> bool {
        &&& self.finite
        &&& self.loss_change != Trend::Unordered
        &&& self.vs_threshold != Trend::Unordered
    }
}

/// The trainer after it has been handed `report`: a finished run or an
/// unsound report leaves it as it was; otherwise the epoch advances and, at
/// the check epochs, the curriculum takes the convergence check.
pub open spec fn next_state(t: Trainer, report: EpochReport) -> Trainer {
    if t.epoch >= t.epochs || !report.is_sound() {
        t
    } else {
        Trainer {
            epoch: (t.epoch + 1) as u32,
            curriculum: if t.epoch % CHECK_EVERY == 0 {
                t.curriculum.after_check(t.epoch, report.vs_threshold)
            } else {
                t.curriculum
            },
            ..t
        }
    }
}

/// The plan for the epoch that `t` is at, given a sound `report`.
pub open spec fn plan_for(t: Trainer, report: EpochReport) -> EpochPlan {
    EpochPlan {
        epoch: t.epoch,
        rate: rate_action_for(report.loss_change, t.epoch),
        convergence: if t.epoch % CHECK_EVERY == 0 {
            Some(t.curriculum.outcome_of(t.epoch, report.vs_threshold))
        } else {
            None
        },
        render: t.epoch % t.render_every == 0 && t.epoch > 0,
    }
}

impl Trainer {
    pub open spec fn wf(self) -> bool {
        &&& self.curriculum.wf()
        &&& self.epoch <= self.epochs
        &&& self.render_every > 0
    }

    /// Sets up a run over a polynomial with `degree` terms that lasts `epochs`
    /// epochs, starts with `initial_active_terms` active terms and renders
    /// every `render_every` epochs. The first failing check, in this order,
    /// gives the error: no terms, no epochs, active terms out of
    /// `1..=degree`, a zero cadence.
    pub fn new(degree: usize, epochs: u32, initial_active_terms: usize, render_every: u32) -> (r:
        Result<Trainer, TrainError>)
        ensures
            (r == Err::<Trainer, TrainError>(TrainError::ZeroDegree)) <==> degree == 0,
            (r == Err::<Trainer, TrainError>(TrainError::NoEpochs)) <==> (degree > 0 && epochs
                == 0),
            (r == Err::<Trainer, TrainError>(TrainError::ActiveTermsOutOfRange)) <==> (degree > 0
                && epochs > 0 && !(1 <= initial_active_terms <= degree)),
            (r == Err::<Trainer, TrainError>(TrainError::ZeroRenderCadence)) <==> (degree > 0
                && epochs > 0 && 1 <= initial_active_terms <= degree && render_every == 0),
            r is Ok <==> (degree > 0 && epochs > 0 && 1 <= initial_active_terms <= degree
                && render_every > 0),
            r matches Ok(t) ==> {
                &&& t.wf()
                &&& t.epochs == epochs
                &&& t.render_every == render_every
                &&& t.epoch == 0
                &&& t.curriculum.degree == degree
                &&& t.curriculum.active_terms == initial_active_terms
                &&& t.curriculum.last_convergence_epoch == INITIAL_LAST_CONVERGENCE
            },
    {
        if degree == 0 {
            return Err(TrainError::ZeroDegree);
        }
        if epochs == 0 {
            return Err(TrainError::NoEpochs);
        }
        if initial_active_terms < 1 || initial_active_terms > degree {
            return Err(TrainError::ActiveTermsOutOfRange);
        }
        if render_every == 0 {
            return Err(TrainError::ZeroRenderCadence);
        }
        Ok(
            Trainer {
                epochs,
                render_every,
                epoch: 0,
                curriculum: Curriculum::new(degree, initial_active_terms),
            },
        )
    }

    /// The number of leading terms the model evaluates now.
    pub fn active_terms(&self) -> (r: usize)
        ensures
            r == self.curriculum.active_terms,
    {
        self.curriculum.active_terms
    }

    /// The whole epoch budget is spent.
    pub fn is_finished(&self) -> (r: bool)
        ensures
            r == (self.epoch >= self.epochs),
    {
        self.epoch >= self.epochs
    }

    /// Ends the current epoch with what the caller measured: picks the
    /// scheduler's action, runs the convergence check every `CHECK_EVERY`
    /// epochs, decides whether to render, and advances to the next epoch.
    /// A report with a number that is not finite is refused, and the trainer
    /// stays as it was.
    pub fn finish_epoch(&mut self, report: EpochReport) -> (r: Result<EpochPlan, TrainError>)
        requires
            old(self).wf(),
            old(self).epoch < old(self).epochs,
        ensures
            final(self).wf(),
            *final(self) == next_state(*old(self), report),
            r is Err <==> !report.is_sound(),
            r is Err ==> r == Err::<EpochPlan, TrainError>(TrainError::NonFinite),
            r matches Ok(plan) ==> plan == plan_for(*old(self), report),
    {
        if !report.finite || report.loss_change == Trend::Unordered || report.vs_threshold
            == Trend::Unordered {
            return Err(TrainError::NonFinite);
        }
        let epoch = self.epoch;
        let rate = rate_action(report.loss_change, epoch);
        let convergence = if epoch % CHECK_EVERY == 0 {
            Some(self.curriculum.check(epoch, report.vs_threshold))
        } else {
            None
        };
        let render = epoch % self.render_every == 0 && epoch > 0;
        self.epoch = epoch + 1;
        Ok(EpochPlan { epoch, rate, convergence, render })
    }
}

/// Over a whole run, the number of active terms never decreases and never
/// exceeds the number of coefficients: for any sequence of reports handed to
/// a trainer one after the other, every later state has at least as many
/// active terms as every earlier one, and at most `degree` of them.
pub proof fn lemma_curriculum_monotone(states: Seq<Trainer>, reports: Seq<EpochReport>)
    requires
        states.len() == reports.len() + 1,
        states[0].wf(),
        forall|k: int| 0 <= k < reports.len() ==> states[k + 1] == next_state(states[k], reports[k]),
    ensures
        forall|i: int, j: int|
            0 <= i <= j < states.len() ==> {
                &&& states[i].curriculum.active_terms <= states[j].curriculum.active_terms
                &&& states[j].curriculum.active_terms <= states[j].curriculum.degree
                &&& states[j].curriculum.degree == states[0].curriculum.degree
            },
{
    assert forall|i: int, j: int| 0 <= i <= j < states.len() implies {
        &&& states[i].curriculum.active_terms <= states[j].curriculum.active_terms
        &&& states[j].curriculum.active_terms <= states[j].curriculum.degree
        &&& states[j].curriculum.degree == states[0].curriculum.degree
    } by {
        lemma_run_monotone_between(states, reports, i, j);
    }
}

/// A step keeps the trainer well formed and its curriculum monotone.
proof fn lemma_step_keeps_wf(t: Trainer, report: EpochReport)
    requires
        t.wf(),
    ensures
        next_state(t, report).wf(),
        t.curriculum.active_terms <= next_state(t, report).curriculum.active_terms,
        next_state(t, report).curriculum.degree == t.curriculum.degree,
{
}

/// Every state of a run up to `n` is well formed.
proof fn lemma_run_keeps_wf(states: Seq<Trainer>, reports: Seq<EpochReport>, n: int)
    requires
        states.len() == reports.len() + 1,
        states[0].wf(),
        forall|k: int| 0 <= k < reports.len() ==> states[k + 1] == next_state(states[k], reports[k]),
        0 <= n < states.len(),
    ensures
        states[n].wf(),
        states[n].curriculum.degree == states[0].curriculum.degree,
    decreases n,
{
    if n > 0 {
        lemma_run_keeps_wf(states, reports, n - 1);
        lemma_step_keeps_wf(states[n - 1], reports[n - 1]);
    }
}

/// Between two states `i <= j` of a run, the number of active terms grows.
proof fn lemma_run_monotone_between(
    states: Seq<Trainer>,
    reports: Seq<EpochReport>,
    i: int,
    j: int,
)
    requires
        states.len() == reports.len() + 1,
        states[0].wf(),
        forall|k: int| 0 <= k < reports.len() ==> states[k + 1] == next_state(states[k], reports[k]),
        0 <= i <= j < states.len(),
    ensures
        states[i].curriculum.active_terms <= states[j].curriculum.active_terms,
        states[j].curriculum.active_terms <= states[j].curriculum.degree,
        states[j].curriculum.degree == states[0].curriculum.degree,
    decreases j - i,
{
    lemma_run_keeps_wf(states, reports, j);
    if j > i {
        lemma_run_monotone_between(states, reports, i, j - 1);
        lemma_run_keeps_wf(states, reports, j - 1);
        lemma_step_keeps_wf(states[j - 1], reports[j - 1]);
    }
}

} // verus!
