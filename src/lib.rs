//! Control logic of a polynomial fitter trained by finite-difference gradient
//! descent: configuration checks, the learning-rate scheduler's decisions, the
//! curriculum that unlocks polynomial degrees, and the per-epoch state machine.
//! The real-number arithmetic itself is carried out by the caller, which
//! reports each comparison it makes as a [`Trend`].
mod compare;
mod curriculum;
mod error;
mod factorial;
mod grid;
mod schedule;
mod trainer;

pub use compare::Trend;
pub use curriculum::{
    ConvergenceOutcome, Curriculum, CONVERGENCE_GAP, INITIAL_LAST_CONVERGENCE,
};
pub use error::{ErrorKind, TrainError};
pub use factorial::{fac, factorial};
pub use grid::{check_perturbation, check_sample_grid};
pub use schedule::{clamp_rate, rate_action, rate_action_for, RateAction, RateClamp, WARMUP_EPOCHS};
pub use trainer::{
    lemma_curriculum_monotone, next_state, plan_for, EpochPlan, EpochReport, Trainer, CHECK_EVERY,
};
