use vstd::prelude::*;

use crate::compare::Trend;
use crate::error::TrainError;

verus! {

/// Checks the sample grid `{0, step, 2 * step, ...}` below `max` before a
/// mean squared error divides by its size. `step` and `max` are given as they
/// stand against zero, and `count` is the number of points the caller found.
/// Returns that number when it can divide by it.
pub fn check_sample_grid(step: Trend, max: Trend, count: usize) -> (r: Result<usize, TrainError>)
    ensures
        r is Err <==> (step != Trend::Above || max != Trend::Above || count == 0),
        r is Err ==> r == Err::<usize, TrainError>(TrainError::EmptySampleGrid),
        r is Ok ==> r == Ok::<usize, TrainError>(count),
{
    if step != Trend::Above || max != Trend::Above || count == 0 {
        Err(TrainError::EmptySampleGrid)
    } else {
        Ok(count)
    }
}

/// Checks the finite-difference perturbation `h`, given as it stands against
/// zero: the forward difference divides by it, so it must be positive.
pub fn check_perturbation(h: Trend) -> (r: Result<(), TrainError>)
    ensures
        r is Err <==> h != Trend::Above,
        r is Err ==> r == Err::<(), TrainError>(TrainError::NonPositivePerturbation),
{
    if h == Trend::Above {
        Ok(())
    } else {
        Err(TrainError::NonPositivePerturbation)
    }
}

} // verus!
