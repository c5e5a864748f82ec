use vstd::prelude::*;

verus! {

/// Why a run cannot start or cannot go on.
#[derive(Clone, Copy, Debug, PartialEq, Eq, Structural)]
pub enum TrainError {
    /// The polynomial has no terms.
    ZeroDegree,
    /// The epoch budget is empty.
    NoEpochs,
    /// The initial number of active terms is not within `1..=degree`.
    ActiveTermsOutOfRange,
    /// Reports would be rendered every zero epochs.
    ZeroRenderCadence,
    /// The sample grid holds no point: its step or its bound is not
    /// positive, or no point lies below the bound.
    EmptySampleGrid,
    /// The finite-difference perturbation is not positive.
    NonPositivePerturbation,
    /// A loss, a loss change or a gradient is not a finite number.
    NonFinite,
}

/// The two families of failure.
#[derive(Clone, Copy, Debug, PartialEq, Eq, Structural)]
pub enum ErrorKind {
    /// The run was set up wrongly and never starts.
    Configuration,
    /// The numbers degenerated: an empty grid, a zero step, NaN or infinity.
    NumericDegeneracy,
}

impl TrainError {
    pub open spec fn kind_spec(self) -> ErrorKind {
        match self {
            TrainError::ZeroDegree | TrainError::NoEpochs | TrainError::ActiveTermsOutOfRange
            | TrainError::ZeroRenderCadence => ErrorKind::Configuration,
            TrainError::EmptySampleGrid | TrainError::NonPositivePerturbation
            | TrainError::NonFinite => ErrorKind::NumericDegeneracy,
        }
    }

    /// The family this failure belongs to.
    pub fn kind(&self) -> (r: ErrorKind)
        ensures
            r == self.kind_spec(),
    {
        match self {
            TrainError::ZeroDegree | TrainError::NoEpochs | TrainError::ActiveTermsOutOfRange
            | TrainError::ZeroRenderCadence => ErrorKind::Configuration,
            TrainError::EmptySampleGrid | TrainError::NonPositivePerturbation
            | TrainError::NonFinite => ErrorKind::NumericDegeneracy,
        }
    }
}

} // verus!
