use vstd::prelude::*;

use crate::compare::Trend;

verus! {

/// Epochs at or below this index never raise the learning rate.
pub const WARMUP_EPOCHS: u32 = 50;

/// What the scheduler does to the learning rate after an epoch's step.
#[derive(Clone, Copy, Debug, PartialEq, Eq, Structural)]
pub enum RateAction {
    /// The loss grew: multiply the rate by 0.99.
    Decay,
    /// The loss fell past the warm-up: multiply the rate by
    /// `1 + (2 * threshold + |dl|) * 20`, then clamp it.
    Boost,
    /// Leave the rate as it is.
    Keep,
}

/// What the clamp after a boost does to the learning rate.
#[derive(Clone, Copy, Debug, PartialEq, Eq, Structural)]
pub enum RateClamp {
    /// The boosted rate lies within `[1e-6, 1e-3]` and stands.
    Keep,
    /// The boosted rate left that range, on either side: it becomes exactly
    /// `1e-6`, the floor.
    Floor,
}

/// The scheduler's branch for a loss change `dl` that stands as `loss_change`
/// against zero, after epoch `epoch`.
pub open spec fn rate_action_for(loss_change: Trend, epoch: u32) -> RateAction {
    if loss_change == Trend::Above {
        RateAction::Decay
    } else if loss_change == Trend::Below && epoch > WARMUP_EPOCHS {
        RateAction::Boost
    } else {
        RateAction::Keep
    }
}

/// Picks the scheduler's branch: a worse loss decays the rate, a better loss
/// past the warm-up boosts it, and an unchanged loss leaves it alone.
pub fn rate_action(loss_change: Trend, epoch: u32) -> (r: RateAction)
    ensures
        r == rate_action_for(loss_change, epoch),
        r == RateAction::Decay <==> loss_change == Trend::Above,
        r == RateAction::Boost <==> (loss_change == Trend::Below && epoch > WARMUP_EPOCHS),
{
    match loss_change {
        Trend::Above => RateAction::Decay,
        Trend::Below => {
            if epoch > WARMUP_EPOCHS {
                RateAction::Boost
            } else {
                RateAction::Keep
            }
        },
        _ => RateAction::Keep,
    }
}

/// Clamps a boosted learning rate, given how it stands against the ceiling
/// `1e-3` and against the floor `1e-6`. Both ways out of range lead to the
/// same value, the floor; a rate that is not a number stands as it is.
pub fn clamp_rate(vs_ceiling: Trend, vs_floor: Trend) -> (r: RateClamp)
    ensures
        r == RateClamp::Floor <==> (vs_ceiling == Trend::Above || vs_floor == Trend::Below),
{
    if vs_ceiling == Trend::Above {
        RateClamp::Floor
    } else if vs_floor == Trend::Below {
        RateClamp::Floor
    } else {
        RateClamp::Keep
    }
}

} // verus!
