use vstd::prelude::*;

verus! {

/// How one real quantity of the training run stands against another.
///
/// The arithmetic on real numbers happens outside this library; the caller
/// reports each comparison the control logic needs as one of these, the way
/// `partial_cmp` answers it. `Unordered` is the answer when either side is
/// not a number.
#[derive(Clone, Copy, Debug, PartialEq, Eq, Structural)]
pub enum Trend {
    Below,
    Equal,
    Above,
    Unordered,
}

} // verus!
