use vstd::prelude::*;

verus! {

/// Robust kernel that uses fast robust predicates to provide robust
/// floating point predicates. Should only be used with types that can
/// _always_ be cast to `f64` _without loss in precision_.
#[derive(Default, Debug)]
pub struct RobustKernel;

} // verus!
