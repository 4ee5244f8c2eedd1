use vstd::prelude::*;

verus! {

/// A robust line intersector.
#[derive(Clone)]
pub struct RobustLineIntersector;

impl RobustLineIntersector {
    /// Creates the intersector.
    pub fn new() -> (r: RobustLineIntersector)
        ensures
            r == RobustLineIntersector,
    {
        RobustLineIntersector
    }
}

} // verus!
