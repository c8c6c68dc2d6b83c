use vstd::prelude::*;

verus! {

/// The two groups of trust roles that keys are registered for.
#[derive(Debug, Clone, Copy, PartialEq, Eq, Structural)]
pub enum KeyRole {
    /// The root role, with a single threshold.
    Root,
    /// The snapshot, targets and timestamp roles, which share one threshold.
    Publication,
}

} // verus!
