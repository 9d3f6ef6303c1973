use vstd::prelude::*;

verus! {

/// The failures that the training core tells apart.
#[derive(Clone, Copy, Debug, PartialEq, Eq, Structural)]
pub enum TrainError {
    /// A slice, vector or matrix does not have the size that the layer or
    /// network declares.
    ShapeMismatch,
    /// An operation was requested out of order, or a training set has
    /// different numbers of inputs and targets.
    Protocol,
    /// The bracketing phase of the line search used up its expansions.
    LineSearchDivergent,
    /// The damping loop used up its retries without an acceptable step.
    LmStalled,
}

impl TrainError {
    /// The text that describes each failure.
    pub open spec fn spec_message(self) -> Seq<char> {
        match self {
            TrainError::ShapeMismatch => "shape mismatch"@,
            TrainError::Protocol => "protocol violation"@,
            TrainError::LineSearchDivergent => "line search divergent"@,
            TrainError::LmStalled => "damping loop stalled"@,
        }
    }

    /// A short human-readable description of the failure.
    pub fn message(&self) -> (text: String)
        ensures
            text@ == self.spec_message(),
    {
        match self {
            TrainError::ShapeMismatch => String::from_str("shape mismatch"),
            TrainError::Protocol => String::from_str("protocol violation"),
            TrainError::LineSearchDivergent => String::from_str("line search divergent"),
            TrainError::LmStalled => String::from_str("damping loop stalled"),
        }
    }
}

} // verus!
