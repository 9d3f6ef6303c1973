use vstd::prelude::*;
use crate::error::TrainError;

verus! {

/// Number of candidate steps that one damped step may reject before it gives
/// up, unless the caller chooses another.
pub const DEFAULT_MAX_ATTEMPTS: usize = 64;

/// The factor by which an accepted step divides the damping.
pub const SHRINK_FACTOR: u32 = 9;

/// The factor by which a rejected step multiplies the damping.
pub const GROWTH_FACTOR: u32 = 11;

/// What became of one candidate of the damping loop.
#[derive(Clone, Copy, Debug, PartialEq, Eq, Structural)]
pub enum Candidate {
    /// The damped matrix could not be inverted.
    Singular,
    /// The candidate step lowers the cost.
    Improves,
    /// The candidate step does not lower the cost.
    Fails,
}

/// What the damping loop does next.
#[derive(Clone, Copy, Debug, PartialEq, Eq, Structural)]
pub enum DampingAction {
    /// Leave the loop and take the step of a line search along the negative
    /// gradient; the damping stays as it is.
    LineSearch,
    /// Take the candidate step and relax the damping: divide it by
    /// `SHRINK_FACTOR`, but not below the floor.
    Accept,
    /// Drop the candidate, multiply the damping by `GROWTH_FACTOR`, and try
    /// again.
    Retry,
}

/// The decisions of the damping loop of one Levenberg-Marquardt step.
#[derive(Clone, Copy, Debug, PartialEq, Eq, Structural)]
pub struct Damping {
    rejections: usize,
    max_attempts: usize,
}

impl Damping {
    /// Candidates rejected since the step began.
    pub closed spec fn rejections(&self) -> nat {
        self.rejections as nat
    }

    /// Candidates that one step may try.
    pub closed spec fn max_attempts(&self) -> nat {
        self.max_attempts as nat
    }

    /// Fewer candidates were rejected than may be tried, or none at all.
    pub open spec fn wf(&self) -> bool {
        self.rejections() == 0 || self.rejections() < self.max_attempts()
    }

    /// A loop that has rejected nothing yet and gives up at the rejection
    /// that makes `max_attempts`.
    pub fn new(max_attempts: usize) -> (damping: Self)
        ensures
            damping.wf(),
            damping.rejections() == 0,
            damping.max_attempts() == max_attempts,
    {
        Damping { rejections: 0, max_attempts }
    }

    pub fn rejections_made(&self) -> (n: usize)
        ensures
            n == self.rejections(),
    {
        self.rejections
    }

    /// Decides on one candidate.
    ///
    /// A singular matrix or an improving candidate ends the step, and the
    /// count of rejections starts anew. A failing candidate is rejected: the
    /// loop tries again while the rejections stay below the number of
    /// attempts allowed, and stalls at the rejection that reaches it, after
    /// which the count starts anew as well.
    pub fn decide(&mut self, candidate: Candidate) -> (res: Result<DampingAction, TrainError>)
        requires
            old(self).wf(),
        ensures
            final(self).wf(),
            final(self).max_attempts() == old(self).max_attempts(),
            candidate == Candidate::Singular ==> {
                &&& res == Ok::<DampingAction, TrainError>(DampingAction::LineSearch)
                &&& final(self).rejections() == 0
            },
            candidate == Candidate::Improves ==> {
                &&& res == Ok::<DampingAction, TrainError>(DampingAction::Accept)
                &&& final(self).rejections() == 0
            },
            candidate == Candidate::Fails && old(self).rejections() + 1 < old(self).max_attempts() ==> {
                &&& res == Ok::<DampingAction, TrainError>(DampingAction::Retry)
                &&& final(self).rejections() == old(self).rejections() + 1
            },
            candidate == Candidate::Fails && old(self).rejections() + 1 >= old(self).max_attempts() ==> {
                &&& res == Err::<DampingAction, TrainError>(TrainError::LmStalled)
                &&& final(self).rejections() == 0
            },
    {
        match candidate {
            Candidate::Singular => {
                self.rejections = 0;
                Ok(DampingAction::LineSearch)
            },
            Candidate::Improves => {
                self.rejections = 0;
                Ok(DampingAction::Accept)
            },
            Candidate::Fails => {
                if self.max_attempts > 0 && self.rejections < self.max_attempts - 1 {
                    self.rejections = self.rejections + 1;
                    Ok(DampingAction::Retry)
                } else {
                    self.rejections = 0;
                    Err(TrainError::LmStalled)
                }
            },
        }
    }
}

} // verus!
