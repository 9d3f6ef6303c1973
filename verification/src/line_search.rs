use vstd::prelude::*;
use crate::error::TrainError;

verus! {

/// Number of bracket expansions after which a search gives up, unless the
/// caller chooses another. Every expansion widens the bracket by the square
/// of the golden ratio, so this many widen it by more than thirteen orders of
/// magnitude.
pub const DEFAULT_MAX_EXPANSIONS: usize = 32;

/// Where a golden-section search stands.
#[derive(Clone, Copy, Debug, PartialEq, Eq, Structural)]
pub enum SearchPhase {
    /// The upper end of the interval is pushed outwards until the cost there
    /// lies above the cost at the start.
    Bracketing,
    /// The interval is narrowed around the minimum.
    Refining,
    /// The interval is narrow enough; its midpoint is the step length.
    Finished,
    /// The expansions were used up before a bracket was found.
    Diverged,
}

/// What the search does next to its interval `[lower, upper]` and to the two
/// inner probes.
#[derive(Clone, Copy, Debug, PartialEq, Eq, Structural)]
pub enum SearchAction {
    /// Move the upper end outwards and probe it again.
    Expand,
    /// The minimum is bracketed: place the two inner probes.
    StartRefining,
    /// Move the upper end to the upper probe; the cost at the lower probe
    /// becomes the cost at the new upper probe, and the new lower probe is
    /// evaluated.
    ShrinkUpper,
    /// Move the lower end to the lower probe; the cost at the upper probe
    /// becomes the cost at the new lower probe, and the new upper probe is
    /// evaluated.
    ShrinkLower,
    /// Return the midpoint of the interval.
    Finish,
}

/// The decisions of a golden-section line search. The caller evaluates the
/// cost at the probes and reports how the values compare.
#[derive(Clone, Copy, Debug, PartialEq, Eq, Structural)]
pub struct LineSearch {
    phase: SearchPhase,
    expansions: usize,
    max_expansions: usize,
}

impl LineSearch {
    pub closed spec fn phase(&self) -> SearchPhase {
        self.phase
    }

    /// Expansions made so far.
    pub closed spec fn expansions(&self) -> nat {
        self.expansions as nat
    }

    /// Expansions allowed in all.
    pub closed spec fn max_expansions(&self) -> nat {
        self.max_expansions as nat
    }

    /// No more expansions were made than are allowed.
    pub open spec fn wf(&self) -> bool {
        self.expansions() <= self.max_expansions()
    }

    /// A search that has not probed yet and may expand its interval
    /// `max_expansions` times.
    pub fn new(max_expansions: usize) -> (search: Self)
        ensures
            search.wf(),
            search.phase() == SearchPhase::Bracketing,
            search.expansions() == 0,
            search.max_expansions() == max_expansions,
    {
        LineSearch { phase: SearchPhase::Bracketing, expansions: 0, max_expansions }
    }

    pub fn current_phase(&self) -> (phase: SearchPhase)
        ensures
            phase == self.phase(),
    {
        self.phase
    }

    pub fn expansions_made(&self) -> (n: usize)
        ensures
            n == self.expansions(),
    {
        self.expansions
    }

    /// Takes the comparison of the cost at the upper end with the cost at the
    /// start, and decides how bracketing goes on.
    ///
    /// While the cost at the upper end is not above the cost at the start the
    /// interval is expanded, as long as expansions are left; with none left
    /// the search has diverged. Once the cost is above, refining starts.
    /// Outside the bracketing phase the call is a protocol violation and
    /// changes nothing.
    pub fn on_upper_probe(&mut self, not_above_start: bool) -> (res: Result<
        SearchAction,
        TrainError,
    >)
        requires
            old(self).wf(),
        ensures
            final(self).wf(),
            final(self).max_expansions() == old(self).max_expansions(),
            old(self).phase() != SearchPhase::Bracketing ==> {
                &&& res == Err::<SearchAction, TrainError>(TrainError::Protocol)
                &&& *final(self) == *old(self)
            },
            old(self).phase() == SearchPhase::Bracketing && !not_above_start ==> {
                &&& res == Ok::<SearchAction, TrainError>(SearchAction::StartRefining)
                &&& final(self).phase() == SearchPhase::Refining
                &&& final(self).expansions() == old(self).expansions()
            },
            old(self).phase() == SearchPhase::Bracketing && not_above_start && old(self).expansions() < old(self).max_expansions() ==> {
                &&& res == Ok::<SearchAction, TrainError>(SearchAction::Expand)
                &&& final(self).phase() == SearchPhase::Bracketing
                &&& final(self).expansions() == old(self).expansions() + 1
            },
            old(self).phase() == SearchPhase::Bracketing && not_above_start && old(self).expansions() == old(self).max_expansions() ==> {
                &&& res == Err::<SearchAction, TrainError>(TrainError::LineSearchDivergent)
                &&& final(self).phase() == SearchPhase::Diverged
                &&& final(self).expansions() == old(self).expansions()
            },
    {
        if self.phase != SearchPhase::Bracketing {
            Err(TrainError::Protocol)
        } else if !not_above_start {
            self.phase = SearchPhase::Refining;
            Ok(SearchAction::StartRefining)
        } else if self.expansions < self.max_expansions {
            self.expansions = self.expansions + 1;
            Ok(SearchAction::Expand)
        } else {
            self.phase = SearchPhase::Diverged;
            Err(TrainError::LineSearchDivergent)
        }
    }

    /// Takes two comparisons, whether the interval is still wider than the
    /// tolerance and whether the cost at the lower probe is below the cost at
    /// the upper probe, and decides how refining goes on.
    ///
    /// A narrow interval finishes the search. A wide one loses its upper part
    /// where the lower probe has the smaller cost, and its lower part
    /// otherwise. Outside the refining phase the call is a protocol violation
    /// and changes nothing.
    pub fn on_interval(&mut self, wider_than_tolerance: bool, lower_probe_smaller: bool) -> (res:
        Result<SearchAction, TrainError>)
        requires
            old(self).wf(),
        ensures
            final(self).wf(),
            final(self).max_expansions() == old(self).max_expansions(),
            final(self).expansions() == old(self).expansions(),
            old(self).phase() != SearchPhase::Refining ==> {
                &&& res == Err::<SearchAction, TrainError>(TrainError::Protocol)
                &&& *final(self) == *old(self)
            },
            old(self).phase() == SearchPhase::Refining ==> {
                &&& res == Ok::<SearchAction, TrainError>(
                    if !wider_than_tolerance {
                        SearchAction::Finish
                    } else if lower_probe_smaller {
                        SearchAction::ShrinkUpper
                    } else {
                        SearchAction::ShrinkLower
                    },
                )
                &&& final(self).phase() == if wider_than_tolerance {
                    SearchPhase::Refining
                } else {
                    SearchPhase::Finished
                }
            },
    {
        if self.phase != SearchPhase::Refining {
            Err(TrainError::Protocol)
        } else if !wider_than_tolerance {
            self.phase = SearchPhase::Finished;
            Ok(SearchAction::Finish)
        } else if lower_probe_smaller {
            Ok(SearchAction::ShrinkUpper)
        } else {
            Ok(SearchAction::ShrinkLower)
        }
    }
}

} // verus!
