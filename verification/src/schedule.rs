use vstd::prelude::*;

verus! {

/// The direction of step `step_num` is pure steepest descent: every
/// `period`-th step, counted from the first, and every step where the period
/// is zero.
pub open spec fn restart_due(step_num: nat, period: nat) -> bool {
    period == 0 || step_num % period == 0
}

/// The restart schedule of the conjugate-gradient trainer: the number of
/// steps made, and the period after which the direction restarts, which is
/// the network's parameter count.
#[derive(Clone, Copy, Debug, PartialEq, Eq, Structural)]
pub struct RestartSchedule {
    step_num: usize,
    period: usize,
}

impl RestartSchedule {
    /// Steps made so far.
    pub closed spec fn spec_step_num(&self) -> nat {
        self.step_num as nat
    }

    pub closed spec fn spec_period(&self) -> nat {
        self.period as nat
    }

    /// The schedule before the first step.
    pub fn new(period: usize) -> (schedule: Self)
        ensures
            schedule.spec_step_num() == 0,
            schedule.spec_period() == period,
    {
        RestartSchedule { step_num: 0, period }
    }

    pub fn step_num(&self) -> (n: usize)
        ensures
            n == self.spec_step_num(),
    {
        self.step_num
    }

    pub fn period(&self) -> (n: usize)
        ensures
            n == self.spec_period(),
    {
        self.period
    }

    /// Tells whether the step about to be made restarts the direction.
    pub fn is_restart(&self) -> (due: bool)
        ensures
            due == restart_due(self.spec_step_num(), self.spec_period()),
    {
        self.period == 0 || self.step_num % self.period == 0
    }

    /// Counts one step.
    pub fn advance(&mut self)
        requires
            old(self).spec_step_num() < usize::MAX,
        ensures
            final(self).spec_step_num() == old(self).spec_step_num() + 1,
            final(self).spec_period() == old(self).spec_period(),
    {
        self.step_num = self.step_num + 1;
    }
}

/// The first step restarts, and from any step on a restart comes within one
/// period: the direction never goes `period` steps without a reset to
/// steepest descent.
pub proof fn lemma_restart_within_period(step_num: nat, period: nat)
    requires
        period > 0,
    ensures
        restart_due(0, period),
        exists|k: nat| step_num <= k < step_num + period && #[trigger] restart_due(k, period),
{
    let r = step_num % period;
    vstd::arithmetic::div_mod::lemma_fundamental_div_mod(step_num as int, period as int);
    if r == 0 {
        assert(restart_due(step_num, period));
    } else {
        let k = (step_num + period - r) as nat;
        let q = step_num / period;
        assert(k == period * (q + 1)) by (nonlinear_arith)
            requires
                step_num == period * q + r,
                k == step_num + period - r,
        ;
        vstd::arithmetic::div_mod::lemma_mod_multiples_basic((q + 1) as int, period as int);
        assert((q + 1) * period == period * (q + 1)) by (nonlinear_arith);
        assert(restart_due(k, period));
    }
}

} // verus!
