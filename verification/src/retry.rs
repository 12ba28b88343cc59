//! Bounded retry-then-escalate counter, instantiated once per fault domain
//! (sensor interrupt and main loop) with different escalation actions.

use vstd::prelude::*;

verus! {

/// Number of consecutive failures tolerated before the escalation action
/// bound to the budget fires.
pub const RETRY_TRIES: u32 = 5;

/// A bounded counter of tolerated consecutive failures. Each observed
/// failure spends one try; any success re-arms the budget in full; spending
/// the last try triggers escalation (and re-arms, since every escalation
/// action restarts the owning subsystem).
pub struct RetryBudget {
    left: u32,
}

impl RetryBudget {
    /// The budget always holds between one and `RETRY_TRIES` tries.
    pub closed spec fn wf(&self) -> bool {
        1 <= self.left <= RETRY_TRIES
    }

    /// How many consecutive failures may still be absorbed before
    /// escalation.
    pub closed spec fn remaining(&self) -> u32 {
        self.left
    }

    pub fn new() -> (b: RetryBudget)
        ensures
            b.wf(),
            b.remaining() == RETRY_TRIES,
    {
        RetryBudget { left: RETRY_TRIES }
    }

    /// A fully successful cycle re-arms the budget.
    pub fn record_success(&mut self)
        ensures
            final(self).wf(),
            final(self).remaining() == RETRY_TRIES,
    {
        self.left = RETRY_TRIES;
    }

    /// Spend one try on an observed failure. Returns true exactly when this
    /// failure exhausts the budget, i.e. when the escalation action bound to
    /// this budget must fire now.
    pub fn record_failure(&mut self) -> (escalate: bool)
        requires
            old(self).wf(),
        ensures
            final(self).wf(),
            escalate == (old(self).remaining() == 1),
            final(self).remaining() as int == if escalate {
                RETRY_TRIES as int
            } else {
                old(self).remaining() - 1
            },
    {
        if self.left == 1 {
            self.left = RETRY_TRIES;
            true
        } else {
            self.left = self.left - 1;
            false
        }
    }
}

/// The remaining tries after `k` consecutive failures of a budget that had
/// `left` tries, following `record_failure`'s arithmetic.
pub open spec fn remaining_after_failures(left: int, k: nat) -> int
    decreases k,
{
    if k == 0 {
        left
    } else if remaining_after_failures(left, (k - 1) as nat) == 1 {
        RETRY_TRIES as int
    } else {
        remaining_after_failures(left, (k - 1) as nat) - 1
    }
}

/// Escalation fires on the `RETRY_TRIES`-th consecutive failure of a fresh
/// budget, and on none of the earlier ones: after `k < RETRY_TRIES` failures
/// the budget still holds `RETRY_TRIES - k` tries, so only the failure that
/// finds a single try left (the fifth) escalates.
pub proof fn lemma_budget_escalates_on_last_try(k: nat)
    requires
        k < RETRY_TRIES,
    ensures
        remaining_after_failures(RETRY_TRIES as int, k) == RETRY_TRIES - k,
        (remaining_after_failures(RETRY_TRIES as int, k) == 1) == (k == RETRY_TRIES - 1),
    decreases k,
{
    if k > 0 {
        lemma_budget_escalates_on_last_try((k - 1) as nat);
    }
}

} // verus!
