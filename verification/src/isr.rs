//! The sensor-interrupt state machine. The periodic interrupt reads the
//! sensor FIFO (a bus transaction the platform performs) and hands the
//! outcome to `tick`, which assembles the decision: enqueue the finished
//! batch, or spend a retry and ask for a lightweight sensor reset, or —
//! when the budget is exhausted — escalate to a full system reset. A full
//! queue is an accounted loss, not a fault.

use vstd::prelude::*;
use crate::axl::AxlPacket;
use crate::queue::{AxlQueue, QUEUE_SZ};
use crate::retry::{RetryBudget, RETRY_TRIES};

verus! {

/// A sensor-communication failure observed by the interrupt: the bus
/// refused the transfer, or the sensor did not answer in time.
#[derive(Clone, Copy, PartialEq, Eq, Structural, Debug)]
pub enum ImuError {
    Nak,
    Timeout,
}

/// What the platform must do after a tick.
#[derive(Clone, Copy, PartialEq, Eq, Structural, Debug)]
pub enum IsrAction {
    /// Nothing: the read succeeded (with or without a finished batch).
    Nominal,
    /// Re-initialize the sensor subsystem without a full device reset.
    SensorReset,
    /// The budget is exhausted: force a full system reset.
    SystemReset,
}

/// The interrupt-side retry state: its own budget, independent of the main
/// loop's, plus the count of batches lost to a full queue.
pub struct ImuIsr {
    budget: RetryBudget,
    lost: u32,
}

impl ImuIsr {
    pub closed spec fn wf(&self) -> bool {
        self.budget.wf()
    }

    /// Consecutive failures still tolerated before escalation.
    pub closed spec fn tries_left(&self) -> u32 {
        self.budget.remaining()
    }

    /// Batches dropped because the queue was full (saturating).
    pub closed spec fn lost_count(&self) -> u32 {
        self.lost
    }

    /// Batches dropped so far because the queue was full.
    pub fn lost_batches(&self) -> (n: u32)
        ensures
            n == self.lost_count(),
    {
        self.lost
    }

    pub fn new() -> (s: ImuIsr)
        ensures
            s.wf(),
            s.tries_left() == RETRY_TRIES,
            s.lost_count() == 0,
    {
        ImuIsr { budget: RetryBudget::new(), lost: 0 }
    }

    /// One periodic tick, given the outcome of the FIFO read:
    /// `Ok(Some(batch))` — a batch was cut; it is enqueued in arrival order
    /// if there is capacity, otherwise dropped and counted as loss; either
    /// way the read succeeded, so the budget re-arms. `Ok(None)` — the FIFO
    /// has not filled a batch yet; the budget re-arms. `Err(_)` — a retry
    /// is spent: the sensor subsystem is reset, and when this failure was
    /// the last tolerated one the action escalates to a full system reset.
    pub fn tick(&mut self, q: &mut AxlQueue, read: Result<Option<AxlPacket>, ImuError>) -> (a:
        IsrAction)
        requires
            old(self).wf(),
            old(q).wf(),
            read matches Ok(Some(p)) ==> p.wf(),
        ensures
            final(self).wf(),
            final(q).wf(),
            read is Ok ==> {
                &&& a == IsrAction::Nominal
                &&& final(self).tries_left() == RETRY_TRIES
            },
            read matches Ok(Some(p)) ==> {
                &&& old(q)@.len() < QUEUE_SZ ==> final(q)@ == old(q)@.push(p)
                    && final(self).lost_count() == old(self).lost_count()
                &&& old(q)@.len() >= QUEUE_SZ ==> final(q)@ == old(q)@
                    && final(self).lost_count() as int == (if old(self).lost_count() < u32::MAX {
                    old(self).lost_count() + 1
                } else {
                    old(self).lost_count() as int
                })
            },
            read matches Ok(None) ==> final(q)@ == old(q)@ && final(self).lost_count() == old(
                self,
            ).lost_count(),
            read is Err ==> {
                &&& final(q)@ == old(q)@
                &&& final(self).lost_count() == old(self).lost_count()
                &&& (a == IsrAction::SystemReset) == (old(self).tries_left() == 1)
                &&& (a == IsrAction::SensorReset) == (old(self).tries_left() != 1)
                &&& final(self).tries_left() as int == if old(self).tries_left() == 1 {
                    RETRY_TRIES as int
                } else {
                    old(self).tries_left() - 1
                }
            },
    {
        match read {
            Ok(batch) => {
                match batch {
                    Some(p) => {
                        let accepted = q.enqueue(p);
                        if !accepted {
                            if self.lost < u32::MAX {
                                self.lost = self.lost + 1;
                            }
                        }
                    },
                    None => {},
                }
                self.budget.record_success();
                IsrAction::Nominal
            },
            Err(_) => {
                let escalate = self.budget.record_failure();
                if escalate {
                    IsrAction::SystemReset
                } else {
                    IsrAction::SensorReset
                }
            },
        }
    }
}

} // verus!
