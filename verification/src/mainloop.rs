//! The main-loop fault-recovery state machine: a housekeeping cycle gated
//! to run at most once per second against the shared clock, which flushes
//! diagnostics, refreshes the location if due, drains the acquisition
//! queue through the uplink and checks the transport sync — all three
//! required for the cycle to count as fully successful. Any failure spends
//! one try of the loop's budget; exhausting it demands an orderly reset.

use vstd::prelude::*;
use crate::log::LogBuffer;
use crate::queue::AxlQueue;
use crate::retry::{RetryBudget, RETRY_TRIES};
use crate::state::{Clock, StateCell};
use crate::uplink::{batches_chunks, Delay, NoteError, Notecarrier, Transport};

verus! {

/// Minimum spacing of main-loop cycles, in milliseconds.
pub const CYCLE_MS: i64 = 1000;

/// How long a location fix stays fresh before the modem is asked again,
/// matching the period the modem is configured to track with.
pub const LOCATION_PERIOD_MS: i64 = 60000;

/// What the platform must do after a cycle.
#[derive(Clone, Copy, PartialEq, Eq, Structural, Debug)]
pub enum MainAction {
    /// Keep looping (idle or sleep until the next cycle is due).
    Continue,
    /// The budget is exhausted: perform the orderly reset.
    Reset,
}

/// The outcome of one call to `cycle`: whether the gated body ran, how
/// each of the three required operations fared, and the resulting action.
#[derive(Clone, Copy, PartialEq, Eq, Structural, Debug)]
pub struct CycleOutcome {
    pub ran: bool,
    pub location_ok: bool,
    pub drain_ok: bool,
    pub sync_ok: bool,
    pub action: MainAction,
}

/// The location refresher: asks the modem for a fresh fix once its period
/// has elapsed and writes it back to the shared state.
pub struct Location {
    last_fix_ms: i64,
}

impl Location {
    pub closed spec fn wf(&self) -> bool {
        self.last_fix_ms >= 0
    }

    pub closed spec fn last_fix_ms(&self) -> i64 {
        self.last_fix_ms
    }

    pub fn new() -> (l: Location)
        ensures
            l.wf(),
            l.last_fix_ms() == 0,
    {
        Location { last_fix_ms: 0 }
    }

    /// Refresh the location if due. When the period has not elapsed this
    /// does nothing and succeeds. When due, the modem is asked: a fresh
    /// fix is written back to the shared state and stamped `now`; "no fix
    /// yet" is not a fault; only a transport failure fails. The fix in the
    /// shared state changes only when the stamp advances to `now`.
    pub fn check_retrieve<C: Clock, T: Transport>(
        &mut self,
        state: &mut StateCell<C>,
        note: &mut Notecarrier<T>,
        now: i64,
    ) -> (r: Result<(), NoteError>)
        requires
            old(self).wf(),
            old(state).initialized(),
            now >= 0,
        ensures
            final(self).wf(),
            final(state).initialized(),
            final(note).sent() == old(note).sent(),
            now - old(self).last_fix_ms() < LOCATION_PERIOD_MS ==> r is Ok
                && final(self).last_fix_ms() == old(self).last_fix_ms(),
            final(self).last_fix_ms() == old(self).last_fix_ms() || final(self).last_fix_ms()
                == now,
            final(self).last_fix_ms() == old(self).last_fix_ms() ==> final(state).lon_e6()
                == old(state).lon_e6() && final(state).lat_e6() == old(state).lat_e6(),
            r is Err ==> final(state).lon_e6() == old(state).lon_e6() && final(state).lat_e6()
                == old(state).lat_e6() && final(self).last_fix_ms() == old(self).last_fix_ms(),
    {
        if now - self.last_fix_ms < LOCATION_PERIOD_MS {
            return Ok(());
        }
        match note.card_location() {
            Ok(Some(fix)) => {
                state.set_location(fix.0, fix.1);
                self.last_fix_ms = now;
                Ok(())
            },
            Ok(None) => Ok(()),
            Err(e) => Err(e),
        }
    }
}

/// The main loop's own retry state and cycle gate.
pub struct MainLoop {
    budget: RetryBudget,
    last_ms: i64,
}

impl MainLoop {
    pub closed spec fn wf(&self) -> bool {
        self.budget.wf() && self.last_ms >= 0
    }

    /// Consecutive failed cycles still tolerated before the reset.
    pub closed spec fn tries_left(&self) -> u32 {
        self.budget.remaining()
    }

    pub closed spec fn last_ms(&self) -> i64 {
        self.last_ms
    }

    pub fn new() -> (m: MainLoop)
        ensures
            m.wf(),
            m.tries_left() == RETRY_TRIES,
            m.last_ms() == 0,
    {
        MainLoop { budget: RetryBudget::new(), last_ms: 0 }
    }

    /// One pass of the housekeeping loop. Diagnostics are flushed
    /// best-effort on every pass; the gated body runs only when more than
    /// `CYCLE_MS` has elapsed on the shared clock since the last run (so a
    /// missed wakeup merely delays the cycle). When it runs, the location
    /// refresh, the queue drain and the sync check are attempted in turn;
    /// full success re-arms the budget, any failure spends a try, and the
    /// action escalates to `Reset` exactly when the spent try was the last.
    pub fn cycle<C: Clock, T: Transport>(
        &mut self,
        state: &mut StateCell<C>,
        note: &mut Notecarrier<T>,
        loc: &mut Location,
        q: &mut AxlQueue,
        log: &mut LogBuffer,
    ) -> (o: CycleOutcome)
        requires
            old(self).wf(),
            old(state).initialized(),
            old(loc).wf(),
            old(q).wf(),
            old(log).wf(),
        ensures
            final(self).wf(),
            final(state).initialized(),
            final(loc).wf(),
            final(q).wf(),
            final(log).wf(),
            !o.ran ==> {
                &&& o.action == MainAction::Continue
                &&& final(self).tries_left() == old(self).tries_left()
                &&& final(self).last_ms() == old(self).last_ms()
                &&& final(q)@ == old(q)@
            },
            o.ran && o.location_ok && o.drain_ok && o.sync_ok ==> {
                &&& o.action == MainAction::Continue
                &&& final(self).tries_left() == RETRY_TRIES
            },
            o.ran && !(o.location_ok && o.drain_ok && o.sync_ok) ==> {
                &&& (o.action == MainAction::Reset) == (old(self).tries_left() == 1)
                &&& final(self).tries_left() as int == (if old(self).tries_left() == 1 {
                    RETRY_TRIES as int
                } else {
                    old(self).tries_left() - 1
                })
            },
            o.ran ==> final(self).last_ms() > old(self).last_ms() + CYCLE_MS,
            o.ran && o.drain_ok ==> final(q)@.len() == 0
                && final(note).sent() == old(note).sent() + batches_chunks(old(q)@),
    {
        let now_raw = state.now_ms();
        let now = if now_raw < 0 {
            0
        } else {
            now_raw
        };
        let _ = log.drain(note);
        if !(now - self.last_ms > CYCLE_MS) {
            return CycleOutcome {
                ran: false,
                location_ok: false,
                drain_ok: false,
                sync_ok: false,
                action: MainAction::Continue,
            };
        }
        self.last_ms = now;
        let location_ok = loc.check_retrieve(state, note, now).is_ok();
        let drain_ok = note.drain_queue(q).is_ok();
        let sync_ok = note.check_and_sync().is_ok();
        let action = if location_ok && drain_ok && sync_ok {
            self.budget.record_success();
            MainAction::Continue
        } else {
            let escalate = self.budget.record_failure();
            if escalate {
                MainAction::Reset
            } else {
                MainAction::Continue
            }
        };
        CycleOutcome { ran: true, location_ok, drain_ok, sync_ok, action }
    }
}

/// The orderly part of the unique reset routine, run with interrupts
/// already disabled by the platform: terminate any in-flight transport
/// response, flush pending diagnostics, send a final restart note, command
/// the modem to restart, and wait the settle delay. Every step is
/// best-effort — there is no recovery path below the reset routine — but
/// each is attempted: the diagnostic buffer ends empty or cut down to the
/// first refused line, at least the final note was attempted, and exactly
/// one restart command went to the modem. The caller then forces the
/// processor reset.
pub fn prepare_reset<T: Transport, D: Delay>(
    note: &mut Notecarrier<T>,
    log: &mut LogBuffer,
    delay: &mut D,
    reason: &[u8],
)
    requires
        old(log).wf(),
    ensures
        final(log).wf(),
        final(note).sent() == old(note).sent(),
        final(note).restarts() == old(note).restarts() + 1,
        final(note).note_logs() > old(note).note_logs(),
        final(log)@ == Seq::<Seq<u8>>::empty() || (exists|k: int|
            0 <= k < old(log)@.len() && final(log)@ == old(log)@.skip(k)),
{
    let _ = note.consume_response();
    let _ = log.drain(note);
    let _ = note.log(reason);
    let _ = note.restart();
    delay.delay_ms(3000);
}

} // verus!
