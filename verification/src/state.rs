//! Shared clock/location state and the one-time ownership-handover cell.
//!
//! The state cell is owned jointly by the interrupt and main contexts; the
//! platform wrapper must hold every access inside a critical section with
//! interrupts disabled, and never across a blocking operation — the library
//! only models the cell's contents. Reading the cell before the main
//! context has installed the state is a programming error, excluded by
//! contract rather than silently defaulted.

use vstd::prelude::*;

verus! {

/// The platform's real-time clock. No contract: what time it is belongs to
/// the environment; callers state what holds whatever value comes back.
pub trait Clock {
    fn now_ms(&mut self) -> (t: i64);
}

/// The state shared between interrupt and main contexts: the real-time
/// clock and the last known location fix, in microdegrees.
pub struct SharedState<C: Clock> {
    pub clock: C,
    pub lon_e6: i64,
    pub lat_e6: i64,
}

/// The single cell holding the shared state. Empty until the main context
/// installs the state once at startup; every read requires it installed.
pub struct StateCell<C: Clock> {
    inner: Option<SharedState<C>>,
}

impl<C: Clock> StateCell<C> {
    pub closed spec fn initialized(&self) -> bool {
        self.inner is Some
    }

    pub closed spec fn lon_e6(&self) -> i64 {
        self.inner->Some_0.lon_e6
    }

    pub closed spec fn lat_e6(&self) -> i64 {
        self.inner->Some_0.lat_e6
    }

    pub fn new() -> (c: StateCell<C>)
        ensures
            !c.initialized(),
    {
        StateCell { inner: None }
    }

    /// One-time installation of the shared state by the main context.
    pub fn install(&mut self, s: SharedState<C>)
        requires
            !old(self).initialized(),
        ensures
            final(self).initialized(),
            final(self).lon_e6() == s.lon_e6,
            final(self).lat_e6() == s.lat_e6,
    {
        self.inner = Some(s);
    }

    /// Read the clock. Leaves the location fix untouched.
    pub fn now_ms(&mut self) -> (t: i64)
        requires
            old(self).initialized(),
        ensures
            final(self).initialized(),
            final(self).lon_e6() == old(self).lon_e6(),
            final(self).lat_e6() == old(self).lat_e6(),
    {
        match &mut self.inner {
            Some(s) => s.clock.now_ms(),
            None => 0,
        }
    }

    /// The last known location fix, in microdegrees.
    pub fn location(&self) -> (fix: (i64, i64))
        requires
            self.initialized(),
        ensures
            fix.0 == self.lon_e6(),
            fix.1 == self.lat_e6(),
    {
        match &self.inner {
            Some(s) => (s.lon_e6, s.lat_e6),
            None => (0, 0),
        }
    }

    /// Write back a fresh location fix.
    pub fn set_location(&mut self, lon_e6: i64, lat_e6: i64)
        requires
            old(self).initialized(),
        ensures
            final(self).initialized(),
            final(self).lon_e6() == lon_e6,
            final(self).lat_e6() == lat_e6,
    {
        match &mut self.inner {
            Some(s) => {
                s.lon_e6 = lon_e6;
                s.lat_e6 = lat_e6;
            },
            None => {},
        }
    }
}

/// A single-slot exclusive cell for the one-time transfer of a driver into
/// the interrupt context: installed once at startup by the main context,
/// taken once by the interrupt, never observable from both sides at once.
pub struct Handover<T> {
    slot: Option<T>,
}

impl<T> Handover<T> {
    pub closed spec fn holds(&self) -> bool {
        self.slot is Some
    }

    pub closed spec fn value(&self) -> T {
        self.slot->Some_0
    }

    pub fn new() -> (h: Handover<T>)
        ensures
            !h.holds(),
    {
        Handover { slot: None }
    }

    /// Move ownership in. The slot must still be empty: the transfer
    /// happens once.
    pub fn install(&mut self, v: T)
        requires
            !old(self).holds(),
        ensures
            final(self).holds(),
            final(self).value() == v,
    {
        self.slot = Some(v);
    }

    /// Move ownership out, leaving the slot empty for good.
    pub fn take(&mut self) -> (v: Option<T>)
        ensures
            !final(self).holds(),
            old(self).holds() ==> v == Some(old(self).value()),
            !old(self).holds() ==> v is None,
    {
        self.slot.take()
    }
}

} // verus!
