//! Runtime coordination layer for an ocean-wave measurement buoy: an
//! interrupt-fed acquisition queue of sample batches, bounded retry-then-
//! escalate fault recovery at both the sensor-interrupt and main-loop level,
//! a deterministic transport-safe packet codec, a chunked uplink protocol to
//! the modem bridge, and scoped storage handles whose open/close accounting
//! balances on every exit path.

pub mod axl;
pub mod isr;
pub mod log;
pub mod mainloop;
pub mod queue;
pub mod retry;
pub mod sim;
pub mod state;
pub mod storage;
pub mod uplink;
