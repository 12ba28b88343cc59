use sfy_buoy::axl::AxlPacket;
use sfy_buoy::isr::{ImuError, ImuIsr, IsrAction};
use sfy_buoy::log::LogBuffer;
use sfy_buoy::mainloop::{Location, MainAction, MainLoop};
use sfy_buoy::queue::AxlQueue;
use sfy_buoy::retry::RetryBudget;
use sfy_buoy::mainloop::prepare_reset;
use sfy_buoy::sim::{ScriptedTransport, SimClock, SimDelay};
use sfy_buoy::state::{Handover, SharedState, StateCell};
use sfy_buoy::uplink::Notecarrier;

fn packet(ts: u32) -> AxlPacket {
    AxlPacket { timestamp: ts, data: vec![1] }
}

#[test]
fn budget_escalates_on_exactly_the_fifth_failure() {
    let mut b = RetryBudget::new();
    for _ in 0..4 {
        assert!(!b.record_failure());
    }
    assert!(b.record_failure());
}

#[test]
fn budget_rearms_on_success() {
    let mut b = RetryBudget::new();
    for _ in 0..4 {
        assert!(!b.record_failure());
    }
    b.record_success();
    for _ in 0..4 {
        assert!(!b.record_failure());
    }
    assert!(b.record_failure());
}

#[test]
fn main_loop_resets_exactly_once_after_fifth_failed_cycle() {
    // The sync check is refused on every cycle while everything else
    // succeeds: each gated cycle spends one try, and the reset action
    // fires on the fifth failed cycle, not before.
    let mut t = ScriptedTransport::new();
    t.refuse_status();
    let mut note = Notecarrier::new(t).unwrap();

    let mut state = StateCell::new();
    state.install(SharedState { clock: SimClock::new(2000, 2000), lon_e6: 0, lat_e6: 0 });

    let mut main = MainLoop::new();
    let mut loc = Location::new();
    let mut q = AxlQueue::new();
    let mut log = LogBuffer::new();

    let mut resets = 0;
    for i in 0..5 {
        let o = main.cycle(&mut state, &mut note, &mut loc, &mut q, &mut log);
        assert!(o.ran);
        assert!(!o.sync_ok);
        if o.action == MainAction::Reset {
            resets += 1;
            assert_eq!(i, 4);
        }
    }
    assert_eq!(resets, 1);
}

#[test]
fn main_loop_cycle_is_gated_to_one_hertz() {
    // A clock that barely moves: only the first cycle is due.
    let t = ScriptedTransport::new();
    let mut note = Notecarrier::new(t).unwrap();

    let mut state = StateCell::new();
    state.install(SharedState { clock: SimClock::new(2000, 1), lon_e6: 0, lat_e6: 0 });

    let mut main = MainLoop::new();
    let mut loc = Location::new();
    let mut q = AxlQueue::new();
    let mut log = LogBuffer::new();

    let o = main.cycle(&mut state, &mut note, &mut loc, &mut q, &mut log);
    assert!(o.ran);
    let o = main.cycle(&mut state, &mut note, &mut loc, &mut q, &mut log);
    assert!(!o.ran);
    assert_eq!(o.action, MainAction::Continue);
}

#[test]
fn main_loop_drains_queue_and_rearms() {
    let t = ScriptedTransport::new();
    let mut note = Notecarrier::new(t).unwrap();

    let mut state = StateCell::new();
    state.install(SharedState { clock: SimClock::new(2000, 2000), lon_e6: 0, lat_e6: 0 });

    let mut main = MainLoop::new();
    let mut loc = Location::new();
    let mut q = AxlQueue::new();
    let mut log = LogBuffer::new();
    assert!(q.enqueue(packet(5)));

    let o = main.cycle(&mut state, &mut note, &mut loc, &mut q, &mut log);
    assert!(o.ran && o.location_ok && o.drain_ok && o.sync_ok);
    assert_eq!(o.action, MainAction::Continue);
    assert!(q.is_empty());
    assert_eq!(note.transport().sent_count(), 1);
}

#[test]
fn location_fix_reaches_shared_state() {
    let mut t = ScriptedTransport::new();
    t.set_fix(5_300_000, 60_400_000);
    let mut note = Notecarrier::new(t).unwrap();

    let mut state = StateCell::new();
    state.install(SharedState { clock: SimClock::new(0, 0), lon_e6: 0, lat_e6: 0 });

    let mut loc = Location::new();
    loc.check_retrieve(&mut state, &mut note, 60_000).unwrap();
    assert_eq!(state.location(), (5_300_000, 60_400_000));
}

#[test]
fn isr_enqueues_and_escalates_on_exhausted_budget() {
    let mut isr = ImuIsr::new();
    let mut q = AxlQueue::new();

    assert_eq!(isr.tick(&mut q, Ok(Some(packet(1)))), IsrAction::Nominal);
    assert_eq!(q.len(), 1);
    assert_eq!(isr.tick(&mut q, Ok(None)), IsrAction::Nominal);
    assert_eq!(q.len(), 1);

    for _ in 0..4 {
        assert_eq!(isr.tick(&mut q, Err(ImuError::Nak)), IsrAction::SensorReset);
    }
    assert_eq!(isr.tick(&mut q, Err(ImuError::Timeout)), IsrAction::SystemReset);
    // The queue was untouched by the failures.
    assert_eq!(q.len(), 1);
}

#[test]
fn isr_counts_batches_lost_to_a_full_queue() {
    let mut isr = ImuIsr::new();
    let mut q = AxlQueue::new();
    for i in 0..32 {
        assert_eq!(isr.tick(&mut q, Ok(Some(packet(i)))), IsrAction::Nominal);
    }
    assert_eq!(q.len(), 32);
    assert_eq!(isr.lost_batches(), 0);

    // The queue is full: the batch is dropped and counted as loss, and
    // the tick still counts as a success, not a fault.
    assert_eq!(isr.tick(&mut q, Ok(Some(packet(99)))), IsrAction::Nominal);
    assert_eq!(q.len(), 32);
    assert_eq!(isr.lost_batches(), 1);
}

#[test]
fn isr_success_rearms_budget() {
    let mut isr = ImuIsr::new();
    let mut q = AxlQueue::new();

    for _ in 0..4 {
        assert_eq!(isr.tick(&mut q, Err(ImuError::Nak)), IsrAction::SensorReset);
    }
    assert_eq!(isr.tick(&mut q, Ok(None)), IsrAction::Nominal);
    for _ in 0..4 {
        assert_eq!(isr.tick(&mut q, Err(ImuError::Nak)), IsrAction::SensorReset);
    }
    assert_eq!(isr.tick(&mut q, Err(ImuError::Nak)), IsrAction::SystemReset);
}

#[test]
fn handover_transfers_exactly_once() {
    let mut h: Handover<u32> = Handover::new();
    h.install(7);
    assert_eq!(h.take(), Some(7));
    assert_eq!(h.take(), None);
}

#[test]
fn log_lines_are_clipped_and_drained() {
    let t = ScriptedTransport::new();
    let mut note = Notecarrier::new(t).unwrap();

    let mut log = LogBuffer::new();
    let long = vec![b'x'; 400];
    log.log(&long);
    log.log(b"short");
    assert_eq!(log.len(), 2);

    log.drain(&mut note).unwrap();
    assert_eq!(log.len(), 0);
    assert_eq!(note.transport().log_count(), 2);
    // No data note was added by the diagnostic path.
    assert_eq!(note.transport().sent_count(), 0);
}

#[test]
fn prepare_reset_flushes_and_restarts() {
    let t = ScriptedTransport::new();
    let mut note = Notecarrier::new(t).unwrap();
    let mut log = LogBuffer::new();
    log.log(b"trouble");
    let mut delay = SimDelay::new();

    prepare_reset(&mut note, &mut log, &mut delay, b"main loop failed: restarting");
    assert_eq!(log.len(), 0);
    // The buffered line and the final restart note both went out.
    assert_eq!(note.transport().log_count(), 2);
    assert_eq!(note.transport().log_attempt_count(), 2);
    assert_eq!(note.transport().restart_call_count(), 1);
    assert_eq!(delay.total_ms(), 3000);
}

#[test]
fn log_buffer_drops_lines_when_full() {
    let mut log = LogBuffer::new();
    for i in 0..32 {
        log.log(&[b'a' + (i % 26) as u8]);
    }
    assert_eq!(log.len(), 32);
    // The buffer is full: the extra line is dropped, not queued.
    log.log(b"overflow");
    assert_eq!(log.len(), 32);
}

#[test]
fn log_drain_failure_keeps_remaining_lines() {
    let mut t = ScriptedTransport::new();
    t.refuse_log();
    let mut note = Notecarrier::new(t).unwrap();

    let mut log = LogBuffer::new();
    log.log(b"one");
    log.log(b"two");
    assert!(log.drain(&mut note).is_err());
    assert_eq!(log.len(), 2);
}
