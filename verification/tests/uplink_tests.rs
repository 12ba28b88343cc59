use sfy_buoy::axl::AxlPacket;
use sfy_buoy::queue::AxlQueue;
use sfy_buoy::sim::{ScriptedTransport, SimDelay};
use sfy_buoy::uplink::{NoteError, Notecarrier};

fn packet(ts: u32) -> AxlPacket {
    AxlPacket { timestamp: ts, data: vec![1, 2, 3] }
}

#[test]
fn construction_fails_on_template_refusal() {
    let mut t = ScriptedTransport::new();
    t.refuse_template();
    // Setup is fatal: construction returns the error and retains no
    // session state (the transport is dropped with the failed call).
    let r = Notecarrier::new(t);
    assert!(matches!(r, Err(NoteError::Comm)));
}

#[test]
fn construction_fails_on_hub_refusal() {
    let mut t = ScriptedTransport::new();
    t.set_error(NoteError::Timeout);
    t.refuse_hub_set();
    let r = Notecarrier::new(t);
    assert!(matches!(r, Err(NoteError::Timeout)));
}

#[test]
fn send_single_chunk() {
    let t = ScriptedTransport::new();
    let mut note = Notecarrier::new(t).unwrap();

    let p = packet(42);
    let n = note.send(p).unwrap();
    // Three samples: six bytes, one padded base64 group chain of 8 bytes.
    assert_eq!(n, 8);
    assert_eq!(note.transport().sent_count(), 1);
    assert_eq!(note.transport().sent_meta(0), (42, 0));
    assert_eq!(note.transport().sent_payload_len(0), 8);
}

#[test]
fn send_failure_reports_offset() {
    let mut t = ScriptedTransport::new();
    t.script_add(false);
    let mut note = Notecarrier::new(t).unwrap();

    let e = note.send(packet(1)).unwrap_err();
    assert_eq!(e.offset, 0);
    assert_eq!(note.transport().sent_count(), 0);
}

#[test]
fn drain_stops_at_third_batch_and_consumes_it() {
    let mut t = ScriptedTransport::new();
    t.script_add(true);
    t.script_add(true);
    t.script_add(false);
    let mut note = Notecarrier::new(t).unwrap();

    let mut q = AxlQueue::new();
    assert!(q.enqueue(packet(10)));
    assert!(q.enqueue(packet(20)));
    assert!(q.enqueue(packet(30)));

    let e = note.drain_queue(&mut q).unwrap_err();
    assert_eq!(e.sent, 2);
    assert_eq!(e.timestamp, 30);
    assert_eq!(note.transport().sent_count(), 2);
    assert_eq!(note.transport().sent_meta(0), (10, 0));
    assert_eq!(note.transport().sent_meta(1), (20, 0));

    // The failed batch was consumed too: a later drain finds the queue
    // empty and re-sends nothing.
    assert!(q.is_empty());
    assert_eq!(note.drain_queue(&mut q).unwrap(), 0);
    assert_eq!(note.transport().sent_count(), 2);
}

#[test]
fn drain_empties_queue_on_success() {
    let t = ScriptedTransport::new();
    let mut note = Notecarrier::new(t).unwrap();

    let mut q = AxlQueue::new();
    assert!(q.enqueue(packet(1)));
    assert!(q.enqueue(packet(2)));

    assert_eq!(note.drain_queue(&mut q).unwrap(), 2);
    assert!(q.is_empty());
    assert_eq!(note.transport().sent_count(), 2);
}

#[test]
fn sync_times_out_after_exactly_five_polls() {
    let t = ScriptedTransport::new();
    let mut note = Notecarrier::new(t).unwrap();
    let mut delay = SimDelay::new();

    // The transport never reports completion: after a five-second timeout
    // the call reports "not completed" — an expected outcome, not an
    // error — having polled exactly five times, once per second.
    let completed = note.sync_and_wait(&mut delay, 5000).unwrap();
    assert!(!completed);
    assert_eq!(note.transport().status_call_count(), 5);
    assert_eq!(delay.call_count(), 5);
    assert_eq!(delay.total_ms(), 5000);
}

#[test]
fn sync_completes_early() {
    let mut t = ScriptedTransport::new();
    t.script_status(false);
    t.script_status(true);
    let mut note = Notecarrier::new(t).unwrap();
    let mut delay = SimDelay::new();

    let completed = note.sync_and_wait(&mut delay, 5000).unwrap();
    assert!(completed);
    assert_eq!(note.transport().status_call_count(), 2);
}

#[test]
fn sync_request_refusal_is_an_error() {
    let mut t = ScriptedTransport::new();
    t.refuse_sync();
    let mut note = Notecarrier::new(t).unwrap();
    let mut delay = SimDelay::new();

    assert!(matches!(note.sync_and_wait(&mut delay, 5000), Err(NoteError::Comm)));
    assert_eq!(note.transport().status_call_count(), 0);
}
