use sfy_buoy::axl::AxlPacket;
use sfy_buoy::queue::{AxlQueue, QUEUE_SZ};

fn packet(ts: u32) -> AxlPacket {
    AxlPacket { timestamp: ts, data: vec![ts as u16] }
}

#[test]
fn fifo_order_exactly_once() {
    let mut q = AxlQueue::new();
    assert!(q.enqueue(packet(1)));
    assert!(q.enqueue(packet(2)));
    assert!(q.enqueue(packet(3)));

    assert_eq!(q.dequeue().unwrap().timestamp, 1);
    assert_eq!(q.dequeue().unwrap().timestamp, 2);
    assert_eq!(q.dequeue().unwrap().timestamp, 3);
    assert!(q.dequeue().is_none());
}

#[test]
fn enqueue_full_fails_without_overwrite() {
    let mut q = AxlQueue::new();
    for i in 0..QUEUE_SZ {
        assert!(q.enqueue(packet(i as u32)));
    }
    assert_eq!(q.len(), QUEUE_SZ);

    // The queue is full: the extra batch is refused and dropped.
    assert!(!q.enqueue(packet(999)));
    assert_eq!(q.len(), QUEUE_SZ);

    // The content is unchanged: the earlier batches come out in order.
    for i in 0..QUEUE_SZ {
        assert_eq!(q.dequeue().unwrap().timestamp, i as u32);
    }
    assert!(q.dequeue().is_none());
}

#[test]
fn dequeue_empty_is_none() {
    let mut q = AxlQueue::new();
    assert!(q.dequeue().is_none());
    assert!(q.is_empty());
}
