use rlink::channel::{
    Element, NamedChannel, RecvError, RecvTimeoutError, SendTimeoutError, TryRecvError,
    TrySendError, select_ready,
};

#[test]
fn bounded_rejects_try_send_when_full_and_accepts_after_recv() {
    // Capacity 2 <= 32: bounded policy.
    let mut ch: NamedChannel<u64> = NamedChannel::new(2);
    assert!(ch.is_bounded());
    assert_eq!(ch.try_send(10), Ok(()));
    assert_eq!(ch.try_send(11), Ok(()));
    assert_eq!(ch.try_send(12), Err(TrySendError::Full(12)));
    assert_eq!(ch.recv(), Ok(10));
    assert_eq!(ch.try_send(12), Ok(()));
    assert_eq!(ch.len(), 2);
}

#[test]
fn bounded_full_at_every_capacity_up_to_limit() {
    for c in 1usize..=32 {
        let mut ch: NamedChannel<u64> = NamedChannel::new(c);
        for i in 0..c as u64 {
            assert_eq!(ch.try_send(i), Ok(()));
        }
        assert_eq!(ch.try_send(99), Err(TrySendError::Full(99)));
        assert_eq!(ch.recv(), Ok(0));
        assert_eq!(ch.try_send(99), Ok(()));
    }
}

#[test]
fn zero_capacity_channel_has_no_buffer_space() {
    let mut ch: NamedChannel<u64> = NamedChannel::new(0);
    assert_eq!(ch.try_send(1), Err(TrySendError::Full(1)));
}

#[test]
fn unbounded_send_never_blocks() {
    // Capacity 33 > 32: unbounded policy, sends always succeed.
    let mut ch: NamedChannel<u64> = NamedChannel::new(33);
    assert!(!ch.is_bounded());
    for i in 0..10_000u64 {
        assert_eq!(ch.send(i), Ok(()));
    }
    assert_eq!(ch.len(), 10_000);
}

#[test]
fn fifo_receive_order_equals_send_order() {
    let mut ch: NamedChannel<u64> = NamedChannel::new(100);
    let sent: Vec<u64> = (0..50).map(|i| i * 7 + 3).collect();
    for &v in &sent {
        ch.send(v).unwrap();
    }
    let mut received = Vec::new();
    for _ in 0..sent.len() {
        received.push(ch.recv().unwrap());
    }
    assert_eq!(received, sent);
}

#[test]
fn accepted_minus_drained_equals_resident_count() {
    let mut ch: NamedChannel<u64> = NamedChannel::new(100);
    for i in 0..30u64 {
        ch.send(i).unwrap();
    }
    for _ in 0..12 {
        ch.recv().unwrap();
    }
    assert_eq!(ch.accepted(), 30);
    assert_eq!(ch.drained(), 12);
    assert_eq!(ch.accepted() - ch.drained(), ch.len() as u64);
}

#[test]
fn closed_channel_is_permanently_closed() {
    let mut ch: NamedChannel<u64> = NamedChannel::new(4);
    ch.send(1).unwrap();
    ch.close();
    assert_eq!(ch.try_send(2), Err(TrySendError::Disconnected(2)));
    // Elements buffered before closure still drain.
    assert_eq!(ch.try_recv(), Ok(1));
    assert_eq!(ch.try_recv(), Err(TryRecvError::Disconnected));
    assert_eq!(ch.recv(), Err(RecvError));
}

#[test]
fn try_recv_distinguishes_empty_from_disconnected() {
    let mut ch: NamedChannel<u64> = NamedChannel::new(4);
    assert_eq!(ch.try_recv(), Err(TryRecvError::Empty));
    ch.close();
    assert_eq!(ch.try_recv(), Err(TryRecvError::Disconnected));
}

#[test]
fn timeout_variants_report_timeout_on_full_or_empty() {
    let mut ch: NamedChannel<u64> = NamedChannel::new(1);
    assert_eq!(ch.recv_timeout(5), Err(RecvTimeoutError::Timeout));
    assert_eq!(ch.send_timeout(1, 5), Ok(()));
    assert_eq!(ch.send_timeout(2, 5), Err(SendTimeoutError::Timeout(2)));
    assert_eq!(ch.recv_timeout(5), Ok(1));
    ch.close();
    assert_eq!(ch.recv_timeout(5), Err(RecvTimeoutError::Disconnected));
    assert_eq!(ch.send_timeout(3, 5), Err(SendTimeoutError::Disconnected(3)));
}

#[test]
fn select_ready_picks_first_channel_with_data() {
    let mut channels: Vec<NamedChannel<u64>> = Vec::new();
    for _ in 0..3 {
        channels.push(NamedChannel::new(4));
    }
    assert_eq!(select_ready(&channels), None);
    channels[1].send(7).unwrap();
    channels[2].send(8).unwrap();
    assert_eq!(select_ready(&channels), Some(1));
}

#[test]
fn element_clone_keeps_payload() {
    let e = Element::new(vec![1, 2, 3]);
    let c = e.clone();
    assert_eq!(c, e);
    assert_eq!(c.payload, vec![1, 2, 3]);
}
