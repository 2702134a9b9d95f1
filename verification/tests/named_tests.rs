use rlink::channel::{RecvError, SendError, TryRecvError, TrySendError};
use rlink::metrics::{MetricCell, MetricKind, MetricsRegistry, Tag};
use std::sync::Arc;
use rlink::named::{bounded, named_channel, unbounded, ChannelReceiver, ChannelSender};

fn tags() -> Vec<Tag> {
    vec![Tag::new("job".to_string(), "j1".to_string())]
}

#[test]
fn named_channel_moves_values_through_the_real_queue() {
    let mut registry = MetricsRegistry::new();
    let (sender, receiver): (ChannelSender<u64>, ChannelReceiver<u64>) =
        named_channel("edge_a", tags(), 8, &mut registry);
    sender.send(1).unwrap();
    sender.send(2).unwrap();
    assert_eq!(receiver.recv(), Ok(1));
    assert_eq!(receiver.recv(), Ok(2));
    assert_eq!(receiver.try_recv(), Err(TryRecvError::Empty));
}

#[test]
fn named_channel_registers_four_metrics_with_prefixed_names() {
    let mut registry = MetricsRegistry::new();
    let (_sender, _receiver): (ChannelSender<u64>, ChannelReceiver<u64>) =
        named_channel("edge_b", tags(), 8, &mut registry);
    assert_eq!(registry.entries.len(), 4);
    assert_eq!(registry.entries[0].name, "Channel.Capacity.edge_b");
    assert_eq!(registry.entries[0].kind, MetricKind::Gauge);
    assert_eq!(registry.entries[1].name, "Channel.Size.edge_b");
    assert_eq!(registry.entries[1].kind, MetricKind::Gauge);
    assert_eq!(registry.entries[2].name, "Channel.Accepted.edge_b");
    assert_eq!(registry.entries[2].kind, MetricKind::Counter);
    assert_eq!(registry.entries[3].name, "Channel.Drain.edge_b");
    assert_eq!(registry.entries[3].kind, MetricKind::Counter);
    for entry in &registry.entries {
        assert_eq!(entry.tags.len(), 1);
        assert_eq!(entry.tags[0].name, "job");
        assert_eq!(entry.tags[0].value, "j1");
    }
}

#[test]
fn bounded_named_channel_reports_full_and_recovers() {
    let mut registry = MetricsRegistry::new();
    let (sender, receiver): (ChannelSender<u64>, ChannelReceiver<u64>) =
        named_channel("edge_c", tags(), 2, &mut registry);
    assert_eq!(sender.capacity(), 2);
    sender.try_send(1).unwrap();
    sender.try_send(2).unwrap();
    assert_eq!(sender.try_send(3), Err(TrySendError::Full(3)));
    assert_eq!(receiver.recv(), Ok(1));
    assert_eq!(sender.try_send(3), Ok(()));
}

#[test]
fn disconnection_is_reported_on_both_sides() {
    let mut registry = MetricsRegistry::new();
    let (sender, receiver): (ChannelSender<u64>, ChannelReceiver<u64>) =
        named_channel("edge_d", tags(), 8, &mut registry);
    drop(receiver);
    assert_eq!(sender.send(5), Err(SendError(5)));

    let (sender, receiver): (ChannelSender<u64>, ChannelReceiver<u64>) =
        named_channel("edge_e", tags(), 8, &mut registry);
    sender.send(6).unwrap();
    drop(sender);
    // Buffered elements still drain, then the closure shows.
    assert_eq!(receiver.recv(), Ok(6));
    assert_eq!(receiver.recv(), Err(RecvError));
    assert_eq!(receiver.try_recv(), Err(TryRecvError::Disconnected));
}

#[test]
fn cloned_handles_reach_the_same_channel() {
    let mut registry = MetricsRegistry::new();
    let (sender, receiver): (ChannelSender<u64>, ChannelReceiver<u64>) =
        named_channel("edge_f", tags(), 8, &mut registry);
    let sender2 = sender.clone();
    let receiver2 = receiver.clone();
    sender.send(7).unwrap();
    sender2.send(8).unwrap();
    assert_eq!(receiver2.recv(), Ok(7));
    assert_eq!(receiver.recv(), Ok(8));
}

#[test]
fn raw_pairs_transfer_values() {
    let (s, r) = bounded::<u64>(1);
    s.send(9).unwrap();
    assert!(s.try_send(10).is_err());
    assert_eq!(r.recv(), Ok(9));

    let (s, r) = unbounded::<u64>();
    for i in 0..100u64 {
        s.send(i).unwrap();
    }
    for i in 0..100u64 {
        assert_eq!(r.recv(), Ok(i));
    }
}

#[test]
fn registered_cells_are_the_cells_the_handles_move() {
    let mut registry = MetricsRegistry::new();
    let (sender, receiver): (ChannelSender<u64>, ChannelReceiver<u64>) =
        named_channel("edge_g", tags(), 8, &mut registry);
    match &registry.entries[1].cell {
        MetricCell::Gauge(cell) => {
            assert!(Arc::ptr_eq(cell, &sender.size));
            assert!(Arc::ptr_eq(cell, &receiver.size));
        }
        MetricCell::Counter(_) => panic!("size entry must be a gauge"),
    }
    match &registry.entries[2].cell {
        MetricCell::Counter(cell) => assert!(Arc::ptr_eq(cell, &sender.accepted_counter)),
        MetricCell::Gauge(_) => panic!("accepted entry must be a counter"),
    }
    match &registry.entries[3].cell {
        MetricCell::Counter(cell) => assert!(Arc::ptr_eq(cell, &receiver.drain_counter)),
        MetricCell::Gauge(_) => panic!("drain entry must be a counter"),
    }
}
