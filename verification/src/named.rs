//! Concurrent, shareable channel handles and their metric instrumentation.
//!
//! `named_channel` creates one channel endpoint pair backed by crossbeam's
//! multi-producer multi-consumer queues: bounded when the requested capacity
//! is at most [`crate::channel::BOUNDED_CAPACITY_LIMIT`], unbounded
//! otherwise.  It registers a capacity gauge, a size gauge, an accepted
//! counter and a drain counter against the metrics registry under names
//! derived from the channel name with fixed prefixes.  The handles may be
//! cloned and used from many execution contexts at once, so their contracts
//! state only what holds of every interleaving; the exact single-owner
//! semantics of the same operations live in [`crate::channel`].

use std::sync::Arc;
use core::sync::atomic::{AtomicI64, AtomicU64};

use vstd::prelude::*;
use vstd::string::StringExecFns;

use crate::channel::{
    RecvError, RecvTimeoutError, SendError, SendTimeoutError, TryRecvError, TrySendError,
    BOUNDED_CAPACITY_LIMIT,
};
use crate::metrics::{clone_tags, counter_add, gauge_add, share_counter, share_gauge};
use crate::metrics::{MetricCell, MetricKind, MetricsRegistry, Tag};

verus! {

#[verifier::external_type_specification]
#[verifier::external_body]
#[verifier::reject_recursive_types(T)]
pub struct ExCrossbeamSender<T>(crossbeam::channel::Sender<T>);

#[verifier::external_type_specification]
#[verifier::external_body]
#[verifier::reject_recursive_types(T)]
pub struct ExCrossbeamReceiver<T>(crossbeam::channel::Receiver<T>);

/// Relies on `crossbeam_channel::unbounded`: a connected pair whose queue
/// never blocks a sender for space.
#[verifier::external_body]
pub fn unbounded<T>() -> (crossbeam::channel::Sender<T>, crossbeam::channel::Receiver<T>) {
    crossbeam::channel::unbounded()
}

/// Relies on `crossbeam_channel::bounded`: a connected pair whose queue
/// holds at most `cap` messages.
#[verifier::external_body]
pub fn bounded<T>(cap: usize) -> (crossbeam::channel::Sender<T>, crossbeam::channel::Receiver<T>) {
    crossbeam::channel::bounded(cap)
}

/// Relies on `crossbeam_channel::Sender::send`: blocks until the message is
/// queued; on failure the channel was disconnected and the message comes
/// back in the error.
#[verifier::external_body]
fn raw_send<T>(sender: &crossbeam::channel::Sender<T>, t: T) -> (r: Result<(), SendError<T>>)
    ensures
        r matches Err(e) ==> e.0 == t,
{
    match sender.send(t) {
        Ok(()) => Ok(()),
        Err(crossbeam::channel::SendError(x)) => Err(SendError(x)),
    }
}

/// Relies on `crossbeam_channel::Sender::try_send`: never blocks; on
/// failure the message comes back, marked full or disconnected.
#[verifier::external_body]
fn raw_try_send<T>(sender: &crossbeam::channel::Sender<T>, t: T) -> (r: Result<
    (),
    TrySendError<T>,
>)
    ensures
        r matches Err(e) ==> e == TrySendError::Full(t) || e == TrySendError::Disconnected(t),
{
    match sender.try_send(t) {
        Ok(()) => Ok(()),
        Err(crossbeam::channel::TrySendError::Full(x)) => Err(TrySendError::Full(x)),
        Err(crossbeam::channel::TrySendError::Disconnected(x)) => Err(TrySendError::Disconnected(
            x,
        )),
    }
}

/// Relies on `crossbeam_channel::Sender::send_timeout`: waits at most the
/// given time; on failure the message comes back, marked timed-out or
/// disconnected.
#[verifier::external_body]
fn raw_send_timeout<T>(sender: &crossbeam::channel::Sender<T>, t: T, timeout_ms: u64) -> (r: Result<
    (),
    SendTimeoutError<T>,
>)
    ensures
        r matches Err(e) ==> e == SendTimeoutError::Timeout(t) || e
            == SendTimeoutError::Disconnected(t),
{
    match sender.send_timeout(t, core::time::Duration::from_millis(timeout_ms)) {
        Ok(()) => Ok(()),
        Err(crossbeam::channel::SendTimeoutError::Timeout(x)) => Err(SendTimeoutError::Timeout(x)),
        Err(crossbeam::channel::SendTimeoutError::Disconnected(x)) => Err(
            SendTimeoutError::Disconnected(x),
        ),
    }
}

/// Relies on `crossbeam_channel::Receiver::recv`: blocks until a message
/// arrives; fails only when the channel is disconnected and drained.
#[verifier::external_body]
fn raw_recv<T>(receiver: &crossbeam::channel::Receiver<T>) -> Result<T, RecvError> {
    match receiver.recv() {
        Ok(t) => Ok(t),
        Err(crossbeam::channel::RecvError) => Err(RecvError),
    }
}

/// Relies on `crossbeam_channel::Receiver::try_recv`: never blocks; an
/// empty poll and a disconnected channel are told apart.
#[verifier::external_body]
fn raw_try_recv<T>(receiver: &crossbeam::channel::Receiver<T>) -> Result<T, TryRecvError> {
    match receiver.try_recv() {
        Ok(t) => Ok(t),
        Err(crossbeam::channel::TryRecvError::Empty) => Err(TryRecvError::Empty),
        Err(crossbeam::channel::TryRecvError::Disconnected) => Err(TryRecvError::Disconnected),
    }
}

/// Relies on `crossbeam_channel::Receiver::recv_timeout`: waits at most the
/// given time; the wait running out and disconnection are told apart.
#[verifier::external_body]
fn raw_recv_timeout<T>(receiver: &crossbeam::channel::Receiver<T>, timeout_ms: u64) -> Result<
    T,
    RecvTimeoutError,
> {
    match receiver.recv_timeout(core::time::Duration::from_millis(timeout_ms)) {
        Ok(t) => Ok(t),
        Err(crossbeam::channel::RecvTimeoutError::Timeout) => Err(RecvTimeoutError::Timeout),
        Err(crossbeam::channel::RecvTimeoutError::Disconnected) => Err(
            RecvTimeoutError::Disconnected,
        ),
    }
}

/// Relies on `crossbeam_channel::Sender::clone`: the new handle reaches the
/// very same channel, so as a value it equals the old one.
#[verifier::external_body]
fn raw_clone_sender<T>(sender: &crossbeam::channel::Sender<T>) -> (r: crossbeam::channel::Sender<
    T,
>)
    ensures
        r == *sender,
{
    sender.clone()
}

/// Relies on `crossbeam_channel::Receiver::clone`: the new handle reaches
/// the very same channel, so as a value it equals the old one.
#[verifier::external_body]
fn raw_clone_receiver<T>(
    receiver: &crossbeam::channel::Receiver<T>,
) -> (r: crossbeam::channel::Receiver<T>)
    ensures
        r == *receiver,
{
    receiver.clone()
}

/// The sending half of a named channel, instrumented with the accepted
/// counter and the size gauge; cloneable and safe to use from many
/// execution contexts.
#[verifier::reject_recursive_types(T)]
pub struct ChannelSender<T> {
    pub name: String,
    pub sender: crossbeam::channel::Sender<T>,
    pub capacity: usize,
    pub size: Arc<AtomicI64>,
    pub accepted_counter: Arc<AtomicU64>,
}

impl<T> ChannelSender<T> {
    pub fn new(
        name: &str,
        sender: crossbeam::channel::Sender<T>,
        capacity: usize,
        size: Arc<AtomicI64>,
        accepted_counter: Arc<AtomicU64>,
    ) -> (s: ChannelSender<T>)
        ensures
            s.name@ == name@,
            s.sender == sender,
            s.capacity == capacity,
            s.size == size,
            s.accepted_counter == accepted_counter,
    {
        ChannelSender { name: name.to_owned(), sender, capacity, size, accepted_counter }
    }

    pub fn capacity(&self) -> (n: usize)
        ensures
            n == self.capacity,
    {
        self.capacity
    }

    /// Blocking send; on success the accepted counter and size gauge move.
    /// Which interleaving the queue sees is up to the other contexts, so
    /// only the error's content is pinned: it returns the element.
    pub fn send(&self, t: T) -> (r: Result<(), SendError<T>>)
        ensures
            r matches Err(e) ==> e.0 == t,
    {
        match raw_send(&self.sender, t) {
            Ok(()) => {
                counter_add(&self.accepted_counter, 1);
                gauge_add(&self.size, 1);
                Ok(())
            },
            Err(e) => Err(e),
        }
    }

    /// Non-blocking send: fails immediately with a distinguishable full or
    /// disconnected error that returns the element.
    pub fn try_send(&self, t: T) -> (r: Result<(), TrySendError<T>>)
        ensures
            r matches Err(e) ==> e == TrySendError::Full(t) || e == TrySendError::Disconnected(t),
    {
        match raw_try_send(&self.sender, t) {
            Ok(()) => {
                counter_add(&self.accepted_counter, 1);
                gauge_add(&self.size, 1);
                Ok(())
            },
            Err(e) => Err(e),
        }
    }

    /// Send that waits at most the given time; the error returns the
    /// element, marked timed-out or disconnected.
    pub fn send_timeout(&self, t: T, timeout_ms: u64) -> (r: Result<(), SendTimeoutError<T>>)
        ensures
            r matches Err(e) ==> e == SendTimeoutError::Timeout(t) || e
                == SendTimeoutError::Disconnected(t),
    {
        match raw_send_timeout(&self.sender, t, timeout_ms) {
            Ok(()) => {
                counter_add(&self.accepted_counter, 1);
                gauge_add(&self.size, 1);
                Ok(())
            },
            Err(e) => Err(e),
        }
    }
}

impl<T> Clone for ChannelSender<T> {
    fn clone(&self) -> (r: Self)
        ensures
            r == *self,
    {
        ChannelSender {
            name: self.name.clone(),
            sender: raw_clone_sender(&self.sender),
            capacity: self.capacity,
            size: share_gauge(&self.size),
            accepted_counter: share_counter(&self.accepted_counter),
        }
    }
}

/// The receiving half of a named channel, instrumented with the drain
/// counter and the size gauge; cloneable and safe to use from many
/// execution contexts.
#[verifier::reject_recursive_types(T)]
pub struct ChannelReceiver<T> {
    pub name: String,
    pub receiver: crossbeam::channel::Receiver<T>,
    pub size: Arc<AtomicI64>,
    pub drain_counter: Arc<AtomicU64>,
}

impl<T> ChannelReceiver<T> {
    pub fn new(
        name: &str,
        receiver: crossbeam::channel::Receiver<T>,
        size: Arc<AtomicI64>,
        drain_counter: Arc<AtomicU64>,
    ) -> (s: ChannelReceiver<T>)
        ensures
            s.name@ == name@,
            s.receiver == receiver,
            s.size == size,
            s.drain_counter == drain_counter,
    {
        ChannelReceiver { name: name.to_owned(), receiver, size, drain_counter }
    }

    /// Blocking receive; which element arrives is up to the concurrent
    /// senders.  On success the drain counter and size gauge move.
    pub fn recv(&self) -> Result<T, RecvError> {
        match raw_recv(&self.receiver) {
            Ok(t) => {
                counter_add(&self.drain_counter, 1);
                gauge_add(&self.size, -1);
                Ok(t)
            },
            Err(e) => Err(e),
        }
    }

    /// Non-blocking receive: an empty poll and a disconnected channel are
    /// told apart.
    pub fn try_recv(&self) -> Result<T, TryRecvError> {
        match raw_try_recv(&self.receiver) {
            Ok(t) => {
                counter_add(&self.drain_counter, 1);
                gauge_add(&self.size, -1);
                Ok(t)
            },
            Err(e) => Err(e),
        }
    }

    /// Receive that waits at most the given time.
    pub fn recv_timeout(&self, timeout_ms: u64) -> Result<T, RecvTimeoutError> {
        match raw_recv_timeout(&self.receiver, timeout_ms) {
            Ok(t) => {
                counter_add(&self.drain_counter, 1);
                gauge_add(&self.size, -1);
                Ok(t)
            },
            Err(e) => Err(e),
        }
    }
}

impl<T> Clone for ChannelReceiver<T> {
    fn clone(&self) -> (r: Self)
        ensures
            r == *self,
    {
        ChannelReceiver {
            name: self.name.clone(),
            receiver: raw_clone_receiver(&self.receiver),
            size: share_gauge(&self.size),
            drain_counter: share_counter(&self.drain_counter),
        }
    }
}

/// Creates one named channel endpoint pair: bounded when the capacity is at
/// most the policy threshold, unbounded otherwise, and registers its
/// capacity gauge, size gauge, accepted counter and drain counter against
/// the registry under the fixed name prefixes, each carrying the
/// caller-supplied tags.
pub fn named_channel<T>(
    name: &str,
    tags: Vec<Tag>,
    cap: usize,
    registry: &mut MetricsRegistry,
) -> (r: (ChannelSender<T>, ChannelReceiver<T>))
    requires
        cap <= i64::MAX,
    ensures
        r.0.name@ == name@,
        r.0.capacity == cap,
        r.1.name@ == name@,
        r.0.size == r.1.size,
        final(registry).entries@.len() == old(registry).entries@.len() + 4,
        forall|j: int|
            0 <= j < old(registry).entries@.len() ==> final(registry).entries@[j] == old(
                registry,
            ).entries@[j],
        ({
            let base = old(registry).entries@.len() as int;
            let entries = final(registry).entries@;
            &&& entries[base].kind == MetricKind::Gauge
            &&& entries[base].name@ == "Channel.Capacity."@ + name@
            &&& entries[base].tags@ == tags@
            &&& entries[base + 1].kind == MetricKind::Gauge
            &&& entries[base + 1].name@ == "Channel.Size."@ + name@
            &&& entries[base + 1].tags@ == tags@
            &&& entries[base + 1].cell == MetricCell::Gauge(r.0.size)
            &&& entries[base + 2].kind == MetricKind::Counter
            &&& entries[base + 2].name@ == "Channel.Accepted."@ + name@
            &&& entries[base + 2].tags@ == tags@
            &&& entries[base + 2].cell == MetricCell::Counter(r.0.accepted_counter)
            &&& entries[base + 3].kind == MetricKind::Counter
            &&& entries[base + 3].name@ == "Channel.Drain."@ + name@
            &&& entries[base + 3].tags@ == tags@
            &&& entries[base + 3].cell == MetricCell::Counter(r.1.drain_counter)
        }),
{
    let size = Arc::new(AtomicI64::new(0));
    let accepted_counter = Arc::new(AtomicU64::new(0));
    let drain_counter = Arc::new(AtomicU64::new(0));
    let capacity_gauge = Arc::new(AtomicI64::new(cap as i64));

    let (sender, receiver) = if cap <= BOUNDED_CAPACITY_LIMIT {
        bounded(cap)
    } else {
        unbounded()
    };

    registry.register_gauge(
        "Channel.Capacity.".to_owned().concat(name),
        clone_tags(&tags),
        capacity_gauge,
    );
    registry.register_gauge(
        "Channel.Size.".to_owned().concat(name),
        clone_tags(&tags),
        share_gauge(&size),
    );
    registry.register_counter(
        "Channel.Accepted.".to_owned().concat(name),
        clone_tags(&tags),
        share_counter(&accepted_counter),
    );
    registry.register_counter("Channel.Drain.".to_owned().concat(name), tags, share_counter(
        &drain_counter,
    ));

    let channel_sender = ChannelSender::new(
        name,
        sender,
        cap,
        share_gauge(&size),
        accepted_counter,
    );
    let channel_receiver = ChannelReceiver::new(name, receiver, size, drain_counter);
    (channel_sender, channel_receiver)
}

} // verus!
