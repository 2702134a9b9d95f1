//! The named channel: a FIFO queue of typed elements with a capacity policy,
//! an accepted counter and a drained counter.
//!
//! `NamedChannel` is the single-owner model of one channel endpoint pair: the
//! queue, the policy (bounded when the requested capacity is at most
//! [`BOUNDED_CAPACITY_LIMIT`], unbounded otherwise) and the two monotonic flow
//! counters, with exact contracts over the ghost [`ChannelView`].  An
//! operation that would block forever in a single-owner setting (a blocking
//! send on a full bounded channel, a blocking receive on an empty open one)
//! is excluded by precondition; the timeout variants model the wait running
//! out instead.  The concurrent, shareable handles over the same semantics
//! live in [`crate::named`].

use vstd::prelude::*;

verus! {

/// Capacity threshold of the policy: a channel created with a capacity at
/// most this bound is a fixed-size bounded queue; anything larger is an
/// unbounded queue, limited only by memory.  The value is a documented
/// design constant: small capacities serve tightly-coupled local hand-offs
/// where backpressure is wanted.
pub const BOUNDED_CAPACITY_LIMIT: usize = 32;

/// An opaque, cloneable unit of stream data: a record, barrier or control
/// marker, treated by the transport as an immutable payload.
#[derive(Debug, PartialEq, Eq)]
pub struct Element {
    pub payload: Vec<u8>,
}

impl View for Element {
    type V = Seq<u8>;

    open spec fn view(&self) -> Seq<u8> {
        self.payload@
    }
}

impl Element {
    pub fn new(payload: Vec<u8>) -> (e: Element)
        ensures
            e@ == payload@,
    {
        Element { payload }
    }
}

impl Clone for Element {
    fn clone(&self) -> (r: Self)
        ensures
            r@ == self@,
    {
        let payload = self.payload.clone();
        assert(payload@ =~= self.payload@);
        Element { payload }
    }
}

/// Error of a non-blocking send.
#[derive(Debug, PartialEq, Eq)]
pub enum TrySendError<T> {
    /// The bounded queue holds as many elements as its capacity allows;
    /// recoverable, the caller retries or blocks.
    Full(T),
    /// The receiving side is gone; permanently terminal for this channel.
    Disconnected(T),
}

/// Error of a blocking send: the receiving side is gone.
#[derive(Debug, PartialEq, Eq)]
pub struct SendError<T>(pub T);

/// Error of a send that waits at most a given time.
#[derive(Debug, PartialEq, Eq)]
pub enum SendTimeoutError<T> {
    /// The wait ran out while the queue stayed full.
    Timeout(T),
    /// The receiving side is gone.
    Disconnected(T),
}

/// Error of a non-blocking receive.
#[derive(Clone, Copy, Debug, PartialEq, Eq, Structural)]
pub enum TryRecvError {
    /// The queue held no element at poll time.
    Empty,
    /// The sending side is gone and the queue is drained.
    Disconnected,
}

/// Error of a blocking receive: the sending side is gone and the queue is
/// drained.
#[derive(Clone, Copy, Debug, PartialEq, Eq, Structural)]
pub struct RecvError;

/// Error of a receive that waits at most a given time.
#[derive(Clone, Copy, Debug, PartialEq, Eq, Structural)]
pub enum RecvTimeoutError {
    /// The wait ran out while the queue stayed empty.
    Timeout,
    /// The sending side is gone and the queue is drained.
    Disconnected,
}

/// The mathematical state of a channel: its queued elements front first,
/// the requested capacity, the two monotonic counters, and whether one side
/// has been fully dropped.
#[verifier::ext_equal]
pub struct ChannelView<T> {
    pub queue: Seq<T>,
    pub capacity: nat,
    pub accepted: nat,
    pub drained: nat,
    pub closed: bool,
}

impl<T> ChannelView<T> {
    /// The capacity policy: a fixed-size bounded queue for small capacities,
    /// an unbounded queue otherwise.
    pub open spec fn is_bounded(self) -> bool {
        self.capacity <= BOUNDED_CAPACITY_LIMIT
    }

    /// Internal invariant: the accepted counter exceeds the drained counter
    /// by exactly the number of resident elements, counters fit the machine
    /// word, and a bounded queue never exceeds its capacity.
    pub open spec fn wf(self) -> bool {
        &&& self.accepted == self.drained + self.queue.len()
        &&& self.accepted <= u64::MAX
        &&& self.capacity <= usize::MAX
        &&& (self.is_bounded() ==> self.queue.len() <= self.capacity)
    }

    /// Whether the channel has room for one more element: an open unbounded
    /// channel always does, an open bounded one exactly while below its
    /// capacity.
    pub open spec fn can_accept(self) -> bool {
        !self.closed && (self.is_bounded() ==> self.queue.len() < self.capacity)
    }

    /// The state after one accepted element.
    pub open spec fn send_step(self, t: T) -> ChannelView<T> {
        ChannelView { queue: self.queue.push(t), accepted: self.accepted + 1, ..self }
    }

    /// The state after one drained element.
    pub open spec fn recv_step(self) -> ChannelView<T> {
        ChannelView { queue: self.queue.drop_first(), drained: self.drained + 1, ..self }
    }

    /// The state after one side dropped its last handle.
    pub open spec fn close_step(self) -> ChannelView<T> {
        ChannelView { closed: true, ..self }
    }
}

/// A named channel endpoint pair under single ownership: the FIFO queue,
/// the capacity policy and the flow counters.
pub struct NamedChannel<T> {
    queue: Vec<T>,
    capacity: usize,
    accepted: u64,
    drained: u64,
    closed: bool,
}

impl<T> View for NamedChannel<T> {
    type V = ChannelView<T>;

    closed spec fn view(&self) -> ChannelView<T> {
        ChannelView {
            queue: self.queue@,
            capacity: self.capacity as nat,
            accepted: self.accepted as nat,
            drained: self.drained as nat,
            closed: self.closed,
        }
    }
}

impl<T> NamedChannel<T> {
    /// Creates an empty open channel; the capacity policy follows from the
    /// requested capacity.
    pub fn new(capacity: usize) -> (c: NamedChannel<T>)
        ensures
            c@.wf(),
            c@.queue == Seq::<T>::empty(),
            c@.capacity == capacity as nat,
            c@.accepted == 0,
            c@.drained == 0,
            !c@.closed,
    {
        NamedChannel { queue: Vec::new(), capacity, accepted: 0, drained: 0, closed: false }
    }

    pub fn len(&self) -> (n: usize)
        ensures
            n == self@.queue.len(),
    {
        self.queue.len()
    }

    pub fn is_empty(&self) -> (b: bool)
        ensures
            b == (self@.queue.len() == 0),
    {
        self.queue.len() == 0
    }

    pub fn capacity(&self) -> (n: usize)
        ensures
            n as nat == self@.capacity,
    {
        self.capacity
    }

    pub fn is_bounded(&self) -> (b: bool)
        ensures
            b == self@.is_bounded(),
    {
        self.capacity <= BOUNDED_CAPACITY_LIMIT
    }

    /// Total elements ever enqueued.
    pub fn accepted(&self) -> (n: u64)
        ensures
            n as nat == self@.accepted,
    {
        self.accepted
    }

    /// Total elements ever dequeued.
    pub fn drained(&self) -> (n: u64)
        ensures
            n as nat == self@.drained,
    {
        self.drained
    }

    pub fn is_closed(&self) -> (b: bool)
        ensures
            b == self@.closed,
    {
        self.closed
    }

    /// Marks the channel closed: the state after one side dropped all its
    /// handles.  A closed channel is permanently closed.
    pub fn close(&mut self)
        ensures
            final(self)@ == old(self)@.close_step(),
    {
        self.closed = true;
    }

    /// Non-blocking enqueue: fails immediately with a distinguishable
    /// full-versus-disconnected error instead of waiting.
    pub fn try_send(&mut self, t: T) -> (r: Result<(), TrySendError<T>>)
        requires
            old(self)@.wf(),
            old(self)@.accepted < u64::MAX,
        ensures
            final(self)@.wf(),
            old(self)@.can_accept() ==> r == Ok::<(), TrySendError<T>>(()) && final(self)@ == old(self)@.send_step(t),
            !old(self)@.can_accept() ==> final(self)@ == old(self)@,
            old(self)@.closed ==> r == Err::<(), TrySendError<T>>(TrySendError::Disconnected(t)),
            !old(self)@.closed && !old(self)@.can_accept() ==> r == Err::<(), TrySendError<T>>(
                TrySendError::Full(t),
            ),
    {
        if self.closed {
            return Err(TrySendError::Disconnected(t));
        }
        if self.capacity <= BOUNDED_CAPACITY_LIMIT && self.queue.len() >= self.capacity {
            return Err(TrySendError::Full(t));
        }
        self.queue.push(t);
        self.accepted = self.accepted + 1;
        Ok(())
    }

    /// Blocking enqueue: waits for space on a full bounded channel, so that
    /// call is excluded here by precondition; on an unbounded channel space
    /// is always available (`ChannelView::can_accept`), bounded only by
    /// memory.  Fails only when the receiving side is gone.
    pub fn send(&mut self, t: T) -> (r: Result<(), SendError<T>>)
        requires
            old(self)@.wf(),
            old(self)@.accepted < u64::MAX,
            old(self)@.can_accept() || old(self)@.closed,
        ensures
            final(self)@.wf(),
            old(self)@.closed ==> r == Err::<(), SendError<T>>(SendError(t)) && final(self)@ == old(self)@,
            !old(self)@.closed ==> r == Ok::<(), SendError<T>>(()) && final(self)@ == old(self)@.send_step(t),
    {
        if self.closed {
            return Err(SendError(t));
        }
        self.queue.push(t);
        self.accepted = self.accepted + 1;
        Ok(())
    }

    /// Enqueue that waits at most the given time: the wait running out on a
    /// full bounded channel is the timeout outcome.
    pub fn send_timeout(&mut self, t: T, timeout_ms: u64) -> (r: Result<(), SendTimeoutError<T>>)
        requires
            old(self)@.wf(),
            old(self)@.accepted < u64::MAX,
        ensures
            final(self)@.wf(),
            old(self)@.can_accept() ==> r == Ok::<(), SendTimeoutError<T>>(()) && final(self)@
                == old(self)@.send_step(t),
            !old(self)@.can_accept() ==> final(self)@ == old(self)@,
            old(self)@.closed ==> r == Err::<(), SendTimeoutError<T>>(
                SendTimeoutError::Disconnected(t),
            ),
            !old(self)@.closed && !old(self)@.can_accept() ==> r == Err::<(), SendTimeoutError<T>>(
                SendTimeoutError::Timeout(t),
            ),
    {
        let _ = timeout_ms;
        if self.closed {
            return Err(SendTimeoutError::Disconnected(t));
        }
        if self.capacity <= BOUNDED_CAPACITY_LIMIT && self.queue.len() >= self.capacity {
            return Err(SendTimeoutError::Timeout(t));
        }
        self.queue.push(t);
        self.accepted = self.accepted + 1;
        Ok(())
    }

    /// Non-blocking dequeue: yields the oldest element; on an empty queue it
    /// reports immediately whether the channel merely had no data or is
    /// closed for good.  Elements buffered before closure still drain.
    pub fn try_recv(&mut self) -> (r: Result<T, TryRecvError>)
        requires
            old(self)@.wf(),
        ensures
            final(self)@.wf(),
            old(self)@.queue.len() > 0 ==> r == Ok::<T, TryRecvError>(old(self)@.queue[0]) && final(self)@ == old(self)@.recv_step(),
            old(self)@.queue.len() == 0 ==> final(self)@ == old(self)@,
            old(self)@.queue.len() == 0 && old(self)@.closed ==> r == Err::<T, TryRecvError>(
                TryRecvError::Disconnected,
            ),
            old(self)@.queue.len() == 0 && !old(self)@.closed ==> r == Err::<T, TryRecvError>(
                TryRecvError::Empty,
            ),
    {
        if self.queue.len() > 0 {
            let t = self.queue.remove(0);
            self.drained = self.drained + 1;
            assert(self.queue@ =~= old(self)@.queue.drop_first());
            Ok(t)
        } else if self.closed {
            Err(TryRecvError::Disconnected)
        } else {
            Err(TryRecvError::Empty)
        }
    }

    /// Blocking dequeue: waits for an element on an empty open channel, so
    /// that call is excluded here by precondition.  Fails only when the
    /// channel is closed and drained.
    pub fn recv(&mut self) -> (r: Result<T, RecvError>)
        requires
            old(self)@.wf(),
            old(self)@.queue.len() > 0 || old(self)@.closed,
        ensures
            final(self)@.wf(),
            old(self)@.queue.len() > 0 ==> r == Ok::<T, RecvError>(old(self)@.queue[0]) && final(self)@ == old(self)@.recv_step(),
            old(self)@.queue.len() == 0 ==> r == Err::<T, RecvError>(RecvError) && final(self)@
                == old(self)@,
    {
        if self.queue.len() > 0 {
            let t = self.queue.remove(0);
            self.drained = self.drained + 1;
            assert(self.queue@ =~= old(self)@.queue.drop_first());
            Ok(t)
        } else {
            Err(RecvError)
        }
    }

    /// Dequeue that waits at most the given time: the wait running out on an
    /// empty open channel is the timeout outcome.
    pub fn recv_timeout(&mut self, timeout_ms: u64) -> (r: Result<T, RecvTimeoutError>)
        requires
            old(self)@.wf(),
        ensures
            final(self)@.wf(),
            old(self)@.queue.len() > 0 ==> r == Ok::<T, RecvTimeoutError>(old(self)@.queue[0])
                && final(self)@ == old(self)@.recv_step(),
            old(self)@.queue.len() == 0 ==> final(self)@ == old(self)@,
            old(self)@.queue.len() == 0 && old(self)@.closed ==> r == Err::<T, RecvTimeoutError>(
                RecvTimeoutError::Disconnected,
            ),
            old(self)@.queue.len() == 0 && !old(self)@.closed ==> r == Err::<T, RecvTimeoutError>(
                RecvTimeoutError::Timeout,
            ),
    {
        let _ = timeout_ms;
        if self.queue.len() > 0 {
            let t = self.queue.remove(0);
            self.drained = self.drained + 1;
            assert(self.queue@ =~= old(self)@.queue.drop_first());
            Ok(t)
        } else if self.closed {
            Err(RecvTimeoutError::Disconnected)
        } else {
            Err(RecvTimeoutError::Timeout)
        }
    }
}

/// Select-style readiness probe over several receivers: the lowest index
/// whose channel holds data, if any.  A server uses it to multiplex many
/// edges without letting one slow edge starve another.
pub fn select_ready<T>(channels: &Vec<NamedChannel<T>>) -> (r: Option<usize>)
    ensures
        r matches Some(i) ==> i < channels@.len() && channels@[i as int]@.queue.len() > 0 && (
        forall|j: int| 0 <= j < i ==> channels@[j]@.queue.len() == 0),
        r is None ==> forall|j: int|
            0 <= j < channels@.len() ==> channels@[j]@.queue.len() == 0,
{
    let n = channels.len();
    let mut i: usize = 0;
    while i < n
        invariant
            i <= n,
            n == channels@.len(),
            forall|j: int| 0 <= j < i ==> channels@[j]@.queue.len() == 0,
        decreases n - i,
    {
        if channels[i].len() > 0 {
            return Some(i);
        }
        i = i + 1;
    }
    None
}

// ---------------------------------------------------------------------------
// Laws
// ---------------------------------------------------------------------------

/// At any observation point the accepted counter minus the drained counter
/// equals the number of elements currently resident in the channel.
pub proof fn law_counter_balance<T>(v: ChannelView<T>)
    requires
        v.wf(),
    ensures
        v.accepted - v.drained == v.queue.len(),
{
}

/// A bounded channel holding as many undrained elements as its capacity
/// rejects further elements, and accepts again after one receive.
pub proof fn law_bounded_backpressure<T>(v: ChannelView<T>)
    requires
        v.wf(),
        v.is_bounded(),
        !v.closed,
        v.queue.len() == v.capacity,
    ensures
        !v.can_accept(),
        v.capacity > 0 ==> v.recv_step().can_accept(),
{
}

/// An open unbounded channel accepts regardless of backlog size: a send
/// never blocks on space, bounded only by available memory.
pub proof fn law_unbounded_never_blocks<T>(v: ChannelView<T>)
    requires
        v.wf(),
        !v.is_bounded(),
        !v.closed,
    ensures
        v.can_accept(),
{
}

/// The state after a sequence of sends, oldest first.
pub open spec fn multi_send<T>(v: ChannelView<T>, es: Seq<T>) -> ChannelView<T>
    decreases es.len(),
{
    if es.len() == 0 {
        v
    } else {
        multi_send(v.send_step(es[0]), es.drop_first())
    }
}

/// A sequence of sends appends exactly those elements, in order, behind the
/// queue, and raises the accepted counter by their number.
pub proof fn lemma_multi_send<T>(v: ChannelView<T>, es: Seq<T>)
    ensures
        multi_send(v, es).queue == v.queue + es,
        multi_send(v, es).accepted == v.accepted + es.len(),
        multi_send(v, es).drained == v.drained,
        multi_send(v, es).capacity == v.capacity,
        multi_send(v, es).closed == v.closed,
    decreases es.len(),
{
    if es.len() == 0 {
        assert(v.queue + es =~= v.queue);
    } else {
        lemma_multi_send(v.send_step(es[0]), es.drop_first());
        assert(v.queue.push(es[0]) + es.drop_first() =~= v.queue + es);
    }
}

/// FIFO order: after a sequence of sends on an initially empty channel, the
/// queue holds exactly that sequence, so the elements dequeue in the order
/// they were enqueued.
pub proof fn law_fifo_order<T>(v: ChannelView<T>, es: Seq<T>)
    requires
        v.wf(),
        v.queue.len() == 0,
    ensures
        multi_send(v, es).queue == es,
{
    lemma_multi_send(v, es);
    assert(v.queue + es =~= es);
}

} // verus!
