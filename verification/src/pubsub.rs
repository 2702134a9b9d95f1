//! The pull-based publish/subscribe exchange.
//!
//! The publish server owns the source side of an edge: for each request it
//! drains up to `batch_pull_size` elements from the local channel without
//! blocking and answers with data frames terminated by `BatchFinish`, or by
//! `Empty` when the channel held nothing at poll time.  The subscribe client
//! is a state machine driven by frames and timer events; it issues one
//! request per poll cycle and backs off after an empty or failed exchange,
//! so that an idle producer is never busy-polled.

use vstd::prelude::*;

use crate::channel::{ChannelView, Element, NamedChannel};
use crate::codec::{request_of_bytes, ElementRequest, FrameView, ResponseFrame};
use crate::runtime::ChannelKey;

verus! {

// ---------------------------------------------------------------------------
// Publish server
// ---------------------------------------------------------------------------

/// How many elements one request drains: the batch quota, or the backlog if
/// it is smaller.
pub open spec fn batch_count(v: ChannelView<Element>, batch_pull_size: u16) -> int {
    if batch_pull_size as int <= v.queue.len() {
        batch_pull_size as int
    } else {
        v.queue.len() as int
    }
}

/// The response stream one request earns: the drained elements in channel
/// order followed by `BatchFinish` (the quota, possibly zero, was reached
/// while data may remain); `Empty` exactly when the open channel held zero
/// elements at poll time; `ReadErr` when the channel is closed and drained.
pub open spec fn served_frames(v: ChannelView<Element>, batch_pull_size: u16) -> Seq<
    ResponseFrame,
> {
    let m = batch_count(v, batch_pull_size);
    if v.queue.len() == 0 {
        if v.closed {
            seq![ResponseFrame::ReadErr]
        } else {
            seq![ResponseFrame::Empty]
        }
    } else {
        Seq::new(m as nat, |i: int| ResponseFrame::Data(v.queue[i])).push(
            ResponseFrame::BatchFinish,
        )
    }
}

/// The channel state after one request was served.
pub open spec fn after_serve(v: ChannelView<Element>, batch_pull_size: u16) -> ChannelView<
    Element,
> {
    let m = batch_count(v, batch_pull_size);
    ChannelView { queue: v.queue.skip(m), drained: (v.drained + m) as nat, ..v }
}

/// Serves one pull request against the local channel: drains up to
/// `batch_pull_size` elements without blocking and returns the full
/// response stream for this request.
pub fn serve_batch(channel: &mut NamedChannel<Element>, batch_pull_size: u16) -> (frames: Vec<
    ResponseFrame,
>)
    requires
        old(channel)@.wf(),
    ensures
        final(channel)@.wf(),
        frames@ == served_frames(old(channel)@, batch_pull_size),
        final(channel)@ == after_serve(old(channel)@, batch_pull_size),
{
    let ghost v0 = channel@;
    let n = channel.len();
    let quota = batch_pull_size as usize;
    let m = if quota <= n {
        quota
    } else {
        n
    };
    let mut frames: Vec<ResponseFrame> = Vec::new();
    if n == 0 {
        if channel.is_closed() {
            frames.push(ResponseFrame::ReadErr);
            assert(frames@ =~= served_frames(v0, batch_pull_size));
        } else {
            frames.push(ResponseFrame::Empty);
            assert(frames@ =~= served_frames(v0, batch_pull_size));
        }
        assert(channel@ =~= after_serve(v0, batch_pull_size));
        return frames;
    }
    proof {
        assert(v0.queue.skip(0) =~= v0.queue);
    }
    let mut i: usize = 0;
    while i < m
        invariant
            i <= m,
            m == batch_count(v0, batch_pull_size),
            m <= v0.queue.len(),
            v0.wf(),
            channel@ == (ChannelView {
                queue: v0.queue.skip(i as int),
                drained: (v0.drained + i) as nat,
                ..v0
            }),
            frames@ == Seq::new(i as nat, |j: int| ResponseFrame::Data(v0.queue[j])),
        decreases m - i,
    {
        assert(channel@.wf());
        assert(channel@.queue.len() == v0.queue.len() - i > 0);
        let el = match channel.recv() {
            Ok(el) => el,
            Err(_) => {
                proof {
                    assert(false);
                }
                Element { payload: Vec::new() }
            },
        };
        assert(el == v0.queue.skip(i as int)[0]);
        assert(el == v0.queue[i as int]);
        frames.push(ResponseFrame::Data(el));
        proof {
            assert(v0.queue.skip(i as int).drop_first() =~= v0.queue.skip(i + 1));
            assert(frames@ =~= Seq::new((i + 1) as nat, |j: int| ResponseFrame::Data(v0.queue[j])));
        }
        i = i + 1;
    }
    frames.push(ResponseFrame::BatchFinish);
    proof {
        assert(frames@ =~= served_frames(v0, batch_pull_size));
        assert(channel@ =~= after_serve(v0, batch_pull_size));
    }
    frames
}

/// The response stream a raw request frame earns from the edge `key`: a
/// lone `ParseErr` for a frame that does not decode or that names another
/// edge, the served batch otherwise.
pub open spec fn request_frames(
    v: ChannelView<Element>,
    key: ChannelKey,
    b: Seq<u8>,
) -> Seq<ResponseFrame> {
    match request_of_bytes(b) {
        Ok(req) => if req.channel_key == key {
            served_frames(v, req.batch_pull_size)
        } else {
            seq![ResponseFrame::ParseErr]
        },
        Err(_) => seq![ResponseFrame::ParseErr],
    }
}

/// The channel state after a raw request frame was handled.
pub open spec fn after_request(
    v: ChannelView<Element>,
    key: ChannelKey,
    b: Seq<u8>,
) -> ChannelView<Element> {
    match request_of_bytes(b) {
        Ok(req) => if req.channel_key == key {
            after_serve(v, req.batch_pull_size)
        } else {
            v
        },
        Err(_) => v,
    }
}

/// Handles one raw request frame for the edge this service loop owns: a
/// decode failure or a request for an unknown edge is terminal for the
/// request, not for the connection, and leaves the channel untouched.
pub fn handle_request(
    channel: &mut NamedChannel<Element>,
    key: ChannelKey,
    buf: &Vec<u8>,
) -> (frames: Vec<ResponseFrame>)
    requires
        old(channel)@.wf(),
    ensures
        final(channel)@.wf(),
        frames@ == request_frames(old(channel)@, key, buf@),
        final(channel)@ == after_request(old(channel)@, key, buf@),
{
    match ElementRequest::decode(buf) {
        Ok(req) => {
            if req.channel_key == key {
                serve_batch(channel, req.batch_pull_size)
            } else {
                let mut frames: Vec<ResponseFrame> = Vec::new();
                frames.push(ResponseFrame::ParseErr);
                assert(frames@ =~= seq![ResponseFrame::ParseErr]);
                frames
            }
        },
        Err(_) => {
            let mut frames: Vec<ResponseFrame> = Vec::new();
            frames.push(ResponseFrame::ParseErr);
            assert(frames@ =~= seq![ResponseFrame::ParseErr]);
            frames
        },
    }
}

// ---------------------------------------------------------------------------
// Subscribe client
// ---------------------------------------------------------------------------

/// The per-cycle state of a subscribe client.  There is no terminal state:
/// the client runs for the lifetime of its owning task.
#[derive(Clone, Copy, Debug, PartialEq, Eq, Structural)]
pub enum ClientState {
    /// Ready to issue the next pull request.
    Idle,
    /// A request is on the wire; no frame of its answer has arrived yet.
    RequestSent,
    /// Data frames of the current batch are arriving.
    ReceivingBatch,
    /// Waiting out one backoff interval after an empty or failed exchange.
    BackoffWait,
}

/// What drives the client: a decoded response frame, the poll timer, the
/// backoff timer, or a connection failure.
#[derive(Debug, PartialEq, Eq)]
pub enum ClientEvent {
    /// The poll timer says a new request may go out.
    PollDue,
    /// One decoded response frame arrived.
    Frame(ResponseFrame),
    /// The connection failed; transient, never fatal to the owning task.
    ConnectionFailed,
    /// One backoff interval has elapsed.
    BackoffElapsed,
}

/// What the surrounding loop must perform after a step.
#[derive(Debug, PartialEq, Eq)]
pub enum ClientAction {
    /// Encode and send one `ElementRequest`.
    IssueRequest,
    /// Push the element into the local channel with a blocking send; the
    /// send blocking is how backpressure reaches the network layer.
    DeliverElement(Element),
    /// Start one backoff interval before re-polling.
    StartBackoff,
    /// Nothing to perform.
    Idle,
}

/// The ghost value of a client event.
pub enum ClientEventView {
    PollDue,
    Frame(FrameView),
    ConnectionFailed,
    BackoffElapsed,
}

impl View for ClientEvent {
    type V = ClientEventView;

    open spec fn view(&self) -> ClientEventView {
        match self {
            ClientEvent::PollDue => ClientEventView::PollDue,
            ClientEvent::Frame(f) => ClientEventView::Frame(f@),
            ClientEvent::ConnectionFailed => ClientEventView::ConnectionFailed,
            ClientEvent::BackoffElapsed => ClientEventView::BackoffElapsed,
        }
    }
}

/// The ghost value of a client action.
pub enum ClientActionView {
    IssueRequest,
    DeliverElement(Seq<u8>),
    StartBackoff,
    Idle,
}

impl View for ClientAction {
    type V = ClientActionView;

    open spec fn view(&self) -> ClientActionView {
        match self {
            ClientAction::IssueRequest => ClientActionView::IssueRequest,
            ClientAction::DeliverElement(el) => ClientActionView::DeliverElement(el@),
            ClientAction::StartBackoff => ClientActionView::StartBackoff,
            ClientAction::Idle => ClientActionView::Idle,
        }
    }
}

/// The transition relation of the client: next state for one event.
pub open spec fn client_next(s: ClientState, e: ClientEventView) -> ClientState {
    match (s, e) {
        (ClientState::Idle, ClientEventView::PollDue) => ClientState::RequestSent,
        (ClientState::Idle, _) => ClientState::Idle,
        (ClientState::RequestSent, ClientEventView::Frame(FrameView::Data(_))) =>
            ClientState::ReceivingBatch,
        (ClientState::RequestSent, ClientEventView::Frame(FrameView::BatchFinish)) =>
            ClientState::Idle,
        (ClientState::RequestSent, ClientEventView::Frame(_)) => ClientState::BackoffWait,
        (ClientState::RequestSent, ClientEventView::ConnectionFailed) => ClientState::BackoffWait,
        (ClientState::RequestSent, _) => ClientState::RequestSent,
        (ClientState::ReceivingBatch, ClientEventView::Frame(FrameView::Data(_))) =>
            ClientState::ReceivingBatch,
        (ClientState::ReceivingBatch, ClientEventView::Frame(FrameView::BatchFinish)) =>
            ClientState::Idle,
        (ClientState::ReceivingBatch, ClientEventView::Frame(_)) => ClientState::BackoffWait,
        (ClientState::ReceivingBatch, ClientEventView::ConnectionFailed) =>
            ClientState::BackoffWait,
        (ClientState::ReceivingBatch, _) => ClientState::ReceivingBatch,
        (ClientState::BackoffWait, ClientEventView::BackoffElapsed) => ClientState::Idle,
        (ClientState::BackoffWait, _) => ClientState::BackoffWait,
    }
}

/// The action one event earns.
pub open spec fn client_action(s: ClientState, e: ClientEventView) -> ClientActionView {
    match (s, e) {
        (ClientState::Idle, ClientEventView::PollDue) => ClientActionView::IssueRequest,
        (ClientState::RequestSent, ClientEventView::Frame(FrameView::Data(p))) =>
            ClientActionView::DeliverElement(p),
        (ClientState::RequestSent, ClientEventView::Frame(FrameView::BatchFinish)) =>
            ClientActionView::Idle,
        (ClientState::RequestSent, ClientEventView::Frame(_)) => ClientActionView::StartBackoff,
        (ClientState::RequestSent, ClientEventView::ConnectionFailed) =>
            ClientActionView::StartBackoff,
        (ClientState::ReceivingBatch, ClientEventView::Frame(FrameView::Data(p))) =>
            ClientActionView::DeliverElement(p),
        (ClientState::ReceivingBatch, ClientEventView::Frame(FrameView::BatchFinish)) =>
            ClientActionView::Idle,
        (ClientState::ReceivingBatch, ClientEventView::Frame(_)) =>
            ClientActionView::StartBackoff,
        (ClientState::ReceivingBatch, ClientEventView::ConnectionFailed) =>
            ClientActionView::StartBackoff,
        (ClientState::BackoffWait, _) => ClientActionView::Idle,
        (_, _) => ClientActionView::Idle,
    }
}

/// Performs one step of the client state machine: the next state and the
/// action the surrounding loop must perform.
pub fn client_step(s: ClientState, e: ClientEvent) -> (r: (ClientState, ClientAction))
    ensures
        r.0 == client_next(s, e@),
        r.1@ == client_action(s, e@),
{
    match (s, e) {
        (ClientState::Idle, ClientEvent::PollDue) => (
            ClientState::RequestSent,
            ClientAction::IssueRequest,
        ),
        (ClientState::Idle, _) => (ClientState::Idle, ClientAction::Idle),
        (ClientState::RequestSent, ClientEvent::Frame(ResponseFrame::Data(el))) => (
            ClientState::ReceivingBatch,
            ClientAction::DeliverElement(el),
        ),
        (ClientState::RequestSent, ClientEvent::Frame(ResponseFrame::BatchFinish)) => (
            ClientState::Idle,
            ClientAction::Idle,
        ),
        (ClientState::RequestSent, ClientEvent::Frame(_)) => (
            ClientState::BackoffWait,
            ClientAction::StartBackoff,
        ),
        (ClientState::RequestSent, ClientEvent::ConnectionFailed) => (
            ClientState::BackoffWait,
            ClientAction::StartBackoff,
        ),
        (ClientState::RequestSent, _) => (ClientState::RequestSent, ClientAction::Idle),
        (ClientState::ReceivingBatch, ClientEvent::Frame(ResponseFrame::Data(el))) => (
            ClientState::ReceivingBatch,
            ClientAction::DeliverElement(el),
        ),
        (ClientState::ReceivingBatch, ClientEvent::Frame(ResponseFrame::BatchFinish)) => (
            ClientState::Idle,
            ClientAction::Idle,
        ),
        (ClientState::ReceivingBatch, ClientEvent::Frame(_)) => (
            ClientState::BackoffWait,
            ClientAction::StartBackoff,
        ),
        (ClientState::ReceivingBatch, ClientEvent::ConnectionFailed) => (
            ClientState::BackoffWait,
            ClientAction::StartBackoff,
        ),
        (ClientState::ReceivingBatch, _) => (ClientState::ReceivingBatch, ClientAction::Idle),
        (ClientState::BackoffWait, ClientEvent::BackoffElapsed) => (
            ClientState::Idle,
            ClientAction::Idle,
        ),
        (ClientState::BackoffWait, _) => (ClientState::BackoffWait, ClientAction::Idle),
    }
}

/// Builds the pull request a poll cycle sends for the edge `key`.
pub fn make_request(key: ChannelKey, batch_pull_size: u16) -> (r: ElementRequest)
    ensures
        r == (ElementRequest { channel_key: key, batch_pull_size }),
{
    ElementRequest::new(key, batch_pull_size)
}

/// A request goes out only from `Idle` on a due poll timer.
pub proof fn law_request_only_when_idle(s: ClientState, e: ClientEventView)
    ensures
        client_action(s, e) == ClientActionView::IssueRequest ==> s == ClientState::Idle && e
            == ClientEventView::PollDue,
{
}

/// An `Empty` answer sends the client into a backoff wait, and only the
/// elapse of that backoff interval brings it back to `Idle`.
pub proof fn law_empty_starts_backoff(s: ClientState, e: ClientEventView)
    ensures
        (s == ClientState::RequestSent || s == ClientState::ReceivingBatch) && e
            == ClientEventView::Frame(FrameView::Empty) ==> client_next(s, e)
            == ClientState::BackoffWait && client_action(s, e) == ClientActionView::StartBackoff,
        s == ClientState::BackoffWait && e != ClientEventView::BackoffElapsed ==> client_next(s, e)
            == ClientState::BackoffWait,
{
}

/// The states a run of the client passes, initial state first.
pub open spec fn client_run(s: ClientState, evs: Seq<ClientEventView>) -> ClientState
    decreases evs.len(),
{
    if evs.len() == 0 {
        s
    } else {
        client_run(client_next(s, evs[0]), evs.drop_first())
    }
}

/// How many requests a run issues.
pub open spec fn requests_issued(s: ClientState, evs: Seq<ClientEventView>) -> int
    decreases evs.len(),
{
    if evs.len() == 0 {
        0
    } else {
        (if client_action(s, evs[0]) == ClientActionView::IssueRequest {
            1int
        } else {
            0int
        }) + requests_issued(client_next(s, evs[0]), evs.drop_first())
    }
}

/// How many events of a run could return the machine to `Idle`: finished
/// batches and elapsed backoff intervals.
pub open spec fn idle_openings(evs: Seq<ClientEventView>) -> int
    decreases evs.len(),
{
    if evs.len() == 0 {
        0
    } else {
        (match evs[0] {
            ClientEventView::Frame(FrameView::BatchFinish) => 1int,
            ClientEventView::BackoffElapsed => 1int,
            _ => 0int,
        }) + idle_openings(evs.drop_first())
    }
}

/// Backoff bounds the poll rate: however many poll-timer events fire, a run
/// issues at most one request more than it saw finished batches and elapsed
/// backoff intervals.  Under repeated `Empty` answers a client therefore
/// issues at most one request per backoff interval, never busy-polling.
pub proof fn law_backoff_bounds_requests(s: ClientState, evs: Seq<ClientEventView>)
    ensures
        requests_issued(s, evs) <= (if s == ClientState::Idle {
            1int
        } else {
            0int
        }) + idle_openings(evs),
    decreases evs.len(),
{
    if evs.len() > 0 {
        law_backoff_bounds_requests(client_next(s, evs[0]), evs.drop_first());
    }
}

} // verus!
