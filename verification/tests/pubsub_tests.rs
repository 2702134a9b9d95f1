use rlink::channel::{Element, NamedChannel};
use rlink::codec::{ElementRequest, ResponseFrame};
use rlink::pubsub::{
    client_step, handle_request, make_request, serve_batch, ClientAction, ClientEvent, ClientState,
};
use rlink::runtime::{ChannelKey, JobId, TaskId};

fn edge() -> ChannelKey {
    ChannelKey::new(
        TaskId::new(JobId(1), 0, 2),
        TaskId::new(JobId(2), 1, 2),
    )
}

fn data(frame: &ResponseFrame) -> Vec<u8> {
    match frame {
        ResponseFrame::Data(el) => el.payload.clone(),
        _ => panic!("expected a data frame"),
    }
}

#[test]
fn server_scenario_batches_then_empty() {
    let mut ch: NamedChannel<Element> = NamedChannel::new(16);
    ch.send(Element::new(vec![1])).unwrap();
    ch.send(Element::new(vec![2])).unwrap();
    ch.send(Element::new(vec![3])).unwrap();

    // Pull 2 of 3: two data frames, then BatchFinish.
    let frames = serve_batch(&mut ch, 2);
    assert_eq!(frames.len(), 3);
    assert_eq!(data(&frames[0]), vec![1]);
    assert_eq!(data(&frames[1]), vec![2]);
    assert_eq!(frames[2], ResponseFrame::BatchFinish);

    // Pull 5 of the 1 that is left: one data frame, then BatchFinish.
    let frames = serve_batch(&mut ch, 5);
    assert_eq!(frames.len(), 2);
    assert_eq!(data(&frames[0]), vec![3]);
    assert_eq!(frames[1], ResponseFrame::BatchFinish);

    // Pull on the now-empty channel: Empty, immediately.
    let frames = serve_batch(&mut ch, 5);
    assert_eq!(frames, vec![ResponseFrame::Empty]);
}

#[test]
fn server_answers_read_err_on_closed_drained_channel() {
    let mut ch: NamedChannel<Element> = NamedChannel::new(16);
    ch.close();
    assert_eq!(serve_batch(&mut ch, 3), vec![ResponseFrame::ReadErr]);
}

#[test]
fn server_zero_quota_on_nonempty_channel_answers_batch_finish() {
    // The quota is reached at once while data remains: BatchFinish, not
    // Empty, which is reserved for a channel with zero elements.
    let mut ch: NamedChannel<Element> = NamedChannel::new(16);
    ch.send(Element::new(vec![1])).unwrap();
    assert_eq!(serve_batch(&mut ch, 0), vec![ResponseFrame::BatchFinish]);
    assert_eq!(ch.len(), 1);
}

#[test]
fn handle_request_serves_a_well_formed_request() {
    let mut ch: NamedChannel<Element> = NamedChannel::new(16);
    ch.send(Element::new(vec![42])).unwrap();
    let buf = make_request(edge(), 8).encode();
    let frames = handle_request(&mut ch, edge(), &buf);
    assert_eq!(frames.len(), 2);
    assert_eq!(data(&frames[0]), vec![42]);
    assert_eq!(frames[1], ResponseFrame::BatchFinish);
}

#[test]
fn handle_request_answers_parse_err_on_bad_frame() {
    let mut ch: NamedChannel<Element> = NamedChannel::new(16);
    ch.send(Element::new(vec![42])).unwrap();
    let mut buf = make_request(edge(), 8).encode();
    buf[3] = 17;
    let frames = handle_request(&mut ch, edge(), &buf);
    assert_eq!(frames, vec![ResponseFrame::ParseErr]);
    // Terminal for the request only: the channel is untouched.
    assert_eq!(ch.len(), 1);
}

#[test]
fn handle_request_answers_parse_err_on_unknown_edge() {
    let mut ch: NamedChannel<Element> = NamedChannel::new(16);
    ch.send(Element::new(vec![42])).unwrap();
    let other = ChannelKey::new(
        TaskId::new(JobId(77), 0, 1),
        TaskId::new(JobId(78), 0, 1),
    );
    let buf = make_request(other, 8).encode();
    let frames = handle_request(&mut ch, edge(), &buf);
    assert_eq!(frames, vec![ResponseFrame::ParseErr]);
    assert_eq!(ch.len(), 1);
}

#[test]
fn client_issues_request_only_from_idle() {
    let (s, a) = client_step(ClientState::Idle, ClientEvent::PollDue);
    assert_eq!(s, ClientState::RequestSent);
    assert_eq!(a, ClientAction::IssueRequest);

    // No other state issues a request on a due poll.
    for state in [
        ClientState::RequestSent,
        ClientState::ReceivingBatch,
        ClientState::BackoffWait,
    ] {
        let (_, a) = client_step(state, ClientEvent::PollDue);
        assert_ne!(a, ClientAction::IssueRequest);
    }
}

#[test]
fn client_batch_cycle_delivers_elements_then_returns_to_idle() {
    let (s, a) = client_step(
        ClientState::RequestSent,
        ClientEvent::Frame(ResponseFrame::Data(Element::new(vec![5]))),
    );
    assert_eq!(s, ClientState::ReceivingBatch);
    assert_eq!(a, ClientAction::DeliverElement(Element::new(vec![5])));

    let (s, a) = client_step(s, ClientEvent::Frame(ResponseFrame::Data(Element::new(vec![6]))));
    assert_eq!(s, ClientState::ReceivingBatch);
    assert_eq!(a, ClientAction::DeliverElement(Element::new(vec![6])));

    let (s, a) = client_step(s, ClientEvent::Frame(ResponseFrame::BatchFinish));
    assert_eq!(s, ClientState::Idle);
    assert_eq!(a, ClientAction::Idle);
}

#[test]
fn client_backs_off_after_empty_and_repolls_only_after_elapse() {
    let (s, a) = client_step(ClientState::RequestSent, ClientEvent::Frame(ResponseFrame::Empty));
    assert_eq!(s, ClientState::BackoffWait);
    assert_eq!(a, ClientAction::StartBackoff);

    // While the backoff interval runs, poll-timer events issue nothing.
    let (s, a) = client_step(s, ClientEvent::PollDue);
    assert_eq!(s, ClientState::BackoffWait);
    assert_eq!(a, ClientAction::Idle);
    let (s, a) = client_step(s, ClientEvent::PollDue);
    assert_eq!(s, ClientState::BackoffWait);
    assert_eq!(a, ClientAction::Idle);

    let (s, a) = client_step(s, ClientEvent::BackoffElapsed);
    assert_eq!(s, ClientState::Idle);
    assert_eq!(a, ClientAction::Idle);

    let (_, a) = client_step(s, ClientEvent::PollDue);
    assert_eq!(a, ClientAction::IssueRequest);
}

#[test]
fn client_retries_with_backoff_on_errors_and_unknown_codes() {
    for frame in [
        ResponseFrame::ParseErr,
        ResponseFrame::ReadErr,
        ResponseFrame::Unknown,
    ] {
        let (s, a) = client_step(ClientState::RequestSent, ClientEvent::Frame(frame));
        assert_eq!(s, ClientState::BackoffWait);
        assert_eq!(a, ClientAction::StartBackoff);
    }
    let (s, a) = client_step(ClientState::RequestSent, ClientEvent::ConnectionFailed);
    assert_eq!(s, ClientState::BackoffWait);
    assert_eq!(a, ClientAction::StartBackoff);
}

#[test]
fn end_to_end_exchange_over_encoded_frames() {
    // Producer side.
    let mut source: NamedChannel<Element> = NamedChannel::new(16);
    for v in [10u8, 20, 30] {
        source.send(Element::new(vec![v])).unwrap();
    }
    // Consumer side.
    let mut local: NamedChannel<Element> = NamedChannel::new(33);

    let mut state = ClientState::Idle;
    let (s, a) = client_step(state, ClientEvent::PollDue);
    state = s;
    assert_eq!(a, ClientAction::IssueRequest);

    let request_bytes = make_request(edge(), 2).encode();
    let frames = handle_request(&mut source, edge(), &request_bytes);
    for frame in frames {
        let wire = frame.encode();
        let decoded = ResponseFrame::decode(&wire).unwrap();
        let (s, a) = client_step(state, ClientEvent::Frame(decoded));
        state = s;
        if let ClientAction::DeliverElement(el) = a {
            local.send(el).unwrap();
        }
    }
    assert_eq!(state, ClientState::Idle);
    assert_eq!(local.len(), 2);
    assert_eq!(local.recv().unwrap().payload, vec![10]);
    assert_eq!(local.recv().unwrap().payload, vec![20]);
}
