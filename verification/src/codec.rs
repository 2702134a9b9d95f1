//! Wire codec of the pull-based publish/subscribe protocol.
//!
//! A pull request (`ElementRequest`) travels as a fixed 22-byte frame in
//! network byte order: a 4-byte length prefix that always holds 18, the
//! source and target task identifiers, and a 16-bit batch-size hint.  A
//! response frame begins with one discriminating byte (`ResponseCode`),
//! followed by a length-prefixed element payload exactly when the code
//! announces a data element.

use vstd::prelude::*;

use crate::channel::Element;
use crate::runtime::{ChannelKey, JobId, TaskId};

verus! {

/// Number of bytes of a request frame after its length prefix.
pub const BODY_LEN: u32 = 18;

/// Total number of bytes of a request frame, length prefix included.
pub const REQUEST_FRAME_LEN: usize = 22;

// ---------------------------------------------------------------------------
// Big-endian byte order
// ---------------------------------------------------------------------------

/// The four bytes of `x` in network byte order.
pub open spec fn u32_be_bytes(x: u32) -> Seq<u8> {
    seq![(x >> 24) as u8, (x >> 16) as u8, (x >> 8) as u8, x as u8]
}

/// The two bytes of `x` in network byte order.
pub open spec fn u16_be_bytes(x: u16) -> Seq<u8> {
    seq![(x >> 8) as u8, x as u8]
}

/// The value read from four bytes in network byte order.
pub open spec fn u32_from_be(b0: u8, b1: u8, b2: u8, b3: u8) -> u32 {
    ((b0 as u32) << 24) | ((b1 as u32) << 16) | ((b2 as u32) << 8) | (b3 as u32)
}

/// The value read from two bytes in network byte order.
pub open spec fn u16_from_be(b0: u8, b1: u8) -> u16 {
    ((b0 as u16) << 8) | (b1 as u16)
}

pub proof fn lemma_u32_be_round_trip(x: u32)
    ensures
        u32_from_be((x >> 24) as u8, (x >> 16) as u8, (x >> 8) as u8, x as u8) == x,
{
    assert((((x >> 24) as u8 as u32) << 24) | (((x >> 16) as u8 as u32) << 16) | (((x >> 8) as u8
        as u32) << 8) | ((x as u8) as u32) == x) by (bit_vector);
}

pub proof fn lemma_u16_be_round_trip(x: u16)
    ensures
        u16_from_be((x >> 8) as u8, x as u8) == x,
{
    assert((((x >> 8) as u8 as u16) << 8) | ((x as u8) as u16) == x) by (bit_vector);
}

/// Appends the four bytes of `x` in network byte order.
fn put_u32(buf: &mut Vec<u8>, x: u32)
    ensures
        final(buf)@ == old(buf)@ + u32_be_bytes(x),
{
    buf.push((x >> 24) as u8);
    buf.push((x >> 16) as u8);
    buf.push((x >> 8) as u8);
    buf.push(x as u8);
    assert(buf@ =~= old(buf)@ + u32_be_bytes(x));
}

/// Appends the two bytes of `x` in network byte order.
fn put_u16(buf: &mut Vec<u8>, x: u16)
    ensures
        final(buf)@ == old(buf)@ + u16_be_bytes(x),
{
    buf.push((x >> 8) as u8);
    buf.push(x as u8);
    assert(buf@ =~= old(buf)@ + u16_be_bytes(x));
}

/// Reads the 32-bit value stored at `i` in network byte order.
fn get_u32(buf: &Vec<u8>, i: usize) -> (x: u32)
    requires
        i + 4 <= buf@.len(),
    ensures
        x == u32_from_be(buf@[i as int], buf@[i + 1], buf@[i + 2], buf@[i + 3]),
{
    let n = buf.len();
    assert(i + 4 <= n);
    ((buf[i] as u32) << 24) | ((buf[i + 1] as u32) << 16) | ((buf[i + 2] as u32) << 8) | (buf[i
        + 3] as u32)
}

/// Reads the 16-bit value stored at `i` in network byte order.
fn get_u16(buf: &Vec<u8>, i: usize) -> (x: u16)
    requires
        i + 2 <= buf@.len(),
    ensures
        x == u16_from_be(buf@[i as int], buf@[i + 1]),
{
    let n = buf.len();
    assert(i + 2 <= n);
    ((buf[i] as u16) << 8) | (buf[i + 1] as u16)
}

// ---------------------------------------------------------------------------
// ElementRequest
// ---------------------------------------------------------------------------

/// A pull request: which edge to pull from, and how many elements at most
/// one round trip should carry.
#[derive(Clone, Copy, Debug, PartialEq, Eq, Structural)]
pub struct ElementRequest {
    pub channel_key: ChannelKey,
    pub batch_pull_size: u16,
}

/// Failure to decode a frame.  Once the length field disagrees the frame
/// boundary is untrustworthy, so no partial recovery is attempted.
#[derive(Clone, Copy, Debug, PartialEq, Eq, Structural)]
pub enum FrameError {
    /// The buffer's length does not fit the layout.
    Truncated,
    /// The body-length field differs from the fixed body length.
    IllegalBodyLength(u32),
}

/// The byte layout of a task identifier: job id, task number, parallelism.
pub open spec fn task_id_bytes(t: TaskId) -> Seq<u8> {
    u32_be_bytes(t.job_id.0) + u16_be_bytes(t.task_number) + u16_be_bytes(t.num_tasks)
}

/// The full 22-byte frame of a request.
pub open spec fn request_bytes(r: ElementRequest) -> Seq<u8> {
    u32_be_bytes(BODY_LEN) + task_id_bytes(r.channel_key.source_task_id) + task_id_bytes(
        r.channel_key.target_task_id,
    ) + u16_be_bytes(r.batch_pull_size)
}

/// The length field of a frame that has at least four bytes.
pub open spec fn frame_body_len(b: Seq<u8>) -> u32
    recommends
        b.len() >= 4,
{
    u32_from_be(b[0], b[1], b[2], b[3])
}

/// The task identifier stored at offset `i` of a decoded frame.
pub open spec fn task_id_at(b: Seq<u8>, i: int) -> TaskId
    recommends
        0 <= i,
        i + 8 <= b.len(),
{
    TaskId {
        job_id: JobId(u32_from_be(b[i], b[i + 1], b[i + 2], b[i + 3])),
        task_number: u16_from_be(b[i + 4], b[i + 5]),
        num_tasks: u16_from_be(b[i + 6], b[i + 7]),
    }
}

/// What decoding a request frame yields: the request, or the framing
/// error.  Bytes beyond the 22-byte frame belong to the next frame and are
/// ignored.
pub open spec fn request_of_bytes(b: Seq<u8>) -> Result<ElementRequest, FrameError> {
    if b.len() < 4 {
        Err(FrameError::Truncated)
    } else if frame_body_len(b) != BODY_LEN {
        Err(FrameError::IllegalBodyLength(frame_body_len(b)))
    } else if b.len() < REQUEST_FRAME_LEN {
        Err(FrameError::Truncated)
    } else {
        Ok(
            ElementRequest {
                channel_key: ChannelKey {
                    source_task_id: task_id_at(b, 4),
                    target_task_id: task_id_at(b, 12),
                },
                batch_pull_size: u16_from_be(b[20], b[21]),
            },
        )
    }
}

impl ElementRequest {
    pub fn new(channel_key: ChannelKey, batch_pull_size: u16) -> (r: ElementRequest)
        ensures
            r == (ElementRequest { channel_key, batch_pull_size }),
    {
        ElementRequest { channel_key, batch_pull_size }
    }

    /// Encodes the request as its fixed 22-byte frame.
    pub fn encode(&self) -> (buf: Vec<u8>)
        ensures
            buf@ == request_bytes(*self),
            buf@.len() == REQUEST_FRAME_LEN,
    {
        let mut buf: Vec<u8> = Vec::new();
        put_u32(&mut buf, BODY_LEN);
        put_u32(&mut buf, self.channel_key.source_task_id.job_id.0);
        put_u16(&mut buf, self.channel_key.source_task_id.task_number);
        put_u16(&mut buf, self.channel_key.source_task_id.num_tasks);
        put_u32(&mut buf, self.channel_key.target_task_id.job_id.0);
        put_u16(&mut buf, self.channel_key.target_task_id.task_number);
        put_u16(&mut buf, self.channel_key.target_task_id.num_tasks);
        put_u16(&mut buf, self.batch_pull_size);
        assert(buf@ =~= request_bytes(*self));
        buf
    }

    /// Decodes a request frame, validating the body-length field exactly;
    /// bytes beyond the frame are ignored.
    pub fn decode(buf: &Vec<u8>) -> (r: Result<ElementRequest, FrameError>)
        ensures
            r == request_of_bytes(buf@),
    {
        if buf.len() < 4 {
            return Err(FrameError::Truncated);
        }
        let body_len = get_u32(buf, 0);
        if body_len != BODY_LEN {
            return Err(FrameError::IllegalBodyLength(body_len));
        }
        if buf.len() < REQUEST_FRAME_LEN {
            return Err(FrameError::Truncated);
        }
        let source_task_id = TaskId {
            job_id: JobId(get_u32(buf, 4)),
            task_number: get_u16(buf, 8),
            num_tasks: get_u16(buf, 10),
        };
        let target_task_id = TaskId {
            job_id: JobId(get_u32(buf, 12)),
            task_number: get_u16(buf, 16),
            num_tasks: get_u16(buf, 18),
        };
        let batch_pull_size = get_u16(buf, 20);
        Ok(
            ElementRequest {
                channel_key: ChannelKey { source_task_id, target_task_id },
                batch_pull_size,
            },
        )
    }
}

/// Encoding then decoding a request yields the identical request; the frame
/// is exactly 22 bytes long and its body-length field holds 18.
pub proof fn lemma_request_round_trip(r: ElementRequest)
    ensures
        request_bytes(r).len() == REQUEST_FRAME_LEN,
        frame_body_len(request_bytes(r)) == BODY_LEN,
        request_of_bytes(request_bytes(r)) == Ok::<ElementRequest, FrameError>(r),
{
    let b = request_bytes(r);
    lemma_u32_be_round_trip(BODY_LEN);
    lemma_u32_be_round_trip(r.channel_key.source_task_id.job_id.0);
    lemma_u16_be_round_trip(r.channel_key.source_task_id.task_number);
    lemma_u16_be_round_trip(r.channel_key.source_task_id.num_tasks);
    lemma_u32_be_round_trip(r.channel_key.target_task_id.job_id.0);
    lemma_u16_be_round_trip(r.channel_key.target_task_id.task_number);
    lemma_u16_be_round_trip(r.channel_key.target_task_id.num_tasks);
    lemma_u16_be_round_trip(r.batch_pull_size);
    assert(b.len() == REQUEST_FRAME_LEN);
    assert(frame_body_len(b) == BODY_LEN);
    assert(task_id_at(b, 4) == r.channel_key.source_task_id);
    assert(task_id_at(b, 12) == r.channel_key.target_task_id);
    assert(u16_from_be(b[20], b[21]) == r.batch_pull_size);
}

// ---------------------------------------------------------------------------
// ResponseCode
// ---------------------------------------------------------------------------

/// Tags the semantic meaning of one response unit.
#[derive(Clone, Copy, Debug, PartialEq, Eq, Structural)]
pub enum ResponseCode {
    /// Reserved forward-compatibility default for unrecognized codes.
    Unknown,
    /// One data element follows.
    Data,
    /// End of the requested batch; the channel may still hold data.
    BatchFinish,
    /// The channel had no data at poll time.
    Empty,
    /// The server could not decode the request.
    ParseErr,
    /// The server failed to read from its local channel.
    ReadErr,
}

/// The byte that carries each code on the wire.
pub open spec fn byte_of_code(c: ResponseCode) -> u8 {
    match c {
        ResponseCode::Unknown => 0,
        ResponseCode::Data => 1,
        ResponseCode::BatchFinish => 2,
        ResponseCode::Empty => 3,
        ResponseCode::ParseErr => 4,
        ResponseCode::ReadErr => 5,
    }
}

/// The code a received byte stands for; every unrecognized byte collapses
/// to `Unknown`.
pub open spec fn code_of_byte(v: u8) -> ResponseCode {
    if v == 1 {
        ResponseCode::Data
    } else if v == 2 {
        ResponseCode::BatchFinish
    } else if v == 3 {
        ResponseCode::Empty
    } else if v == 4 {
        ResponseCode::ParseErr
    } else if v == 5 {
        ResponseCode::ReadErr
    } else {
        ResponseCode::Unknown
    }
}

impl ResponseCode {
    /// The wire byte of this code.
    pub fn to_byte(&self) -> (v: u8)
        ensures
            v == byte_of_code(*self),
    {
        match *self {
            ResponseCode::Unknown => 0,
            ResponseCode::Data => 1,
            ResponseCode::BatchFinish => 2,
            ResponseCode::Empty => 3,
            ResponseCode::ParseErr => 4,
            ResponseCode::ReadErr => 5,
        }
    }

    /// The display name of this code.
    pub fn name(&self) -> (s: &'static str)
        ensures
            s@ == code_name(*self),
    {
        match *self {
            ResponseCode::Data => "OK",
            ResponseCode::BatchFinish => "BatchFinish",
            ResponseCode::Empty => "Empty",
            ResponseCode::ParseErr => "ParseErr",
            ResponseCode::ReadErr => "ReadErr",
            ResponseCode::Unknown => "Unknown",
        }
    }
}

/// The display name of each code.
pub open spec fn code_name(c: ResponseCode) -> Seq<char> {
    match c {
        ResponseCode::Data => "OK"@,
        ResponseCode::BatchFinish => "BatchFinish"@,
        ResponseCode::Empty => "Empty"@,
        ResponseCode::ParseErr => "ParseErr"@,
        ResponseCode::ReadErr => "ReadErr"@,
        ResponseCode::Unknown => "Unknown"@,
    }
}

impl From<u8> for ResponseCode {
    /// Codes 1 through 5 map to their meaning; every other byte, reserved
    /// for future protocol versions, collapses to `Unknown`.
    fn from(v: u8) -> (c: ResponseCode)
        ensures
            c == code_of_byte(v),
    {
        match v {
            1 => ResponseCode::Data,
            2 => ResponseCode::BatchFinish,
            3 => ResponseCode::Empty,
            4 => ResponseCode::ParseErr,
            5 => ResponseCode::ReadErr,
            _ => ResponseCode::Unknown,
        }
    }
}

impl vstd::std_specs::convert::FromSpecImpl<u8> for ResponseCode {
    open spec fn obeys_from_spec() -> bool {
        true
    }

    open spec fn from_spec(v: u8) -> ResponseCode {
        code_of_byte(v)
    }
}

/// Every code survives the trip onto the wire and back, and every byte
/// above 5 (as well as 0) reads as `Unknown`.
pub proof fn lemma_code_round_trip(c: ResponseCode, v: u8)
    ensures
        code_of_byte(byte_of_code(c)) == c,
        v == 0 || v > 5 ==> code_of_byte(v) == ResponseCode::Unknown,
        1 <= v <= 5 ==> byte_of_code(code_of_byte(v)) == v,
{
}

// ---------------------------------------------------------------------------
// Response frames
// ---------------------------------------------------------------------------

/// One response unit of the pull protocol: a data element, or a marker that
/// ends the exchange.
#[derive(Debug, PartialEq, Eq)]
pub enum ResponseFrame {
    /// One element of the requested batch.
    Data(Element),
    /// End of the requested batch; the channel may still hold data.
    BatchFinish,
    /// The channel had no data at poll time.
    Empty,
    /// The request could not be decoded.
    ParseErr,
    /// The local channel could not be read.
    ReadErr,
    /// Carried a reserved code of another protocol version.
    Unknown,
}

/// The mathematical value of a response frame: the payload bytes for a data
/// frame, the bare marker otherwise.
pub enum FrameView {
    Data(Seq<u8>),
    BatchFinish,
    Empty,
    ParseErr,
    ReadErr,
    Unknown,
}

impl View for ResponseFrame {
    type V = FrameView;

    open spec fn view(&self) -> FrameView {
        match self {
            ResponseFrame::Data(el) => FrameView::Data(el@),
            ResponseFrame::BatchFinish => FrameView::BatchFinish,
            ResponseFrame::Empty => FrameView::Empty,
            ResponseFrame::ParseErr => FrameView::ParseErr,
            ResponseFrame::ReadErr => FrameView::ReadErr,
            ResponseFrame::Unknown => FrameView::Unknown,
        }
    }
}

/// The code a frame carries on the wire.
pub open spec fn frame_code(v: FrameView) -> ResponseCode {
    match v {
        FrameView::Data(_) => ResponseCode::Data,
        FrameView::BatchFinish => ResponseCode::BatchFinish,
        FrameView::Empty => ResponseCode::Empty,
        FrameView::ParseErr => ResponseCode::ParseErr,
        FrameView::ReadErr => ResponseCode::ReadErr,
        FrameView::Unknown => ResponseCode::Unknown,
    }
}

/// A data frame's payload must fit its 32-bit length prefix.
pub open spec fn frame_wf(v: FrameView) -> bool {
    v matches FrameView::Data(p) ==> p.len() <= u32::MAX
}

/// The byte layout of a response frame: the code byte, followed by a
/// length-prefixed payload exactly when the code announces a data element.
pub open spec fn frame_bytes(v: FrameView) -> Seq<u8> {
    match v {
        FrameView::Data(p) => seq![1u8] + u32_be_bytes(p.len() as u32) + p,
        _ => seq![byte_of_code(frame_code(v))],
    }
}

/// What decoding a response frame yields.
pub open spec fn response_of_bytes(b: Seq<u8>) -> Result<FrameView, FrameError> {
    if b.len() < 1 {
        Err(FrameError::Truncated)
    } else if code_of_byte(b[0]) == ResponseCode::Data {
        if b.len() < 5 {
            Err(FrameError::Truncated)
        } else if b.len() - 5 != u32_from_be(b[1], b[2], b[3], b[4]) {
            Err(FrameError::Truncated)
        } else {
            Ok(FrameView::Data(b.skip(5)))
        }
    } else if b.len() != 1 {
        Err(FrameError::Truncated)
    } else {
        match code_of_byte(b[0]) {
            ResponseCode::BatchFinish => Ok(FrameView::BatchFinish),
            ResponseCode::Empty => Ok(FrameView::Empty),
            ResponseCode::ParseErr => Ok(FrameView::ParseErr),
            ResponseCode::ReadErr => Ok(FrameView::ReadErr),
            _ => Ok(FrameView::Unknown),
        }
    }
}

impl ResponseFrame {
    /// The code this frame carries.
    pub fn code(&self) -> (c: ResponseCode)
        ensures
            c == frame_code(self@),
    {
        match self {
            ResponseFrame::Data(_) => ResponseCode::Data,
            ResponseFrame::BatchFinish => ResponseCode::BatchFinish,
            ResponseFrame::Empty => ResponseCode::Empty,
            ResponseFrame::ParseErr => ResponseCode::ParseErr,
            ResponseFrame::ReadErr => ResponseCode::ReadErr,
            ResponseFrame::Unknown => ResponseCode::Unknown,
        }
    }

    /// Encodes the frame: its code byte, then the length-prefixed payload
    /// for a data frame.
    pub fn encode(&self) -> (buf: Vec<u8>)
        requires
            frame_wf(self@),
        ensures
            buf@ == frame_bytes(self@),
    {
        let mut buf: Vec<u8> = Vec::new();
        match self {
            ResponseFrame::Data(el) => {
                buf.push(1u8);
                put_u32(&mut buf, el.payload.len() as u32);
                let n = el.payload.len();
                let mut j: usize = 0;
                while j < n
                    invariant
                        j <= n,
                        n == el.payload@.len(),
                        n <= u32::MAX,
                        buf@ == seq![1u8] + u32_be_bytes(n as u32) + el.payload@.take(j as int),
                    decreases n - j,
                {
                    buf.push(el.payload[j]);
                    assert(el.payload@.take(j + 1) =~= el.payload@.take(j as int).push(
                        el.payload@[j as int],
                    ));
                    assert(buf@ =~= seq![1u8] + u32_be_bytes(n as u32) + el.payload@.take(
                        j + 1,
                    ));
                    j = j + 1;
                }
                assert(el.payload@.take(n as int) =~= el.payload@);
            },
            _ => {
                let c = self.code();
                buf.push(c.to_byte());
                assert(buf@ =~= seq![byte_of_code(frame_code(self@))]);
            },
        }
        buf
    }

    /// Decodes a response frame; every unrecognized code byte collapses to
    /// an `Unknown` frame rather than a failure.
    pub fn decode(buf: &Vec<u8>) -> (r: Result<ResponseFrame, FrameError>)
        ensures
            match r {
                Ok(f) => response_of_bytes(buf@) == Ok::<FrameView, FrameError>(f@),
                Err(e) => response_of_bytes(buf@) == Err::<FrameView, FrameError>(e),
            },
    {
        if buf.len() < 1 {
            return Err(FrameError::Truncated);
        }
        let code = ResponseCode::from(buf[0]);
        if code == ResponseCode::Data {
            if buf.len() < 5 {
                return Err(FrameError::Truncated);
            }
            let plen = get_u32(buf, 1);
            let avail = buf.len() - 5;
            if avail as u64 != plen as u64 {
                return Err(FrameError::Truncated);
            }
            let total = buf.len();
            let mut payload: Vec<u8> = Vec::new();
            let mut j: usize = 0;
            while j < avail
                invariant
                    j <= avail,
                    total == buf@.len(),
                    avail == total - 5,
                    payload@ == buf@.subrange(5, 5 + j),
                decreases avail - j,
            {
                payload.push(buf[5 + j]);
                assert(payload@ =~= buf@.subrange(5, 5 + j + 1));
                j = j + 1;
            }
            assert(payload@ =~= buf@.skip(5));
            Ok(ResponseFrame::Data(Element { payload }))
        } else if buf.len() != 1 {
            Err(FrameError::Truncated)
        } else {
            match code {
                ResponseCode::BatchFinish => Ok(ResponseFrame::BatchFinish),
                ResponseCode::Empty => Ok(ResponseFrame::Empty),
                ResponseCode::ParseErr => Ok(ResponseFrame::ParseErr),
                ResponseCode::ReadErr => Ok(ResponseFrame::ReadErr),
                _ => Ok(ResponseFrame::Unknown),
            }
        }
    }
}

/// Encoding then decoding a response frame yields the identical frame; in
/// particular every response code, `Unknown` included, survives the round
/// trip.
pub proof fn lemma_response_round_trip(v: FrameView)
    requires
        frame_wf(v),
    ensures
        response_of_bytes(frame_bytes(v)) == Ok::<FrameView, FrameError>(v),
{
    let b = frame_bytes(v);
    match v {
        FrameView::Data(p) => {
            lemma_u32_be_round_trip(p.len() as u32);
            assert(b[0] == 1);
            assert(b.len() == 5 + p.len());
            assert(b[1] == u32_be_bytes(p.len() as u32)[0]);
            assert(b[2] == u32_be_bytes(p.len() as u32)[1]);
            assert(b[3] == u32_be_bytes(p.len() as u32)[2]);
            assert(b[4] == u32_be_bytes(p.len() as u32)[3]);
            assert(u32_from_be(b[1], b[2], b[3], b[4]) == p.len() as u32);
            assert(b.skip(5) =~= p);
        },
        _ => {
            assert(b.len() == 1);
        },
    }
}

} // verus!
