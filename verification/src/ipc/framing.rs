//! Length-prefixed frames and their size limits.
//!
//! A message on the wire is a four-byte unsigned big-endian length followed
//! by that many bytes of UTF-8 JSON. A length beyond the limit of its direction
//! is refused before a single byte of the body is looked at.

use vstd::prelude::*;
use vstd::slice::slice_subrange;
use vstd::string::StringSliceAdditionalSpecFns;

verus! {

/// Largest response body, in bytes: 1 MiB.
pub const MAX_RESPONSE_SIZE: usize = 1024 * 1024;

/// Largest request body, in bytes: 10 MiB.
pub const MAX_REQUEST_SIZE: usize = 10 * 1024 * 1024;

/// Length of the length prefix, in bytes.
pub const HEADER_LEN: usize = 4;

/// The body sent in place of a response that is too large.
pub const PAYLOAD_TOO_LARGE_RESPONSE: &'static str =
    "{\"status\":\"error\",\"data\":null,\"error\":\"PAYLOAD_TOO_LARGE\"}";

/// What can go wrong with a frame.
#[derive(Debug, Clone, Copy, PartialEq, Eq, Structural)]
pub enum IpcError {
    /// A request announced or holds more than the request limit.
    RequestTooLarge,
    /// A response announced more than the response limit.
    ResponseTooLarge,
}

impl IpcError {
    /// The code of the error on the wire.
    pub open spec fn spec_code(self) -> Seq<char> {
        match self {
            IpcError::RequestTooLarge => "PAYLOAD_TOO_LARGE"@,
            IpcError::ResponseTooLarge => "PAYLOAD_TOO_LARGE"@,
        }
    }

    /// The code of the error on the wire.
    pub fn code(&self) -> (r: &'static str)
        ensures
            r@ == self.spec_code(),
    {
        "PAYLOAD_TOO_LARGE"
    }
}

/// The number that four bytes spell, most significant first.
pub open spec fn spec_be_u32(b0: u8, b1: u8, b2: u8, b3: u8) -> nat {
    (b0 as nat) * 0x100_0000 + (b1 as nat) * 0x1_0000 + (b2 as nat) * 0x100 + (b3 as nat)
}

/// The four bytes that spell `len`, most significant first.
pub open spec fn spec_header(len: u32) -> Seq<u8> {
    seq![
        (len / 0x100_0000) as u8,
        ((len / 0x1_0000) % 0x100) as u8,
        ((len / 0x100) % 0x100) as u8,
        (len % 0x100) as u8,
    ]
}

/// The length that a header announces.
pub open spec fn spec_announced(header: Seq<u8>) -> nat
    recommends
        header.len() >= 4,
{
    spec_be_u32(header[0], header[1], header[2], header[3])
}

/// The frame that carries `payload`.
pub open spec fn spec_frame(payload: Seq<u8>) -> Seq<u8>
    recommends
        payload.len() <= u32::MAX,
{
    spec_header(payload.len() as u32) + payload
}

/// Spells `len` as a header.
pub fn encode_length(len: u32) -> (header: [u8; 4])
    ensures
        header@ == spec_header(len),
        spec_announced(header@) == len,
{
    let header: [u8; 4] = [
        (len / 0x100_0000) as u8,
        ((len / 0x1_0000) % 0x100) as u8,
        ((len / 0x100) % 0x100) as u8,
        (len % 0x100) as u8,
    ];
    assert(header@ =~= spec_header(len));
    header
}

/// The digits of a number in base 256 are the bytes that spell it.
proof fn lemma_digits(b0: int, b1: int, b2: int, b3: int)
    requires
        0 <= b0 < 0x100,
        0 <= b1 < 0x100,
        0 <= b2 < 0x100,
        0 <= b3 < 0x100,
    ensures
        ({
            let n = b0 * 0x100_0000 + b1 * 0x1_0000 + b2 * 0x100 + b3;
            &&& 0 <= n <= 0xFFFF_FFFF
            &&& n / 0x100_0000 == b0
            &&& (n / 0x1_0000) % 0x100 == b1
            &&& (n / 0x100) % 0x100 == b2
            &&& n % 0x100 == b3
        }),
{
    let n = b0 * 0x100_0000 + b1 * 0x1_0000 + b2 * 0x100 + b3;
    let hi2 = b0 * 0x100 + b1;
    let hi3 = b0 * 0x1_0000 + b1 * 0x100 + b2;
    assert(n == hi3 * 0x100 + b3);
    assert(n == hi2 * 0x1_0000 + (b2 * 0x100 + b3));
    assert(n / 0x100 == hi3);
    assert(n / 0x1_0000 == hi2);
    assert(hi3 == hi2 * 0x100 + b2);
}

/// Reads the length that a header announces.
pub fn decode_length(header: &[u8; 4]) -> (len: u32)
    ensures
        len == spec_announced(header@),
        spec_header(len) == header@,
{
    proof {
        lemma_digits(header[0] as int, header[1] as int, header[2] as int, header[3] as int);
    }
    let len: u32 = (header[0] as u32) * 0x100_0000 + (header[1] as u32) * 0x1_0000 + (
    header[2] as u32) * 0x100 + (header[3] as u32);
    assert(spec_header(len) =~= header@);
    len
}

/// A header and the length it announces determine each other.
pub proof fn lemma_header_round_trip(len: u32, header: Seq<u8>)
    ensures
        spec_header(len).len() == 4,
        spec_announced(spec_header(len)) == len,
        header.len() == 4 ==> spec_announced(header) <= u32::MAX && spec_header(
            spec_announced(header) as u32,
        ) == header,
{
    lemma_digits(
        (len / 0x100_0000) as int,
        ((len / 0x1_0000) % 0x100) as int,
        ((len / 0x100) % 0x100) as int,
        (len % 0x100) as int,
    );
    if header.len() == 4 {
        lemma_digits(header[0] as int, header[1] as int, header[2] as int, header[3] as int);
        assert(spec_header(spec_announced(header) as u32) =~= header);
    }
}

fn frame(payload: &[u8]) -> (framed: Vec<u8>)
    requires
        payload@.len() <= u32::MAX,
    ensures
        framed@ == spec_frame(payload@),
{
    let header: [u8; 4] = encode_length(payload.len() as u32);
    let mut framed: Vec<u8> = Vec::new();
    framed.extend_from_slice(header.as_slice());
    framed.extend_from_slice(payload);
    assert(framed@ =~= spec_frame(payload@));
    framed
}

/// Frames a request, unless its body is beyond the request limit.
pub fn frame_request(payload: &[u8]) -> (r: Result<Vec<u8>, IpcError>)
    ensures
        payload@.len() <= MAX_REQUEST_SIZE ==> r is Ok && r->Ok_0@ == spec_frame(payload@),
        payload@.len() > MAX_REQUEST_SIZE ==> r == Err::<Vec<u8>, IpcError>(
            IpcError::RequestTooLarge,
        ),
{
    if payload.len() > MAX_REQUEST_SIZE {
        Err(IpcError::RequestTooLarge)
    } else {
        Ok(frame(payload))
    }
}

/// What goes on the wire for a response body: its frame, or, for a body
/// beyond the response limit, the frame of the error that says so.
pub open spec fn spec_response_frame(payload: Seq<u8>) -> Seq<u8> {
    if payload.len() > MAX_RESPONSE_SIZE {
        spec_frame(PAYLOAD_TOO_LARGE_RESPONSE.spec_bytes())
    } else {
        spec_frame(payload)
    }
}

/// Frames a response. A body beyond the response limit is never sent: the
/// error response that names the limit goes out in its place.
pub fn frame_response(payload: &[u8]) -> (framed: Vec<u8>)
    ensures
        framed@ == spec_response_frame(payload@),
        framed@.len() <= HEADER_LEN + MAX_RESPONSE_SIZE,
{
    if payload.len() > MAX_RESPONSE_SIZE {
        let body: &[u8] = PAYLOAD_TOO_LARGE_RESPONSE.as_bytes();
        proof {
            lemma_too_large_response_is_small();
        }
        frame(body)
    } else {
        frame(payload)
    }
}

/// The error response itself is within the response limit.
pub proof fn lemma_too_large_response_is_small()
    ensures
        PAYLOAD_TOO_LARGE_RESPONSE.spec_bytes().len() <= MAX_RESPONSE_SIZE,
        PAYLOAD_TOO_LARGE_RESPONSE.is_ascii(),
{
    broadcast use vstd::string::is_ascii_spec_bytes;

    reveal_strlit("{\"status\":\"error\",\"data\":null,\"error\":\"PAYLOAD_TOO_LARGE\"}");
    assert(PAYLOAD_TOO_LARGE_RESPONSE@.len() == 58);
    assert(PAYLOAD_TOO_LARGE_RESPONSE.is_ascii());
}

/// The body length that a request header announces, unless it is beyond the
/// request limit.
pub fn request_length(header: &[u8; 4]) -> (r: Result<usize, IpcError>)
    ensures
        spec_announced(header@) <= MAX_REQUEST_SIZE ==> r == Ok::<usize, IpcError>(
            spec_announced(header@) as usize,
        ),
        spec_announced(header@) > MAX_REQUEST_SIZE ==> r == Err::<usize, IpcError>(
            IpcError::RequestTooLarge,
        ),
{
    let len: u32 = decode_length(header);
    if len as usize > MAX_REQUEST_SIZE {
        Err(IpcError::RequestTooLarge)
    } else {
        Ok(len as usize)
    }
}

/// The body length that a response header announces, unless it is beyond the
/// response limit.
pub fn response_length(header: &[u8; 4]) -> (r: Result<usize, IpcError>)
    ensures
        spec_announced(header@) <= MAX_RESPONSE_SIZE ==> r == Ok::<usize, IpcError>(
            spec_announced(header@) as usize,
        ),
        spec_announced(header@) > MAX_RESPONSE_SIZE ==> r == Err::<usize, IpcError>(
            IpcError::ResponseTooLarge,
        ),
{
    let len: u32 = decode_length(header);
    if len as usize > MAX_RESPONSE_SIZE {
        Err(IpcError::ResponseTooLarge)
    } else {
        Ok(len as usize)
    }
}

/// What the bytes received so far amount to.
#[derive(Debug, Clone, Copy, PartialEq, Eq, Structural)]
pub enum FrameStatus {
    /// The header or the body is not all there yet.
    Incomplete,
    /// The header announces more than the request limit: the connection is to
    /// be closed without a response.
    TooLarge,
    /// A whole request is there; its body is the bytes from `start` up to
    /// `end`.
    Complete { start: usize, end: usize },
}

/// What `received` amounts to as the start of a request.
pub open spec fn spec_split_request(received: Seq<u8>) -> FrameStatus {
    if received.len() < HEADER_LEN {
        FrameStatus::Incomplete
    } else if spec_announced(received) > MAX_REQUEST_SIZE {
        FrameStatus::TooLarge
    } else if received.len() < HEADER_LEN + spec_announced(received) {
        FrameStatus::Incomplete
    } else {
        FrameStatus::Complete {
            start: HEADER_LEN,
            end: (HEADER_LEN + spec_announced(received)) as usize,
        }
    }
}

/// Looks at the bytes received so far on a connection. A body is handed out
/// only when the header and all the bytes it announces are there and the
/// announced length is within the request limit.
pub fn split_request(received: &[u8]) -> (status: FrameStatus)
    ensures
        status == spec_split_request(received@),
        status matches FrameStatus::Complete { start, end } ==> start == HEADER_LEN && end
            <= received@.len() && spec_frame(received@.subrange(start as int, end as int))
            == received@.take(end as int),
{
    if received.len() < HEADER_LEN {
        return FrameStatus::Incomplete;
    }
    let header: [u8; 4] = [received[0], received[1], received[2], received[3]];
    let len: u32 = decode_length(&header);
    if len as usize > MAX_REQUEST_SIZE {
        return FrameStatus::TooLarge;
    }
    if received.len() - HEADER_LEN < len as usize {
        return FrameStatus::Incomplete;
    }
    let end: usize = HEADER_LEN + len as usize;
    proof {
        assert(spec_header(len) =~= received@.take(4));
        assert(spec_frame(received@.subrange(4, end as int)) =~= received@.take(end as int));
    }
    FrameStatus::Complete { start: HEADER_LEN, end }
}

/// The body of a complete request.
pub fn request_body<'a>(received: &'a [u8], status: FrameStatus) -> (body: Option<&'a [u8]>)
    requires
        status == spec_split_request(received@),
    ensures
        status matches FrameStatus::Complete { start, end } ==> body is Some && body->Some_0@
            == received@.subrange(start as int, end as int),
        !(status is Complete) ==> body is None,
{
    match status {
        FrameStatus::Complete { start, end } => Some(slice_subrange(received, start, end)),
        _ => None,
    }
}

/// Framing and splitting undo each other: the frame of a body within the
/// request limit splits into that body, and nothing shorter than the whole
/// frame splits into anything.
pub proof fn lemma_frame_splits_back(payload: Seq<u8>, cut: int)
    requires
        payload.len() <= MAX_REQUEST_SIZE,
        0 <= cut < spec_frame(payload).len(),
    ensures
        spec_split_request(spec_frame(payload)) == (FrameStatus::Complete {
            start: HEADER_LEN,
            end: (HEADER_LEN + payload.len()) as usize,
        }),
        spec_frame(payload).subrange(HEADER_LEN as int, HEADER_LEN + payload.len() as int) == payload,
        spec_split_request(spec_frame(payload).take(cut)) == FrameStatus::Incomplete,
{
    let framed = spec_frame(payload);
    lemma_header_round_trip(payload.len() as u32, spec_header(payload.len() as u32));
    assert(framed.len() == 4 + payload.len());
    assert(spec_announced(framed) == payload.len());
    assert(framed.subrange(4, 4 + payload.len() as int) =~= payload);
    let part = framed.take(cut);
    if cut >= 4 {
        assert(spec_announced(part) == payload.len());
    }
}

/// A request whose header announces more than the request limit is never
/// handed out, whatever follows the header.
pub proof fn lemma_oversize_request_never_parsed(received: Seq<u8>)
    requires
        received.len() >= HEADER_LEN,
        spec_announced(received) > MAX_REQUEST_SIZE,
    ensures
        spec_split_request(received) == FrameStatus::TooLarge,
{
}

/// A response body beyond the response limit is answered with the error that
/// names the limit.
pub proof fn lemma_oversize_response_replaced(payload: Seq<u8>)
    requires
        payload.len() > MAX_RESPONSE_SIZE,
    ensures
        spec_response_frame(payload) == spec_frame(PAYLOAD_TOO_LARGE_RESPONSE.spec_bytes()),
        spec_response_frame(payload).len() <= HEADER_LEN + MAX_RESPONSE_SIZE,
{
    lemma_too_large_response_is_small();
}

} // verus!
