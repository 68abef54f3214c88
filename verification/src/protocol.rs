//! Wire protocol: fixed four-byte frames carrying control requests and
//! responses over a byte stream.
//!
//! A frame is `[RECORD_SEPARATOR, tag, code, RECORD_SEPARATOR]`. The request
//! and response channels share the same tag value; the two sides are told
//! apart only by the direction of travel.

use vstd::prelude::*;

verus! {

/// Delimiter byte standing at both ends of every frame.
pub const RECORD_SEPARATOR: u8 = 0x1e;

/// Tag byte marking a frame as a request.
pub const REQUEST_TAG: u8 = 1;

/// Tag byte marking a frame as a response. Deliberately equal to
/// `REQUEST_TAG`: on the wire the two channels are distinguished only by
/// which side sends first.
pub const RESPONSE_TAG: u8 = 1;

/// A control request sent from a client to the daemon.
#[derive(Clone, Copy, PartialEq, Eq, Structural, Debug)]
pub enum Request {
    Health,
    Stop,
}

/// A control response sent from the daemon back to a client.
#[derive(Clone, Copy, PartialEq, Eq, Structural, Debug)]
pub enum Response {
    Okay,
    Error,
}

/// Why a request frame failed to parse.
#[derive(Clone, Copy, PartialEq, Eq, Structural, Debug)]
pub enum RequestParseError {
    /// Fewer than four bytes were available before the stream ended.
    Eof,
    /// Four bytes were read but they match no request frame; the offending
    /// bytes are carried along.
    Unknown(u8, u8, u8, u8),
}

/// Why a response frame failed to parse.
#[derive(Clone, Copy, PartialEq, Eq, Structural, Debug)]
pub enum ResponseParseError {
    /// Fewer than four bytes were available before the stream ended.
    Eof,
    /// Four bytes were read but they match no response frame.
    Unknown(u8, u8, u8, u8),
}

/// The four bytes that encode a request.
pub open spec fn spec_request_bytes(r: Request) -> Seq<u8> {
    match r {
        Request::Health => seq![0x1eu8, 1u8, 1u8, 0x1eu8],
        Request::Stop => seq![0x1eu8, 1u8, 2u8, 0x1eu8],
    }
}

/// The four bytes that encode a response.
pub open spec fn spec_response_bytes(r: Response) -> Seq<u8> {
    match r {
        Response::Okay => seq![0x1eu8, 1u8, 1u8, 0x1eu8],
        Response::Error => seq![0x1eu8, 1u8, 2u8, 0x1eu8],
    }
}

/// What reading one request frame from the front of `data` yields.
///
/// `data` is whatever the stream still holds: fewer than four bytes means the
/// stream ended early; otherwise exactly the first four bytes are consumed
/// and the rest is ignored.
pub open spec fn spec_parse_request(data: Seq<u8>) -> Result<Request, RequestParseError> {
    if data.len() < 4 {
        Result::Err(RequestParseError::Eof)
    } else if data[0] == 0x1eu8 && data[1] == 1u8 && data[2] == 1u8 && data[3] == 0x1eu8 {
        Result::Ok(Request::Health)
    } else if data[0] == 0x1eu8 && data[1] == 1u8 && data[2] == 2u8 && data[3] == 0x1eu8 {
        Result::Ok(Request::Stop)
    } else {
        Result::Err(RequestParseError::Unknown(data[0], data[1], data[2], data[3]))
    }
}

/// What reading one response frame from the front of `data` yields.
pub open spec fn spec_parse_response(data: Seq<u8>) -> Result<Response, ResponseParseError> {
    if data.len() < 4 {
        Result::Err(ResponseParseError::Eof)
    } else if data[0] == 0x1eu8 && data[1] == 1u8 && data[2] == 1u8 && data[3] == 0x1eu8 {
        Result::Ok(Response::Okay)
    } else if data[0] == 0x1eu8 && data[1] == 1u8 && data[2] == 2u8 && data[3] == 0x1eu8 {
        Result::Ok(Response::Error)
    } else {
        Result::Err(ResponseParseError::Unknown(data[0], data[1], data[2], data[3]))
    }
}

impl Request {
    /// Encode this request as one four-byte frame.
    pub fn as_bytes(&self) -> (r: Vec<u8>)
        ensures
            r@ == spec_request_bytes(*self),
    {
        let mut out: Vec<u8> = Vec::new();
        out.push(RECORD_SEPARATOR);
        out.push(REQUEST_TAG);
        match self {
            Request::Health => out.push(1),
            Request::Stop => out.push(2),
        }
        out.push(RECORD_SEPARATOR);
        proof {
            assert(out@ =~= spec_request_bytes(*self));
        }
        out
    }

    /// Decode one request frame from the bytes a stream still holds.
    pub fn from_reader(data: &[u8]) -> (r: Result<Request, RequestParseError>)
        ensures
            r == spec_parse_request(data@),
    {
        if data.len() < 4 {
            return Result::Err(RequestParseError::Eof);
        }
        let b0 = data[0];
        let b1 = data[1];
        let b2 = data[2];
        let b3 = data[3];
        if b0 == RECORD_SEPARATOR && b1 == REQUEST_TAG && b2 == 1 && b3 == RECORD_SEPARATOR {
            Result::Ok(Request::Health)
        } else if b0 == RECORD_SEPARATOR && b1 == REQUEST_TAG && b2 == 2 && b3 == RECORD_SEPARATOR {
            Result::Ok(Request::Stop)
        } else {
            Result::Err(RequestParseError::Unknown(b0, b1, b2, b3))
        }
    }
}

impl Response {
    /// Encode this response as one four-byte frame.
    pub fn as_bytes(&self) -> (r: Vec<u8>)
        ensures
            r@ == spec_response_bytes(*self),
    {
        let mut out: Vec<u8> = Vec::new();
        out.push(RECORD_SEPARATOR);
        out.push(RESPONSE_TAG);
        match self {
            Response::Okay => out.push(1),
            Response::Error => out.push(2),
        }
        out.push(RECORD_SEPARATOR);
        proof {
            assert(out@ =~= spec_response_bytes(*self));
        }
        out
    }

    /// Decode one response frame from the bytes a stream still holds.
    pub fn from_reader(data: &[u8]) -> (r: Result<Response, ResponseParseError>)
        ensures
            r == spec_parse_response(data@),
    {
        if data.len() < 4 {
            return Result::Err(ResponseParseError::Eof);
        }
        let b0 = data[0];
        let b1 = data[1];
        let b2 = data[2];
        let b3 = data[3];
        if b0 == RECORD_SEPARATOR && b1 == RESPONSE_TAG && b2 == 1 && b3 == RECORD_SEPARATOR {
            Result::Ok(Response::Okay)
        } else if b0 == RECORD_SEPARATOR && b1 == RESPONSE_TAG && b2 == 2 && b3 == RECORD_SEPARATOR {
            Result::Ok(Response::Error)
        } else {
            Result::Err(ResponseParseError::Unknown(b0, b1, b2, b3))
        }
    }
}

/// Law: request frames are unambiguous. Whenever a stream decodes to a
/// request kind, the four bytes consumed are exactly that kind's encoding.
pub proof fn lemma_request_frames_unambiguous(data: Seq<u8>, r: Request)
    requires
        spec_parse_request(data) == Result::<Request, RequestParseError>::Ok(r),
    ensures
        data.len() >= 4,
        data.subrange(0, 4) == spec_request_bytes(r),
{
    assert(data.subrange(0, 4) =~= spec_request_bytes(r));
}

/// Law: response frames are unambiguous. Whenever a stream decodes to a
/// response kind, the four bytes consumed are exactly that kind's encoding.
pub proof fn lemma_response_frames_unambiguous(data: Seq<u8>, r: Response)
    requires
        spec_parse_response(data) == Result::<Response, ResponseParseError>::Ok(r),
    ensures
        data.len() >= 4,
        data.subrange(0, 4) == spec_response_bytes(r),
{
    assert(data.subrange(0, 4) =~= spec_response_bytes(r));
}

/// Law: any four-byte sequence that is not the encoding of a request kind
/// decodes to `Unknown`, carrying the offending bytes — whether the
/// delimiters are wrong, the tag is wrong, or the code is unregistered.
pub proof fn lemma_request_unknown_frame(data: Seq<u8>)
    requires
        data.len() == 4,
        data != spec_request_bytes(Request::Health),
        data != spec_request_bytes(Request::Stop),
    ensures
        spec_parse_request(data) == Result::<Request, RequestParseError>::Err(
            RequestParseError::Unknown(data[0], data[1], data[2], data[3]),
        ),
{
    if data[0] == 0x1eu8 && data[1] == 1u8 && data[2] == 1u8 && data[3] == 0x1eu8 {
        assert(data =~= spec_request_bytes(Request::Health));
    }
    if data[0] == 0x1eu8 && data[1] == 1u8 && data[2] == 2u8 && data[3] == 0x1eu8 {
        assert(data =~= spec_request_bytes(Request::Stop));
    }
}

/// Law: any four-byte sequence that is not the encoding of a response kind
/// decodes to `Unknown`, carrying the offending bytes.
pub proof fn lemma_response_unknown_frame(data: Seq<u8>)
    requires
        data.len() == 4,
        data != spec_response_bytes(Response::Okay),
        data != spec_response_bytes(Response::Error),
    ensures
        spec_parse_response(data) == Result::<Response, ResponseParseError>::Err(
            ResponseParseError::Unknown(data[0], data[1], data[2], data[3]),
        ),
{
    if data[0] == 0x1eu8 && data[1] == 1u8 && data[2] == 1u8 && data[3] == 0x1eu8 {
        assert(data =~= spec_response_bytes(Response::Okay));
    }
    if data[0] == 0x1eu8 && data[1] == 1u8 && data[2] == 2u8 && data[3] == 0x1eu8 {
        assert(data =~= spec_response_bytes(Response::Error));
    }
}

/// Law: a stream that ends before four bytes arrive decodes to `Eof`, on
/// either channel.
pub proof fn lemma_truncated_input(data: Seq<u8>)
    requires
        data.len() < 4,
    ensures
        spec_parse_request(data) == Result::<Request, RequestParseError>::Err(
            RequestParseError::Eof,
        ),
        spec_parse_response(data) == Result::<Response, ResponseParseError>::Err(
            ResponseParseError::Eof,
        ),
{
}

/// Law: decoding an encoded request gives the request back, for every kind.
pub proof fn lemma_request_round_trip(r: Request)
    ensures
        spec_parse_request(spec_request_bytes(r)) == Result::<Request, RequestParseError>::Ok(r),
{
}

/// Law: decoding an encoded response gives the response back, for every kind.
pub proof fn lemma_response_round_trip(r: Response)
    ensures
        spec_parse_response(spec_response_bytes(r)) == Result::<Response, ResponseParseError>::Ok(
            r,
        ),
{
}

} // verus!
