//! From one request to one answer.
//!
//! The transport hands over what it found in the body of a request; this
//! module says how many identifiers that asks for, has the generator issue
//! them in one batch, and says what is to be sent back. It knows nothing of
//! sockets or of JSON text.

use vstd::prelude::*;
use crate::generator::{minted, GenerateError, Generator};

verus! {

/// The status of an answer that carries what was asked for.
pub const STATUS_OK: u16 = 200;

/// The status of an answer to a request that the client got wrong.
pub const STATUS_BAD_REQUEST: u16 = 400;

/// The status of an answer to a request that the worker could not serve.
pub const STATUS_INTERNAL_SERVER_ERROR: u16 = 500;

/// The number of identifiers issued where a request names none.
pub const DEFAULT_COUNT: i64 = 1;

/// What the transport found in the body of a request for identifiers.
#[derive(Clone, Copy, Debug, PartialEq, Eq, Structural)]
pub enum Payload {
    /// The body holds no bytes.
    Empty,
    /// The body holds bytes that are not a document of the expected shape.
    Malformed,
    /// The body holds a document, with its `count` if it names one.
    Decoded(Option<i64>),
}

/// Why a request is turned down before any identifier is issued.
#[derive(Clone, Copy, Debug, PartialEq, Eq, Structural)]
pub enum RequestError {
    /// The body cannot be decoded.
    MalformedInput,
    /// The count is zero or negative.
    InvalidCount,
}

/// The text sent back with an answer that carries no identifiers.
#[derive(Clone, Copy, Debug, PartialEq, Eq, Structural)]
pub enum Notice {
    /// The worker is up.
    Healthy,
    /// The body cannot be decoded.
    InvalidJson,
    /// The count is zero or negative.
    InvalidCount,
    /// The clock has moved backward.
    ClockRollback,
    /// The clock is further from the epoch than an identifier can hold.
    ClockOutOfRange,
}

/// What is sent back.
#[derive(Debug, PartialEq, Eq)]
pub enum Body {
    /// Plain text.
    Text(Notice),
    /// A document with one member, `error`, that holds the text.
    Error(Notice),
    /// An array of identifiers, in the order in which they were issued.
    Ids(Vec<i64>),
}

/// An answer: its status and what it carries.
#[derive(Debug, PartialEq, Eq)]
pub struct Response {
    pub status: u16,
    pub body: Body,
}

impl Notice {
    /// The words of the notice.
    pub open spec fn words(self) -> Seq<char> {
        match self {
            Notice::Healthy => "OK"@,
            Notice::InvalidJson => "Invalid JSON format"@,
            Notice::InvalidCount => "Invalid count: must be a positive integer"@,
            Notice::ClockRollback => "Clock moved backwards: no identifier issued"@,
            Notice::ClockOutOfRange => "Clock out of range: no identifier issued"@,
        }
    }

    /// Returns the words of the notice.
    pub fn text(&self) -> (text: &'static str)
        ensures
            text@ == self.words(),
    {
        match self {
            Notice::Healthy => "OK",
            Notice::InvalidJson => "Invalid JSON format",
            Notice::InvalidCount => "Invalid count: must be a positive integer",
            Notice::ClockRollback => "Clock moved backwards: no identifier issued",
            Notice::ClockOutOfRange => "Clock out of range: no identifier issued",
        }
    }
}

/// What a body amounts to: nothing for no bytes, whatever decoding gave for
/// some bytes.
pub open spec fn payload_of(body: Seq<u8>, decoded: Option<Option<i64>>) -> Payload {
    if body.len() == 0 {
        Payload::Empty
    } else {
        match decoded {
            Some(count) => Payload::Decoded(count),
            None => Payload::Malformed,
        }
    }
}

/// The number of identifiers that a payload asks for.
pub open spec fn count_of(payload: Payload) -> Result<i64, RequestError> {
    match payload {
        Payload::Empty => Ok(DEFAULT_COUNT),
        Payload::Malformed => Err(RequestError::MalformedInput),
        Payload::Decoded(None) => Ok(DEFAULT_COUNT),
        Payload::Decoded(Some(count)) => if count <= 0 {
            Err(RequestError::InvalidCount)
        } else {
            Ok(count)
        },
    }
}

/// The answer to a request that is turned down.
pub open spec fn refusal(error: RequestError) -> Response {
    match error {
        RequestError::MalformedInput => Response {
            status: STATUS_BAD_REQUEST,
            body: Body::Error(Notice::InvalidJson),
        },
        RequestError::InvalidCount => Response {
            status: STATUS_BAD_REQUEST,
            body: Body::Error(Notice::InvalidCount),
        },
    }
}

/// The answer to a request whose identifiers could not be issued.
pub open spec fn failure(error: GenerateError) -> Response {
    match error {
        GenerateError::InvalidCount => Response {
            status: STATUS_BAD_REQUEST,
            body: Body::Error(Notice::InvalidCount),
        },
        GenerateError::ClockRollback => Response {
            status: STATUS_INTERNAL_SERVER_ERROR,
            body: Body::Error(Notice::ClockRollback),
        },
        GenerateError::OutOfRange => Response {
            status: STATUS_INTERNAL_SERVER_ERROR,
            body: Body::Error(Notice::ClockOutOfRange),
        },
    }
}

impl Payload {
    /// Classifies a body. `decoded` is what decoding the body gave: `None`
    /// where it cannot be decoded, else the `count` of the document, if it
    /// names one. It is not looked at for a body without bytes.
    pub fn from_body(body: &[u8], decoded: Option<Option<i64>>) -> (payload: Payload)
        ensures
            payload == payload_of(body@, decoded),
    {
        if body.len() == 0 {
            Payload::Empty
        } else {
            match decoded {
                Some(count) => Payload::Decoded(count),
                None => Payload::Malformed,
            }
        }
    }
}

/// Says how many identifiers `payload` asks for: one where it names no
/// count, the count where it is positive.
pub fn requested_count(payload: Payload) -> (r: Result<i64, RequestError>)
    ensures
        r == count_of(payload),
{
    match payload {
        Payload::Empty => Ok(DEFAULT_COUNT),
        Payload::Malformed => Err(RequestError::MalformedInput),
        Payload::Decoded(None) => Ok(DEFAULT_COUNT),
        Payload::Decoded(Some(count)) => if count <= 0 {
            Err(RequestError::InvalidCount)
        } else {
            Ok(count)
        },
    }
}

/// Answers a request that is turned down.
pub fn refuse(error: RequestError) -> (response: Response)
    ensures
        response == refusal(error),
{
    match error {
        RequestError::MalformedInput => Response {
            status: STATUS_BAD_REQUEST,
            body: Body::Error(Notice::InvalidJson),
        },
        RequestError::InvalidCount => Response {
            status: STATUS_BAD_REQUEST,
            body: Body::Error(Notice::InvalidCount),
        },
    }
}

/// Answers a request after the generator was asked for a batch.
pub fn answer(outcome: Result<Vec<i64>, GenerateError>) -> (response: Response)
    ensures
        match outcome {
            Ok(ids) => response == (Response { status: STATUS_OK, body: Body::Ids(ids) }),
            Err(e) => response == failure(e),
        },
{
    match outcome {
        Ok(ids) => Response { status: STATUS_OK, body: Body::Ids(ids) },
        Err(GenerateError::InvalidCount) => Response {
            status: STATUS_BAD_REQUEST,
            body: Body::Error(Notice::InvalidCount),
        },
        Err(GenerateError::ClockRollback) => Response {
            status: STATUS_INTERNAL_SERVER_ERROR,
            body: Body::Error(Notice::ClockRollback),
        },
        Err(GenerateError::OutOfRange) => Response {
            status: STATUS_INTERNAL_SERVER_ERROR,
            body: Body::Error(Notice::ClockOutOfRange),
        },
    }
}

/// Serves one request for identifiers: one batch of as many identifiers as
/// the payload asks for. A request that is turned down leaves the generator
/// as it was, and so does one that the clock gets in the way of.
pub fn handle_generate(generator: &mut Generator, payload: Payload) -> (response: Response)
    requires
        old(generator)@.wf(),
    ensures
        final(generator)@.wf(),
        match count_of(payload) {
            Err(e) => response == refusal(e) && final(generator)@ == old(generator)@,
            Ok(count) => match response.body {
                Body::Ids(ids) => response.status == STATUS_OK && ids@.len() == count && minted(
                    old(generator)@,
                    ids@,
                    final(generator)@,
                ),
                _ => final(generator)@ == old(generator)@ && (response == failure(
                    GenerateError::ClockRollback,
                ) || response == failure(GenerateError::OutOfRange)),
            },
        },
{
    match requested_count(payload) {
        Err(e) => refuse(e),
        Ok(count) => answer(generator.generate_batch(count)),
    }
}

/// Answers a health probe.
pub fn health() -> (response: Response)
    ensures
        response == (Response { status: STATUS_OK, body: Body::Text(Notice::Healthy) }),
{
    Response { status: STATUS_OK, body: Body::Text(Notice::Healthy) }
}

/// A request without a body asks for what a request for one identifier asks
/// for, and so does a document that names no count.
pub proof fn lemma_no_count_asks_for_one()
    ensures
        count_of(Payload::Empty) == count_of(Payload::Decoded(Some(1))),
        count_of(Payload::Decoded(None)) == count_of(Payload::Decoded(Some(1))),
        count_of(Payload::Decoded(Some(1))) == Ok::<i64, RequestError>(1),
{
}

/// A count of zero or less is turned down, whatever it is.
pub proof fn lemma_count_must_be_positive(count: i64)
    ensures
        count_of(Payload::Decoded(Some(count))) is Ok <==> count > 0,
        count <= 0 ==> count_of(Payload::Decoded(Some(count))) == Err::<i64, RequestError>(
            RequestError::InvalidCount,
        ),
{
}

} // verus!
