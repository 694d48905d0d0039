//! The wire format between a client and the serving instance.
//!
//! A client sends the UTF-8 bytes of one path, with neither length prefix nor
//! terminator; the connection is the frame. The server answers with `OK` or
//! `ERR`, once.

use vstd::prelude::*;
use vstd::string::StringSliceAdditionalSpecFns;
use vstd::string::StrSliceExecFns;
use vstd::utf8::{decode_utf8, encode_utf8, valid_utf8};

verus! {

/// Largest payload, in bytes, that the server accepts on one connection.
pub const MAX_PAYLOAD: usize = 4096;

/// Longest acknowledgment, in bytes; a client never needs to read more.
pub const MAX_ACKNOWLEDGMENT: usize = 3;

/// Why a payload is not a path message.
#[derive(Clone, Copy, Debug, PartialEq, Eq, Structural)]
pub enum ProtocolError {
    /// The connection carried no byte.
    Empty,
    /// The payload is longer than `MAX_PAYLOAD`.
    Oversized,
    /// The payload is not UTF-8.
    NotText,
}

/// The answer that the server writes once per connection.
#[derive(Clone, Copy, Debug, PartialEq, Eq, Structural)]
pub enum Acknowledgment {
    /// The path was handed to the render loop; on the wire, `OK`.
    Accepted,
    /// The path was not handed on; on the wire, `ERR`.
    Rejected,
}

/// The path that a payload carries, or the reason why it carries none.
pub open spec fn payload_path(bytes: Seq<u8>) -> Result<Seq<char>, ProtocolError> {
    if bytes.len() == 0 {
        Err(ProtocolError::Empty)
    } else if bytes.len() > MAX_PAYLOAD {
        Err(ProtocolError::Oversized)
    } else if !valid_utf8(bytes) {
        Err(ProtocolError::NotText)
    } else {
        Ok(decode_utf8(bytes))
    }
}

/// The bytes of an acknowledgment on the wire.
pub open spec fn acknowledgment_bytes(ack: Acknowledgment) -> Seq<u8> {
    match ack {
        Acknowledgment::Accepted => seq![79u8, 75u8],
        Acknowledgment::Rejected => seq![69u8, 82u8, 82u8],
    }
}

/// The acknowledgment that a reply spells, if it spells one.
pub open spec fn reply_acknowledgment(bytes: Seq<u8>) -> Option<Acknowledgment> {
    if bytes == acknowledgment_bytes(Acknowledgment::Accepted) {
        Some(Acknowledgment::Accepted)
    } else if bytes == acknowledgment_bytes(Acknowledgment::Rejected) {
        Some(Acknowledgment::Rejected)
    } else {
        None
    }
}

/// The view of a decoded payload.
pub open spec fn payload_view(r: Result<String, ProtocolError>) -> Result<
    Seq<char>,
    ProtocolError,
> {
    match r {
        Ok(path) => Ok(path@),
        Err(e) => Err(e),
    }
}

/// `std::str::from_utf8`, with the error dropped: the bytes as text if and
/// only if they are valid UTF-8, and then the text's encoding is those bytes.
#[verifier::external_body]
fn text_of(bytes: &[u8]) -> (text: Option<&str>)
    ensures
        text is Some <==> valid_utf8(bytes@),
        text matches Some(t) ==> t.spec_bytes() == bytes@,
{
    std::str::from_utf8(bytes).ok()
}

/// Reads the path out of a payload. An empty payload, one above the cap and
/// one that is not UTF-8 are refused, each with its own error; nothing is
/// ever truncated.
pub fn decode_payload(bytes: &[u8]) -> (path: Result<String, ProtocolError>)
    ensures
        payload_view(path) == payload_path(bytes@),
{
    if bytes.len() == 0 {
        return Err(ProtocolError::Empty);
    }
    if bytes.len() > MAX_PAYLOAD {
        return Err(ProtocolError::Oversized);
    }
    match text_of(bytes) {
        None => Err(ProtocolError::NotText),
        Some(text) => {
            proof {
                vstd::utf8::encode_utf8_decode_utf8(text@);
            }
            Ok(text.to_owned())
        },
    }
}

/// The payload that carries `path`: its UTF-8 bytes and nothing else.
pub fn encode_payload(path: &str) -> (bytes: Vec<u8>)
    ensures
        bytes@ == encode_utf8(path@),
{
    path.as_bytes_vec()
}

impl Acknowledgment {
    /// The bytes that the server writes.
    pub fn to_bytes(&self) -> (bytes: Vec<u8>)
        ensures
            bytes@ == acknowledgment_bytes(*self),
    {
        match self {
            Acknowledgment::Accepted => vec![79u8, 75u8],
            Acknowledgment::Rejected => vec![69u8, 82u8, 82u8],
        }
    }

    /// Reads an acknowledgment from the bytes of a reply: `OK` and `ERR`
    /// exactly, nothing else.
    pub fn parse(bytes: &[u8]) -> (ack: Option<Acknowledgment>)
        ensures
            ack == reply_acknowledgment(bytes@),
    {
        if bytes.len() == 2 && bytes[0] == 79 && bytes[1] == 75 {
            assert(bytes@ =~= acknowledgment_bytes(Acknowledgment::Accepted));
            Some(Acknowledgment::Accepted)
        } else if bytes.len() == 3 && bytes[0] == 69 && bytes[1] == 82 && bytes[2] == 82 {
            assert(bytes@ =~= acknowledgment_bytes(Acknowledgment::Rejected));
            Some(Acknowledgment::Rejected)
        } else {
            proof {
                lemma_acknowledgment_shapes();
            }
            None
        }
    }
}

/// A path that is encoded and then decoded comes back unchanged, whenever its
/// encoding is a payload that the server accepts: not empty and within the
/// cap.
pub proof fn lemma_payload_round_trip(path: Seq<char>)
    requires
        0 < encode_utf8(path).len() <= MAX_PAYLOAD,
    ensures
        payload_path(encode_utf8(path)) == Ok::<Seq<char>, ProtocolError>(path),
{
    vstd::utf8::encode_utf8_valid_utf8(path);
    vstd::utf8::encode_utf8_decode_utf8(path);
}

/// Every acknowledgment is read back from its own bytes, the two are told
/// apart on the wire, and neither is longer than a client reads.
pub proof fn lemma_acknowledgment_round_trip(ack: Acknowledgment)
    ensures
        reply_acknowledgment(acknowledgment_bytes(ack)) == Some(ack),
        acknowledgment_bytes(ack).len() <= MAX_ACKNOWLEDGMENT,
        acknowledgment_bytes(Acknowledgment::Accepted) != acknowledgment_bytes(
            Acknowledgment::Rejected,
        ),
{
    lemma_acknowledgment_shapes();
}

/// The two acknowledgments, byte by byte.
pub proof fn lemma_acknowledgment_shapes()
    ensures
        acknowledgment_bytes(Acknowledgment::Accepted).len() == 2,
        acknowledgment_bytes(Acknowledgment::Accepted)[0] == 79,
        acknowledgment_bytes(Acknowledgment::Accepted)[1] == 75,
        acknowledgment_bytes(Acknowledgment::Rejected).len() == 3,
        acknowledgment_bytes(Acknowledgment::Rejected)[0] == 69,
        acknowledgment_bytes(Acknowledgment::Rejected)[1] == 82,
        acknowledgment_bytes(Acknowledgment::Rejected)[2] == 82,
{
}

} // verus!
