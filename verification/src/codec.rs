//! Typed commands and responses of the structured protocol, and their
//! byte-level decoding and encoding.

use vstd::prelude::*;
use crate::frame;
use crate::json;

verus! {

/// A decoded structured command: what the host asks the bridge to do.
#[derive(Debug, PartialEq, Eq)]
pub struct StructuredCommand {
    pub message_type: u8,
    pub subtype: u8,
    pub data: Vec<u8>,
}

/// A structured response: the bridge's acknowledgement or error report.
#[derive(Debug, PartialEq, Eq)]
pub struct Response {
    pub message_type: u8,
    pub subtype: u8,
    pub message: Vec<u8>,
    pub data: Vec<u8>,
}

/// Why a structured payload could not be decoded. Both cases are recoverable:
/// the loop skips the frame and reads the next one.
#[derive(Clone, Copy, Debug, PartialEq, Eq)]
pub enum DecodeError {
    /// The payload is not valid UTF-8 text.
    Encoding,
    /// The payload is text but does not match the command schema.
    Schema,
}

/// Whether a byte sequence is valid UTF-8.
pub uninterp spec fn utf8_ok(s: Seq<u8>) -> bool;

/// Relies on core::str::from_utf8: it returns Ok exactly when the bytes are
/// valid UTF-8, a property of the bytes alone.
#[verifier::external_body]
fn check_utf8(bytes: &Vec<u8>) -> (r: bool)
    ensures
        r == utf8_ok(bytes@),
{
    core::str::from_utf8(bytes.as_slice()).is_ok()
}

/// Decode one structured payload: UTF-8 text holding one command object.
pub fn decode_structured(payload: &Vec<u8>) -> (r: Result<StructuredCommand, DecodeError>)
    ensures
        !utf8_ok(payload@) ==> r == Err::<StructuredCommand, DecodeError>(DecodeError::Encoding),
        utf8_ok(payload@) && json::parse_command(payload@) is None ==> r == Err::<
            StructuredCommand,
            DecodeError,
        >(DecodeError::Schema),
        utf8_ok(payload@) ==> (json::parse_command(payload@) matches Some(c) ==> r matches Ok(cmd)
            && cmd.message_type == c.0 && cmd.subtype == c.1 && cmd.data@ == c.2),
        r is Ok <==> utf8_ok(payload@) && json::parse_command(payload@) is Some,
{
    if !check_utf8(payload) {
        return Err(DecodeError::Encoding);
    }
    match json::parse_command_x(payload) {
        Some((mt, st, data)) => Ok(
            StructuredCommand { message_type: mt, subtype: st, data },
        ),
        None => Err(DecodeError::Schema),
    }
}

/// A response the codec can put on the wire as it stands: its message needs
/// no JSON string escaping.
pub open spec fn response_wf(r: Response) -> bool {
    json::json_safe(r.message@)
}

/// The canonical JSON bytes of a response.
pub open spec fn response_json(r: Response) -> Seq<u8> {
    json::json_of_response(r.message_type, r.subtype, r.message@, r.data@)
}

/// Serialize a response to its canonical JSON bytes.
pub fn encode_response(r: &Response) -> (out: Vec<u8>)
    requires
        response_wf(*r),
    ensures
        out@ == response_json(*r),
{
    json::encode_object(r.message_type, r.subtype, &r.message, &r.data)
}

/// Serialize a response and wrap it in a length-prefixed frame, or refuse a
/// response whose encoding would not fit the 16-bit length budget.
pub fn encode_response_frame(r: &Response) -> (res: Option<Vec<u8>>)
    requires
        response_wf(*r),
    ensures
        response_json(*r).len() <= 0xFFFF ==> (res matches Some(f) && f@ == frame::frame_bytes(
            response_json(*r),
        )),
        response_json(*r).len() > 0xFFFF ==> res is None,
{
    let body = encode_response(r);
    if body.len() <= 0xFFFF {
        Some(frame::encode_frame(&body))
    } else {
        None
    }
}

} // verus!
