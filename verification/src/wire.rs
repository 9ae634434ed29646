//! Whole messages: a frame whose JSON text is the envelope of a fragment.
//!
//! This module writes and reads the bytes of a message. The body of the
//! envelope, the JSON of the fragment's own fields, is handed in and out as
//! text.

use crate::envelope::{
    envelope, lemma_envelope_round_trip, open_envelope, spec_envelope, spec_open_envelope,
    FragmentKind,
};
use crate::framing::{
    lemma_frame_round_trip, read_frame, spec_frame, spec_read_frame, write_frame, FramingError,
};
use vstd::prelude::*;
use vstd::string::StringSliceAdditionalSpecFns;
use vstd::utf8::{
    decode_utf8, encode_utf8, encode_utf8_decode_utf8, encode_utf8_valid_utf8, valid_utf8,
};

verus! {

/// A message as read: the variant of its fragment, the JSON of the
/// fragment's fields, and the binary payload.
#[derive(Clone, Debug, PartialEq, Eq)]
pub struct Message {
    pub kind: FragmentKind,
    pub body: String,
    pub data: Vec<u8>,
}

/// The bytes of a message.
pub open spec fn spec_message(kind: FragmentKind, body: Seq<char>, data: Seq<u8>) -> Seq<u8> {
    spec_frame(spec_envelope(kind, encode_utf8(body)), data)
}

/// Bytes of JSON text that the envelope of `body` takes.
pub open spec fn spec_json_size(kind: FragmentKind, body: Seq<char>) -> nat {
    spec_envelope(kind, encode_utf8(body)).len()
}

/// What a frame holds, or the first reason to refuse it: the framing, then
/// the variant, then the encoding of the body.
pub open spec fn spec_read_message(frame: Seq<u8>) -> Result<
    (FragmentKind, Seq<char>, Seq<u8>),
    FramingError,
> {
    match spec_read_frame(frame) {
        Err(e) => Err(e),
        Ok((json, data)) => match spec_open_envelope(json) {
            None => Err(FramingError::UnknownVariant),
            Some((kind, body)) => if valid_utf8(body) {
                Ok((kind, decode_utf8(body), data))
            } else {
                Err(FramingError::InvalidUtf8)
            },
        },
    }
}

/// `String::from_utf8` of std: the text of `bytes` where they are valid
/// UTF-8, and nothing where they are not.
#[verifier::external_body]
fn string_from_utf8(bytes: Vec<u8>) -> (r: Option<String>)
    ensures
        r is Some == valid_utf8(bytes@),
        r is Some ==> r->Some_0@ == decode_utf8(bytes@),
{
    match String::from_utf8(bytes) {
        Ok(text) => Some(text),
        Err(_) => None,
    }
}

/// Builds the bytes of a message: both sizes, the envelope of `body` under
/// the key of `kind`, then the payload. Fails, with `TooLarge`, exactly when
/// JSON text and payload together exceed a 32-bit size.
pub fn send_message(kind: FragmentKind, body: &str, data: &Vec<u8>) -> (r: Result<
    Vec<u8>,
    FramingError,
>)
    ensures
        spec_json_size(kind, body@) + data@.len() <= u32::MAX ==> r is Ok && r->Ok_0@
            == spec_message(kind, body@, data@),
        spec_json_size(kind, body@) + data@.len() > u32::MAX ==> r == Err::<
            Vec<u8>,
            FramingError,
        >(FramingError::TooLarge),
{
    let json = envelope(kind, body.as_bytes());
    write_frame(json.as_slice(), data.as_slice())
}

/// Reads a message from the bytes of its frame.
pub fn read_message(frame: &Vec<u8>) -> (r: Result<Message, FramingError>)
    ensures
        match spec_read_message(frame@) {
            Ok((kind, body, data)) => r is Ok && r->Ok_0.kind == kind && r->Ok_0.body@ == body
                && r->Ok_0.data@ == data,
            Err(e) => r is Err && r->Err_0 == e,
        },
{
    let (json, data) = match read_frame(frame) {
        Ok(parts) => parts,
        Err(e) => { return Err(e); },
    };
    let (kind, body) = match open_envelope(json.as_slice()) {
        Some(parts) => parts,
        None => { return Err(FramingError::UnknownVariant); },
    };
    match string_from_utf8(body) {
        Some(body) => Ok(Message { kind, body, data }),
        None => Err(FramingError::InvalidUtf8),
    }
}

/// Reading the bytes of a message gives variant, body and payload back.
pub proof fn lemma_message_round_trip(kind: FragmentKind, body: Seq<char>, data: Seq<u8>)
    requires
        spec_json_size(kind, body) + data.len() <= u32::MAX,
    ensures
        spec_read_message(spec_message(kind, body, data)) == Ok::<
            (FragmentKind, Seq<char>, Seq<u8>),
            FramingError,
        >((kind, body, data)),
{
    let bytes = encode_utf8(body);
    lemma_frame_round_trip(spec_envelope(kind, bytes), data);
    lemma_envelope_round_trip(kind, bytes);
    encode_utf8_valid_utf8(body);
    encode_utf8_decode_utf8(body);
}

/// What the dispatcher makes of a frame: a message that holds a request or
/// a result. A task is refused, after the reasons that refuse any frame.
pub open spec fn spec_read_message_from_client(frame: Seq<u8>) -> Result<
    (FragmentKind, Seq<char>, Seq<u8>),
    FramingError,
> {
    match spec_read_message(frame) {
        Ok((kind, body, data)) => if kind == FragmentKind::FragmentTask {
            Err(FramingError::UnexpectedFragment)
        } else {
            Ok((kind, body, data))
        },
        Err(e) => Err(e),
    }
}

/// What a worker makes of a frame: a message that holds a task. A request
/// or a result is refused, after the reasons that refuse any frame.
pub open spec fn spec_get_task_from_server(frame: Seq<u8>) -> Result<
    (FragmentKind, Seq<char>, Seq<u8>),
    FramingError,
> {
    match spec_read_message(frame) {
        Ok((kind, body, data)) => if kind == FragmentKind::FragmentTask {
            Ok((kind, body, data))
        } else {
            Err(FramingError::UnexpectedFragment)
        },
        Err(e) => Err(e),
    }
}

/// Reads, on the dispatcher's side, the message of a worker.
pub fn read_message_from_client(frame: &Vec<u8>) -> (r: Result<Message, FramingError>)
    ensures
        match spec_read_message_from_client(frame@) {
            Ok((kind, body, data)) => r is Ok && r->Ok_0.kind == kind && r->Ok_0.body@ == body
                && r->Ok_0.data@ == data,
            Err(e) => r is Err && r->Err_0 == e,
        },
{
    match read_message(frame) {
        Ok(message) => match message.kind {
            FragmentKind::FragmentTask => Err(FramingError::UnexpectedFragment),
            _ => Ok(message),
        },
        Err(e) => Err(e),
    }
}

/// Reads, on a worker's side, the message of the dispatcher.
pub fn get_task_from_server(frame: &Vec<u8>) -> (r: Result<Message, FramingError>)
    ensures
        match spec_get_task_from_server(frame@) {
            Ok((kind, body, data)) => r is Ok && r->Ok_0.kind == kind && r->Ok_0.body@ == body
                && r->Ok_0.data@ == data,
            Err(e) => r is Err && r->Err_0 == e,
        },
{
    match read_message(frame) {
        Ok(message) => match message.kind {
            FragmentKind::FragmentTask => Ok(message),
            _ => Err(FramingError::UnexpectedFragment),
        },
        Err(e) => Err(e),
    }
}

} // verus!
