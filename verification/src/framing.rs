//! Length-prefixed frames.
//!
//! A frame is two big-endian 32-bit sizes followed by that many bytes: the
//! first size counts everything after the header, the second counts the JSON
//! text that comes first; what is left is the binary payload.

use crate::bytes::{lemma_u32_be_round_trip, spec_u32_at, spec_u32_to_be, u32_from_be, u32_to_be};
use vstd::prelude::*;

verus! {

/// Bytes of the two sizes that open a frame.
pub const HEADER_BYTES: usize = 8;

/// Why a frame was not accepted, or could not be built.
#[derive(Clone, Copy, Debug, PartialEq, Eq, Structural)]
pub enum FramingError {
    /// Fewer bytes than the header, or than the header announces.
    Truncated,
    /// The header announces more JSON than the message holds.
    JsonLargerThanTotal,
    /// JSON and payload together do not fit a 32-bit size.
    TooLarge,
    /// The JSON text is not UTF-8.
    InvalidUtf8,
    /// The JSON text is not the envelope of one of the three fragments.
    UnknownVariant,
    /// The fragment is not one that this side of the protocol takes.
    UnexpectedFragment,
}

/// The two sizes of a header, as announced.
#[derive(Clone, Copy, Debug, PartialEq, Eq, Structural)]
pub struct FrameHeader {
    pub total_size: u32,
    pub json_size: u32,
}

impl FrameHeader {
    /// Bytes of payload that follow the JSON text.
    pub open spec fn spec_data_size(self) -> int {
        self.total_size - self.json_size
    }

    /// Bytes of payload that follow the JSON text.
    pub fn data_size(&self) -> (n: u32)
        requires
            self.json_size <= self.total_size,
        ensures
            n == self.spec_data_size(),
    {
        self.total_size - self.json_size
    }
}

/// The frame of a JSON text and a payload.
pub open spec fn spec_frame(json: Seq<u8>, data: Seq<u8>) -> Seq<u8>
    recommends
        json.len() + data.len() <= u32::MAX,
{
    spec_u32_to_be((json.len() + data.len()) as u32) + spec_u32_to_be(json.len() as u32) + json
        + data
}

/// What the first eight bytes announce, or why they are refused.
pub open spec fn spec_read_header(bytes: Seq<u8>) -> Result<FrameHeader, FramingError> {
    if bytes.len() < 8 {
        Err(FramingError::Truncated)
    } else if spec_u32_at(bytes, 4) > spec_u32_at(bytes, 0) {
        Err(FramingError::JsonLargerThanTotal)
    } else {
        Ok(
            FrameHeader {
                total_size: spec_u32_at(bytes, 0) as u32,
                json_size: spec_u32_at(bytes, 4) as u32,
            },
        )
    }
}

/// The JSON text and the payload of a frame, or why it is refused. Bytes
/// after the announced ones are not part of the frame.
pub open spec fn spec_read_frame(frame: Seq<u8>) -> Result<(Seq<u8>, Seq<u8>), FramingError> {
    match spec_read_header(frame) {
        Err(e) => Err(e),
        Ok(h) => if frame.len() - 8 < h.total_size {
            Err(FramingError::Truncated)
        } else {
            Ok(
                (
                    frame.subrange(8, 8 + h.json_size),
                    frame.subrange(8 + h.json_size, 8 + h.total_size),
                ),
            )
        },
    }
}

/// Copies the bytes `[from, to)` of `v`.
pub fn copy_range(v: &Vec<u8>, from: usize, to: usize) -> (out: Vec<u8>)
    requires
        from <= to <= v.len(),
    ensures
        out@ == v@.subrange(from as int, to as int),
{
    let mut out: Vec<u8> = Vec::new();
    let mut i: usize = from;
    while i < to
        invariant
            from <= i <= to <= v.len(),
            out@ == v@.subrange(from as int, i as int),
        decreases to - i,
    {
        out.push(v[i]);
        i += 1;
        assert(out@ =~= v@.subrange(from as int, i as int));
    }
    out
}

/// Appends all of `tail` to `out`.
pub fn append_bytes(out: &mut Vec<u8>, tail: &[u8])
    ensures
        final(out)@ == old(out)@ + tail@,
{
    let ghost head = out@;
    let mut i: usize = 0;
    while i < tail.len()
        invariant
            i <= tail.len(),
            out@ == head + tail@.subrange(0, i as int),
        decreases tail.len() - i,
    {
        out.push(tail[i]);
        i += 1;
        assert(out@ =~= head + tail@.subrange(0, i as int));
    }
    assert(tail@.subrange(0, tail.len() as int) =~= tail@);
}

/// Builds the frame of a JSON text and a payload. Fails, with
/// `TooLarge`, exactly when the two together exceed a 32-bit size.
pub fn write_frame(json: &[u8], data: &[u8]) -> (r: Result<Vec<u8>, FramingError>)
    ensures
        json@.len() + data@.len() <= u32::MAX ==> r is Ok && r->Ok_0@ == spec_frame(
            json@,
            data@,
        ),
        json@.len() + data@.len() > u32::MAX ==> r == Err::<Vec<u8>, FramingError>(
            FramingError::TooLarge,
        ),
{
    if json.len() > u32::MAX as usize || data.len() > u32::MAX as usize - json.len() {
        return Err(FramingError::TooLarge);
    }
    let json_size: u32 = json.len() as u32;
    let total_size: u32 = json_size + data.len() as u32;
    let total = u32_to_be(total_size);
    let size = u32_to_be(json_size);
    let mut out: Vec<u8> = Vec::new();
    append_bytes(&mut out, total.as_slice());
    append_bytes(&mut out, size.as_slice());
    append_bytes(&mut out, json);
    append_bytes(&mut out, data);
    assert(out@ =~= spec_frame(json@, data@));
    Ok(out)
}

/// Reads the header of a frame from its first eight bytes.
pub fn read_header(bytes: &[u8]) -> (r: Result<FrameHeader, FramingError>)
    ensures
        r == spec_read_header(bytes@),
{
    if bytes.len() < HEADER_BYTES {
        return Err(FramingError::Truncated);
    }
    let total_size = u32_from_be(bytes[0], bytes[1], bytes[2], bytes[3]);
    let json_size = u32_from_be(bytes[4], bytes[5], bytes[6], bytes[7]);
    if total_size < json_size {
        return Err(FramingError::JsonLargerThanTotal);
    }
    Ok(FrameHeader { total_size, json_size })
}

/// Splits a frame into its JSON text and its payload.
pub fn read_frame(frame: &Vec<u8>) -> (r: Result<(Vec<u8>, Vec<u8>), FramingError>)
    ensures
        match spec_read_frame(frame@) {
            Ok((json, data)) => r is Ok && r->Ok_0.0@ == json && r->Ok_0.1@ == data,
            Err(e) => r is Err && r->Err_0 == e,
        },
{
    let header = match read_header(frame.as_slice()) {
        Ok(h) => h,
        Err(e) => { return Err(e); },
    };
    if frame.len() - HEADER_BYTES < header.total_size as usize {
        return Err(FramingError::Truncated);
    }
    let json_end: usize = HEADER_BYTES + header.json_size as usize;
    let data_end: usize = HEADER_BYTES + header.total_size as usize;
    let json = copy_range(frame, HEADER_BYTES, json_end);
    let data = copy_range(frame, json_end, data_end);
    Ok((json, data))
}

/// Reading a frame that was written gives the JSON text and the payload
/// back.
pub proof fn lemma_frame_round_trip(json: Seq<u8>, data: Seq<u8>)
    requires
        json.len() + data.len() <= u32::MAX,
    ensures
        spec_read_frame(spec_frame(json, data)) == Ok::<(Seq<u8>, Seq<u8>), FramingError>(
            (json, data),
        ),
{
    let total = (json.len() + data.len()) as u32;
    let size = json.len() as u32;
    let frame = spec_frame(json, data);
    lemma_u32_be_round_trip(total);
    lemma_u32_be_round_trip(size);
    assert(frame.subrange(0, 4) =~= spec_u32_to_be(total));
    assert(frame.subrange(4, 8) =~= spec_u32_to_be(size));
    assert(spec_u32_at(frame, 0) == spec_u32_at(spec_u32_to_be(total), 0));
    assert(spec_u32_at(frame, 4) == spec_u32_at(spec_u32_to_be(size), 0));
    assert(frame.subrange(8, 8 + size) =~= json);
    assert(frame.subrange(8 + size, 8 + total) =~= data);
}

} // verus!
