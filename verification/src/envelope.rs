//! The JSON envelope of a fragment: an object with one key, the name of the
//! fragment's variant, written without white space as
//! `{"<Variant>":<body>}`. This module works on the bytes of the text; the
//! body is taken as it is.

use crate::framing::append_bytes;
use vstd::prelude::*;
use vstd::string::StringSliceAdditionalSpecFns;
use vstd::utf8::{encode_utf8, is_ascii_chars, is_ascii_chars_encode_utf8};

verus! {

/// Which of the three fragments an envelope holds.
#[derive(Clone, Copy, Debug, PartialEq, Eq, Structural)]
pub enum FragmentKind {
    FragmentResult,
    FragmentRequest,
    FragmentTask,
}

/// The key under which a fragment is written.
pub open spec fn spec_kind_name(kind: FragmentKind) -> Seq<char> {
    match kind {
        FragmentKind::FragmentResult => "FragmentResult"@,
        FragmentKind::FragmentRequest => "FragmentRequest"@,
        FragmentKind::FragmentTask => "FragmentTask"@,
    }
}

/// The bytes up to the body: `{"<Variant>":`.
pub open spec fn spec_envelope_prefix(kind: FragmentKind) -> Seq<u8> {
    seq![0x7bu8, 0x22u8] + encode_utf8(spec_kind_name(kind)) + seq![0x22u8, 0x3au8]
}

/// The envelope of a body: `{"<Variant>":<body>}`.
pub open spec fn spec_envelope(kind: FragmentKind, body: Seq<u8>) -> Seq<u8> {
    spec_envelope_prefix(kind) + body + seq![0x7du8]
}

/// Whether a text opens with the prefix of `kind` and closes with `}`.
pub open spec fn spec_is_envelope_of(json: Seq<u8>, kind: FragmentKind) -> bool {
    let prefix = spec_envelope_prefix(kind);
    &&& json.len() > prefix.len()
    &&& json.subrange(0, prefix.len() as int) == prefix
    &&& json.last() == 0x7du8
}

/// What stands between the prefix of `kind` and the closing `}`.
pub open spec fn spec_envelope_body(json: Seq<u8>, kind: FragmentKind) -> Seq<u8> {
    json.subrange(spec_envelope_prefix(kind).len() as int, json.len() - 1)
}

/// The variant and the body of an envelope; `None` for a text that is the
/// envelope of none of the three variants.
pub open spec fn spec_open_envelope(json: Seq<u8>) -> Option<(FragmentKind, Seq<u8>)> {
    if spec_is_envelope_of(json, FragmentKind::FragmentResult) {
        Some((FragmentKind::FragmentResult, spec_envelope_body(json, FragmentKind::FragmentResult)))
    } else if spec_is_envelope_of(json, FragmentKind::FragmentRequest) {
        Some(
            (FragmentKind::FragmentRequest, spec_envelope_body(json, FragmentKind::FragmentRequest)),
        )
    } else if spec_is_envelope_of(json, FragmentKind::FragmentTask) {
        Some((FragmentKind::FragmentTask, spec_envelope_body(json, FragmentKind::FragmentTask)))
    } else {
        None
    }
}

/// The key under which a fragment is written.
pub fn kind_name(kind: FragmentKind) -> (name: &'static str)
    ensures
        name@ == spec_kind_name(kind),
        name.spec_bytes() == encode_utf8(spec_kind_name(kind)),
{
    match kind {
        FragmentKind::FragmentResult => "FragmentResult",
        FragmentKind::FragmentRequest => "FragmentRequest",
        FragmentKind::FragmentTask => "FragmentTask",
    }
}

/// The bytes up to the body.
pub fn envelope_prefix(kind: FragmentKind) -> (prefix: Vec<u8>)
    ensures
        prefix@ == spec_envelope_prefix(kind),
{
    let mut prefix: Vec<u8> = Vec::new();
    prefix.push(0x7bu8);
    prefix.push(0x22u8);
    append_bytes(&mut prefix, kind_name(kind).as_bytes());
    prefix.push(0x22u8);
    prefix.push(0x3au8);
    assert(prefix@ =~= spec_envelope_prefix(kind));
    prefix
}

/// Writes the envelope of a body.
pub fn envelope(kind: FragmentKind, body: &[u8]) -> (json: Vec<u8>)
    ensures
        json@ == spec_envelope(kind, body@),
{
    let mut json = envelope_prefix(kind);
    append_bytes(&mut json, body);
    json.push(0x7du8);
    json
}

/// Whether `json` opens with the bytes of `prefix`.
fn starts_with(json: &[u8], prefix: &Vec<u8>) -> (yes: bool)
    ensures
        yes == (json@.len() >= prefix@.len() && json@.subrange(0, prefix@.len() as int)
            == prefix@),
{
    if json.len() < prefix.len() {
        return false;
    }
    let mut i: usize = 0;
    while i < prefix.len()
        invariant
            i <= prefix.len() <= json.len(),
            json@.subrange(0, i as int) == prefix@.subrange(0, i as int),
        decreases prefix.len() - i,
    {
        if json[i] != prefix[i] {
            assert(json@.subrange(0, prefix@.len() as int)[i as int] != prefix@[i as int]);
            return false;
        }
        i += 1;
        assert(json@.subrange(0, i as int) =~= json@.subrange(0, i - 1).push(json@[i - 1]));
        assert(prefix@.subrange(0, i as int) =~= prefix@.subrange(0, i - 1).push(prefix@[i - 1]));
    }
    assert(prefix@.subrange(0, prefix@.len() as int) =~= prefix@);
    true
}

/// The body of `json` if it is an envelope of `kind`.
fn open_as(json: &[u8], kind: FragmentKind) -> (body: Option<Vec<u8>>)
    ensures
        body is Some == spec_is_envelope_of(json@, kind),
        body is Some ==> body->Some_0@ == spec_envelope_body(json@, kind),
{
    let prefix = envelope_prefix(kind);
    if json.len() > prefix.len() && starts_with(json, &prefix) && json[json.len() - 1] == 0x7du8 {
        let mut body: Vec<u8> = Vec::new();
        let mut i: usize = prefix.len();
        let end: usize = json.len() - 1;
        while i < end
            invariant
                prefix.len() <= i <= end < json.len(),
                body@ == json@.subrange(prefix.len() as int, i as int),
            decreases end - i,
        {
            body.push(json[i]);
            i += 1;
            assert(body@ =~= json@.subrange(prefix.len() as int, i as int));
        }
        Some(body)
    } else {
        None
    }
}

/// Chooses the variant by the key and hands out the body. `None` exactly
/// for a text that is the envelope of none of the three variants.
pub fn open_envelope(json: &[u8]) -> (r: Option<(FragmentKind, Vec<u8>)>)
    ensures
        match spec_open_envelope(json@) {
            Some((kind, body)) => r is Some && r->Some_0.0 == kind && r->Some_0.1@ == body,
            None => r is None,
        },
{
    if let Some(body) = open_as(json, FragmentKind::FragmentResult) {
        return Some((FragmentKind::FragmentResult, body));
    }
    if let Some(body) = open_as(json, FragmentKind::FragmentRequest) {
        return Some((FragmentKind::FragmentRequest, body));
    }
    if let Some(body) = open_as(json, FragmentKind::FragmentTask) {
        return Some((FragmentKind::FragmentTask, body));
    }
    None
}

/// The bytes of the three keys.
pub proof fn lemma_kind_name_bytes()
    ensures
        encode_utf8(spec_kind_name(FragmentKind::FragmentResult)) =~= seq![
            0x46u8, 0x72, 0x61, 0x67, 0x6d, 0x65, 0x6e, 0x74, 0x52, 0x65, 0x73, 0x75, 0x6c, 0x74,
        ],
        encode_utf8(spec_kind_name(FragmentKind::FragmentRequest)) =~= seq![
            0x46u8, 0x72, 0x61, 0x67, 0x6d, 0x65, 0x6e, 0x74, 0x52, 0x65, 0x71, 0x75, 0x65, 0x73,
            0x74,
        ],
        encode_utf8(spec_kind_name(FragmentKind::FragmentTask)) =~= seq![
            0x46u8, 0x72, 0x61, 0x67, 0x6d, 0x65, 0x6e, 0x74, 0x54, 0x61, 0x73, 0x6b,
        ],
{
    reveal_strlit("FragmentResult");
    reveal_strlit("FragmentRequest");
    reveal_strlit("FragmentTask");
    assert(is_ascii_chars("FragmentResult"@));
    assert(is_ascii_chars("FragmentRequest"@));
    assert(is_ascii_chars("FragmentTask"@));
    is_ascii_chars_encode_utf8("FragmentResult"@);
    is_ascii_chars_encode_utf8("FragmentRequest"@);
    is_ascii_chars_encode_utf8("FragmentTask"@);
}

/// A text is the envelope of at most one variant.
pub proof fn lemma_envelope_kind_unique(json: Seq<u8>, a: FragmentKind, b: FragmentKind)
    requires
        spec_is_envelope_of(json, a),
        spec_is_envelope_of(json, b),
    ensures
        a == b,
{
    lemma_kind_name_bytes();
    let pa = spec_envelope_prefix(a);
    let pb = spec_envelope_prefix(b);
    if a != b {
        // The keys differ in their ninth or eleventh letter.
        assert(json.subrange(0, pa.len() as int)[10] == pa[10]);
        assert(json.subrange(0, pb.len() as int)[10] == pb[10]);
        assert(json.subrange(0, pa.len() as int)[12] == pa[12]);
        assert(json.subrange(0, pb.len() as int)[12] == pb[12]);
    }
}

/// Opening the envelope of a body gives the variant and the body back.
pub proof fn lemma_envelope_round_trip(kind: FragmentKind, body: Seq<u8>)
    ensures
        spec_open_envelope(spec_envelope(kind, body)) == Some((kind, body)),
{
    let json = spec_envelope(kind, body);
    let prefix = spec_envelope_prefix(kind);
    assert(json.subrange(0, prefix.len() as int) =~= prefix);
    assert(spec_envelope_body(json, kind) =~= body);
    assert(spec_is_envelope_of(json, kind));
    if spec_is_envelope_of(json, FragmentKind::FragmentResult) {
        lemma_envelope_kind_unique(json, kind, FragmentKind::FragmentResult);
    } else if spec_is_envelope_of(json, FragmentKind::FragmentRequest) {
        lemma_envelope_kind_unique(json, kind, FragmentKind::FragmentRequest);
    }
}

/// Every envelope is written as `{"<Variant>":` for its own variant, then
/// the body, then `}`; and it is the envelope of no other variant.
pub proof fn lemma_envelope_shape(kind: FragmentKind, body: Seq<u8>, other: FragmentKind)
    ensures
        spec_is_envelope_of(spec_envelope(kind, body), kind),
        spec_envelope(kind, body)[0] == 0x7bu8,
        spec_envelope(kind, body).last() == 0x7du8,
        spec_is_envelope_of(spec_envelope(kind, body), other) ==> other == kind,
{
    let json = spec_envelope(kind, body);
    let prefix = spec_envelope_prefix(kind);
    assert(json.subrange(0, prefix.len() as int) =~= prefix);
    if spec_is_envelope_of(json, other) {
        lemma_envelope_kind_unique(json, kind, other);
    }
}

} // verus!
