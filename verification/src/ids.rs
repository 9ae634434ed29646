//! Task identifiers: sixteen random bytes, opaque to everyone but the
//! dispatcher, which keys its maps by the 128-bit number they spell.

use crate::bytes::{lemma_u32_be_bytes_round_trip, spec_u32_at, u32_from_be};
use rand::RngCore;
use vstd::arithmetic::div_mod::lemma_fundamental_div_mod_converse;
use vstd::prelude::*;

verus! {

/// Bytes of a task identifier.
pub const ID_LEN: usize = 16;

/// The number that sixteen bytes spell, most significant byte first.
pub open spec fn spec_id_key(id: Seq<u8>) -> int
    recommends
        id.len() == 16,
{
    spec_u32_at(id, 0) * 0x1_0000_0000_0000_0000_0000_0000 + spec_u32_at(id, 4)
        * 0x1_0000_0000_0000_0000 + spec_u32_at(id, 8) * 0x1_0000_0000 + spec_u32_at(id, 12)
}

/// `rand::thread_rng` and `RngCore::fill_bytes` of rand: sixteen bytes from
/// the thread's generator. Nothing is claimed of the bytes but their number.
#[verifier::external_body]
pub fn generate_unique_id() -> (id: Vec<u8>)
    ensures
        id@.len() == ID_LEN,
{
    let mut rng = rand::thread_rng();
    let mut result = [0u8; 16];
    rng.fill_bytes(&mut result);
    Vec::from(result)
}

/// The map key of an identifier of sixteen bytes.
pub fn key_of(id: &[u8]) -> (key: u128)
    requires
        id@.len() == ID_LEN,
    ensures
        key == spec_id_key(id@),
{
    let w0 = u32_from_be(id[0], id[1], id[2], id[3]);
    let w1 = u32_from_be(id[4], id[5], id[6], id[7]);
    let w2 = u32_from_be(id[8], id[9], id[10], id[11]);
    let w3 = u32_from_be(id[12], id[13], id[14], id[15]);
    (w0 as u128) * 0x1_0000_0000_0000_0000_0000_0000 + (w1 as u128) * 0x1_0000_0000_0000_0000 + (
    w2 as u128) * 0x1_0000_0000 + (w3 as u128)
}

/// The map key of an identifier; `None` exactly when it is not sixteen
/// bytes long.
pub fn id_key(id: &[u8]) -> (key: Option<u128>)
    ensures
        key is Some == (id@.len() == ID_LEN),
        key is Some ==> key->Some_0 == spec_id_key(id@),
{
    if id.len() == ID_LEN {
        Some(key_of(id))
    } else {
        None
    }
}

/// The key of an identifier fits 128 bits.
pub proof fn lemma_id_key_range(id: Seq<u8>)
    requires
        id.len() == ID_LEN,
    ensures
        0 <= spec_id_key(id) <= u128::MAX,
{
}

/// Two identifiers with the same key are the same bytes.
pub proof fn lemma_id_key_injective(a: Seq<u8>, b: Seq<u8>)
    requires
        a.len() == ID_LEN,
        b.len() == ID_LEN,
        spec_id_key(a) == spec_id_key(b),
    ensures
        a == b,
{
    lemma_words(a);
    lemma_words(b);
    lemma_u32_be_bytes_round_trip(a[0], a[1], a[2], a[3]);
    lemma_u32_be_bytes_round_trip(a[4], a[5], a[6], a[7]);
    lemma_u32_be_bytes_round_trip(a[8], a[9], a[10], a[11]);
    lemma_u32_be_bytes_round_trip(a[12], a[13], a[14], a[15]);
    lemma_u32_be_bytes_round_trip(b[0], b[1], b[2], b[3]);
    lemma_u32_be_bytes_round_trip(b[4], b[5], b[6], b[7]);
    lemma_u32_be_bytes_round_trip(b[8], b[9], b[10], b[11]);
    lemma_u32_be_bytes_round_trip(b[12], b[13], b[14], b[15]);
    assert(seq![a[0], a[1], a[2], a[3]] == seq![b[0], b[1], b[2], b[3]]);
    assert(seq![a[4], a[5], a[6], a[7]] == seq![b[4], b[5], b[6], b[7]]);
    assert(seq![a[8], a[9], a[10], a[11]] == seq![b[8], b[9], b[10], b[11]]);
    assert(seq![a[12], a[13], a[14], a[15]] == seq![b[12], b[13], b[14], b[15]]);
    assert forall|i: int| 0 <= i < 16 implies a[i] == b[i] by {
        let wa = seq![a[4 * (i / 4)], a[4 * (i / 4) + 1], a[4 * (i / 4) + 2], a[4 * (i / 4) + 3]];
        let wb = seq![b[4 * (i / 4)], b[4 * (i / 4) + 1], b[4 * (i / 4) + 2], b[4 * (i / 4) + 3]];
        assert(wa == wb);
        assert(a[i] == wa[i % 4]);
        assert(b[i] == wb[i % 4]);
    }
    assert(a =~= b);
}

/// The four words of an identifier, recovered from its key.
proof fn lemma_words(id: Seq<u8>)
    requires
        id.len() == ID_LEN,
    ensures
        spec_u32_at(id, 0) == spec_id_key(id) / 0x1_0000_0000_0000_0000_0000_0000,
        spec_u32_at(id, 4) == (spec_id_key(id) / 0x1_0000_0000_0000_0000) % 0x1_0000_0000,
        spec_u32_at(id, 8) == (spec_id_key(id) / 0x1_0000_0000) % 0x1_0000_0000,
        spec_u32_at(id, 12) == spec_id_key(id) % 0x1_0000_0000,
{
    let k = spec_id_key(id);
    let w0 = spec_u32_at(id, 0);
    let w1 = spec_u32_at(id, 4);
    let w2 = spec_u32_at(id, 8);
    let w3 = spec_u32_at(id, 12);
    lemma_fundamental_div_mod_converse(
        k,
        0x1_0000_0000_0000_0000_0000_0000,
        w0,
        w1 * 0x1_0000_0000_0000_0000 + w2 * 0x1_0000_0000 + w3,
    );
    lemma_fundamental_div_mod_converse(
        k,
        0x1_0000_0000_0000_0000,
        w0 * 0x1_0000_0000 + w1,
        w2 * 0x1_0000_0000 + w3,
    );
    lemma_fundamental_div_mod_converse(w0 * 0x1_0000_0000 + w1, 0x1_0000_0000, w0, w1);
    lemma_fundamental_div_mod_converse(
        k,
        0x1_0000_0000,
        w0 * 0x1_0000_0000_0000_0000 + w1 * 0x1_0000_0000 + w2,
        w3,
    );
    lemma_fundamental_div_mod_converse(
        w0 * 0x1_0000_0000_0000_0000 + w1 * 0x1_0000_0000 + w2,
        0x1_0000_0000,
        w0 * 0x1_0000_0000 + w1,
        w2,
    );
}

} // verus!
