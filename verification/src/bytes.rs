//! Big-endian 32-bit words, as the wire format writes them.

use vstd::arithmetic::div_mod::lemma_fundamental_div_mod_converse;
use vstd::prelude::*;

verus! {

/// The value of four bytes read as a big-endian 32-bit word.
pub open spec fn spec_u32_from_be(b0: u8, b1: u8, b2: u8, b3: u8) -> int {
    b0 * 0x100_0000 + b1 * 0x1_0000 + b2 * 0x100 + b3
}

/// The four bytes of a 32-bit word, most significant first.
pub open spec fn spec_u32_to_be(x: u32) -> Seq<u8> {
    seq![
        (x / 0x100_0000) as u8,
        ((x / 0x1_0000) % 0x100) as u8,
        ((x / 0x100) % 0x100) as u8,
        (x % 0x100) as u8,
    ]
}

/// The big-endian word that starts at position `at` of `s`.
pub open spec fn spec_u32_at(s: Seq<u8>, at: int) -> int
    recommends
        0 <= at,
        at + 4 <= s.len(),
{
    spec_u32_from_be(s[at], s[at + 1], s[at + 2], s[at + 3])
}

/// Reads four bytes as a big-endian 32-bit word.
pub fn u32_from_be(b0: u8, b1: u8, b2: u8, b3: u8) -> (x: u32)
    ensures
        x == spec_u32_from_be(b0, b1, b2, b3),
        spec_u32_to_be(x) =~= seq![b0, b1, b2, b3],
{
    proof {
        lemma_u32_be_bytes_round_trip(b0, b1, b2, b3);
    }
    (b0 as u32) * 0x100_0000 + (b1 as u32) * 0x1_0000 + (b2 as u32) * 0x100 + (b3 as u32)
}

/// Writes a 32-bit word as four bytes, most significant first.
pub fn u32_to_be(x: u32) -> (b: [u8; 4])
    ensures
        b@ == spec_u32_to_be(x),
        spec_u32_from_be(b[0], b[1], b[2], b[3]) == x,
{
    let b: [u8; 4] = [
        (x / 0x100_0000) as u8,
        ((x / 0x1_0000) % 0x100) as u8,
        ((x / 0x100) % 0x100) as u8,
        (x % 0x100) as u8,
    ];
    assert(b@ =~= spec_u32_to_be(x));
    b
}

/// Reading what was written gives the word back.
pub proof fn lemma_u32_be_round_trip(x: u32)
    ensures
        spec_u32_to_be(x).len() == 4,
        spec_u32_at(spec_u32_to_be(x), 0) == x,
{
}

/// Writing what was read gives the bytes back.
pub proof fn lemma_u32_be_bytes_round_trip(b0: u8, b1: u8, b2: u8, b3: u8)
    ensures
        0 <= spec_u32_from_be(b0, b1, b2, b3) <= u32::MAX,
        spec_u32_to_be(spec_u32_from_be(b0, b1, b2, b3) as u32) =~= seq![b0, b1, b2, b3],
{
    let x = spec_u32_from_be(b0, b1, b2, b3);
    lemma_fundamental_div_mod_converse(x, 0x100_0000, b0 as int, b1 * 0x1_0000 + b2 * 0x100 + b3);
    lemma_fundamental_div_mod_converse(x, 0x1_0000, b0 * 0x100 + b1, b2 * 0x100 + b3);
    lemma_fundamental_div_mod_converse(b0 * 0x100 + b1, 0x100, b0 as int, b1 as int);
    lemma_fundamental_div_mod_converse(x, 0x100, b0 * 0x1_0000 + b1 * 0x100 + b2, b3 as int);
    lemma_fundamental_div_mod_converse(
        b0 * 0x1_0000 + b1 * 0x100 + b2,
        0x100,
        b0 * 0x100 + b1,
        b2 as int,
    );
}

} // verus!
