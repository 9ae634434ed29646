//! What a binary64 bit pattern stands for.
//!
//! The library never computes with real numbers; it only carries their bit
//! patterns. This module states, for the patterns that the library itself
//! writes, which number each one is: as an exact integer after scaling by
//! `2^60`, for zero and for magnitudes from `2^-8` up to `2^8`.

use vstd::arithmetic::div_mod::lemma_fundamental_div_mod_converse;
use vstd::arithmetic::power2::{lemma2_to64, pow2};
use vstd::prelude::*;

verus! {

/// The sign bit of a pattern.
pub open spec fn spec_sign(bits: u64) -> int {
    bits as int / 0x8000_0000_0000_0000
}

/// The biased exponent of a pattern.
pub open spec fn spec_exponent(bits: u64) -> int {
    (bits as int / 0x10_0000_0000_0000) % 0x800
}

/// The fraction bits of a pattern.
pub open spec fn spec_fraction(bits: u64) -> int {
    bits as int % 0x10_0000_0000_0000
}

/// Whether the pattern is a zero.
pub open spec fn spec_is_zero(bits: u64) -> bool {
    bits as int % 0x8000_0000_0000_0000 == 0
}

/// Whether the pattern is a zero or a number of magnitude from `2^-8` up to
/// `2^8`: the patterns whose value `spec_scaled` gives.
pub open spec fn spec_in_window(bits: u64) -> bool {
    spec_is_zero(bits) || 1015 <= spec_exponent(bits) <= 1030
}

/// The value of a pattern of the window, times `2^60`.
pub open spec fn spec_scaled(bits: u64) -> int
    recommends
        spec_in_window(bits),
{
    if spec_is_zero(bits) {
        0
    } else {
        let magnitude = (0x10_0000_0000_0000 + spec_fraction(bits)) * pow2(
            (spec_exponent(bits) - 1015) as nat,
        );
        if spec_sign(bits) == 0 {
            magnitude
        } else {
            -magnitude
        }
    }
}

/// Whether the value of a pattern is within `10^-12` of `num / den`.
pub open spec fn spec_is_near(bits: u64, num: int, den: int) -> bool {
    let gap = spec_scaled(bits) * den - num * 0x1000_0000_0000_0000;
    &&& spec_in_window(bits)
    &&& den > 0
    &&& -den * 0x1000_0000_0000_0000 <= gap * 1_000_000_000_000 <= den * 0x1000_0000_0000_0000
}

/// Whether a pattern is a binary64 number nearest to `num / den`: a zero
/// for zero, and otherwise a number that differs from `num / den` by no
/// more than half the distance to its neighbours.
pub open spec fn spec_is_nearest(bits: u64, num: int, den: int) -> bool {
    let gap = spec_scaled(bits) * den - num * 0x1000_0000_0000_0000;
    let step = pow2((spec_exponent(bits) - 1015) as nat) as int;
    &&& spec_in_window(bits)
    &&& den > 0
    &&& if spec_is_zero(bits) {
        num == 0
    } else {
        -den * step <= 2 * gap <= den * step
    }
}

/// Whether the value of a pattern is exactly `num / den`.
pub open spec fn spec_is_exactly(bits: u64, num: int, den: int) -> bool {
    &&& spec_in_window(bits)
    &&& den > 0
    &&& spec_scaled(bits) * den == num * 0x1000_0000_0000_0000
}

/// The values of the powers of two that `spec_scaled` uses.
pub proof fn lemma_window_powers()
    ensures
        pow2(0) == 1,
        pow2(1) == 2,
        pow2(2) == 4,
        pow2(3) == 8,
        pow2(4) == 16,
        pow2(5) == 32,
        pow2(6) == 64,
        pow2(7) == 128,
        pow2(8) == 256,
        pow2(9) == 512,
        pow2(10) == 1024,
        pow2(11) == 2048,
        pow2(12) == 4096,
        pow2(13) == 8192,
        pow2(14) == 16384,
        pow2(15) == 32768,
{
    lemma2_to64();
}

/// The fields of a pattern that is put together from them.
pub proof fn lemma_fields(bits: u64, sign: int, exponent: int, fraction: int)
    requires
        0 <= sign <= 1,
        0 <= exponent < 0x800,
        0 <= fraction < 0x10_0000_0000_0000,
        bits == sign * 0x8000_0000_0000_0000 + exponent * 0x10_0000_0000_0000 + fraction,
    ensures
        spec_sign(bits) == sign,
        spec_exponent(bits) == exponent,
        spec_fraction(bits) == fraction,
        spec_is_zero(bits) == (exponent == 0 && fraction == 0),
{
    let b = bits as int;
    lemma_fundamental_div_mod_converse(
        b,
        0x8000_0000_0000_0000,
        sign,
        exponent * 0x10_0000_0000_0000 + fraction,
    );
    lemma_fundamental_div_mod_converse(b, 0x10_0000_0000_0000, sign * 0x800 + exponent, fraction);
    lemma_fundamental_div_mod_converse(sign * 0x800 + exponent, 0x800, sign, exponent);
}

} // verus!
