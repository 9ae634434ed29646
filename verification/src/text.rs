//! Small operations on text, character by character.

use vstd::prelude::*;
use vstd::string::StrSliceExecFns;

verus! {

/// Whether `s` opens with `prefix`.
pub open spec fn spec_starts_with(s: Seq<char>, prefix: Seq<char>) -> bool {
    s.len() >= prefix.len() && s.subrange(0, prefix.len() as int) == prefix
}

/// The value of a decimal digit; `None` for any other character.
pub open spec fn spec_digit(c: char) -> Option<int> {
    if '0' <= c <= '9' {
        Some(c as int - '0' as int)
    } else {
        None
    }
}

/// Whether every character is a decimal digit.
pub open spec fn spec_all_digits(s: Seq<char>) -> bool {
    forall|i: int| 0 <= i < s.len() ==> spec_digit(#[trigger] s[i]) is Some
}

/// The number that a run of decimal digits spells.
pub open spec fn spec_decimal(s: Seq<char>) -> int
    recommends
        spec_all_digits(s),
    decreases s.len(),
{
    if s.len() == 0 {
        0
    } else {
        10 * spec_decimal(s.drop_last()) + spec_digit(s.last())->Some_0
    }
}

/// The digits of a number as written: the text itself, or what follows one
/// leading `+`.
pub open spec fn spec_unsigned_digits(s: Seq<char>) -> Seq<char> {
    if s.len() > 0 && s[0] == '+' {
        s.drop_first()
    } else {
        s
    }
}

/// The 16-bit number that a text spells: one or more decimal digits, with
/// at most one `+` before them, of a value up to 65535. `None` for any
/// other text.
pub open spec fn spec_parse_u16(s: Seq<char>) -> Option<u16> {
    let digits = spec_unsigned_digits(s);
    if digits.len() > 0 && spec_all_digits(digits) && spec_decimal(digits) <= u16::MAX {
        Some(spec_decimal(digits) as u16)
    } else {
        None
    }
}

/// Whether two texts are the same characters.
pub fn str_eq(a: &str, b: &str) -> (same: bool)
    ensures
        same == (a@ == b@),
{
    let n = a.unicode_len();
    if n != b.unicode_len() {
        return false;
    }
    let mut i: usize = 0;
    while i < n
        invariant
            i <= n,
            n == a@.len(),
            n == b@.len(),
            forall|k: int| 0 <= k < i ==> a@[k] == b@[k],
        decreases n - i,
    {
        if a.get_char(i) != b.get_char(i) {
            return false;
        }
        i += 1;
    }
    assert(a@ =~= b@);
    true
}

/// Whether `s` opens with `prefix`.
pub fn starts_with(s: &str, prefix: &str) -> (yes: bool)
    ensures
        yes == spec_starts_with(s@, prefix@),
{
    let n = prefix.unicode_len();
    if s.unicode_len() < n {
        return false;
    }
    let mut i: usize = 0;
    while i < n
        invariant
            i <= n,
            n == prefix@.len(),
            n <= s@.len(),
            forall|k: int| 0 <= k < i ==> s@[k] == prefix@[k],
        decreases n - i,
    {
        if s.get_char(i) != prefix.get_char(i) {
            assert(s@.subrange(0, n as int)[i as int] != prefix@[i as int]);
            return false;
        }
        i += 1;
    }
    assert(s@.subrange(0, n as int) =~= prefix@);
    true
}

/// What follows `prefix` in `s`; `None` exactly when `s` does not open
/// with `prefix`.
pub fn after_prefix(s: &str, prefix: &str) -> (rest: Option<String>)
    ensures
        rest is Some == spec_starts_with(s@, prefix@),
        rest is Some ==> rest->Some_0@ == s@.skip(prefix@.len() as int),
{
    if starts_with(s, prefix) {
        let rest = s.substring_char(prefix.unicode_len(), s.unicode_len());
        assert(s@.subrange(prefix@.len() as int, s@.len() as int) =~= s@.skip(
            prefix@.len() as int,
        ));
        Some(rest.to_owned())
    } else {
        None
    }
}

/// Reads a 16-bit number.
pub fn parse_u16(s: &str) -> (r: Option<u16>)
    ensures
        r == spec_parse_u16(s@),
{
    let n = s.unicode_len();
    let start: usize = if n > 0 && s.get_char(0) == '+' {
        1
    } else {
        0
    };
    let ghost digits = spec_unsigned_digits(s@);
    assert(digits =~= s@.skip(start as int));
    if start == n {
        return None;
    }
    let mut value: u32 = 0;
    let mut i: usize = start;
    while i < n
        invariant
            start <= i <= n,
            n == s@.len(),
            digits == s@.skip(start as int),
            digits == spec_unsigned_digits(s@),
            spec_all_digits(digits.take(i - start)),
            value == spec_decimal(digits.take(i - start)),
            value <= u16::MAX,
        decreases n - i,
    {
        let c = s.get_char(i);
        let ghost seen = digits.take(i - start);
        let ghost next = digits.take(i - start + 1);
        assert(next.drop_last() =~= seen);
        assert(next.last() == c);
        if c < '0' || c > '9' {
            assert(spec_digit(digits[i - start]) is None);
            return None;
        }
        let d: u32 = (c as u32) - ('0' as u32);
        assert(spec_all_digits(next)) by {
            assert forall|k: int| 0 <= k < next.len() implies spec_digit(#[trigger] next[k])
                is Some by {
                if k < seen.len() {
                    assert(next[k] == seen[k]);
                }
            }
        }
        let wider: u32 = 10 * value + d;
        assert(wider == spec_decimal(next));
        if wider > u16::MAX as u32 {
            proof {
                lemma_decimal_grows(digits, i - start + 1);
            }
            return None;
        }
        value = wider;
        i += 1;
    }
    assert(digits.take(n - start) =~= digits);
    Some(value as u16)
}

/// A run of digits spells at least what any of its beginnings spells.
pub proof fn lemma_decimal_grows(s: Seq<char>, n: int)
    requires
        0 <= n <= s.len(),
    ensures
        spec_all_digits(s) ==> spec_decimal(s.take(n)) <= spec_decimal(s),
    decreases s.len(),
{
    if spec_all_digits(s) && n < s.len() {
        let shorter = s.drop_last();
        assert(spec_all_digits(shorter)) by {
            assert forall|k: int| 0 <= k < shorter.len() implies spec_digit(
                #[trigger] shorter[k],
            ) is Some by {
                assert(shorter[k] == s[k]);
            }
        }
        lemma_decimal_grows(shorter, n);
        assert(shorter.take(n) =~= s.take(n));
        lemma_decimal_nonnegative(shorter);
        assert(spec_digit(s.last()) is Some);
    } else if n == s.len() {
        assert(s.take(n) =~= s);
    }
}

/// A run of digits spells no negative number.
pub proof fn lemma_decimal_nonnegative(s: Seq<char>)
    ensures
        spec_all_digits(s) ==> spec_decimal(s) >= 0,
    decreases s.len(),
{
    if spec_all_digits(s) && s.len() > 0 {
        let shorter = s.drop_last();
        assert(spec_all_digits(shorter)) by {
            assert forall|k: int| 0 <= k < shorter.len() implies spec_digit(
                #[trigger] shorter[k],
            ) is Some by {
                assert(shorter[k] == s[k]);
            }
        }
        lemma_decimal_nonnegative(shorter);
        assert(spec_digit(s.last()) is Some);
    }
}

} // verus!
