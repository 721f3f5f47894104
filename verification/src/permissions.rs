//! The default permission mask: an integer bitmask decoded from decimal text.

use vstd::prelude::*;
use crate::text::chars_of;

verus! {

/// The bits that the chat framework defines a permission for: bits 0 to 30,
/// without bits 9 and 19.
pub const DEFINED_PERMISSION_BITS: u64 = 0x7FF7_FDFF;

/// `c` is one of the ten ASCII digits.
pub open spec fn is_digit(c: char) -> bool {
    '0' <= c && c <= '9'
}

/// The value of a digit; zero for any other character.
pub open spec fn digit_value(c: char) -> nat {
    if is_digit(c) {
        (c as int - '0' as int) as nat
    } else {
        0
    }
}

/// `s` is not empty and holds ASCII digits only.
pub open spec fn is_decimal(s: Seq<char>) -> bool {
    s.len() > 0 && forall|i: int| 0 <= i < s.len() ==> is_digit(#[trigger] s[i])
}

/// The number that the digits of `s` write in base ten.
pub open spec fn decimal_value(s: Seq<char>) -> nat
    decreases s.len(),
{
    if s.len() == 0 {
        0
    } else {
        10 * decimal_value(s.drop_last()) + digit_value(s.last())
    }
}

/// `s` without one leading plus sign, if it has one.
pub open spec fn without_sign(s: Seq<char>) -> Seq<char> {
    if s.len() > 0 && s[0] == '+' {
        s.skip(1)
    } else {
        s
    }
}

/// The integer that `s` writes: an optional `+`, then one or more ASCII
/// digits whose value fits in 64 bits. Anything else writes no integer.
pub open spec fn parsed_integer(s: Seq<char>) -> Option<u64> {
    let digits = without_sign(s);
    if is_decimal(digits) && decimal_value(digits) <= u64::MAX {
        Some(decimal_value(digits) as u64)
    } else {
        None
    }
}

/// The mask bits that an optional setting decodes to: the integer it writes,
/// or zero where it is absent or writes none.
pub open spec fn decoded_bits(text: Option<Seq<char>>) -> u64 {
    match text {
        Some(s) => match parsed_integer(s) {
            Some(bits) => bits,
            None => 0,
        },
        None => 0,
    }
}

/// A longer digit string never writes a smaller number than one of its
/// prefixes.
pub proof fn lemma_decimal_value_monotonic(s: Seq<char>, n: int)
    requires
        0 <= n <= s.len(),
    ensures
        decimal_value(s.take(n)) <= decimal_value(s),
    decreases s.len(),
{
    if n == s.len() {
        assert(s.take(n) =~= s);
    } else {
        assert(s.drop_last().take(n) =~= s.take(n));
        lemma_decimal_value_monotonic(s.drop_last(), n);
    }
}

/// Parses `text` as an unsigned 64-bit integer in base ten.
pub fn parse_decimal(text: &str) -> (value: Option<u64>)
    ensures
        value == parsed_integer(text@),
{
    let chars = chars_of(text);
    let start: usize = if chars.len() > 0 && chars[0] == '+' {
        1
    } else {
        0
    };
    let ghost digits = without_sign(text@);
    if start == chars.len() {
        return None;
    }
    let mut total: u64 = 0;
    let mut i: usize = start;
    while i < chars.len()
        invariant
            chars@ == text@,
            digits == without_sign(text@),
            digits == chars@.skip(start as int),
            start <= i <= chars.len(),
            forall|j: int| 0 <= j < i - start ==> is_digit(#[trigger] digits[j]),
            total == decimal_value(digits.take(i - start)),
        decreases chars.len() - i,
    {
        let c = chars[i];
        let ghost k = i - start;
        assert(digits[k] == c);
        assert(digits.take(k + 1).drop_last() =~= digits.take(k));
        assert(digits.take(k + 1).last() == c);
        if !(c >= '0' && c <= '9') {
            return None;
        }
        let digit: u64 = (c as u32 - '0' as u32) as u64;
        assert(digit == digit_value(c));
        let grown = match total.checked_mul(10) {
            Some(tens) => tens.checked_add(digit),
            None => None,
        };
        match grown {
            Some(next) => {
                total = next;
            },
            None => {
                proof {
                    lemma_decimal_value_monotonic(digits, k + 1);
                }
                return None;
            },
        }
        i += 1;
    }
    assert(digits.take(i - start) =~= digits);
    Some(total)
}

/// A set of permission bits.
#[derive(Clone, Copy, Debug, PartialEq, Eq, Structural)]
pub struct PermissionMask {
    pub bits: u64,
}

impl PermissionMask {
    /// The mask with no bit set.
    pub fn empty() -> (mask: PermissionMask)
        ensures
            mask.bits == 0,
    {
        PermissionMask { bits: 0 }
    }

    /// The mask with exactly the given bits.
    pub fn from_bits(bits: u64) -> (mask: PermissionMask)
        ensures
            mask.bits == bits,
    {
        PermissionMask { bits }
    }

    /// Decodes the optional permissions setting. A setting that is absent, or
    /// that does not write an integer, gives the empty mask.
    pub fn decode(text: Option<&str>) -> (mask: PermissionMask)
        ensures
            mask.bits == decoded_bits(
                match text {
                    Some(s) => Some(s@),
                    None => None,
                },
            ),
    {
        match text {
            Some(s) => match parse_decimal(s) {
                Some(bits) => PermissionMask::from_bits(bits),
                None => PermissionMask::empty(),
            },
            None => PermissionMask::empty(),
        }
    }

    /// The part of the mask that the chat framework defines a permission
    /// for: what is left of the mask once it is handed to the framework.
    pub fn recognised(self) -> (mask: PermissionMask)
        ensures
            mask.bits == self.bits & DEFINED_PERMISSION_BITS,
    {
        PermissionMask { bits: defined_bits(self.bits) }
    }
}

/// Calls serenity's `Permissions::from_bits_truncate` and reads the result
/// back with `bits`. Not proved: that the result keeps exactly those bits of
/// the argument for which serenity defines a permission flag.
#[verifier::external_body]
fn defined_bits(bits: u64) -> (kept: u64)
    ensures
        kept == bits & DEFINED_PERMISSION_BITS,
{
    serenity::model::permissions::Permissions::from_bits_truncate(bits).bits()
}

} // verus!
