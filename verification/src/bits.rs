//! Bit-level updates of 16-bit words, done through the `bit_field` crate.

use bit_field::BitField;
use vstd::prelude::*;

verus! {

/// The word `x` with bit `bit` set when `flag` holds and cleared otherwise.
pub open spec fn with_bit(x: u16, bit: u16, flag: bool) -> u16 {
    if flag {
        x | (1u16 << bit)
    } else {
        x & !(1u16 << bit)
    }
}

/// The lowest `width` bits set, all others clear (for `width < 16`).
pub open spec fn low_mask(width: u16) -> u16 {
    ((1u16 << width) - 1) as u16
}

/// The word `x` whose bits `start..end` are replaced by `value`.
pub open spec fn with_bits(x: u16, start: u16, end: u16, value: u16) -> u16 {
    (x & !(low_mask((end - start) as u16) << start)) | (value << start)
}

/// Calls `BitField::set_bit` on a `u16`: the bit is set when `flag` holds and
/// cleared otherwise, and no other bit changes. The outside function panics on a
/// bit index of 16 or more, which `requires` rules out.
#[verifier::external_body]
pub(crate) fn set_bit_u16(word: &mut u16, bit: u16, flag: bool)
    requires
        bit < 16,
    ensures
        *final(word) == with_bit(*old(word), bit, flag),
{
    word.set_bit(bit as usize, flag);
}

/// Calls `BitField::set_bits` on a `u16` with the range `start..end`: those bits
/// become `value` and no other bit changes. The outside function panics on an
/// empty or out-of-range range and on a value wider than the range; `requires`
/// rules those out (and also the full 16-bit range, which no caller uses).
#[verifier::external_body]
pub(crate) fn set_bits_u16(word: &mut u16, start: u16, end: u16, value: u16)
    requires
        start < end <= 16,
        end - start < 16,
        value <= low_mask((end - start) as u16),
    ensures
        *final(word) == with_bits(*old(word), start, end, value),
{
    word.set_bits((start as usize)..(end as usize), value);
}

} // verus!
