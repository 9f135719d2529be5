//! Single bits and ranges of bits of an integer, as the `bit_field` crate reads and writes
//! them. Bit 0 is the least significant bit.
//!
//! The functions of this module that touch a value call the crate; what they return is
//! stated here over the shift and mask operators, and is taken on trust from the crate's
//! source.

use vstd::prelude::*;

verus! {

/// The value whose lowest `count` bits are set and whose other bits are clear.
pub open spec fn low_mask(count: u64) -> u64 {
    if count >= 64 {
        0xFFFF_FFFF_FFFF_FFFF
    } else {
        ((1u64 << count) - 1) as u64
    }
}

/// Whether bit `bit` of `value` is set.
pub open spec fn bit_of(value: u64, bit: u8) -> bool {
    (value >> (bit as u64)) & 1 == 1
}

/// `value` with bit `bit` set if `on` holds, and cleared if not.
pub open spec fn with_bit(value: u64, bit: u8, on: bool) -> u64 {
    if on {
        value | (1u64 << (bit as u64))
    } else {
        value & !(1u64 << (bit as u64))
    }
}

/// The bits of `value` from bit `start` up to, but not including, bit `end`, moved down so
/// that bit `start` becomes bit 0.
pub open spec fn bits_of(value: u64, start: u8, end: u8) -> u64 {
    (value >> (start as u64)) & low_mask((end - start) as u64)
}

/// Whether `field` can be stored in the bits from `start` up to `end`: it has no bit set
/// at or above bit `end - start`.
pub open spec fn fits_in(field: u64, start: u8, end: u8) -> bool {
    field & !low_mask((end - start) as u64) == 0
}

/// `value` with the bits from `start` up to, but not including, `end` replaced by the low
/// bits of `field`.
pub open spec fn with_bits(value: u64, start: u8, end: u8, field: u64) -> u64 {
    (value & !(low_mask((end - start) as u64) << (start as u64))) | (field << (start as u64))
}

/// Calls `BitField::get_bit` of the `bit_field` crate on a `u64`. The crate panics on an
/// index of 64 or more, and otherwise tells whether that bit of the value is 1.
#[verifier::external_body]
pub(crate) fn get_bit(value: u64, bit: u8) -> (on: bool)
    requires
        bit < 64,
    ensures
        on == bit_of(value, bit),
{
    bit_field::BitField::get_bit(&value, bit)
}

/// Calls `BitField::set_bit` of the `bit_field` crate on a `u64`. The crate panics on an
/// index of 64 or more, and otherwise sets or clears that bit and leaves the others.
#[verifier::external_body]
pub(crate) fn set_bit(value: &mut u64, bit: u8, on: bool)
    requires
        bit < 64,
    ensures
        *final(value) == with_bit(*old(value), bit, on),
{
    bit_field::BitField::set_bit(value, bit, on);
}

/// Calls `BitField::get_range` of the `bit_field` crate on a `u64`. The crate panics on an
/// empty range and on one that reaches past bit 64, and otherwise returns the bits of the
/// range, moved down to bit 0.
#[verifier::external_body]
pub(crate) fn get_range(value: u64, start: u8, end: u8) -> (field: u64)
    requires
        start < end <= 64,
    ensures
        field == bits_of(value, start, end),
{
    bit_field::BitField::get_range(&value, start..end)
}

/// Calls `BitField::set_range` of the `bit_field` crate on a `u64`. The crate panics on an
/// empty range, on one that reaches past bit 64 and on a field too wide for the range, and
/// otherwise stores the field in the bits of the range and leaves the others.
#[verifier::external_body]
pub(crate) fn set_range(value: &mut u64, start: u8, end: u8, field: u64)
    requires
        start < end <= 64,
        fits_in(field, start, end),
    ensures
        *final(value) == with_bits(*old(value), start, end, field),
{
    bit_field::BitField::set_range(value, start..end, field);
}

/// Calls `BitField::get_range` of the `bit_field` crate on a `u32`. The crate panics on an
/// empty range and on one that reaches past bit 32, and otherwise returns the bits of the
/// range, moved down to bit 0.
#[verifier::external_body]
pub(crate) fn get_range_u32(value: u32, start: u8, end: u8) -> (field: u32)
    requires
        start < end <= 32,
    ensures
        field == bits_of(value as u64, start, end),
{
    bit_field::BitField::get_range(&value, start..end)
}

/// A bit that was just written reads back as written, and no other bit has changed.
pub proof fn lemma_with_bit(value: u64, bit: u8, on: bool, other: u8)
    requires
        bit < 64,
        other < 64,
    ensures
        bit_of(with_bit(value, bit, on), bit) == on,
        other != bit ==> bit_of(with_bit(value, bit, on), other) == bit_of(value, other),
{
    let b = bit as u64;
    let o = other as u64;
    assert(((value | (1u64 << b)) >> b) & 1 == 1 && ((value & !(1u64 << b)) >> b) & 1 == 0)
        by (bit_vector)
        requires
            b < 64,
    ;
    assert(o != b ==> ((value | (1u64 << b)) >> o) & 1 == (value >> o) & 1 && ((value & !(1u64
        << b)) >> o) & 1 == (value >> o) & 1) by (bit_vector)
        requires
            b < 64,
            o < 64,
    ;
}

/// A range of bits that was just written reads back as written, and no bit outside the
/// range has changed.
pub proof fn lemma_with_bits(value: u64, start: u8, end: u8, field: u64, other: u8)
    requires
        start < end <= 64,
        fits_in(field, start, end),
        other < 64,
    ensures
        bits_of(with_bits(value, start, end, field), start, end) == field,
        !(start <= other < end) ==> bit_of(with_bits(value, start, end, field), other) == bit_of(
            value,
            other,
        ),
{
    let s = start as u64;
    let n = (end - start) as u64;
    let o = other as u64;
    let mask = low_mask(n);
    let stored = (value & !(mask << s)) | (field << s);
    assert((stored >> s) & mask == field) by (bit_vector)
        requires
            0 < n,
            s + n <= 64,
            field & !mask == 0,
            mask == (if n >= 64 {
                0xFFFF_FFFF_FFFF_FFFFu64
            } else {
                ((1u64 << n) - 1) as u64
            }),
            stored == (value & !(mask << s)) | (field << s),
    ;
    assert(o < s || o >= s + n ==> (stored >> o) & 1 == (value >> o) & 1) by (bit_vector)
        requires
            0 < n,
            s + n <= 64,
            o < 64,
            field & !mask == 0,
            mask == (if n >= 64 {
                0xFFFF_FFFF_FFFF_FFFFu64
            } else {
                ((1u64 << n) - 1) as u64
            }),
            stored == (value & !(mask << s)) | (field << s),
    ;
}

} // verus!
