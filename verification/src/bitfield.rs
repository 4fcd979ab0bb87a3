//! The bitfield codec: how a configuration value is placed into, and read back
//! from, its few bits of a register byte.
//!
//! A field is described by its `width` in bits and its `shift`, the position of
//! its lowest bit inside the byte. Changing a field is always a merge into the
//! byte that was read from the register, so that the other fields of the same
//! register keep their bits.

use vstd::prelude::*;
use vstd::arithmetic::power2::{lemma2_to64, pow2};

verus! {

/// A field of `width` bits whose lowest bit sits at `shift` lies inside one byte.
pub open spec fn spec_field_fits(width: u8, shift: u8) -> bool {
    1 <= width <= 8 && shift + width <= 8
}

/// The `width` lowest bits set: `2^width - 1`, saturating at a full byte.
pub open spec fn spec_width_mask(width: u8) -> u8 {
    if width >= 8 {
        0xFF
    } else {
        ((1u8 << width) - 1) as u8
    }
}

/// The bits of a register byte that the field occupies.
pub open spec fn spec_field_mask(width: u8, shift: u8) -> u8 {
    spec_width_mask(width) << shift
}

/// `value` moved to the field's position, cut to the field's bits.
pub open spec fn spec_encode(width: u8, shift: u8, value: u8) -> u8 {
    (value << shift) & spec_field_mask(width, shift)
}

/// The register byte `current` with the field replaced by `value` and every
/// other bit kept.
pub open spec fn spec_merge(current: u8, width: u8, shift: u8, value: u8) -> u8 {
    (current & !spec_field_mask(width, shift)) | spec_encode(width, shift, value)
}

/// The content of the field in the register byte `byte`.
pub open spec fn spec_extract(byte: u8, width: u8, shift: u8) -> u8 {
    (byte >> shift) & spec_width_mask(width)
}

/// The `width` lowest bits set; a full byte for a width of 8 or more.
pub fn width_mask(width: u8) -> (m: u8)
    ensures
        m == spec_width_mask(width),
{
    if width >= 8 {
        0xFF
    } else {
        assert((1u8 << width) >= 1) by (bit_vector)
            requires
                width < 8,
        ;
        (1u8 << width) - 1
    }
}

/// The mask of a field of at most eight bits is one less than a power of two.
pub proof fn lemma_width_mask_is_pow2_minus_one(width: u8)
    requires
        width <= 8,
    ensures
        spec_width_mask(width) == pow2(width as nat) - 1,
{
    lemma2_to64();
    assert(spec_width_mask(0) == 0 && spec_width_mask(1) == 1 && spec_width_mask(2) == 3
        && spec_width_mask(3) == 7 && spec_width_mask(4) == 15 && spec_width_mask(5) == 31
        && spec_width_mask(6) == 63 && spec_width_mask(7) == 127 && spec_width_mask(8) == 255)
        by (bit_vector);
}

/// The field read as a number: the byte divided by `2^shift`, the quotient
/// taken modulo `2^width`.
pub proof fn lemma_extract_is_div_mod(byte: u8, width: u8, shift: u8)
    requires
        spec_field_fits(width, shift),
    ensures
        spec_extract(byte, width, shift) == (byte as nat / pow2(shift as nat)) % pow2(width as nat),
{
    lemma2_to64();
    let shifted = byte >> shift;
    let low = (1u16 << width);
    let step = (1u8 << shift);
    assert(shifted == byte / step && step >= 1) by (bit_vector)
        requires
            shifted == byte >> shift,
            step == 1u8 << shift,
            shift < 8,
    ;
    assert(shifted & spec_width_mask(width) == (shifted as u16) % low && low >= 2) by (bit_vector)
        requires
            low == 1u16 << width,
            1 <= width <= 8,
    ;
    assert(step == pow2(shift as nat)) by {
        assert(1u8 << 0u8 == 1 && 1u8 << 1u8 == 2 && 1u8 << 2u8 == 4 && 1u8 << 3u8 == 8 && 1u8
            << 4u8 == 16 && 1u8 << 5u8 == 32 && 1u8 << 6u8 == 64 && 1u8 << 7u8 == 128)
            by (bit_vector);
    }
    assert(low == pow2(width as nat)) by {
        assert(1u16 << 1u8 == 2 && 1u16 << 2u8 == 4 && 1u16 << 3u8 == 8 && 1u16 << 4u8 == 16
            && 1u16 << 5u8 == 32 && 1u16 << 6u8 == 64 && 1u16 << 7u8 == 128 && 1u16 << 8u8 == 256)
            by (bit_vector);
    }
}

/// A value that can be written to a field of a configuration register.
///
/// An implementation fixes where the field lies (`width`, `shift`) and gives
/// each of its values a raw code. The two proof obligations keep the field
/// inside the byte and the code inside the field; with them a merge never
/// reaches a neighbouring field.
pub trait BitValue {
    /// The width of the field in bits.
    spec fn spec_width() -> u8;

    /// The position of the field's lowest bit in the register byte.
    spec fn spec_shift() -> u8;

    /// The raw code of this value, not shifted.
    spec fn spec_value(&self) -> u8;

    /// The field lies inside one byte.
    proof fn field_is_well_formed()
        ensures
            spec_field_fits(Self::spec_width(), Self::spec_shift()),
    ;

    /// The raw code needs no more bits than the field has.
    proof fn value_is_in_range(&self)
        ensures
            self.spec_value() <= spec_width_mask(Self::spec_width()),
    ;

    /// The width of the bitfield in bits.
    fn width() -> (w: u8)
        ensures
            w == Self::spec_width(),
    ;

    /// The bit mask of the value, not shifted.
    fn mask() -> (m: u8)
        ensures
            m == spec_width_mask(Self::spec_width()),
    {
        width_mask(Self::width())
    }

    /// The number of bits to shift the mask by.
    fn shift() -> (s: u8)
        ensures
            s == Self::spec_shift(),
    ;

    /// The raw code of the value, as sent to the sensor. It is not shifted.
    fn value(&self) -> (v: u8)
        ensures
            v == self.spec_value(),
    ;
}

/// The register byte `current` after `bits` has been written to its field.
pub open spec fn spec_updated<B: BitValue>(current: u8, bits: B) -> u8 {
    spec_merge(current, B::spec_width(), B::spec_shift(), bits.spec_value())
}

/// The raw code that the register byte `byte` holds in the field of `B`.
pub open spec fn spec_field<B: BitValue>(byte: u8) -> u8 {
    spec_extract(byte, B::spec_width(), B::spec_shift())
}

/// The bits of a register byte that the field of `B` occupies.
pub fn field_mask<B: BitValue>() -> (m: u8)
    ensures
        m == spec_field_mask(B::spec_width(), B::spec_shift()),
{
    proof {
        B::field_is_well_formed();
    }
    B::mask() << B::shift()
}

/// The raw code of `bits` moved to the position of its field.
pub fn encode<B: BitValue>(bits: &B) -> (e: u8)
    ensures
        e == spec_encode(B::spec_width(), B::spec_shift(), bits.spec_value()),
{
    proof {
        B::field_is_well_formed();
    }
    (bits.value() << B::shift()) & field_mask::<B>()
}

/// Replaces the field of `B` in the register byte `current` by `bits` and
/// keeps every other bit of `current`.
pub fn merge<B: BitValue>(current: u8, bits: &B) -> (updated: u8)
    ensures
        updated == spec_updated(current, *bits),
{
    let mask = field_mask::<B>();
    (current & !mask) | encode(bits)
}

/// Reads the raw code held by the field of `B` in the register byte `byte`.
pub fn extract<B: BitValue>(byte: u8) -> (code: u8)
    ensures
        code == spec_field::<B>(byte),
        code <= spec_width_mask(B::spec_width()),
{
    proof {
        B::field_is_well_formed();
    }
    let shift = B::shift();
    let mask = B::mask();
    assert(((byte >> shift) & mask) <= mask) by (bit_vector);
    (byte >> shift) & mask
}

/// Writing a value into an all-zero register and reading the field back gives
/// the value, and no bit outside the field is set. This holds for every field
/// that lies inside the byte and every value that the field has room for.
pub proof fn lemma_round_trip_from_zero(width: u8, shift: u8, value: u8)
    requires
        1 <= width <= 8,
        0 <= shift <= 8 - width,
        0 <= value < pow2(width as nat),
    ensures
        spec_extract(spec_merge(0, width, shift, value), width, shift) == value,
        spec_merge(0, width, shift, value) & !spec_field_mask(width, shift) == 0,
{
    lemma_width_mask_is_pow2_minus_one(width);
    lemma_merge_then_extract(0, width, shift, value);
    assert(0u8 & !spec_field_mask(width, shift) == 0) by (bit_vector);
}

/// Writing a value into any register byte and reading the field back gives the
/// value, and the bits outside the field are those of the byte before.
pub proof fn lemma_merge_then_extract(current: u8, width: u8, shift: u8, value: u8)
    requires
        spec_field_fits(width, shift),
        value <= spec_width_mask(width),
    ensures
        spec_extract(spec_merge(current, width, shift, value), width, shift) == value,
        spec_merge(current, width, shift, value) & !spec_field_mask(width, shift) == current
            & !spec_field_mask(width, shift),
{
    assert(spec_extract(spec_merge(current, width, shift, value), width, shift) == value)
        by (bit_vector)
        requires
            1 <= width <= 8,
            shift + width <= 8,
            value <= spec_width_mask(width),
    ;
    assert(spec_merge(current, width, shift, value) & !spec_field_mask(width, shift) == current
        & !spec_field_mask(width, shift)) by (bit_vector);
}

/// Two fields of one register that share no bit do not disturb each other:
/// after either is written, the other reads as it did before.
pub proof fn lemma_disjoint_fields_are_isolated(
    current: u8,
    width_a: u8,
    shift_a: u8,
    value_a: u8,
    width_b: u8,
    shift_b: u8,
    value_b: u8,
)
    requires
        spec_field_fits(width_a, shift_a),
        spec_field_fits(width_b, shift_b),
        shift_a + width_a <= shift_b || shift_b + width_b <= shift_a,
    ensures
        spec_extract(spec_merge(current, width_a, shift_a, value_a), width_b, shift_b)
            == spec_extract(current, width_b, shift_b),
        spec_extract(spec_merge(current, width_b, shift_b, value_b), width_a, shift_a)
            == spec_extract(current, width_a, shift_a),
{
    assert(spec_extract(spec_merge(current, width_a, shift_a, value_a), width_b, shift_b)
        == spec_extract(current, width_b, shift_b)) by (bit_vector)
        requires
            1 <= width_a <= 8,
            shift_a + width_a <= 8,
            1 <= width_b <= 8,
            shift_b + width_b <= 8,
            shift_a + width_a <= shift_b || shift_b + width_b <= shift_a,
    ;
    assert(spec_extract(spec_merge(current, width_b, shift_b, value_b), width_a, shift_a)
        == spec_extract(current, width_a, shift_a)) by (bit_vector)
        requires
            1 <= width_a <= 8,
            shift_a + width_a <= 8,
            1 <= width_b <= 8,
            shift_b + width_b <= 8,
            shift_a + width_a <= shift_b || shift_b + width_b <= shift_a,
    ;
}

/// For any implementation of [`BitValue`], the field read from an updated
/// register byte holds the code that was written.
pub proof fn lemma_updated_field_holds_value<B: BitValue>(current: u8, bits: B)
    ensures
        spec_field::<B>(spec_updated(current, bits)) == bits.spec_value(),
{
    B::field_is_well_formed();
    bits.value_is_in_range();
    lemma_merge_then_extract(current, B::spec_width(), B::spec_shift(), bits.spec_value());
}

} // verus!
