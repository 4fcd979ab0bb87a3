//! The configuration selectors of the sensor: output data rate, low-pass
//! bandwidth and full scale.
//!
//! Each selector is a two-bit field of a control register. Data rate and
//! bandwidth share `CTRL_REG1` (bits 6-7 and bits 4-5); full scale lies in bits
//! 4-5 of `CTRL_REG4`.

use vstd::prelude::*;
use vstd::pervasive::unreached;
use crate::bitfield::{
    extract, lemma_disjoint_fields_are_isolated, lemma_updated_field_holds_value, spec_field,
    spec_updated, spec_width_mask, BitValue,
};

verus! {

/// Output Data Rate
#[derive(Debug, Clone, Copy, PartialEq, Eq, Structural)]
pub enum Odr {
    /// 95 Hz data rate
    Hz95,
    /// 190 Hz data rate
    Hz190,
    /// 380 Hz data rate
    Hz380,
    /// 760 Hz data rate
    Hz760,
}

impl BitValue for Odr {
    open spec fn spec_width() -> u8 {
        2
    }

    open spec fn spec_shift() -> u8 {
        6
    }

    open spec fn spec_value(&self) -> u8 {
        match *self {
            Odr::Hz95 => 0x00,
            Odr::Hz190 => 0x01,
            Odr::Hz380 => 0x02,
            Odr::Hz760 => 0x03,
        }
    }

    proof fn field_is_well_formed() {
        assert(Self::spec_width() == 2 && Self::spec_shift() == 6);
    }

    proof fn value_is_in_range(&self) {
        assert(spec_width_mask(2) == 3) by (bit_vector);
    }

    fn width() -> (w: u8) {
        2
    }

    fn shift() -> (s: u8) {
        6
    }

    fn value(&self) -> (v: u8) {
        match *self {
            Odr::Hz95 => 0x00,
            Odr::Hz190 => 0x01,
            Odr::Hz380 => 0x02,
            Odr::Hz760 => 0x03,
        }
    }
}

impl Odr {
    /// The data rate that a raw code stands for, if any.
    pub open spec fn spec_from_code(code: u8) -> Option<Odr> {
        if code == 0x00 {
            Some(Odr::Hz95)
        } else if code == 0x01 {
            Some(Odr::Hz190)
        } else if code == 0x02 {
            Some(Odr::Hz380)
        } else if code == 0x03 {
            Some(Odr::Hz760)
        } else {
            None
        }
    }

    /// The data rate selected by the byte `from` of `CTRL_REG1`.
    pub open spec fn spec_from_u8(from: u8) -> Odr {
        Self::spec_from_code(spec_field::<Odr>(from)).unwrap()
    }

    /// Maps a raw code to its data rate; a code that names none is rejected.
    pub fn from_code(code: u8) -> (odr: Option<Odr>)
        ensures
            odr == Self::spec_from_code(code),
    {
        match code {
            0x00 => Some(Odr::Hz95),
            0x01 => Some(Odr::Hz190),
            0x02 => Some(Odr::Hz380),
            0x03 => Some(Odr::Hz760),
            _ => None,
        }
    }

    /// Decodes the data rate from the byte `from` of `CTRL_REG1`. Every
    /// content of the field names a data rate.
    pub fn from_u8(from: u8) -> (odr: Odr)
        ensures
            odr == Self::spec_from_u8(from),
            Self::spec_from_code(spec_field::<Odr>(from)) == Some(odr),
    {
        let code = extract::<Odr>(from);
        proof {
            Self::field_is_well_formed();
            assert(spec_width_mask(2) == 3) by (bit_vector);
        }
        match Self::from_code(code) {
            Some(odr) => odr,
            None => unreached(),
        }
    }

    /// A register byte into which a data rate was merged decodes to that rate.
    pub proof fn lemma_decodes_what_was_set(current: u8, odr: Odr)
        ensures
            Self::spec_from_u8(spec_updated(current, odr)) == odr,
    {
        lemma_updated_field_holds_value(current, odr);
    }
}

/// Full scale selection
#[derive(Debug, Clone, Copy, PartialEq, Eq, Structural)]
pub enum Scale {
    /// 250 Degrees Per Second
    Dps250,
    /// 500 Degrees Per Second
    Dps500,
    /// 2000 Degrees Per Second
    Dps2000,
}

impl BitValue for Scale {
    open spec fn spec_width() -> u8 {
        2
    }

    open spec fn spec_shift() -> u8 {
        4
    }

    open spec fn spec_value(&self) -> u8 {
        match *self {
            Scale::Dps250 => 0x00,
            Scale::Dps500 => 0x01,
            Scale::Dps2000 => 0x03,
        }
    }

    proof fn field_is_well_formed() {
        assert(Self::spec_width() == 2 && Self::spec_shift() == 4);
    }

    proof fn value_is_in_range(&self) {
        assert(spec_width_mask(2) == 3) by (bit_vector);
    }

    fn width() -> (w: u8) {
        2
    }

    fn shift() -> (s: u8) {
        4
    }

    fn value(&self) -> (v: u8) {
        match *self {
            Scale::Dps250 => 0x00,
            Scale::Dps500 => 0x01,
            Scale::Dps2000 => 0x03,
        }
    }
}

impl Scale {
    /// The full scale that a raw code stands for, if any. The chip reads the
    /// code `0x02` as 2000 dps too, beside the documented `0x03`.
    pub open spec fn spec_from_code(code: u8) -> Option<Scale> {
        if code == 0x00 {
            Some(Scale::Dps250)
        } else if code == 0x01 {
            Some(Scale::Dps500)
        } else if code == 0x02 || code == 0x03 {
            Some(Scale::Dps2000)
        } else {
            None
        }
    }

    /// The full scale selected by the byte `from` of `CTRL_REG4`.
    pub open spec fn spec_from_u8(from: u8) -> Scale {
        Self::spec_from_code(spec_field::<Scale>(from)).unwrap()
    }

    /// What one count of an axis is worth at this full scale, in millionths of
    /// a degree per second: 8.75, 17.5 and 70 thousandths of a degree.
    pub open spec fn spec_microdegrees_per_count(self) -> int {
        match self {
            Scale::Dps250 => 8_750,
            Scale::Dps500 => 17_500,
            Scale::Dps2000 => 70_000,
        }
    }

    /// Maps a raw code to its full scale; a code that names none is rejected.
    pub fn from_code(code: u8) -> (scale: Option<Scale>)
        ensures
            scale == Self::spec_from_code(code),
    {
        match code {
            0x00 => Some(Scale::Dps250),
            0x01 => Some(Scale::Dps500),
            0x03 => Some(Scale::Dps2000),
            0x02 => Some(Scale::Dps2000),
            _ => None,
        }
    }

    /// Decodes the full scale from the byte `from` of `CTRL_REG4`. Every
    /// content of the field names a full scale.
    pub fn from_u8(from: u8) -> (scale: Scale)
        ensures
            scale == Self::spec_from_u8(from),
            Self::spec_from_code(spec_field::<Scale>(from)) == Some(scale),
    {
        let code = extract::<Scale>(from);
        proof {
            Self::field_is_well_formed();
            assert(spec_width_mask(2) == 3) by (bit_vector);
        }
        match Self::from_code(code) {
            Some(scale) => scale,
            None => unreached(),
        }
    }

    /// What one count of an axis is worth at this full scale, in millionths of
    /// a degree per second.
    pub fn microdegrees_per_count(&self) -> (factor: u32)
        ensures
            factor == self.spec_microdegrees_per_count(),
    {
        match *self {
            Scale::Dps250 => 8_750,
            Scale::Dps500 => 17_500,
            Scale::Dps2000 => 70_000,
        }
    }

    /// Converts a raw axis count to millionths of a degree per second.
    pub fn microdegrees(&self, val: i16) -> (angle: i64)
        ensures
            angle == val * self.spec_microdegrees_per_count(),
    {
        let factor: i64 = self.microdegrees_per_count() as i64;
        assert(-32768 * 70_000 <= val * factor <= 32767 * 70_000) by (nonlinear_arith)
            requires
                -32768 <= val <= 32767,
                8_750 <= factor <= 70_000,
        ;
        (val as i64) * factor
    }

    /// A register byte into which a full scale was merged decodes to that
    /// full scale.
    pub proof fn lemma_decodes_what_was_set(current: u8, scale: Scale)
        ensures
            Self::spec_from_u8(spec_updated(current, scale)) == scale,
    {
        lemma_updated_field_holds_value(current, scale);
    }
}

/// Bandwidth of sensor
///
/// The bandwidth of the sensor is equal to the cut-off for the low-pass
/// filter. The cut-off depends on the `Odr` of the sensor, for specific
/// information consult the data sheet.
#[derive(Debug, Clone, Copy, PartialEq, Eq, Structural)]
pub enum Bandwidth {
    /// Lowest possible cut-off for any `Odr` configuration
    Low,
    /// Medium cut-off, can be the same as `High` for some `Odr` configurations
    Medium,
    /// High cut-off
    High,
    /// Maximum cut-off for any `Odr` configuration
    Maximum,
}

impl BitValue for Bandwidth {
    open spec fn spec_width() -> u8 {
        2
    }

    open spec fn spec_shift() -> u8 {
        4
    }

    open spec fn spec_value(&self) -> u8 {
        match *self {
            Bandwidth::Low => 0x00,
            Bandwidth::Medium => 0x01,
            Bandwidth::High => 0x02,
            Bandwidth::Maximum => 0x03,
        }
    }

    proof fn field_is_well_formed() {
        assert(Self::spec_width() == 2 && Self::spec_shift() == 4);
    }

    proof fn value_is_in_range(&self) {
        assert(spec_width_mask(2) == 3) by (bit_vector);
    }

    fn width() -> (w: u8) {
        2
    }

    fn shift() -> (s: u8) {
        4
    }

    fn value(&self) -> (v: u8) {
        match *self {
            Bandwidth::Low => 0x00,
            Bandwidth::Medium => 0x01,
            Bandwidth::High => 0x02,
            Bandwidth::Maximum => 0x03,
        }
    }
}

impl Bandwidth {
    /// The bandwidth that a raw code stands for, if any.
    pub open spec fn spec_from_code(code: u8) -> Option<Bandwidth> {
        if code == 0x00 {
            Some(Bandwidth::Low)
        } else if code == 0x01 {
            Some(Bandwidth::Medium)
        } else if code == 0x02 {
            Some(Bandwidth::High)
        } else if code == 0x03 {
            Some(Bandwidth::Maximum)
        } else {
            None
        }
    }

    /// The bandwidth selected by the byte `from` of `CTRL_REG1`.
    pub open spec fn spec_from_u8(from: u8) -> Bandwidth {
        Self::spec_from_code(spec_field::<Bandwidth>(from)).unwrap()
    }

    /// Maps a raw code to its bandwidth; a code that names none is rejected.
    pub fn from_code(code: u8) -> (bandwidth: Option<Bandwidth>)
        ensures
            bandwidth == Self::spec_from_code(code),
    {
        match code {
            0x00 => Some(Bandwidth::Low),
            0x01 => Some(Bandwidth::Medium),
            0x02 => Some(Bandwidth::High),
            0x03 => Some(Bandwidth::Maximum),
            _ => None,
        }
    }

    /// Decodes the bandwidth from the byte `from` of `CTRL_REG1`. Every
    /// content of the field names a bandwidth.
    pub fn from_u8(from: u8) -> (bandwidth: Bandwidth)
        ensures
            bandwidth == Self::spec_from_u8(from),
            Self::spec_from_code(spec_field::<Bandwidth>(from)) == Some(bandwidth),
    {
        let code = extract::<Bandwidth>(from);
        proof {
            Self::field_is_well_formed();
            assert(spec_width_mask(2) == 3) by (bit_vector);
        }
        match Self::from_code(code) {
            Some(bandwidth) => bandwidth,
            None => unreached(),
        }
    }

    /// A register byte into which a bandwidth was merged decodes to that
    /// bandwidth.
    pub proof fn lemma_decodes_what_was_set(current: u8, bandwidth: Bandwidth)
        ensures
            Self::spec_from_u8(spec_updated(current, bandwidth)) == bandwidth,
    {
        lemma_updated_field_holds_value(current, bandwidth);
    }
}

/// Data rate and bandwidth share `CTRL_REG1` without sharing a bit: setting
/// either leaves the other as it was.
pub proof fn lemma_rate_and_bandwidth_are_isolated(current: u8, odr: Odr, bandwidth: Bandwidth)
    ensures
        Bandwidth::spec_from_u8(spec_updated(current, odr)) == Bandwidth::spec_from_u8(current),
        Odr::spec_from_u8(spec_updated(current, bandwidth)) == Odr::spec_from_u8(current),
{
    Odr::field_is_well_formed();
    Bandwidth::field_is_well_formed();
    lemma_disjoint_fields_are_isolated(
        current,
        Odr::spec_width(),
        Odr::spec_shift(),
        odr.spec_value(),
        Bandwidth::spec_width(),
        Bandwidth::spec_shift(),
        bandwidth.spec_value(),
    );
}

} // verus!
