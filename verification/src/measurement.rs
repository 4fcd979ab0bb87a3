//! What the sensor reports: angular rate on three axes, raw temperature and
//! the status flags, each decoded from the bytes of its registers.

use vstd::prelude::*;

verus! {

/// The value of a byte read as a two's complement number.
pub open spec fn spec_signed_byte(byte: u8) -> int {
    if byte >= 128 {
        byte - 256
    } else {
        byte as int
    }
}

/// The value of one axis: its two bytes, low byte first, read as a two's
/// complement number of sixteen bits.
pub open spec fn spec_axis(low: u8, high: u8) -> int {
    let unsigned = low + 256 * high;
    if unsigned >= 32768 {
        unsigned - 65536
    } else {
        unsigned
    }
}

/// The temperature in degrees Celsius for a raw reading: the sensor counts
/// down from 25 degrees.
pub open spec fn spec_celcius(raw: i8) -> int {
    25 - raw
}

/// Whether bit `index` of `byte` is set; bit 0 is the lowest.
pub open spec fn spec_bit(byte: u8, index: u8) -> bool {
    (byte >> index) & 1 == 1
}

/// Reads the raw temperature from the byte of `OUT_TEMP`.
pub fn raw_temperature(byte: u8) -> (raw: i8)
    ensures
        raw == spec_signed_byte(byte),
{
    let raw: i8 = #[verifier::truncate] (byte as i8);
    assert(raw as int == (if byte >= 128 {
        byte - 256
    } else {
        byte as int
    })) by (bit_vector)
        requires
            raw == byte as i8,
    ;
    raw
}

/// Converts a raw temperature to degrees Celsius.
pub fn celcius(raw: i8) -> (degrees: i16)
    ensures
        degrees == spec_celcius(raw),
{
    25 - raw as i16
}

/// Puts the two bytes of an axis together, low byte first.
pub fn axis(low: u8, high: u8) -> (value: i16)
    ensures
        value == spec_axis(low, high),
{
    let unsigned: u16 = (low as u16) | ((high as u16) << 8);
    let value: i16 = #[verifier::truncate] (unsigned as i16);
    assert(value as int == (if low + 256 * high >= 32768 {
        low + 256 * high - 65536
    } else {
        low + 256 * high
    })) by (bit_vector)
        requires
            unsigned == (low as u16) | ((high as u16) << 8),
            value == unsigned as i16,
    ;
    value
}

/// XYZ triple
#[derive(Debug, Clone, Copy, PartialEq, Eq, Structural)]
pub struct I16x3 {
    /// X component
    pub x: i16,
    /// Y component
    pub y: i16,
    /// Z component
    pub z: i16,
}

impl I16x3 {
    /// The triple held by six register bytes, `OUT_X_L` to `OUT_Z_H`.
    pub open spec fn spec_from_le_bytes(bytes: Seq<u8>) -> I16x3 {
        I16x3 {
            x: spec_axis(bytes[0], bytes[1]) as i16,
            y: spec_axis(bytes[2], bytes[3]) as i16,
            z: spec_axis(bytes[4], bytes[5]) as i16,
        }
    }

    /// Decodes the six bytes of `OUT_X_L` to `OUT_Z_H`. Each axis takes its
    /// own two bytes, low byte first.
    pub fn from_le_bytes(bytes: &[u8; 6]) -> (gyro: I16x3)
        ensures
            gyro == Self::spec_from_le_bytes(bytes@),
            gyro.x == spec_axis(bytes@[0], bytes@[1]),
            gyro.y == spec_axis(bytes@[2], bytes@[3]),
            gyro.z == spec_axis(bytes@[4], bytes@[5]),
    {
        I16x3 {
            x: axis(bytes[0], bytes[1]),
            y: axis(bytes[2], bytes[3]),
            z: axis(bytes[4], bytes[5]),
        }
    }
}

/// Several measurements
#[derive(Debug, Clone, Copy, PartialEq, Eq, Structural)]
pub struct Measurements {
    /// Gyroscope measurements
    pub gyro: I16x3,
    /// Raw temperature sensor measurement
    pub temp_raw: i8,
}

impl Measurements {
    /// The measurements held by the eight register bytes from `OUT_TEMP` to
    /// `OUT_Z_H`: the temperature, the status byte, which is passed over, and
    /// the three axes.
    pub open spec fn spec_from_payload(payload: Seq<u8>) -> Measurements {
        Measurements {
            gyro: I16x3::spec_from_le_bytes(payload.skip(2)),
            temp_raw: spec_signed_byte(payload[0]) as i8,
        }
    }

    /// Decodes the eight bytes of a burst that starts at `OUT_TEMP`. The
    /// second byte is that of `STATUS_REG`, which lies between the temperature
    /// and the axes, and is not used.
    pub fn from_payload(payload: &[u8; 8]) -> (all: Measurements)
        ensures
            all == Self::spec_from_payload(payload@),
            all.temp_raw == spec_signed_byte(payload@[0]),
            all.gyro.x == spec_axis(payload@[2], payload@[3]),
            all.gyro.y == spec_axis(payload@[4], payload@[5]),
            all.gyro.z == spec_axis(payload@[6], payload@[7]),
    {
        Measurements {
            gyro: I16x3 {
                x: axis(payload[2], payload[3]),
                y: axis(payload[4], payload[5]),
                z: axis(payload[6], payload[7]),
            },
            temp_raw: raw_temperature(payload[0]),
        }
    }

    /// Convert the raw temperature value to degrees celcius
    pub fn temp_celcius(&self) -> (degrees: i16)
        ensures
            degrees == spec_celcius(self.temp_raw),
    {
        celcius(self.temp_raw)
    }
}

/// Sensor status
#[derive(Debug, Clone, Copy, PartialEq, Eq, Structural)]
pub struct Status {
    /// Overrun (data has overwritten previously unread data)
    /// has occurred on at least one axis
    pub overrun: bool,
    /// Overrun occurred on Z-axis
    pub z_overrun: bool,
    /// Overrun occurred on Y-axis
    pub y_overrun: bool,
    /// Overrun occurred on X-axis
    pub x_overrun: bool,
    /// New data is available for either X, Y, Z - axis
    pub new_data: bool,
    /// New data is available on Z-axis
    pub z_new: bool,
    /// New data is available on Y-axis
    pub y_new: bool,
    /// New data is available on X-axis
    pub x_new: bool,
}

impl Status {
    /// The flags held by the byte of `STATUS_REG`, one per bit, from the
    /// overrun of any axis in bit 7 down to new data on X in bit 0.
    pub open spec fn spec_from_u8(from: u8) -> Status {
        Status {
            overrun: spec_bit(from, 7),
            z_overrun: spec_bit(from, 6),
            y_overrun: spec_bit(from, 5),
            x_overrun: spec_bit(from, 4),
            new_data: spec_bit(from, 3),
            z_new: spec_bit(from, 2),
            y_new: spec_bit(from, 1),
            x_new: spec_bit(from, 0),
        }
    }

    /// Decodes the byte of `STATUS_REG`.
    pub fn from_u8(from: u8) -> (status: Status)
        ensures
            status == Self::spec_from_u8(from),
    {
        assert({
            &&& ((from & (1u8 << 7)) != 0) == spec_bit(from, 7)
            &&& ((from & (1u8 << 6)) != 0) == spec_bit(from, 6)
            &&& ((from & (1u8 << 5)) != 0) == spec_bit(from, 5)
            &&& ((from & (1u8 << 4)) != 0) == spec_bit(from, 4)
            &&& ((from & (1u8 << 3)) != 0) == spec_bit(from, 3)
            &&& ((from & (1u8 << 2)) != 0) == spec_bit(from, 2)
            &&& ((from & (1u8 << 1)) != 0) == spec_bit(from, 1)
            &&& ((from & 1) != 0) == spec_bit(from, 0)
        }) by (bit_vector);
        Status {
            overrun: (from & (1u8 << 7)) != 0,
            z_overrun: (from & (1u8 << 6)) != 0,
            y_overrun: (from & (1u8 << 5)) != 0,
            x_overrun: (from & (1u8 << 4)) != 0,
            new_data: (from & (1u8 << 3)) != 0,
            z_new: (from & (1u8 << 2)) != 0,
            y_new: (from & (1u8 << 1)) != 0,
            x_new: (from & 1) != 0,
        }
    }
}

} // verus!
