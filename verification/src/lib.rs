//! Driver core for the L3GD20 MEMS gyroscope.
//!
//! The chip is a flat file of byte-wide registers reached over SPI or I2C. This
//! crate holds the register map, the bitfield codec used to change one
//! configuration field without disturbing its neighbours, the wire framing of
//! both transports, the decoding of raw register bursts into measurements, and
//! a driver that sequences these over a transport supplied by the caller.

use vstd::prelude::*;

pub mod bitfield;
pub mod config;
pub mod i2c;
pub mod measurement;
pub mod register;
pub mod spi;

pub use crate::bitfield::BitValue;
pub use crate::config::{Bandwidth, Odr, Scale};
pub use crate::measurement::{I16x3, Measurements, Status};
pub use crate::register::Register;

verus! {

/// Minimal time in nanoseconds between chip select assertion and clock edge.
pub const MINIMUM_CS_SETUP_TIME_NS: u32 = 5;

/// The byte of `CTRL_REG1` that powers the sensor up with all three axes
/// enabled.
pub const POWER_UP_ALL_AXES: u8 = 0b0000_1111;

/// Expected `WHO_AM_I` register value for the L3GD20 sensor.
pub const WHO_AM_I_L3GD20: u8 = 0xD4;

/// Expected `WHO_AM_I` register value for the L3GD20H sensor.
pub const WHO_AM_I_L3GD20H: u8 = 0xD7;

} // verus!
