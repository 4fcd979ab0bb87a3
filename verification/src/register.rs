//! The register map of the sensor.

use vstd::prelude::*;

verus! {

/// A register of the sensor, named as in the data sheet.
#[allow(non_camel_case_types)]
#[derive(Debug, Clone, Copy, PartialEq, Eq, Structural)]
pub enum Register {
    WHO_AM_I,
    CTRL_REG1,
    CTRL_REG2,
    CTRL_REG3,
    CTRL_REG4,
    CTRL_REG5,
    REFERENCE,
    OUT_TEMP,
    STATUS_REG,
    OUT_X_L,
    OUT_X_H,
    OUT_Y_L,
    OUT_Y_H,
    OUT_Z_L,
    OUT_Z_H,
    FIFO_CTRL_REG,
    FIFO_SRC_REG,
    INT1_CFG,
    INT1_SRC,
    INT1_TSH_XH,
    INT1_TSH_XL,
    INT1_TSH_YH,
    INT1_TSH_YL,
    INT1_TSH_ZH,
    INT1_TSH_ZL,
    INT1_DURATION,
}

impl Register {
    /// The address of the register inside the chip.
    pub open spec fn spec_addr(self) -> u8 {
        match self {
            Register::WHO_AM_I => 0x0F,
            Register::CTRL_REG1 => 0x20,
            Register::CTRL_REG2 => 0x21,
            Register::CTRL_REG3 => 0x22,
            Register::CTRL_REG4 => 0x23,
            Register::CTRL_REG5 => 0x24,
            Register::REFERENCE => 0x25,
            Register::OUT_TEMP => 0x26,
            Register::STATUS_REG => 0x27,
            Register::OUT_X_L => 0x28,
            Register::OUT_X_H => 0x29,
            Register::OUT_Y_L => 0x2A,
            Register::OUT_Y_H => 0x2B,
            Register::OUT_Z_L => 0x2C,
            Register::OUT_Z_H => 0x2D,
            Register::FIFO_CTRL_REG => 0x2E,
            Register::FIFO_SRC_REG => 0x2F,
            Register::INT1_CFG => 0x30,
            Register::INT1_SRC => 0x31,
            Register::INT1_TSH_XH => 0x32,
            Register::INT1_TSH_XL => 0x33,
            Register::INT1_TSH_YH => 0x34,
            Register::INT1_TSH_YL => 0x35,
            Register::INT1_TSH_ZH => 0x36,
            Register::INT1_TSH_ZL => 0x37,
            Register::INT1_DURATION => 0x38,
        }
    }

    /// The address of the register inside the chip.
    pub fn addr(self) -> (a: u8)
        ensures
            a == self.spec_addr(),
    {
        match self {
            Register::WHO_AM_I => 0x0F,
            Register::CTRL_REG1 => 0x20,
            Register::CTRL_REG2 => 0x21,
            Register::CTRL_REG3 => 0x22,
            Register::CTRL_REG4 => 0x23,
            Register::CTRL_REG5 => 0x24,
            Register::REFERENCE => 0x25,
            Register::OUT_TEMP => 0x26,
            Register::STATUS_REG => 0x27,
            Register::OUT_X_L => 0x28,
            Register::OUT_X_H => 0x29,
            Register::OUT_Y_L => 0x2A,
            Register::OUT_Y_H => 0x2B,
            Register::OUT_Z_L => 0x2C,
            Register::OUT_Z_H => 0x2D,
            Register::FIFO_CTRL_REG => 0x2E,
            Register::FIFO_SRC_REG => 0x2F,
            Register::INT1_CFG => 0x30,
            Register::INT1_SRC => 0x31,
            Register::INT1_TSH_XH => 0x32,
            Register::INT1_TSH_XL => 0x33,
            Register::INT1_TSH_YH => 0x34,
            Register::INT1_TSH_YL => 0x35,
            Register::INT1_TSH_ZH => 0x36,
            Register::INT1_TSH_ZL => 0x37,
            Register::INT1_DURATION => 0x38,
        }
    }

    /// Every register lies in the addressable space `0x0F..=0x38`, so its
    /// address leaves the two top bits of a byte free for framing.
    pub proof fn lemma_addr_in_map(self)
        ensures
            0x0F <= self.spec_addr() <= 0x38,
    {
    }

    /// No two registers share an address.
    pub proof fn lemma_addr_injective(self, other: Register)
        requires
            self.spec_addr() == other.spec_addr(),
        ensures
            self == other,
    {
    }
}

} // verus!
