use l3gd20::Register;

const ALL: [(Register, u8); 26] = [
    (Register::WHO_AM_I, 0x0F),
    (Register::CTRL_REG1, 0x20),
    (Register::CTRL_REG2, 0x21),
    (Register::CTRL_REG3, 0x22),
    (Register::CTRL_REG4, 0x23),
    (Register::CTRL_REG5, 0x24),
    (Register::REFERENCE, 0x25),
    (Register::OUT_TEMP, 0x26),
    (Register::STATUS_REG, 0x27),
    (Register::OUT_X_L, 0x28),
    (Register::OUT_X_H, 0x29),
    (Register::OUT_Y_L, 0x2A),
    (Register::OUT_Y_H, 0x2B),
    (Register::OUT_Z_L, 0x2C),
    (Register::OUT_Z_H, 0x2D),
    (Register::FIFO_CTRL_REG, 0x2E),
    (Register::FIFO_SRC_REG, 0x2F),
    (Register::INT1_CFG, 0x30),
    (Register::INT1_SRC, 0x31),
    (Register::INT1_TSH_XH, 0x32),
    (Register::INT1_TSH_XL, 0x33),
    (Register::INT1_TSH_YH, 0x34),
    (Register::INT1_TSH_YL, 0x35),
    (Register::INT1_TSH_ZH, 0x36),
    (Register::INT1_TSH_ZL, 0x37),
    (Register::INT1_DURATION, 0x38),
];

#[test]
fn registers_have_their_data_sheet_addresses() {
    for (reg, addr) in ALL {
        assert_eq!(reg.addr(), addr, "{:?}", reg);
    }
}

#[test]
fn addresses_lie_in_the_register_map() {
    for (reg, _) in ALL {
        assert!((0x0F..=0x38).contains(&reg.addr()), "{:?}", reg);
        assert_eq!(reg.addr() & 0b1100_0000, 0, "{:?}", reg);
    }
}

#[test]
fn no_two_registers_share_an_address() {
    for (i, (a, _)) in ALL.iter().enumerate() {
        for (b, _) in ALL.iter().skip(i + 1) {
            assert_ne!(a.addr(), b.addr(), "{:?} and {:?}", a, b);
        }
    }
}

#[test]
fn axis_registers_follow_each_other() {
    assert_eq!(Register::OUT_TEMP.addr() + 1, Register::STATUS_REG.addr());
    assert_eq!(Register::STATUS_REG.addr() + 1, Register::OUT_X_L.addr());
    assert_eq!(Register::OUT_X_L.addr() + 1, Register::OUT_X_H.addr());
    assert_eq!(Register::OUT_X_H.addr() + 1, Register::OUT_Y_L.addr());
    assert_eq!(Register::OUT_Y_L.addr() + 1, Register::OUT_Y_H.addr());
    assert_eq!(Register::OUT_Y_H.addr() + 1, Register::OUT_Z_L.addr());
    assert_eq!(Register::OUT_Z_L.addr() + 1, Register::OUT_Z_H.addr());
}

#[test]
fn identity_constants() {
    assert_eq!(l3gd20::WHO_AM_I_L3GD20, 0xD4);
    assert_eq!(l3gd20::WHO_AM_I_L3GD20H, 0xD7);
    assert_eq!(l3gd20::MINIMUM_CS_SETUP_TIME_NS, 5);
    assert_eq!(l3gd20::POWER_UP_ALL_AXES, 0b0000_1111);
}
