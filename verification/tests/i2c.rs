use std::cell::RefCell;
use std::rc::Rc;

use l3gd20::i2c::{
    decode_response, frame_read_burst, frame_read_single, frame_write, I2cAddr, I2cTransport,
    L3gd20, SUB_MULTI,
};
use l3gd20::{Bandwidth, I16x3, Measurements, Odr, Register, Scale, Status};

/// What the simulated bus reports.
#[derive(Debug, Clone, Copy, PartialEq, Eq)]
enum BusFault {
    /// No chip answers at the address.
    NoAcknowledge(u8),
    /// The transaction with this number failed.
    Broken(usize),
}

/// A register file behind an I2C interface that behaves as the data sheet
/// says, and keeps the address and the bytes of every write phase.
struct Chip {
    address: u8,
    registers: [u8; 0x80],
    writes: Vec<(u8, Vec<u8>)>,
    fail_at: Option<usize>,
}

impl Chip {
    fn at(address: u8) -> Rc<RefCell<Chip>> {
        Rc::new(RefCell::new(Chip {
            address,
            registers: [0; 0x80],
            writes: Vec::new(),
            fail_at: None,
        }))
    }

    fn transaction(&mut self, address: u8, bytes: &[u8], read: &mut [u8]) -> Result<(), BusFault> {
        let number = self.writes.len();
        self.writes.push((address, bytes.to_vec()));
        if self.fail_at == Some(number) {
            return Err(BusFault::Broken(number));
        }
        if address != self.address {
            return Err(BusFault::NoAcknowledge(address));
        }
        let step = bytes[0] & 0x80 != 0;
        let mut register = (bytes[0] & 0x7F) as usize;
        for byte in &bytes[1..] {
            self.registers[register] = *byte;
            if step {
                register = (register + 1) & 0x7F;
            }
        }
        for byte in read.iter_mut() {
            *byte = self.registers[register];
            if step {
                register = (register + 1) & 0x7F;
            }
        }
        Ok(())
    }
}

struct Bus(Rc<RefCell<Chip>>);

impl I2cTransport for Bus {
    type Error = BusFault;

    fn write_read<const N: usize>(&mut self, address: u8, bytes: &[u8]) -> Result<[u8; N], BusFault> {
        let mut read = [0; N];
        self.0.borrow_mut().transaction(address, bytes, &mut read)?;
        Ok(read)
    }

    fn write(&mut self, address: u8, bytes: &[u8]) -> Result<(), BusFault> {
        self.0.borrow_mut().transaction(address, bytes, &mut [])
    }
}

fn driver_on(chip: &Rc<RefCell<Chip>>) -> L3gd20<Bus> {
    let driver = L3gd20::new(Bus(chip.clone()), I2cAddr::Sa0Low).expect("the bus works");
    chip.borrow_mut().writes.clear();
    driver
}

fn writes(chip: &Rc<RefCell<Chip>>) -> Vec<(u8, Vec<u8>)> {
    chip.borrow().writes.clone()
}

#[test]
fn i2c_addresses() {
    assert_eq!(I2cAddr::Sa0Low.addr(), 0b1101010);
    assert_eq!(I2cAddr::Sa0High.addr(), 0b1101011);
    assert_eq!(I2cAddr::Sa0Low.addr(), 0x6A);
    assert_eq!(I2cAddr::Sa0High.addr(), 0x6B);
    assert_ne!(I2cAddr::Sa0Low, I2cAddr::Sa0High);
}

#[test]
fn i2c_step_marker() {
    assert_eq!(SUB_MULTI, 0b1000_0000);
}

#[test]
fn i2c_frame_to_read_the_status_register() {
    assert_eq!(frame_read_single(Register::STATUS_REG), [0x27]);
}

#[test]
fn i2c_frame_to_write_the_first_control_register() {
    assert_eq!(frame_write(Register::CTRL_REG1, 0x0F), [0x20, 0x0F]);
}

#[test]
fn i2c_frames_of_single_reads_are_the_bare_address() {
    assert_eq!(frame_read_single(Register::WHO_AM_I), [0x0F]);
    assert_eq!(frame_read_single(Register::CTRL_REG4), [0x23]);
    assert_eq!(frame_read_single(Register::INT1_DURATION), [0x38]);
}

#[test]
fn i2c_frames_of_bursts_carry_the_step_marker() {
    assert_eq!(frame_read_burst(Register::OUT_X_L), [0xA8]);
    assert_eq!(frame_read_burst(Register::OUT_TEMP), [0xA6]);
    assert_eq!(frame_read_burst(Register::WHO_AM_I), [0x8F]);
}

#[test]
fn i2c_frames_of_writes() {
    assert_eq!(frame_write(Register::CTRL_REG4, 0x30), [0x23, 0x30]);
    assert_eq!(frame_write(Register::WHO_AM_I, 0xFF), [0x0F, 0xFF]);
}

#[test]
fn i2c_response_is_the_payload() {
    assert_eq!(decode_response([0x42]), [0x42]);
    assert_eq!(decode_response([1, 2, 3, 4, 5, 6]), [1, 2, 3, 4, 5, 6]);
    assert_eq!(decode_response::<0>([]), []);
}

#[test]
fn i2c_new_powers_up_with_one_write() {
    let chip = Chip::at(0x6A);
    assert!(L3gd20::new(Bus(chip.clone()), I2cAddr::Sa0Low).is_ok());
    assert_eq!(writes(&chip), vec![(0x6A, vec![0x20, 0x0F])]);
    assert_eq!(chip.borrow().registers[0x20], 0b0000_1111);
}

#[test]
fn i2c_new_talks_to_the_chosen_address() {
    let chip = Chip::at(0x6B);
    assert!(L3gd20::new(Bus(chip.clone()), I2cAddr::Sa0High).is_ok());
    assert_eq!(writes(&chip), vec![(0x6B, vec![0x20, 0x0F])]);
    let mut driver = L3gd20::new(Bus(chip.clone()), I2cAddr::Sa0High).expect("the bus works");
    chip.borrow_mut().registers[0x0F] = l3gd20::WHO_AM_I_L3GD20H;
    assert_eq!(driver.who_am_i(), Ok(0xD7));
    assert!(writes(&chip).iter().all(|(address, _)| *address == 0x6B));
}

#[test]
fn i2c_new_overwrites_the_control_register() {
    let chip = Chip::at(0x6A);
    chip.borrow_mut().registers[0x20] = 0b1111_0000;
    assert!(L3gd20::new(Bus(chip.clone()), I2cAddr::Sa0Low).is_ok());
    assert_eq!(chip.borrow().registers[0x20], 0b0000_1111);
}

#[test]
fn i2c_new_hands_on_the_error_of_the_bus() {
    let chip = Chip::at(0x6A);
    let created = L3gd20::new(Bus(chip.clone()), I2cAddr::Sa0High);
    assert_eq!(created.err(), Some(BusFault::NoAcknowledge(0x6B)));
    assert_eq!(writes(&chip).len(), 1);
}

#[test]
fn i2c_who_am_i() {
    let chip = Chip::at(0x6A);
    chip.borrow_mut().registers[0x0F] = l3gd20::WHO_AM_I_L3GD20;
    let mut driver = driver_on(&chip);
    assert_eq!(driver.who_am_i(), Ok(0xD4));
    assert_eq!(writes(&chip), vec![(0x6A, vec![0x0F])]);
}

#[test]
fn i2c_status() {
    let chip = Chip::at(0x6A);
    chip.borrow_mut().registers[0x27] = 0b1000_0001;
    let mut driver = driver_on(&chip);
    let status = driver.status().expect("the bus works");
    assert_eq!(status, Status::from_u8(0b1000_0001));
    assert!(status.overrun && status.x_new && !status.new_data);
    assert_eq!(writes(&chip), vec![(0x6A, vec![0x27])]);
}

#[test]
fn i2c_gyro() {
    let chip = Chip::at(0x6A);
    chip.borrow_mut().registers[0x28..0x2E].copy_from_slice(&[0x34, 0x12, 0xFF, 0xFF, 0x00, 0x80]);
    let mut driver = driver_on(&chip);
    assert_eq!(driver.gyro(), Ok(I16x3 { x: 0x1234, y: -1, z: i16::MIN }));
    assert_eq!(writes(&chip), vec![(0x6A, vec![0xA8])]);
}

#[test]
fn i2c_all() {
    let chip = Chip::at(0x6A);
    chip.borrow_mut().registers[0x26] = 0x0A;
    chip.borrow_mut().registers[0x27] = 0xFF;
    chip.borrow_mut().registers[0x28..0x2E].copy_from_slice(&[0x01, 0x00, 0xFE, 0xFF, 0xFF, 0x7F]);
    let mut driver = driver_on(&chip);
    let all = driver.all().expect("the bus works");
    assert_eq!(all, Measurements { gyro: I16x3 { x: 1, y: -2, z: i16::MAX }, temp_raw: 10 });
    assert_eq!(all.temp_celcius(), 15);
    assert_eq!(writes(&chip), vec![(0x6A, vec![0xA6])]);
}

#[test]
fn i2c_temperature() {
    let chip = Chip::at(0x6A);
    chip.borrow_mut().registers[0x26] = 0xFF;
    let mut driver = driver_on(&chip);
    assert_eq!(driver.temp_raw(), Ok(-1));
    assert_eq!(driver.temp_celcius(), Ok(26));
    assert_eq!(writes(&chip), vec![(0x6A, vec![0x26]), (0x6A, vec![0x26])]);
}

#[test]
fn i2c_reads_the_selectors() {
    let chip = Chip::at(0x6A);
    let mut driver = driver_on(&chip);
    chip.borrow_mut().registers[0x20] = 0b1001_1111;
    chip.borrow_mut().registers[0x23] = 0b0010_0000;
    assert_eq!(driver.odr(), Ok(Odr::Hz380));
    assert_eq!(driver.bandwidth(), Ok(Bandwidth::Medium));
    assert_eq!(driver.scale(), Ok(Scale::Dps2000));
    assert_eq!(writes(&chip), vec![(0x6A, vec![0x20]), (0x6A, vec![0x20]), (0x6A, vec![0x23])]);
}

#[test]
fn i2c_set_odr_reads_merges_and_writes() {
    let chip = Chip::at(0x6A);
    let mut driver = driver_on(&chip);
    assert!(driver.set_odr(Odr::Hz760).is_ok());
    assert_eq!(writes(&chip), vec![(0x6A, vec![0x20]), (0x6A, vec![0x20, 0b1100_1111])]);
    assert_eq!(driver.odr(), Ok(Odr::Hz760));
}

#[test]
fn i2c_set_bandwidth_reads_merges_and_writes() {
    let chip = Chip::at(0x6A);
    let mut driver = driver_on(&chip);
    assert!(driver.set_bandwidth(Bandwidth::High).is_ok());
    assert_eq!(writes(&chip), vec![(0x6A, vec![0x20]), (0x6A, vec![0x20, 0b0010_1111])]);
    assert_eq!(driver.bandwidth(), Ok(Bandwidth::High));
}

#[test]
fn i2c_set_scale_reads_merges_and_writes() {
    let chip = Chip::at(0x6A);
    chip.borrow_mut().registers[0x23] = 0b1000_0001;
    let mut driver = driver_on(&chip);
    assert!(driver.set_scale(Scale::Dps2000).is_ok());
    assert_eq!(writes(&chip), vec![(0x6A, vec![0x23]), (0x6A, vec![0x23, 0b1011_0001])]);
    assert_eq!(driver.scale(), Ok(Scale::Dps2000));
}

#[test]
fn i2c_rate_and_bandwidth_do_not_disturb_each_other() {
    let chip = Chip::at(0x6A);
    let mut driver = driver_on(&chip);
    for odr in [Odr::Hz95, Odr::Hz190, Odr::Hz380, Odr::Hz760] {
        for bandwidth in [Bandwidth::Low, Bandwidth::Medium, Bandwidth::High, Bandwidth::Maximum] {
            assert!(driver.set_bandwidth(bandwidth).is_ok());
            assert!(driver.set_odr(odr).is_ok());
            assert_eq!(driver.bandwidth(), Ok(bandwidth));
            assert!(driver.set_bandwidth(bandwidth).is_ok());
            assert_eq!(driver.odr(), Ok(odr));
            assert_eq!(chip.borrow().registers[0x20] & 0b0000_1111, 0b0000_1111);
        }
    }
}

#[test]
fn i2c_setters_chain() {
    let chip = Chip::at(0x6A);
    let mut driver = driver_on(&chip);
    let chained = driver
        .set_odr(Odr::Hz190)
        .and_then(|driver| driver.set_bandwidth(Bandwidth::Maximum))
        .and_then(|driver| driver.set_scale(Scale::Dps500))
        .map(|_| ());
    assert_eq!(chained, Ok(()));
    assert_eq!(chip.borrow().registers[0x20], 0b0111_1111);
    assert_eq!(chip.borrow().registers[0x23], 0b0001_0000);
}

#[test]
fn i2c_failed_read_is_handed_on_and_not_tried_again() {
    let chip = Chip::at(0x6A);
    let mut driver = driver_on(&chip);
    chip.borrow_mut().fail_at = Some(0);
    assert_eq!(driver.status(), Err(BusFault::Broken(0)));
    assert_eq!(writes(&chip), vec![(0x6A, vec![0x27])]);
    chip.borrow_mut().fail_at = Some(1);
    assert_eq!(driver.gyro(), Err(BusFault::Broken(1)));
    chip.borrow_mut().fail_at = Some(2);
    assert_eq!(driver.all().err(), Some(BusFault::Broken(2)));
    chip.borrow_mut().fail_at = Some(3);
    assert_eq!(driver.temp_celcius(), Err(BusFault::Broken(3)));
    assert_eq!(writes(&chip).len(), 4);
}

#[test]
fn i2c_change_stops_when_the_read_fails() {
    let chip = Chip::at(0x6A);
    let mut driver = driver_on(&chip);
    chip.borrow_mut().fail_at = Some(0);
    assert_eq!(driver.set_odr(Odr::Hz760).err(), Some(BusFault::Broken(0)));
    assert_eq!(writes(&chip), vec![(0x6A, vec![0x20])]);
    assert_eq!(chip.borrow().registers[0x20], 0b0000_1111);
}

#[test]
fn i2c_change_hands_on_the_error_of_the_write() {
    let chip = Chip::at(0x6A);
    let mut driver = driver_on(&chip);
    chip.borrow_mut().fail_at = Some(1);
    assert_eq!(driver.set_odr(Odr::Hz760).err(), Some(BusFault::Broken(1)));
    assert_eq!(writes(&chip), vec![(0x6A, vec![0x20]), (0x6A, vec![0x20, 0b1100_1111])]);
    assert_eq!(chip.borrow().registers[0x20], 0b0000_1111);
}
