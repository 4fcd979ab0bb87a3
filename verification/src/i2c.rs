//! The sensor on an I2C bus.
//!
//! A register is read by a write of its address followed, in the same
//! transaction, by a read; the direction is part of the transaction, so the
//! address byte carries no read bit. Bit 7 of the address byte asks the chip
//! to step to the next register after each byte that is read.
//!
//! No register address reaches bit 7, so setting that bit is the same as
//! adding it. The frames are stated as sums, which can be read off as numbers;
//! [`lemma_address_byte_layout`] gives the view by bits.

use vstd::prelude::*;
use crate::bitfield::{
    lemma_merge_then_extract, merge, spec_field, spec_field_mask, spec_updated, BitValue,
};
use crate::config::{Bandwidth, Odr, Scale};
use crate::measurement::{
    celcius, raw_temperature, spec_celcius, spec_signed_byte, I16x3, Measurements, Status,
};
use crate::register::Register;
use crate::POWER_UP_ALL_AXES;

verus! {

/// Address bit: the chip steps to the next register after each byte.
pub const SUB_MULTI: u8 = 0x80;

/// Possible I2C addresses.
#[derive(Debug, Clone, Copy, PartialEq, Eq, Structural)]
pub enum I2cAddr {
    /// Slave address when SA0/SDO is pulled low
    Sa0Low,
    /// Slave address when SA0/SDO is pulled high
    Sa0High,
}

impl I2cAddr {
    /// The seven-bit address of the chip on the bus.
    pub open spec fn spec_addr(self) -> u8 {
        match self {
            I2cAddr::Sa0Low => 0b1101010,
            I2cAddr::Sa0High => 0b1101011,
        }
    }

    /// The seven-bit address of the chip on the bus.
    pub fn addr(self) -> (a: u8)
        ensures
            a == self.spec_addr(),
            a <= 0x7F,
    {
        match self {
            I2cAddr::Sa0Low => 0b1101010,
            I2cAddr::Sa0High => 0b1101011,
        }
    }
}

/// The byte written before one register is read: its address.
pub open spec fn spec_frame_read_single(reg: Register) -> Seq<u8> {
    seq![reg.spec_addr()]
}

/// The byte written before registers are read in a row, starting at `reg`:
/// its address, marked for stepping.
pub open spec fn spec_frame_read_burst(reg: Register) -> Seq<u8> {
    seq![(reg.spec_addr() + SUB_MULTI) as u8]
}

/// The bytes written to set one register to `value`.
pub open spec fn spec_frame_write(reg: Register, value: u8) -> Seq<u8> {
    seq![reg.spec_addr(), value]
}

/// The registers carried by the bytes that were read: all of them.
pub open spec fn spec_decode_response(response: Seq<u8>) -> Seq<u8> {
    response
}

/// Frames the read of one register.
pub fn frame_read_single(reg: Register) -> (frame: [u8; 1])
    ensures
        frame@ == spec_frame_read_single(reg),
{
    let frame: [u8; 1] = [reg.addr()];
    assert(frame@ =~= spec_frame_read_single(reg));
    frame
}

/// Frames a burst read that starts at `reg`.
pub fn frame_read_burst(reg: Register) -> (frame: [u8; 1])
    ensures
        frame@ == spec_frame_read_burst(reg),
{
    let addr = reg.addr();
    proof {
        reg.lemma_addr_in_map();
    }
    assert(addr | SUB_MULTI == addr + SUB_MULTI) by (bit_vector)
        requires
            addr <= 0x38,
    ;
    let frame: [u8; 1] = [addr | SUB_MULTI];
    assert(frame@ =~= spec_frame_read_burst(reg));
    frame
}

/// Frames the write of `value` to one register.
pub fn frame_write(reg: Register, value: u8) -> (frame: [u8; 2])
    ensures
        frame@ == spec_frame_write(reg, value),
{
    let frame: [u8; 2] = [reg.addr(), value];
    assert(frame@ =~= spec_frame_write(reg, value));
    frame
}

/// Takes the registers out of the bytes that were read. The read phase of a
/// transaction carries nothing else.
pub fn decode_response<const N: usize>(response: [u8; N]) -> (payload: [u8; N])
    ensures
        payload@ == spec_decode_response(response@),
{
    response
}

/// The layout of the address byte: the address of every register lies in
/// the seven low bits and can be read back from them, and the top bit is set
/// in a burst only.
pub proof fn lemma_address_byte_layout(reg: Register)
    ensures
        spec_frame_read_single(reg)[0] & 0x7F == reg.spec_addr(),
        spec_frame_read_single(reg)[0] & 0x80 == 0x00,
        spec_frame_read_burst(reg)[0] & 0x7F == reg.spec_addr(),
        spec_frame_read_burst(reg)[0] & 0x80 == 0x80,
        spec_frame_write(reg, 0)[0] & 0x7F == reg.spec_addr(),
        spec_frame_write(reg, 0)[0] & 0x80 == 0x00,
{
    reg.lemma_addr_in_map();
    let addr = reg.spec_addr();
    assert(((addr + 0x80) as u8) & 0x7F == addr && ((addr + 0x80) as u8) & 0x80 == 0x80 && addr
        & 0x7F == addr && addr & 0x80 == 0) by (bit_vector)
        requires
            addr <= 0x38,
    ;
}

/// An I2C bus, as the driver uses it.
///
/// Nothing is assumed of an implementation. What comes back from a call is
/// taken as it is: an error is handed on to the caller of the driver, bytes
/// are decoded.
pub trait I2cTransport {
    /// What the bus reports when a transaction fails.
    type Error;

    /// One transaction with the chip at `address`: writes `bytes`, then reads
    /// `N` bytes.
    fn write_read<const N: usize>(&mut self, address: u8, bytes: &[u8]) -> Result<
        [u8; N],
        Self::Error,
    >;

    /// One transaction with the chip at `address`: writes `bytes`.
    fn write(&mut self, address: u8, bytes: &[u8]) -> Result<(), Self::Error>;
}

/// One transaction with the device, as the driver made it: the address and
/// the bytes it handed to the transport, and what the transport gave back.
pub enum Exchange<E> {
    /// A write followed by a read.
    WriteRead { address: u8, sent: Seq<u8>, received: Result<Seq<u8>, E> },
    /// A write.
    Write { address: u8, sent: Seq<u8>, done: Result<(), E> },
}

impl<E> Exchange<E> {
    /// The registers that the transaction brought, or the error that ended
    /// it. A write brings no register.
    pub open spec fn payload(self) -> Result<Seq<u8>, E> {
        match self {
            Exchange::WriteRead { received: Ok(response), .. } => Ok(
                spec_decode_response(response),
            ),
            Exchange::WriteRead { received: Err(error), .. } => Err(error),
            Exchange::Write { done: Ok(_), .. } => Ok(Seq::empty()),
            Exchange::Write { done: Err(error), .. } => Err(error),
        }
    }

    /// How the transaction ended: well, or with the error of the transport.
    pub open spec fn outcome(self) -> Result<(), E> {
        match self.payload() {
            Ok(_) => Ok(()),
            Err(error) => Err(error),
        }
    }
}

/// The record of a transaction with the chip at `address` that wrote `frame`
/// and to whose read the transport answered with `received`.
pub open spec fn spec_write_read<E, const N: usize>(
    address: u8,
    frame: Seq<u8>,
    received: Result<[u8; N], E>,
) -> Exchange<E> {
    Exchange::WriteRead {
        address,
        sent: frame,
        received: match received {
            Ok(response) => Ok(response@),
            Err(error) => Err(error),
        },
    }
}

/// `after` is `before` and one transaction more, with the chip at `chip`: a
/// write of `frame` followed by a read, which, where it succeeded, brought
/// `len` bytes.
pub open spec fn spec_one_write_read<E>(
    before: Seq<Exchange<E>>,
    after: Seq<Exchange<E>>,
    chip: I2cAddr,
    frame: Seq<u8>,
    len: nat,
) -> bool {
    &&& after.len() == before.len() + 1
    &&& after.drop_last() == before
    &&& after.last() matches Exchange::WriteRead { address, sent, received }
    &&& address == chip.spec_addr()
    &&& sent == frame
    &&& received matches Ok(response) ==> response.len() == len
}

/// `after` is `before` and one transaction more, with the chip at `chip`: a
/// write of `frame`.
pub open spec fn spec_one_write<E>(
    before: Seq<Exchange<E>>,
    after: Seq<Exchange<E>>,
    chip: I2cAddr,
    frame: Seq<u8>,
) -> bool {
    &&& after.len() == before.len() + 1
    &&& after.drop_last() == before
    &&& after.last() matches Exchange::Write { address, sent, done }
    &&& address == chip.spec_addr()
    &&& sent == frame
}

/// `after` is `before` and the transactions of one change of the field of `B`
/// in the register `reg`, which ended with `changed`: the register is read; if
/// that fails, nothing more is done and the error is the result; if not, the
/// byte that was read, with the field replaced by `bits`, is written back.
pub open spec fn spec_one_change<E, B: BitValue>(
    before: Seq<Exchange<E>>,
    after: Seq<Exchange<E>>,
    chip: I2cAddr,
    reg: Register,
    bits: B,
    changed: Result<(), E>,
) -> bool {
    let read = after.take(before.len() as int + 1);
    &&& before.len() < after.len()
    &&& spec_one_write_read(before, read, chip, spec_frame_read_single(reg), 1)
    &&& match read.last().payload() {
        Err(error) => after == read && changed == Err::<(), E>(error),
        Ok(current) => {
            &&& spec_one_write(
                read,
                after,
                chip,
                spec_frame_write(reg, spec_updated(current[0], bits)),
            )
            &&& changed == after.last().outcome()
        },
    }
}

/// What a change writes back where its read succeeded: the byte that was
/// read, with the code of `bits` in the field of `B` and every bit outside
/// the field as it was. The other fields of the register are not disturbed.
pub proof fn lemma_change_keeps_other_fields<E, B: BitValue>(
    before: Seq<Exchange<E>>,
    after: Seq<Exchange<E>>,
    chip: I2cAddr,
    reg: Register,
    bits: B,
    changed: Result<(), E>,
)
    requires
        spec_one_change(before, after, chip, reg, bits, changed),
        after[before.len() as int].payload() is Ok,
    ensures
        after.len() == before.len() + 2,
        after.last() is Write,
        after.last()->Write_sent.len() == 2,
        ({
            let current = after[before.len() as int].payload()->Ok_0[0];
            let written = after.last()->Write_sent[1];
            let mask = spec_field_mask(B::spec_width(), B::spec_shift());
            &&& spec_field::<B>(written) == bits.spec_value()
            &&& written & !mask == current & !mask
        }),
{
    let current = after[before.len() as int].payload()->Ok_0[0];
    B::field_is_well_formed();
    bits.value_is_in_range();
    lemma_merge_then_extract(current, B::spec_width(), B::spec_shift(), bits.spec_value());
}

/// L3GD20 driver
///
/// The driver keeps a record of every transaction it makes with the device.
/// The record is ghost: it exists for the contracts, which say through it what
/// each operation hands to the transport and how its result follows from what
/// the transport gave back. It is written where the transport is called and
/// nowhere else.
pub struct L3gd20<I2c: I2cTransport> {
    addr: I2cAddr,
    i2c: I2c,
    wire: Ghost<Seq<Exchange<I2c::Error>>>,
}

impl<I2c: I2cTransport> L3gd20<I2c> {
    /// The address at which the driver talks to the chip.
    pub closed spec fn address(&self) -> I2cAddr {
        self.addr
    }

    /// Every transaction that the driver has made with the device, oldest
    /// first.
    pub closed spec fn wire(&self) -> Seq<Exchange<I2c::Error>> {
        self.wire@
    }

    /// Creates a new driver from an I2C bus and the address of the chip, and
    /// powers the sensor up with all three axes enabled: one write, which
    /// overwrites `CTRL_REG1` as a whole.
    pub fn new(i2c: I2c, addr: I2cAddr) -> (created: Result<Self, I2c::Error>)
        ensures
            created matches Ok(l3gd20) ==> ({
                &&& l3gd20.address() == addr
                &&& spec_one_write(
                    Seq::empty(),
                    l3gd20.wire(),
                    addr,
                    spec_frame_write(Register::CTRL_REG1, POWER_UP_ALL_AXES),
                )
                &&& l3gd20.wire().last().outcome() is Ok
            }),
    {
        let mut l3gd20 = L3gd20 { i2c, addr, wire: Ghost(Seq::empty()) };
        let written = l3gd20.write_register(Register::CTRL_REG1, POWER_UP_ALL_AXES);
        l3gd20.powered_up(written)
    }

    /// Temperature measurement + gyroscope measurements
    ///
    /// One burst of eight bytes that starts at `OUT_TEMP`.
    pub fn all(&mut self) -> (read: Result<Measurements, I2c::Error>)
        ensures
            final(self).address() == old(self).address(),
            spec_one_write_read(
                old(self).wire(),
                final(self).wire(),
                old(self).address(),
                spec_frame_read_burst(Register::OUT_TEMP),
                8,
            ),
            read == (match final(self).wire().last().payload() {
                Ok(payload) => Ok(Measurements::spec_from_payload(payload)),
                Err(error) => Err(error),
            }),
    {
        let payload: [u8; 8] = self.read_many(Register::OUT_TEMP)?;
        Ok(Measurements::from_payload(&payload))
    }

    /// Gyroscope measurements
    ///
    /// One burst of six bytes that starts at `OUT_X_L`.
    pub fn gyro(&mut self) -> (read: Result<I16x3, I2c::Error>)
        ensures
            final(self).address() == old(self).address(),
            spec_one_write_read(
                old(self).wire(),
                final(self).wire(),
                old(self).address(),
                spec_frame_read_burst(Register::OUT_X_L),
                6,
            ),
            read == (match final(self).wire().last().payload() {
                Ok(payload) => Ok(I16x3::spec_from_le_bytes(payload)),
                Err(error) => Err(error),
            }),
    {
        let payload: [u8; 6] = self.read_many(Register::OUT_X_L)?;
        Ok(I16x3::from_le_bytes(&payload))
    }

    /// Raw temperature sensor measurement
    pub fn temp_raw(&mut self) -> (read: Result<i8, I2c::Error>)
        ensures
            final(self).address() == old(self).address(),
            spec_one_write_read(
                old(self).wire(),
                final(self).wire(),
                old(self).address(),
                spec_frame_read_single(Register::OUT_TEMP),
                1,
            ),
            read == (match final(self).wire().last().payload() {
                Ok(payload) => Ok(spec_signed_byte(payload[0]) as i8),
                Err(error) => Err(error),
            }),
    {
        Ok(raw_temperature(self.read_register(Register::OUT_TEMP)?))
    }

    /// Actual temperature derived by subtracting the raw measurement to the baseline value of 25 C
    pub fn temp_celcius(&mut self) -> (read: Result<i16, I2c::Error>)
        ensures
            final(self).address() == old(self).address(),
            spec_one_write_read(
                old(self).wire(),
                final(self).wire(),
                old(self).address(),
                spec_frame_read_single(Register::OUT_TEMP),
                1,
            ),
            read == (match final(self).wire().last().payload() {
                Ok(payload) => Ok(spec_celcius(spec_signed_byte(payload[0]) as i8) as i16),
                Err(error) => Err(error),
            }),
    {
        Ok(celcius(self.temp_raw()?))
    }

    /// Reads the WHO_AM_I register; should return `0xD4`
    pub fn who_am_i(&mut self) -> (read: Result<u8, I2c::Error>)
        ensures
            final(self).address() == old(self).address(),
            spec_one_write_read(
                old(self).wire(),
                final(self).wire(),
                old(self).address(),
                spec_frame_read_single(Register::WHO_AM_I),
                1,
            ),
            read == (match final(self).wire().last().payload() {
                Ok(payload) => Ok(payload[0]),
                Err(error) => Err(error),
            }),
    {
        self.read_register(Register::WHO_AM_I)
    }

    /// Read `STATUS_REG` of sensor
    pub fn status(&mut self) -> (read: Result<Status, I2c::Error>)
        ensures
            final(self).address() == old(self).address(),
            spec_one_write_read(
                old(self).wire(),
                final(self).wire(),
                old(self).address(),
                spec_frame_read_single(Register::STATUS_REG),
                1,
            ),
            read == (match final(self).wire().last().payload() {
                Ok(payload) => Ok(Status::spec_from_u8(payload[0])),
                Err(error) => Err(error),
            }),
    {
        let sts = self.read_register(Register::STATUS_REG)?;
        Ok(Status::from_u8(sts))
    }

    /// Get the current Output Data Rate
    pub fn odr(&mut self) -> (read: Result<Odr, I2c::Error>)
        ensures
            final(self).address() == old(self).address(),
            spec_one_write_read(
                old(self).wire(),
                final(self).wire(),
                old(self).address(),
                spec_frame_read_single(Register::CTRL_REG1),
                1,
            ),
            read == (match final(self).wire().last().payload() {
                Ok(payload) => Ok(Odr::spec_from_u8(payload[0])),
                Err(error) => Err(error),
            }),
    {
        let reg1 = self.read_register(Register::CTRL_REG1)?;
        Ok(Odr::from_u8(reg1))
    }

    /// Set the Output Data Rate
    pub fn set_odr(&mut self, odr: Odr) -> (changed: Result<&mut Self, I2c::Error>)
        ensures
            (match changed {
                Ok(l3gd20) => *final(self) == *final(l3gd20)
                    && l3gd20.address() == old(self).address() && spec_one_change(
                    old(self).wire(),
                    l3gd20.wire(),
                    old(self).address(),
                    Register::CTRL_REG1,
                    odr,
                    Ok(()),
                ),
                Err(error) => final(self).address() == old(self).address() && spec_one_change(
                    old(self).wire(),
                    final(self).wire(),
                    old(self).address(),
                    Register::CTRL_REG1,
                    odr,
                    Err(error),
                ),
            }),
    {
        self.change_config(Register::CTRL_REG1, odr)
    }

    /// Get current Bandwidth
    pub fn bandwidth(&mut self) -> (read: Result<Bandwidth, I2c::Error>)
        ensures
            final(self).address() == old(self).address(),
            spec_one_write_read(
                old(self).wire(),
                final(self).wire(),
                old(self).address(),
                spec_frame_read_single(Register::CTRL_REG1),
                1,
            ),
            read == (match final(self).wire().last().payload() {
                Ok(payload) => Ok(Bandwidth::spec_from_u8(payload[0])),
                Err(error) => Err(error),
            }),
    {
        let reg1 = self.read_register(Register::CTRL_REG1)?;
        Ok(Bandwidth::from_u8(reg1))
    }

    /// Set low-pass cut-off frequency (i.e. bandwidth)
    ///
    /// See `Bandwidth` for further explanation
    pub fn set_bandwidth(&mut self, bw: Bandwidth) -> (changed: Result<&mut Self, I2c::Error>)
        ensures
            (match changed {
                Ok(l3gd20) => *final(self) == *final(l3gd20)
                    && l3gd20.address() == old(self).address() && spec_one_change(
                    old(self).wire(),
                    l3gd20.wire(),
                    old(self).address(),
                    Register::CTRL_REG1,
                    bw,
                    Ok(()),
                ),
                Err(error) => final(self).address() == old(self).address() && spec_one_change(
                    old(self).wire(),
                    final(self).wire(),
                    old(self).address(),
                    Register::CTRL_REG1,
                    bw,
                    Err(error),
                ),
            }),
    {
        self.change_config(Register::CTRL_REG1, bw)
    }

    /// Get the current Full Scale Selection
    ///
    /// This is the sensitivity of the sensor, see `Scale` for more information
    pub fn scale(&mut self) -> (read: Result<Scale, I2c::Error>)
        ensures
            final(self).address() == old(self).address(),
            spec_one_write_read(
                old(self).wire(),
                final(self).wire(),
                old(self).address(),
                spec_frame_read_single(Register::CTRL_REG4),
                1,
            ),
            read == (match final(self).wire().last().payload() {
                Ok(payload) => Ok(Scale::spec_from_u8(payload[0])),
                Err(error) => Err(error),
            }),
    {
        let scl = self.read_register(Register::CTRL_REG4)?;
        Ok(Scale::from_u8(scl))
    }

    /// Set the Full Scale Selection
    ///
    /// This sets the sensitivity of the sensor, see `Scale` for more
    /// information
    pub fn set_scale(&mut self, scale: Scale) -> (changed: Result<&mut Self, I2c::Error>)
        ensures
            (match changed {
                Ok(l3gd20) => *final(self) == *final(l3gd20)
                    && l3gd20.address() == old(self).address() && spec_one_change(
                    old(self).wire(),
                    l3gd20.wire(),
                    old(self).address(),
                    Register::CTRL_REG4,
                    scale,
                    Ok(()),
                ),
                Err(error) => final(self).address() == old(self).address() && spec_one_change(
                    old(self).wire(),
                    final(self).wire(),
                    old(self).address(),
                    Register::CTRL_REG4,
                    scale,
                    Err(error),
                ),
            }),
    {
        self.change_config(Register::CTRL_REG4, scale)
    }

    /// What the construction returns for each outcome of the write that powers
    /// the sensor up: the driver where the write succeeded, and where it failed
    /// the error of the transport, as it is.
    fn powered_up(self, written: Result<(), I2c::Error>) -> (created: Result<Self, I2c::Error>)
        ensures
            created == (match written {
                Ok(_) => Ok(self),
                Err(error) => Err(error),
            }),
    {
        match written {
            Ok(()) => Ok(self),
            Err(error) => Err(error),
        }
    }

    fn read_register(&mut self, reg: Register) -> (read: Result<u8, I2c::Error>)
        ensures
            final(self).address() == old(self).address(),
            spec_one_write_read(
                old(self).wire(),
                final(self).wire(),
                old(self).address(),
                spec_frame_read_single(reg),
                1,
            ),
            read == (match final(self).wire().last().payload() {
                Ok(payload) => Ok(payload[0]),
                Err(error) => Err(error),
            }),
    {
        let frame = frame_read_single(reg);
        let address = self.addr.addr();
        let received = self.i2c.write_read::<1>(address, &frame);
        proof {
            self.wire = Ghost(self.wire@.push(spec_write_read(address, frame@, received)));
            assert(self.wire@.drop_last() =~= old(self).wire@);
        }
        let response = received?;
        Ok(decode_response(response)[0])
    }

    /// Reads `N` registers in a row, starting at `start_reg`, in one
    /// transaction.
    fn read_many<const N: usize>(&mut self, start_reg: Register) -> (read: Result<
        [u8; N],
        I2c::Error,
    >)
        ensures
            final(self).address() == old(self).address(),
            spec_one_write_read(
                old(self).wire(),
                final(self).wire(),
                old(self).address(),
                spec_frame_read_burst(start_reg),
                N as nat,
            ),
            (match read {
                Ok(payload) => final(self).wire().last().payload() == Ok::<Seq<u8>, I2c::Error>(
                    payload@,
                ),
                Err(error) => final(self).wire().last().payload() == Err::<Seq<u8>, I2c::Error>(
                    error,
                ),
            }),
    {
        let frame = frame_read_burst(start_reg);
        let address = self.addr.addr();
        let received = self.i2c.write_read::<N>(address, &frame);
        proof {
            self.wire = Ghost(self.wire@.push(spec_write_read(address, frame@, received)));
            assert(self.wire@.drop_last() =~= old(self).wire@);
        }
        let response = received?;
        Ok(decode_response(response))
    }

    fn write_register(&mut self, reg: Register, byte: u8) -> (written: Result<(), I2c::Error>)
        ensures
            final(self).address() == old(self).address(),
            spec_one_write(
                old(self).wire(),
                final(self).wire(),
                old(self).address(),
                spec_frame_write(reg, byte),
            ),
            written == final(self).wire().last().outcome(),
    {
        let frame = frame_write(reg, byte);
        let address = self.addr.addr();
        let done = self.i2c.write(address, &frame);
        proof {
            self.wire = Ghost(self.wire@.push(Exchange::Write { address, sent: frame@, done }));
            assert(self.wire@.drop_last() =~= old(self).wire@);
            assert(done matches Ok(unit) ==> unit == ());
        }
        done
    }

    /// Change configuration in register
    ///
    /// Updates one field of a register without affecting the other fields of
    /// the register: reads the register, merges the field into the byte that
    /// was read, and writes the result back.
    fn change_config<B: BitValue>(&mut self, reg: Register, bits: B) -> (changed: Result<
        &mut Self,
        I2c::Error,
    >)
        ensures
            (match changed {
                Ok(l3gd20) => *final(self) == *final(l3gd20)
                    && l3gd20.address() == old(self).address() && spec_one_change(
                    old(self).wire(),
                    l3gd20.wire(),
                    old(self).address(),
                    reg,
                    bits,
                    Ok(()),
                ),
                Err(error) => final(self).address() == old(self).address() && spec_one_change(
                    old(self).wire(),
                    final(self).wire(),
                    old(self).address(),
                    reg,
                    bits,
                    Err(error),
                ),
            }),
    {
        let current = match self.read_register(reg) {
            Ok(current) => current,
            Err(error) => {
                assert(self.wire().take(old(self).wire().len() as int + 1) =~= self.wire());
                return Err(error);
            },
        };
        let ghost read = self.wire();
        let new_reg = merge(current, &bits);
        let written = self.write_register(reg, new_reg);
        assert(self.wire().take(old(self).wire().len() as int + 1) =~= read);
        match written {
            Ok(()) => Ok(self),
            Err(error) => Err(error),
        }
    }
}

} // verus!
