//! The sensor on an SPI bus.
//!
//! Every exchange starts with a command byte: the register address in the six
//! low bits, bit 7 set for a read, bit 6 set when the chip is to step to the
//! next register after each byte. The bus is full duplex, so while the command
//! byte goes out a byte without meaning comes in; the registers follow it.
//!
//! No register address reaches the two top bits, so setting a command bit is
//! the same as adding it. The frames are stated as sums, which can be read off
//! as numbers; [`lemma_command_layout`] gives the view by bits.

use vstd::prelude::*;
use crate::bitfield::{
    lemma_merge_then_extract, merge, spec_field, spec_field_mask, spec_updated, BitValue,
};
use crate::config::{Bandwidth, Odr, Scale};
use crate::measurement::{
    celcius, raw_temperature, spec_celcius, spec_signed_byte, I16x3, Measurements, Status,
};
use crate::register::Register;
use crate::POWER_UP_ALL_AXES;

verus! {

/// Command bit: the exchange reads from the chip.
pub const READ: u8 = 0x80;

/// Command bit: the exchange writes to the chip.
pub const WRITE: u8 = 0x00;

/// Command bit: the chip steps to the next register after each byte.
pub const MULTI: u8 = 0x40;

/// Command bit: the exchange stays on one register.
pub const SINGLE: u8 = 0x00;

/// The command byte for the register `reg` with the command bits `bits`.
pub open spec fn spec_command(reg: Register, bits: u8) -> u8 {
    (reg.spec_addr() + bits) as u8
}

/// The bytes clocked out to read one register: the command and one byte of
/// padding, during which the register comes in.
pub open spec fn spec_frame_read_single(reg: Register) -> Seq<u8> {
    seq![spec_command(reg, (SINGLE + READ) as u8), 0u8]
}

/// The `len` bytes clocked out to read `len - 1` registers in a row, starting
/// at `reg`: the command, then padding.
pub open spec fn spec_frame_read_burst(reg: Register, len: nat) -> Seq<u8> {
    Seq::new(
        len,
        |i: int|
            if i == 0 {
                spec_command(reg, (MULTI + READ) as u8)
            } else {
                0u8
            },
    )
}

/// The bytes clocked out to write `value` to one register.
pub open spec fn spec_frame_write(reg: Register, value: u8) -> Seq<u8> {
    seq![spec_command(reg, (SINGLE + WRITE) as u8), value]
}

/// The registers carried by the bytes that came in during an exchange: all
/// but the first byte.
pub open spec fn spec_decode_response(response: Seq<u8>) -> Seq<u8> {
    response.skip(1)
}

/// Puts the command bits `bits` on the address of `reg`.
fn command(reg: Register, bits: u8) -> (byte: u8)
    requires
        bits & 0x3F == 0,
    ensures
        byte == spec_command(reg, bits),
        byte & 0x3F == reg.spec_addr(),
        byte & 0xC0 == bits,
{
    let addr = reg.addr();
    proof {
        reg.lemma_addr_in_map();
    }
    assert((addr | bits) == addr + bits && (addr | bits) & 0x3F == addr && (addr | bits) & 0xC0
        == bits) by (bit_vector)
        requires
            addr <= 0x38,
            bits & 0x3F == 0,
    ;
    addr | bits
}

/// Frames the read of one register.
pub fn frame_read_single(reg: Register) -> (frame: [u8; 2])
    ensures
        frame@ == spec_frame_read_single(reg),
{
    assert((SINGLE | READ) & 0x3F == 0 && SINGLE | READ == SINGLE + READ) by (bit_vector);
    let frame: [u8; 2] = [command(reg, SINGLE | READ), 0];
    assert(frame@ =~= spec_frame_read_single(reg));
    frame
}

/// Frames a burst read that starts at `reg`. The frame has `N` bytes: one for
/// the command and one for each register to read.
pub fn frame_read_burst<const N: usize>(reg: Register) -> (frame: [u8; N])
    ensures
        frame@ == spec_frame_read_burst(reg, N as nat),
{
    let mut frame: [u8; N] = [0u8; N];
    if N > 0 {
        assert((MULTI | READ) & 0x3F == 0 && MULTI | READ == MULTI + READ) by (bit_vector);
        frame[0] = command(reg, MULTI | READ);
    }
    assert(frame@ =~= spec_frame_read_burst(reg, N as nat));
    frame
}

/// Frames the write of `value` to one register.
pub fn frame_write(reg: Register, value: u8) -> (frame: [u8; 2])
    ensures
        frame@ == spec_frame_write(reg, value),
{
    assert((SINGLE | WRITE) & 0x3F == 0 && SINGLE | WRITE == SINGLE + WRITE) by (bit_vector);
    let frame: [u8; 2] = [command(reg, SINGLE | WRITE), value];
    assert(frame@ =~= spec_frame_write(reg, value));
    frame
}

/// Takes the registers out of the bytes that came in during a read: the byte
/// that came in while the command went out is dropped.
pub fn decode_response<const N: usize, const M: usize>(response: &[u8; N]) -> (payload: [u8; M])
    requires
        N == M + 1,
    ensures
        payload@ == spec_decode_response(response@),
{
    let mut payload: [u8; M] = [0u8; M];
    let mut i: usize = 0;
    while i < M
        invariant
            N == M + 1,
            i <= M,
            forall|j: int| 0 <= j < i ==> payload@[j] == response@[j + 1],
        decreases M - i,
    {
        payload[i] = response[i + 1];
        i += 1;
    }
    assert(payload@ =~= spec_decode_response(response@));
    payload
}

/// The layout of the command byte: the address of every register lies in
/// the six low bits and can be read back from them, bit 7 is set in a read and
/// clear in a write, and bit 6 is set in a burst only.
pub proof fn lemma_command_layout(reg: Register)
    ensures
        spec_frame_read_single(reg)[0] & 0x3F == reg.spec_addr(),
        spec_frame_read_single(reg)[0] & 0xC0 == 0x80,
        spec_frame_read_burst(reg, 1)[0] & 0x3F == reg.spec_addr(),
        spec_frame_read_burst(reg, 1)[0] & 0xC0 == 0xC0,
        spec_frame_write(reg, 0)[0] & 0x3F == reg.spec_addr(),
        spec_frame_write(reg, 0)[0] & 0xC0 == 0x00,
{
    reg.lemma_addr_in_map();
    let addr = reg.spec_addr();
    assert(((addr + 0x80) as u8) & 0x3F == addr && ((addr + 0x80) as u8) & 0xC0 == 0x80 && ((addr
        + 0xC0) as u8) & 0x3F == addr && ((addr + 0xC0) as u8) & 0xC0 == 0xC0 && addr & 0x3F == addr
        && addr & 0xC0 == 0) by (bit_vector)
        requires
            addr <= 0x38,
    ;
}

/// The sensor as a device on an SPI bus: the bus together with the
/// chip-select line of this one chip.
///
/// Nothing is assumed of an implementation. What comes back from a call is
/// taken as it is: an error is handed on to the caller of the driver, bytes
/// are decoded.
pub trait SpiTransport {
    /// What the bus reports when an exchange fails.
    type Error;

    /// One full-duplex exchange: clocks out `frame` and returns the bytes
    /// that came in meanwhile, one for each byte sent.
    fn transfer<const N: usize>(&mut self, frame: [u8; N]) -> Result<[u8; N], Self::Error>;

    /// Clocks out `frame` and drops what comes in.
    fn write(&mut self, frame: &[u8]) -> Result<(), Self::Error>;
}

/// One exchange with the device, as the driver made it: the bytes it handed
/// to the transport and what the transport gave back.
pub enum Exchange<E> {
    /// A full-duplex transfer.
    Transfer { sent: Seq<u8>, received: Result<Seq<u8>, E> },
    /// A write.
    Write { sent: Seq<u8>, done: Result<(), E> },
}

impl<E> Exchange<E> {
    /// The registers that the exchange brought, or the error that ended it.
    /// A write brings no register.
    pub open spec fn payload(self) -> Result<Seq<u8>, E> {
        match self {
            Exchange::Transfer { received: Ok(response), .. } => Ok(spec_decode_response(response)),
            Exchange::Transfer { received: Err(error), .. } => Err(error),
            Exchange::Write { done: Ok(_), .. } => Ok(Seq::empty()),
            Exchange::Write { done: Err(error), .. } => Err(error),
        }
    }

    /// How the exchange ended: well, or with the error of the transport.
    pub open spec fn outcome(self) -> Result<(), E> {
        match self.payload() {
            Ok(_) => Ok(()),
            Err(error) => Err(error),
        }
    }
}

/// The record of a transfer of `frame` that the transport answered with
/// `received`.
pub open spec fn spec_transfer<E, const N: usize>(
    frame: Seq<u8>,
    received: Result<[u8; N], E>,
) -> Exchange<E> {
    Exchange::Transfer {
        sent: frame,
        received: match received {
            Ok(response) => Ok(response@),
            Err(error) => Err(error),
        },
    }
}

/// `after` is `before` and one exchange more: a transfer of `frame`, which,
/// where it succeeded, brought as many bytes as were sent.
pub open spec fn spec_one_transfer<E>(
    before: Seq<Exchange<E>>,
    after: Seq<Exchange<E>>,
    frame: Seq<u8>,
) -> bool {
    &&& after.len() == before.len() + 1
    &&& after.drop_last() == before
    &&& after.last() matches Exchange::Transfer { sent, received }
    &&& sent == frame
    &&& received matches Ok(response) ==> response.len() == frame.len()
}

/// `after` is `before` and one exchange more: a write of `frame`.
pub open spec fn spec_one_write<E>(
    before: Seq<Exchange<E>>,
    after: Seq<Exchange<E>>,
    frame: Seq<u8>,
) -> bool {
    &&& after.len() == before.len() + 1
    &&& after.drop_last() == before
    &&& after.last() matches Exchange::Write { sent, done }
    &&& sent == frame
}

/// `after` is `before` and the exchanges of one change of the field of `B` in
/// the register `reg`, which ended with `changed`: the register is read; if
/// that fails, nothing more is done and the error is the result; if not, the
/// byte that was read, with the field replaced by `bits`, is written back.
pub open spec fn spec_one_change<E, B: BitValue>(
    before: Seq<Exchange<E>>,
    after: Seq<Exchange<E>>,
    reg: Register,
    bits: B,
    changed: Result<(), E>,
) -> bool {
    let read = after.take(before.len() as int + 1);
    &&& before.len() < after.len()
    &&& spec_one_transfer(before, read, spec_frame_read_single(reg))
    &&& match read.last().payload() {
        Err(error) => after == read && changed == Err::<(), E>(error),
        Ok(current) => {
            &&& spec_one_write(read, after, spec_frame_write(reg, spec_updated(current[0], bits)))
            &&& changed == after.last().outcome()
        },
    }
}

/// What a change writes back where its read succeeded: the byte that was
/// read, with the code of `bits` in the field of `B` and every bit outside
/// the field as it was. The other fields of the register are not disturbed.
pub proof fn lemma_change_keeps_other_fields<E, B: BitValue>(
    before: Seq<Exchange<E>>,
    after: Seq<Exchange<E>>,
    reg: Register,
    bits: B,
    changed: Result<(), E>,
)
    requires
        spec_one_change(before, after, reg, bits, changed),
        after[before.len() as int].payload() is Ok,
    ensures
        after.len() == before.len() + 2,
        after.last() is Write,
        after.last()->Write_sent.len() == 2,
        ({
            let current = after[before.len() as int].payload()->Ok_0[0];
            let written = after.last()->Write_sent[1];
            let mask = spec_field_mask(B::spec_width(), B::spec_shift());
            &&& spec_field::<B>(written) == bits.spec_value()
            &&& written & !mask == current & !mask
        }),
{
    let current = after[before.len() as int].payload()->Ok_0[0];
    B::field_is_well_formed();
    bits.value_is_in_range();
    lemma_merge_then_extract(current, B::spec_width(), B::spec_shift(), bits.spec_value());
}

/// L3GD20 driver
///
/// The driver keeps a record of every exchange it makes with the device. The
/// record is ghost: it exists for the contracts, which say through it what
/// each operation hands to the transport and how its result follows from what
/// the transport gave back. It is written where the transport is called and
/// nowhere else.
pub struct L3gd20<Spi: SpiTransport> {
    spi: Spi,
    wire: Ghost<Seq<Exchange<Spi::Error>>>,
}

impl<Spi: SpiTransport> L3gd20<Spi> {
    /// Every exchange that the driver has made with the device, oldest first.
    pub closed spec fn wire(&self) -> Seq<Exchange<Spi::Error>> {
        self.wire@
    }

    /// Creates a new driver from an SPI device and powers the sensor up with
    /// all three axes enabled: one write, which overwrites `CTRL_REG1` as a
    /// whole.
    pub fn new(spi: Spi) -> (created: Result<Self, Spi::Error>)
        ensures
            created matches Ok(l3gd20) ==> ({
                &&& spec_one_write(
                    Seq::empty(),
                    l3gd20.wire(),
                    spec_frame_write(Register::CTRL_REG1, POWER_UP_ALL_AXES),
                )
                &&& l3gd20.wire().last().outcome() is Ok
            }),
    {
        let mut l3gd20 = L3gd20 { spi, wire: Ghost(Seq::empty()) };
        let written = l3gd20.write_register(Register::CTRL_REG1, POWER_UP_ALL_AXES);
        l3gd20.powered_up(written)
    }

    /// Temperature measurement + gyroscope measurements
    ///
    /// One burst of nine bytes that starts at `OUT_TEMP`.
    pub fn all(&mut self) -> (read: Result<Measurements, Spi::Error>)
        ensures
            spec_one_transfer(
                old(self).wire(),
                final(self).wire(),
                spec_frame_read_burst(Register::OUT_TEMP, 9),
            ),
            read == (match final(self).wire().last().payload() {
                Ok(payload) => Ok(Measurements::spec_from_payload(payload)),
                Err(error) => Err(error),
            }),
    {
        let payload: [u8; 8] = self.read_many::<9, 8>(Register::OUT_TEMP)?;
        Ok(Measurements::from_payload(&payload))
    }

    /// Gyroscope measurements
    ///
    /// One burst of seven bytes that starts at `OUT_X_L`.
    pub fn gyro(&mut self) -> (read: Result<I16x3, Spi::Error>)
        ensures
            spec_one_transfer(
                old(self).wire(),
                final(self).wire(),
                spec_frame_read_burst(Register::OUT_X_L, 7),
            ),
            read == (match final(self).wire().last().payload() {
                Ok(payload) => Ok(I16x3::spec_from_le_bytes(payload)),
                Err(error) => Err(error),
            }),
    {
        let payload: [u8; 6] = self.read_many::<7, 6>(Register::OUT_X_L)?;
        Ok(I16x3::from_le_bytes(&payload))
    }

    /// Raw temperature sensor measurement
    pub fn temp_raw(&mut self) -> (read: Result<i8, Spi::Error>)
        ensures
            spec_one_transfer(
                old(self).wire(),
                final(self).wire(),
                spec_frame_read_single(Register::OUT_TEMP),
            ),
            read == (match final(self).wire().last().payload() {
                Ok(payload) => Ok(spec_signed_byte(payload[0]) as i8),
                Err(error) => Err(error),
            }),
    {
        Ok(raw_temperature(self.read_register(Register::OUT_TEMP)?))
    }

    /// Actual temperature derived by subtracting the raw measurement to the baseline value of 25 C
    pub fn temp_celcius(&mut self) -> (read: Result<i16, Spi::Error>)
        ensures
            spec_one_transfer(
                old(self).wire(),
                final(self).wire(),
                spec_frame_read_single(Register::OUT_TEMP),
            ),
            read == (match final(self).wire().last().payload() {
                Ok(payload) => Ok(spec_celcius(spec_signed_byte(payload[0]) as i8) as i16),
                Err(error) => Err(error),
            }),
    {
        Ok(celcius(self.temp_raw()?))
    }

    /// Reads the WHO_AM_I register; should return `0xD4`
    pub fn who_am_i(&mut self) -> (read: Result<u8, Spi::Error>)
        ensures
            spec_one_transfer(
                old(self).wire(),
                final(self).wire(),
                spec_frame_read_single(Register::WHO_AM_I),
            ),
            read == (match final(self).wire().last().payload() {
                Ok(payload) => Ok(payload[0]),
                Err(error) => Err(error),
            }),
    {
        self.read_register(Register::WHO_AM_I)
    }

    /// Read `STATUS_REG` of sensor
    pub fn status(&mut self) -> (read: Result<Status, Spi::Error>)
        ensures
            spec_one_transfer(
                old(self).wire(),
                final(self).wire(),
                spec_frame_read_single(Register::STATUS_REG),
            ),
            read == (match final(self).wire().last().payload() {
                Ok(payload) => Ok(Status::spec_from_u8(payload[0])),
                Err(error) => Err(error),
            }),
    {
        let sts = self.read_register(Register::STATUS_REG)?;
        Ok(Status::from_u8(sts))
    }

    /// Get the current Output Data Rate
    pub fn odr(&mut self) -> (read: Result<Odr, Spi::Error>)
        ensures
            spec_one_transfer(
                old(self).wire(),
                final(self).wire(),
                spec_frame_read_single(Register::CTRL_REG1),
            ),
            read == (match final(self).wire().last().payload() {
                Ok(payload) => Ok(Odr::spec_from_u8(payload[0])),
                Err(error) => Err(error),
            }),
    {
        let reg1 = self.read_register(Register::CTRL_REG1)?;
        Ok(Odr::from_u8(reg1))
    }

    /// Set the Output Data Rate
    pub fn set_odr(&mut self, odr: Odr) -> (changed: Result<&mut Self, Spi::Error>)
        ensures
            (match changed {
                Ok(l3gd20) => *final(self) == *final(l3gd20) && spec_one_change(
                    old(self).wire(),
                    l3gd20.wire(),
                    Register::CTRL_REG1,
                    odr,
                    Ok(()),
                ),
                Err(error) => spec_one_change(
                    old(self).wire(),
                    final(self).wire(),
                    Register::CTRL_REG1,
                    odr,
                    Err(error),
                ),
            }),
    {
        self.change_config(Register::CTRL_REG1, odr)
    }

    /// Get current Bandwidth
    pub fn bandwidth(&mut self) -> (read: Result<Bandwidth, Spi::Error>)
        ensures
            spec_one_transfer(
                old(self).wire(),
                final(self).wire(),
                spec_frame_read_single(Register::CTRL_REG1),
            ),
            read == (match final(self).wire().last().payload() {
                Ok(payload) => Ok(Bandwidth::spec_from_u8(payload[0])),
                Err(error) => Err(error),
            }),
    {
        let reg1 = self.read_register(Register::CTRL_REG1)?;
        Ok(Bandwidth::from_u8(reg1))
    }

    /// Set low-pass cut-off frequency (i.e. bandwidth)
    ///
    /// See `Bandwidth` for further explanation
    pub fn set_bandwidth(&mut self, bw: Bandwidth) -> (changed: Result<&mut Self, Spi::Error>)
        ensures
            (match changed {
                Ok(l3gd20) => *final(self) == *final(l3gd20) && spec_one_change(
                    old(self).wire(),
                    l3gd20.wire(),
                    Register::CTRL_REG1,
                    bw,
                    Ok(()),
                ),
                Err(error) => spec_one_change(
                    old(self).wire(),
                    final(self).wire(),
                    Register::CTRL_REG1,
                    bw,
                    Err(error),
                ),
            }),
    {
        self.change_config(Register::CTRL_REG1, bw)
    }

    /// Get the current Full Scale Selection
    ///
    /// This is the sensitivity of the sensor, see `Scale` for more information
    pub fn scale(&mut self) -> (read: Result<Scale, Spi::Error>)
        ensures
            spec_one_transfer(
                old(self).wire(),
                final(self).wire(),
                spec_frame_read_single(Register::CTRL_REG4),
            ),
            read == (match final(self).wire().last().payload() {
                Ok(payload) => Ok(Scale::spec_from_u8(payload[0])),
                Err(error) => Err(error),
            }),
    {
        let scl = self.read_register(Register::CTRL_REG4)?;
        Ok(Scale::from_u8(scl))
    }

    /// Set the Full Scale Selection
    ///
    /// This sets the sensitivity of the sensor, see `Scale` for more
    /// information
    pub fn set_scale(&mut self, scale: Scale) -> (changed: Result<&mut Self, Spi::Error>)
        ensures
            (match changed {
                Ok(l3gd20) => *final(self) == *final(l3gd20) && spec_one_change(
                    old(self).wire(),
                    l3gd20.wire(),
                    Register::CTRL_REG4,
                    scale,
                    Ok(()),
                ),
                Err(error) => spec_one_change(
                    old(self).wire(),
                    final(self).wire(),
                    Register::CTRL_REG4,
                    scale,
                    Err(error),
                ),
            }),
    {
        self.change_config(Register::CTRL_REG4, scale)
    }

    /// What the construction returns for each outcome of the write that powers
    /// the sensor up: the driver where the write succeeded, and where it failed
    /// the error of the transport, as it is.
    fn powered_up(self, written: Result<(), Spi::Error>) -> (created: Result<Self, Spi::Error>)
        ensures
            created == (match written {
                Ok(_) => Ok(self),
                Err(error) => Err(error),
            }),
    {
        match written {
            Ok(()) => Ok(self),
            Err(error) => Err(error),
        }
    }

    fn read_register(&mut self, reg: Register) -> (read: Result<u8, Spi::Error>)
        ensures
            spec_one_transfer(old(self).wire(), final(self).wire(), spec_frame_read_single(reg)),
            read == (match final(self).wire().last().payload() {
                Ok(payload) => Ok(payload[0]),
                Err(error) => Err(error),
            }),
    {
        let frame = frame_read_single(reg);
        let received = self.spi.transfer(frame);
        proof {
            self.wire = Ghost(self.wire@.push(spec_transfer(frame@, received)));
            assert(self.wire@.drop_last() =~= old(self).wire@);
        }
        let response = received?;
        let payload: [u8; 1] = decode_response(&response);
        Ok(payload[0])
    }

    /// Reads `M` registers in a row, starting at `start_reg`, in one exchange
    /// of `N` bytes.
    fn read_many<const N: usize, const M: usize>(&mut self, start_reg: Register) -> (read: Result<
        [u8; M],
        Spi::Error,
    >)
        requires
            N == M + 1,
        ensures
            spec_one_transfer(
                old(self).wire(),
                final(self).wire(),
                spec_frame_read_burst(start_reg, N as nat),
            ),
            (match read {
                Ok(payload) => final(self).wire().last().payload() == Ok::<Seq<u8>, Spi::Error>(
                    payload@,
                ),
                Err(error) => final(self).wire().last().payload() == Err::<Seq<u8>, Spi::Error>(
                    error,
                ),
            }),
    {
        let frame: [u8; N] = frame_read_burst(start_reg);
        let received = self.spi.transfer(frame);
        proof {
            self.wire = Ghost(self.wire@.push(spec_transfer(frame@, received)));
            assert(self.wire@.drop_last() =~= old(self).wire@);
        }
        let response = received?;
        Ok(decode_response(&response))
    }

    fn write_register(&mut self, reg: Register, byte: u8) -> (written: Result<(), Spi::Error>)
        ensures
            spec_one_write(old(self).wire(), final(self).wire(), spec_frame_write(reg, byte)),
            written == final(self).wire().last().outcome(),
    {
        let frame = frame_write(reg, byte);
        let done = self.spi.write(&frame);
        proof {
            self.wire = Ghost(self.wire@.push(Exchange::Write { sent: frame@, done }));
            assert(self.wire@.drop_last() =~= old(self).wire@);
            assert(done matches Ok(unit) ==> unit == ());
        }
        done
    }

    /// Change configuration in register
    ///
    /// Updates one field of a register without affecting the other fields of
    /// the register: reads the register, merges the field into the byte that
    /// was read, and writes the result back.
    fn change_config<B: BitValue>(&mut self, reg: Register, bits: B) -> (changed: Result<
        &mut Self,
        Spi::Error,
    >)
        ensures
            (match changed {
                Ok(l3gd20) => *final(self) == *final(l3gd20) && spec_one_change(
                    old(self).wire(),
                    l3gd20.wire(),
                    reg,
                    bits,
                    Ok(()),
                ),
                Err(error) => spec_one_change(
                    old(self).wire(),
                    final(self).wire(),
                    reg,
                    bits,
                    Err(error),
                ),
            }),
    {
        let current = match self.read_register(reg) {
            Ok(current) => current,
            Err(error) => {
                assert(self.wire().take(old(self).wire().len() as int + 1) =~= self.wire());
                return Err(error);
            },
        };
        let ghost read = self.wire();
        let new_reg = merge(current, &bits);
        let written = self.write_register(reg, new_reg);
        assert(self.wire().take(old(self).wire().len() as int + 1) =~= read);
        match written {
            Ok(()) => Ok(self),
            Err(error) => Err(error),
        }
    }
}

} // verus!
