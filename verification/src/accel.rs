//! Driver for the three-axis accelerometer: fixed register read/write
//! sequences over the I2C adapter, with the device's standby dance around
//! every configuration change.

use vstd::prelude::*;

use crate::error::Error;
use crate::i2c::I2C_DEFAULT_FREQUENCY;
use crate::i2c::I2C_SCL_PIN;
use crate::i2c::I2C_SDA_PIN;
use crate::i2c::I2cPort;
use crate::i2c::i2c_baud_reg;
use crate::i2c::i2c_enable_frame;
use crate::i2c::i2c_send_frame;
use crate::i2c::i2c_transfer_frame;
use crate::port::Port;
use crate::registry::Pin;
use crate::registry::lemma_acquire_set_outcome_ok;
use crate::registry::acquire_set_outcome;
use crate::transport::reply_outcome;

verus! {

/// The accelerometer's fixed I2C device address.
pub const ACCEL_I2C_ID: u8 = 0x1D;

/// The two interrupt pin indices the driver holds alongside the bus.
pub const ACCEL_INT1_PIN: usize = 5;

pub const ACCEL_INT2_PIN: usize = 6;

/// Device register codes.
pub const REG_OUT_X_MSB: u8 = 0x01;

pub const REG_WHO_AM_I: u8 = 0x0D;

pub const REG_XYZ_DATA_CFG: u8 = 0x0E;

pub const REG_CTRL_REG1: u8 = 0x2A;

/// The identity byte the device answers to a who-am-I read.
pub const ACCEL_WHO_AM_I_VALUE: u8 = 0x2A;

/// The full-scale measurement range selector.
#[derive(Clone, Copy, Debug, PartialEq, Eq, Structural)]
pub enum ScaleRange {
    Scale2G,
    Scale4G,
    Scale8G,
}

impl ScaleRange {
    /// The bit pattern written to the XYZ data configuration register.
    pub open spec fn value_spec(self) -> u8 {
        match self {
            ScaleRange::Scale2G => 0b00,
            ScaleRange::Scale4G => 0b01,
            ScaleRange::Scale8G => 0b10,
        }
    }

    /// The bit pattern written to the XYZ data configuration register.
    pub fn value(self) -> (r: u8)
        ensures
            r == self.value_spec(),
    {
        match self {
            ScaleRange::Scale2G => 0b00,
            ScaleRange::Scale4G => 0b01,
            ScaleRange::Scale8G => 0b10,
        }
    }
}

/// The output data rate selector.
#[derive(Clone, Copy, Debug, PartialEq, Eq, Structural)]
pub enum SampleRate {
    Rate800,
    Rate400,
    Rate200,
    Rate100,
    Rate50,
    Rate12_5,
    Rate6_25,
    Rate1_56,
}

impl SampleRate {
    /// The three-bit rate code placed into the control register.
    pub open spec fn value_spec(self) -> u8 {
        match self {
            SampleRate::Rate800 => 0,
            SampleRate::Rate400 => 1,
            SampleRate::Rate200 => 2,
            SampleRate::Rate100 => 3,
            SampleRate::Rate50 => 4,
            SampleRate::Rate12_5 => 5,
            SampleRate::Rate6_25 => 6,
            SampleRate::Rate1_56 => 7,
        }
    }

    /// The three-bit rate code placed into the control register.
    pub fn value(self) -> (r: u8)
        ensures
            r == self.value_spec(),
    {
        match self {
            SampleRate::Rate800 => 0,
            SampleRate::Rate400 => 1,
            SampleRate::Rate200 => 2,
            SampleRate::Rate100 => 3,
            SampleRate::Rate50 => 4,
            SampleRate::Rate12_5 => 5,
            SampleRate::Rate6_25 => 6,
            SampleRate::Rate1_56 => 7,
        }
    }
}

/// The frame of a one-register read: a combined write-then-read
/// transaction carrying the register code and asking for one byte back.
pub open spec fn read_register_frame(reg: u8) -> Seq<u8> {
    i2c_transfer_frame(ACCEL_I2C_ID, seq![reg], 1)
}

/// The frame of a one-register write: an addressed send of the register
/// code and the new value.
pub open spec fn write_register_frame(reg: u8, value: u8) -> Seq<u8> {
    i2c_send_frame(ACCEL_I2C_ID, seq![reg, value])
}

/// What a one-register read makes of the incoming queue: the byte read,
/// or the reply error, and the bytes left over.
pub open spec fn read_register_outcome(inp: Seq<u8>) -> (Result<u8, Error>, Seq<u8>) {
    let (outcome, rest) = reply_outcome(inp, 1);
    match outcome {
        Ok(payload) => (Ok(payload[0]), rest),
        Err(e) => (Err(e), rest),
    }
}

/// What entering standby does: read the control register, then write it
/// back with the active bit cleared. The second step emits nothing on
/// failure of the first.
pub open spec fn standby_enable_outcome(inp: Seq<u8>) -> (Result<(), Error>, Seq<u8>, Seq<u8>) {
    let (r, rest) = read_register_outcome(inp);
    match r {
        Ok(v) => (
            Ok(()),
            read_register_frame(REG_CTRL_REG1) + write_register_frame(REG_CTRL_REG1, v & !0x01),
            rest,
        ),
        Err(e) => (Err(e), read_register_frame(REG_CTRL_REG1), rest),
    }
}

/// What leaving standby does: read the control register, then write it
/// back with the active bit set.
pub open spec fn standby_disable_outcome(inp: Seq<u8>) -> (Result<(), Error>, Seq<u8>, Seq<u8>) {
    let (r, rest) = read_register_outcome(inp);
    match r {
        Ok(v) => (
            Ok(()),
            read_register_frame(REG_CTRL_REG1) + write_register_frame(REG_CTRL_REG1, v | 0x01),
            rest,
        ),
        Err(e) => (Err(e), read_register_frame(REG_CTRL_REG1), rest),
    }
}

/// What selecting a scale range does: standby, write the range bits to
/// the XYZ data configuration register, leave standby.
pub open spec fn set_scale_range_outcome(inp: Seq<u8>, scale: u8) -> (
    Result<(), Error>,
    Seq<u8>,
    Seq<u8>,
) {
    let (r1, out1, rest1) = standby_enable_outcome(inp);
    match r1 {
        Ok(()) => {
            let out2 = write_register_frame(REG_XYZ_DATA_CFG, scale);
            let (r3, out3, rest3) = standby_disable_outcome(rest1);
            (r3, out1 + out2 + out3, rest3)
        },
        Err(e) => (Err(e), out1, rest1),
    }
}

/// What selecting a sample rate does: standby, read the control
/// register, write it back with the three rate bits replaced, leave
/// standby.
pub open spec fn set_sample_rate_outcome(inp: Seq<u8>, rate: u8) -> (
    Result<(), Error>,
    Seq<u8>,
    Seq<u8>,
) {
    let (r1, out1, rest1) = standby_enable_outcome(inp);
    match r1 {
        Ok(()) => {
            let (r2, rest2) = read_register_outcome(rest1);
            match r2 {
                Ok(v) => {
                    let out2 = read_register_frame(REG_CTRL_REG1) + write_register_frame(
                        REG_CTRL_REG1,
                        (v & 0b11000111) | (rate << 3),
                    );
                    let (r3, out3, rest3) = standby_disable_outcome(rest2);
                    (r3, out1 + out2 + out3, rest3)
                },
                Err(e) => (Err(e), out1 + read_register_frame(REG_CTRL_REG1), rest2),
            }
        },
        Err(e) => (Err(e), out1, rest1),
    }
}

/// What connecting does: read the identity register and compare it to
/// the expected value, then select the 2g range and the 100 Hz rate.
pub open spec fn connect_outcome(inp: Seq<u8>) -> (Result<(), Error>, Seq<u8>, Seq<u8>) {
    let (r1, rest1) = read_register_outcome(inp);
    let out1 = read_register_frame(REG_WHO_AM_I);
    match r1 {
        Ok(id) => {
            if id != ACCEL_WHO_AM_I_VALUE {
                (Err(Error::Protocol { expected: ACCEL_WHO_AM_I_VALUE, found: id }), out1, rest1)
            } else {
                let (r2, out2, rest2) = set_scale_range_outcome(rest1, 0b00);
                match r2 {
                    Ok(()) => {
                        let (r3, out3, rest3) = set_sample_rate_outcome(rest2, 3);
                        (r3, out1 + out2 + out3, rest3)
                    },
                    Err(e) => (Err(e), out1 + out2, rest2),
                }
            }
        },
        Err(e) => (Err(e), out1, rest1),
    }
}

/// The signed 12-bit acceleration value packed into one axis's register
/// pair: the two bytes left-aligned, right-shifted into twelve bits, and
/// read as two's complement.
pub open spec fn decode_axis(msb: u8, lsb: u8) -> int {
    let g = (((msb as u16) << 8) | (lsb as u16)) >> 4;
    if msb > 0x7F {
        -(1 + 0xFFF - g as int)
    } else {
        g as int
    }
}

/// The accelerometer: the I2C adapter plus the two interrupt pins, all
/// held for the driver's lifetime.
pub struct Accelerometer {
    i2c: I2cPort,
    i1: Pin,
    i2: Pin,
}

impl Accelerometer {
    /// The driver holds a well-formed bus adapter and the two interrupt
    /// pins.
    pub closed spec fn wf(&self) -> bool {
        self.i2c.wf() && self.i1.idx() == ACCEL_INT1_PIN && self.i2.idx() == ACCEL_INT2_PIN
    }

    /// The bus adapter the driver holds.
    pub closed spec fn bus(&self) -> I2cPort {
        self.i2c
    }

    /// Claims the interrupt pins and the I2C bus (at the default
    /// frequency) on `port` and queues the bus-enable command. Fails with
    /// [`Error::PinBusy`] if any needed pin is held, leaving the port
    /// exactly as it was.
    pub fn new(port: &mut Port) -> (r: Result<Accelerometer, Error>)
        ensures
            match r {
                Ok(acc) => {
                    &&& acc.wf()
                    &&& !old(port).registry.locked_set().contains(I2C_SCL_PIN)
                    &&& !old(port).registry.locked_set().contains(I2C_SDA_PIN)
                    &&& !old(port).registry.locked_set().contains(ACCEL_INT1_PIN)
                    &&& !old(port).registry.locked_set().contains(ACCEL_INT2_PIN)
                    &&& forall|x: usize|
                        final(port).registry.locked_set().contains(x) <==> (old(
                            port,
                        ).registry.locked_set().contains(x) || x == I2C_SCL_PIN || x == I2C_SDA_PIN
                            || x == ACCEL_INT1_PIN || x == ACCEL_INT2_PIN)
                    &&& final(port).transport.out_bytes() == old(port).transport.out_bytes()
                        + i2c_enable_frame(acc.bus().baud_reg())
                    &&& acc.bus().baud_reg() as int == i2c_baud_reg(I2C_DEFAULT_FREQUENCY as int)
                    &&& final(port).transport.in_bytes() == old(port).transport.in_bytes()
                },
                Err(e) => {
                    &&& final(port).registry.locked_set() == old(port).registry.locked_set()
                    &&& final(port).transport == old(port).transport
                    &&& e == (if old(port).registry.locked_set().contains(ACCEL_INT1_PIN) {
                        Error::PinBusy { index: ACCEL_INT1_PIN }
                    } else if old(port).registry.locked_set().contains(ACCEL_INT2_PIN) {
                        Error::PinBusy { index: ACCEL_INT2_PIN }
                    } else if old(port).registry.locked_set().contains(I2C_SCL_PIN) {
                        Error::PinBusy { index: I2C_SCL_PIN }
                    } else {
                        Error::PinBusy { index: I2C_SDA_PIN }
                    })
                    &&& (old(port).registry.locked_set().contains(ACCEL_INT1_PIN) || old(
                        port,
                    ).registry.locked_set().contains(ACCEL_INT2_PIN) || old(
                        port,
                    ).registry.locked_set().contains(I2C_SCL_PIN) || old(
                        port,
                    ).registry.locked_set().contains(I2C_SDA_PIN))
                },
            },
    {
        let mut indices: Vec<usize> = Vec::new();
        indices.push(ACCEL_INT1_PIN);
        indices.push(ACCEL_INT2_PIN);
        let index_slice: &[usize] = indices.as_slice();
        let ghost s = index_slice@;
        proof {
            assert(s =~= seq![ACCEL_INT1_PIN, ACCEL_INT2_PIN]);
        }
        let ghost locked0 = port.registry.locked_set();
        let mut pins = match port.registry.acquire_set(index_slice) {
            Ok(pins) => pins,
            Err(e) => {
                proof {
                    reveal_with_fuel(acquire_set_outcome, 3);
                    assert(s.skip(1) =~= seq![ACCEL_INT2_PIN]);
                    assert(seq![ACCEL_INT2_PIN].skip(1) =~= Seq::<usize>::empty());
                    if !locked0.contains(ACCEL_INT1_PIN) && !locked0.contains(ACCEL_INT2_PIN) {
                        lemma_acquire_set_outcome_ok(locked0, s);
                    }
                }
                return Err(e);
            }
        };
        proof {
            assert forall|x: usize| port.registry.locked_set().contains(x) <==> (locked0.contains(
                x,
            ) || x == ACCEL_INT1_PIN || x == ACCEL_INT2_PIN) by {
                // Mention the membership term so the batch-acquire
                // postcondition instantiates at this index.
                assert(s.contains(x) || !s.contains(x));
                assert(s[0] == ACCEL_INT1_PIN && s[1] == ACCEL_INT2_PIN);
                if x == ACCEL_INT1_PIN {
                    assert(s.contains(x)) by {
                        assert(s[0] == x);
                    }
                }
                if x == ACCEL_INT2_PIN {
                    assert(s.contains(x)) by {
                        assert(s[1] == x);
                    }
                }
            }
        }
        let i2 = pins.pop().unwrap();
        let i1 = pins.pop().unwrap();
        match I2cPort::open(port, I2C_DEFAULT_FREQUENCY) {
            Ok(i2c) => Ok(Accelerometer { i2c, i1, i2 }),
            Err(e) => {
                port.registry.release(i1);
                port.registry.release(i2);
                proof {
                    assert(port.registry.locked_set() =~= locked0);
                }
                Err(e)
            }
        }
    }

    /// Reads one device register through a combined write-then-read
    /// transaction.
    fn read_register(&self, port: &mut Port, reg: u8) -> (r: Result<u8, Error>)
        ensures
            final(port).transport.out_bytes() == old(port).transport.out_bytes()
                + read_register_frame(reg),
            ({
                let (res, rest) = read_register_outcome(old(port).transport.in_bytes());
                &&& final(port).transport.in_bytes() == rest
                &&& match r {
                    Ok(b) => res == Ok::<u8, Error>(b),
                    Err(e) => res == Err::<u8, Error>(e),
                }
            }),
            final(port).registry == old(port).registry,
    {
        let mut cmd: Vec<u8> = Vec::new();
        cmd.push(reg);
        proof {
            assert(cmd@ =~= seq![reg]);
        }
        match self.i2c.transfer(port, ACCEL_I2C_ID, cmd.as_slice(), 1) {
            Ok(payload) => {
                assert(payload@.len() == 1);
                Ok(payload[0])
            }
            Err(e) => Err(e),
        }
    }

    /// Reads `len` consecutive device registers starting at `reg`.
    fn read_registers(&self, port: &mut Port, reg: u8, len: u8) -> (r: Result<Vec<u8>, Error>)
        ensures
            final(port).transport.out_bytes() == old(port).transport.out_bytes()
                + i2c_transfer_frame(ACCEL_I2C_ID, seq![reg], len),
            ({
                let (outcome, rest) = reply_outcome(old(port).transport.in_bytes(), len as nat);
                &&& final(port).transport.in_bytes() == rest
                &&& match r {
                    Ok(payload) => outcome == Ok::<Seq<u8>, Error>(payload@),
                    Err(e) => outcome == Err::<Seq<u8>, Error>(e),
                }
            }),
            final(port).registry == old(port).registry,
    {
        let mut cmd: Vec<u8> = Vec::new();
        cmd.push(reg);
        proof {
            assert(cmd@ =~= seq![reg]);
        }
        self.i2c.transfer(port, ACCEL_I2C_ID, cmd.as_slice(), len)
    }

    /// Writes one device register through an addressed send. No reply is
    /// expected.
    fn write_register(&self, port: &mut Port, reg: u8, value: u8)
        ensures
            final(port).transport.out_bytes() == old(port).transport.out_bytes()
                + write_register_frame(reg, value),
            final(port).transport.in_bytes() == old(port).transport.in_bytes(),
            final(port).registry == old(port).registry,
    {
        let mut cmd: Vec<u8> = Vec::new();
        cmd.push(reg);
        cmd.push(value);
        proof {
            assert(cmd@ =~= seq![reg, value]);
        }
        self.i2c.send(port, ACCEL_I2C_ID, cmd.as_slice());
    }

    /// Puts the device into standby mode so configuration registers can
    /// be written.
    fn standby_enable(&self, port: &mut Port) -> (r: Result<(), Error>)
        ensures
            ({
                let (res, out, rest) = standby_enable_outcome(old(port).transport.in_bytes());
                &&& final(port).transport.out_bytes() == old(port).transport.out_bytes() + out
                &&& final(port).transport.in_bytes() == rest
                &&& r == res
            }),
            final(port).registry == old(port).registry,
    {
        let value = match self.read_register(port, REG_CTRL_REG1) {
            Ok(v) => v,
            Err(e) => {
                return Err(e);
            }
        };
        self.write_register(port, REG_CTRL_REG1, value & !0x01);
        assert(port.transport.out_bytes() =~= old(port).transport.out_bytes() + (
        read_register_frame(REG_CTRL_REG1) + write_register_frame(REG_CTRL_REG1, value & !0x01)));
        Ok(())
    }

    /// Puts the device back into active mode.
    fn standby_disable(&self, port: &mut Port) -> (r: Result<(), Error>)
        ensures
            ({
                let (res, out, rest) = standby_disable_outcome(old(port).transport.in_bytes());
                &&& final(port).transport.out_bytes() == old(port).transport.out_bytes() + out
                &&& final(port).transport.in_bytes() == rest
                &&& r == res
            }),
            final(port).registry == old(port).registry,
    {
        let value = match self.read_register(port, REG_CTRL_REG1) {
            Ok(v) => v,
            Err(e) => {
                return Err(e);
            }
        };
        self.write_register(port, REG_CTRL_REG1, value | 0x01);
        assert(port.transport.out_bytes() =~= old(port).transport.out_bytes() + (
        read_register_frame(REG_CTRL_REG1) + write_register_frame(REG_CTRL_REG1, value | 0x01)));
        Ok(())
    }

    /// Selects the full-scale measurement range, with the standby dance
    /// around the register write.
    pub fn set_scale_range(&self, port: &mut Port, range: ScaleRange) -> (r: Result<(), Error>)
        ensures
            ({
                let (res, out, rest) = set_scale_range_outcome(
                    old(port).transport.in_bytes(),
                    range.value_spec(),
                );
                &&& final(port).transport.out_bytes() == old(port).transport.out_bytes() + out
                &&& final(port).transport.in_bytes() == rest
                &&& r == res
            }),
            final(port).registry == old(port).registry,
    {
        let ghost out0 = port.transport.out_bytes();
        match self.standby_enable(port) {
            Ok(()) => {}
            Err(e) => {
                return Err(e);
            }
        }
        self.write_register(port, REG_XYZ_DATA_CFG, range.value());
        let result = self.standby_disable(port);
        proof {
            let (res1, out1, rest1) = standby_enable_outcome(old(port).transport.in_bytes());
            let out2 = write_register_frame(REG_XYZ_DATA_CFG, range.value_spec());
            let (res3, out3, rest3) = standby_disable_outcome(rest1);
            assert(port.transport.out_bytes() =~= old(port).transport.out_bytes() + (out1 + out2
                + out3));
        }
        result
    }

    /// Selects the output data rate, with the standby dance around the
    /// read-modify-write of the control register.
    pub fn set_sample_rate(&self, port: &mut Port, rate: SampleRate) -> (r: Result<(), Error>)
        ensures
            ({
                let (res, out, rest) = set_sample_rate_outcome(
                    old(port).transport.in_bytes(),
                    rate.value_spec(),
                );
                &&& final(port).transport.out_bytes() == old(port).transport.out_bytes() + out
                &&& final(port).transport.in_bytes() == rest
                &&& r == res
            }),
            final(port).registry == old(port).registry,
    {
        match self.standby_enable(port) {
            Ok(()) => {}
            Err(e) => {
                return Err(e);
            }
        }
        let value = match self.read_register(port, REG_CTRL_REG1) {
            Ok(v) => v,
            Err(e) => {
                proof {
                    let (res1, out1, rest1) = standby_enable_outcome(
                        old(port).transport.in_bytes(),
                    );
                    assert(port.transport.out_bytes() =~= old(port).transport.out_bytes() + (out1
                        + read_register_frame(REG_CTRL_REG1)));
                }
                return Err(e);
            }
        };
        let masked = value & 0b11000111;
        self.write_register(port, REG_CTRL_REG1, masked | (rate.value() << 3));
        let result = self.standby_disable(port);
        proof {
            let (res1, out1, rest1) = standby_enable_outcome(old(port).transport.in_bytes());
            let (res2, rest2) = read_register_outcome(rest1);
            let out2 = read_register_frame(REG_CTRL_REG1) + write_register_frame(
                REG_CTRL_REG1,
                (value & 0b11000111) | (rate.value_spec() << 3),
            );
            let (res3, out3, rest3) = standby_disable_outcome(rest2);
            assert(port.transport.out_bytes() =~= old(port).transport.out_bytes() + (out1 + out2
                + out3));
        }
        result
    }

    /// Checks the device identity, then applies the 2g range and the
    /// 100 Hz rate. A wrong identity byte fails with [`Error::Protocol`]
    /// carrying the expected and found values.
    pub fn connect(&self, port: &mut Port) -> (r: Result<(), Error>)
        ensures
            ({
                let (res, out, rest) = connect_outcome(old(port).transport.in_bytes());
                &&& final(port).transport.out_bytes() == old(port).transport.out_bytes() + out
                &&& final(port).transport.in_bytes() == rest
                &&& r == res
            }),
            final(port).registry == old(port).registry,
    {
        let id = match self.read_register(port, REG_WHO_AM_I) {
            Ok(v) => v,
            Err(e) => {
                return Err(e);
            }
        };
        if id != ACCEL_WHO_AM_I_VALUE {
            return Err(Error::Protocol { expected: ACCEL_WHO_AM_I_VALUE, found: id });
        }
        match self.set_scale_range(port, ScaleRange::Scale2G) {
            Ok(()) => {}
            Err(e) => {
                proof {
                    let (res1, rest1) = read_register_outcome(old(port).transport.in_bytes());
                    let (res2, out2, rest2) = set_scale_range_outcome(rest1, 0b00);
                    assert(port.transport.out_bytes() =~= old(port).transport.out_bytes() + (
                    read_register_frame(REG_WHO_AM_I) + out2));
                }
                return Err(e);
            }
        }
        let result = self.set_sample_rate(port, SampleRate::Rate100);
        proof {
            let (res1, rest1) = read_register_outcome(old(port).transport.in_bytes());
            let (res2, out2, rest2) = set_scale_range_outcome(rest1, 0b00);
            let (res3, out3, rest3) = set_sample_rate_outcome(rest2, 3);
            assert(port.transport.out_bytes() =~= old(port).transport.out_bytes() + (
            read_register_frame(REG_WHO_AM_I) + out2 + out3));
        }
        result
    }

    /// Reads the six acceleration registers and decodes the three signed
    /// twelve-bit axis values.
    pub fn read_acceleration_raw(&self, port: &mut Port) -> (r: Result<(i16, i16, i16), Error>)
        ensures
            final(port).transport.out_bytes() == old(port).transport.out_bytes()
                + read_acceleration_frame(),
            ({
                let (outcome, rest) = reply_outcome(old(port).transport.in_bytes(), 6);
                &&& final(port).transport.in_bytes() == rest
                &&& match (r, outcome) {
                    (Ok(axes), Ok(payload)) => {
                        &&& axes.0 as int == decode_axis(payload[0], payload[1])
                        &&& axes.1 as int == decode_axis(payload[2], payload[3])
                        &&& axes.2 as int == decode_axis(payload[4], payload[5])
                    },
                    (Err(e1), Err(e2)) => e1 == e2,
                    _ => false,
                }
            }),
            final(port).registry == old(port).registry,
    {
        let payload = match self.read_registers(port, REG_OUT_X_MSB, 6) {
            Ok(v) => v,
            Err(e) => {
                return Err(e);
            }
        };
        assert(payload@.len() == 6);
        let x = decode_axis_value(payload[0], payload[1]);
        let y = decode_axis_value(payload[2], payload[3]);
        let z = decode_axis_value(payload[4], payload[5]);
        Ok((x, y, z))
    }
}

/// The frame of the six-register acceleration read.
pub open spec fn read_acceleration_frame() -> Seq<u8> {
    i2c_transfer_frame(ACCEL_I2C_ID, seq![REG_OUT_X_MSB], 6)
}

/// Decodes one axis's register pair into its signed twelve-bit value.
pub fn decode_axis_value(msb: u8, lsb: u8) -> (r: i16)
    ensures
        r as int == decode_axis(msb, lsb),
{
    let wide: u16 = ((msb as u16) << 8) | (lsb as u16);
    let g: u16 = wide >> 4;
    assert(g <= 0xFFF) by (bit_vector)
        requires
            g == (((msb as u16) << 8) | (lsb as u16)) >> 4,
    ;
    if msb > 0x7F {
        -(1 + 0xFFF - (g as i16))
    } else {
        g as i16
    }
}

} // verus!
