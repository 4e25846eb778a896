//! Driver for the sixteen-channel servo/PWM controller: fixed register
//! sequences over the I2C adapter that program the module frequency and
//! per-channel compare values.

use vstd::prelude::*;

use crate::error::Error;
use crate::i2c::I2C_DEFAULT_FREQUENCY;
use crate::i2c::I2C_SCL_PIN;
use crate::i2c::I2C_SDA_PIN;
use crate::i2c::I2cPort;
use crate::i2c::i2c_baud_reg;
use crate::i2c::i2c_enable_frame;
use crate::i2c::i2c_send_frame;
use crate::i2c::i2c_transfer_frame;
use crate::port::Port;
use crate::protocol::Command;
use crate::registry::Pin;
use crate::registry::acquire_set_outcome;
use crate::registry::lemma_acquire_set_outcome_ok;
use crate::transport::reply_outcome;

verus! {

/// The controller's fixed I2C device address.
pub const SERVO_I2C_ID: u8 = 0x73;

/// The pin indices of the two address-select lines and the output-enable
/// line the driver holds alongside the bus.
pub const SERVO_ADDR2_PIN: usize = 5;

pub const SERVO_ADDR3_PIN: usize = 6;

pub const SERVO_OUTPUT_ENABLE_PIN: usize = 7;

/// Device register codes.
pub const REG_MODE1: u8 = 0x00;

pub const REG_LED0_ON_L: u8 = 0x06;

pub const REG_LED0_ON_H: u8 = 0x07;

pub const REG_LED0_OFF_L: u8 = 0x08;

pub const REG_LED0_OFF_H: u8 = 0x09;

pub const REG_PRESCALE: u8 = 0xFE;

/// One PWM period is divided into this many counter steps.
pub const SERVO_PWM_STEPS: u16 = 4096;

/// The module frequency the driver programs at connection time.
pub const SERVO_DEFAULT_FREQUENCY: u64 = 50;

/// The controller runs its PWM counter from a 25 MHz oscillator; the
/// prescale register divides that clock down to `frequency` full periods
/// per second. Only the low byte of the derivation reaches the register.
pub open spec fn servo_prescale(frequency: int) -> u8 {
    (((25_000_000int / (SERVO_PWM_STEPS as int)) / frequency - 1) % 256) as u8
}

/// The frame of a one-register write on the controller.
pub open spec fn servo_write_frame(reg: u8, value: u8) -> Seq<u8> {
    i2c_send_frame(SERVO_I2C_ID, seq![reg, value])
}

/// The frame of the mode-register read.
pub open spec fn servo_read_mode_frame() -> Seq<u8> {
    i2c_transfer_frame(SERVO_I2C_ID, seq![REG_MODE1], 1)
}

/// The four writes that reprogram the prescale register: sleep, set the
/// prescale, wake, and restart with auto-increment.
pub open spec fn servo_mode_frames(mode: u8, prescale: u8) -> Seq<u8> {
    servo_write_frame(REG_MODE1, mode | 0x10) + servo_write_frame(REG_PRESCALE, prescale)
        + servo_write_frame(REG_MODE1, mode) + servo_write_frame(REG_MODE1, 0xA1)
}

/// What programming the module frequency does: read the mode register,
/// then put the device to sleep, set the prescale, and wake it.
pub open spec fn set_module_frequency_outcome(inp: Seq<u8>, prescale: u8) -> (
    Result<(), Error>,
    Seq<u8>,
    Seq<u8>,
) {
    let (outcome, rest) = reply_outcome(inp, 1);
    match outcome {
        Ok(payload) => (
            Ok(()),
            servo_read_mode_frame() + servo_mode_frames(payload[0], prescale),
            rest,
        ),
        Err(e) => (Err(e), servo_read_mode_frame(), rest),
    }
}

/// What connecting does: drive the output-enable and both address lines
/// low, then program the default module frequency.
pub open spec fn servo_connect_outcome(inp: Seq<u8>) -> (Result<(), Error>, Seq<u8>, Seq<u8>) {
    let gpio = Command::GpioLow(SERVO_OUTPUT_ENABLE_PIN as u8).encoding() + Command::GpioLow(
        SERVO_ADDR2_PIN as u8,
    ).encoding() + Command::GpioLow(SERVO_ADDR3_PIN as u8).encoding();
    let (r, out, rest) = set_module_frequency_outcome(
        inp,
        servo_prescale(SERVO_DEFAULT_FREQUENCY as int),
    );
    (r, gpio + out, rest)
}

/// The four register writes that set one channel's compare value: the
/// on-time starts at zero and ends at `compare`.
pub open spec fn servo_duty_frames(offset: u8, compare: u16) -> Seq<u8> {
    servo_write_frame((REG_LED0_ON_L + offset) as u8, 0) + servo_write_frame(
        (REG_LED0_ON_H + offset) as u8,
        0,
    ) + servo_write_frame((REG_LED0_OFF_L + offset) as u8, (compare & 0xFF) as u8)
        + servo_write_frame((REG_LED0_OFF_H + offset) as u8, ((compare >> 8) & 0xFF) as u8)
}

/// The servo controller: the I2C adapter plus the address-select and
/// output-enable pins, all held for the driver's lifetime.
pub struct ServoArray {
    i2c: I2cPort,
    addr2: Pin,
    addr3: Pin,
    output_enable: Pin,
    i2c_id: u8,
}

impl ServoArray {
    /// The driver holds a well-formed bus adapter and its three control
    /// pins, and addresses the fixed device id.
    pub closed spec fn wf(&self) -> bool {
        &&& self.i2c.wf()
        &&& self.addr2.idx() == SERVO_ADDR2_PIN
        &&& self.addr3.idx() == SERVO_ADDR3_PIN
        &&& self.output_enable.idx() == SERVO_OUTPUT_ENABLE_PIN
        &&& self.i2c_id == SERVO_I2C_ID
    }

    /// The bus adapter the driver holds.
    pub closed spec fn bus(&self) -> I2cPort {
        self.i2c
    }

    /// Claims the control pins and the I2C bus (at the default
    /// frequency) on `port` and queues the bus-enable command. The two
    /// address-select arguments are accepted for the board variants that
    /// rewire the device address; this board's address is fixed, so they
    /// do not change it. Fails with [`Error::PinBusy`] if any needed pin
    /// is held, leaving the port exactly as it was.
    pub fn new(port: &mut Port, addr2: bool, addr3: bool) -> (r: Result<ServoArray, Error>)
        ensures
            match r {
                Ok(servos) => {
                    &&& servos.wf()
                    &&& !old(port).registry.locked_set().contains(I2C_SCL_PIN)
                    &&& !old(port).registry.locked_set().contains(I2C_SDA_PIN)
                    &&& !old(port).registry.locked_set().contains(SERVO_ADDR2_PIN)
                    &&& !old(port).registry.locked_set().contains(SERVO_ADDR3_PIN)
                    &&& !old(port).registry.locked_set().contains(SERVO_OUTPUT_ENABLE_PIN)
                    &&& forall|x: usize|
                        final(port).registry.locked_set().contains(x) <==> (old(
                            port,
                        ).registry.locked_set().contains(x) || x == I2C_SCL_PIN || x == I2C_SDA_PIN
                            || x == SERVO_ADDR2_PIN || x == SERVO_ADDR3_PIN || x
                            == SERVO_OUTPUT_ENABLE_PIN)
                    &&& final(port).transport.out_bytes() == old(port).transport.out_bytes()
                        + i2c_enable_frame(servos.bus().baud_reg())
                    &&& servos.bus().baud_reg() as int == i2c_baud_reg(I2C_DEFAULT_FREQUENCY as int)
                    &&& final(port).transport.in_bytes() == old(port).transport.in_bytes()
                },
                Err(e) => {
                    &&& final(port).registry.locked_set() == old(port).registry.locked_set()
                    &&& final(port).transport == old(port).transport
                    &&& e == (if old(port).registry.locked_set().contains(SERVO_ADDR2_PIN) {
                        Error::PinBusy { index: SERVO_ADDR2_PIN }
                    } else if old(port).registry.locked_set().contains(SERVO_ADDR3_PIN) {
                        Error::PinBusy { index: SERVO_ADDR3_PIN }
                    } else if old(port).registry.locked_set().contains(SERVO_OUTPUT_ENABLE_PIN) {
                        Error::PinBusy { index: SERVO_OUTPUT_ENABLE_PIN }
                    } else if old(port).registry.locked_set().contains(I2C_SCL_PIN) {
                        Error::PinBusy { index: I2C_SCL_PIN }
                    } else {
                        Error::PinBusy { index: I2C_SDA_PIN }
                    })
                    &&& (old(port).registry.locked_set().contains(SERVO_ADDR2_PIN) || old(
                        port,
                    ).registry.locked_set().contains(SERVO_ADDR3_PIN) || old(
                        port,
                    ).registry.locked_set().contains(SERVO_OUTPUT_ENABLE_PIN) || old(
                        port,
                    ).registry.locked_set().contains(I2C_SCL_PIN) || old(
                        port,
                    ).registry.locked_set().contains(I2C_SDA_PIN))
                },
            },
    {
        let _ = addr2;
        let _ = addr3;
        let mut indices: Vec<usize> = Vec::new();
        indices.push(SERVO_ADDR2_PIN);
        indices.push(SERVO_ADDR3_PIN);
        indices.push(SERVO_OUTPUT_ENABLE_PIN);
        let index_slice: &[usize] = indices.as_slice();
        let ghost s = index_slice@;
        proof {
            assert(s =~= seq![SERVO_ADDR2_PIN, SERVO_ADDR3_PIN, SERVO_OUTPUT_ENABLE_PIN]);
        }
        let ghost locked0 = port.registry.locked_set();
        let mut pins = match port.registry.acquire_set(index_slice) {
            Ok(pins) => pins,
            Err(e) => {
                proof {
                    reveal_with_fuel(acquire_set_outcome, 4);
                    assert(s.skip(1) =~= seq![SERVO_ADDR3_PIN, SERVO_OUTPUT_ENABLE_PIN]);
                    assert(seq![SERVO_ADDR3_PIN, SERVO_OUTPUT_ENABLE_PIN].skip(1) =~= seq![
                        SERVO_OUTPUT_ENABLE_PIN,
                    ]);
                    assert(seq![SERVO_OUTPUT_ENABLE_PIN].skip(1) =~= Seq::<usize>::empty());
                    if !locked0.contains(SERVO_ADDR2_PIN) && !locked0.contains(SERVO_ADDR3_PIN)
                        && !locked0.contains(SERVO_OUTPUT_ENABLE_PIN) {
                        lemma_acquire_set_outcome_ok(locked0, s);
                    }
                }
                return Err(e);
            }
        };
        proof {
            assert forall|x: usize| port.registry.locked_set().contains(x) <==> (locked0.contains(
                x,
            ) || x == SERVO_ADDR2_PIN || x == SERVO_ADDR3_PIN || x == SERVO_OUTPUT_ENABLE_PIN) by {
                // Mention the membership term so the batch-acquire
                // postcondition instantiates at this index.
                assert(s.contains(x) || !s.contains(x));
                assert(s[0] == SERVO_ADDR2_PIN && s[1] == SERVO_ADDR3_PIN && s[2]
                    == SERVO_OUTPUT_ENABLE_PIN);
                if x == SERVO_ADDR2_PIN {
                    assert(s.contains(x)) by {
                        assert(s[0] == x);
                    }
                }
                if x == SERVO_ADDR3_PIN {
                    assert(s.contains(x)) by {
                        assert(s[1] == x);
                    }
                }
                if x == SERVO_OUTPUT_ENABLE_PIN {
                    assert(s.contains(x)) by {
                        assert(s[2] == x);
                    }
                }
            }
        }
        let output_enable = pins.pop().unwrap();
        let addr3 = pins.pop().unwrap();
        let addr2 = pins.pop().unwrap();
        match I2cPort::open(port, I2C_DEFAULT_FREQUENCY) {
            Ok(i2c) => Ok(ServoArray { i2c, addr2, addr3, output_enable, i2c_id: SERVO_I2C_ID }),
            Err(e) => {
                port.registry.release(addr2);
                port.registry.release(addr3);
                port.registry.release(output_enable);
                proof {
                    assert(port.registry.locked_set() =~= locked0);
                }
                Err(e)
            }
        }
    }

    /// Writes one device register through an addressed send. No reply is
    /// expected.
    fn write_register(&self, port: &mut Port, reg: u8, value: u8)
        requires
            self.wf(),
        ensures
            final(port).transport.out_bytes() == old(port).transport.out_bytes()
                + servo_write_frame(reg, value),
            final(port).transport.in_bytes() == old(port).transport.in_bytes(),
            final(port).registry == old(port).registry,
    {
        let mut cmd: Vec<u8> = Vec::new();
        cmd.push(reg);
        cmd.push(value);
        proof {
            assert(cmd@ =~= seq![reg, value]);
        }
        self.i2c.send(port, self.i2c_id, cmd.as_slice());
    }

    /// Reprograms the PWM prescale register for the requested module
    /// frequency in hertz: read the mode register, sleep the device, set
    /// the prescale, and wake it with auto-increment on. The frequency
    /// must divide the 25 MHz oscillator down to at least one counter
    /// step per period.
    pub fn set_module_frequency(&self, port: &mut Port, frequency: u64) -> (r: Result<(), Error>)
        requires
            self.wf(),
            1 <= frequency <= 25_000_000u64 / (SERVO_PWM_STEPS as u64),
        ensures
            ({
                let (res, out, rest) = set_module_frequency_outcome(
                    old(port).transport.in_bytes(),
                    servo_prescale(frequency as int),
                );
                &&& final(port).transport.out_bytes() == old(port).transport.out_bytes() + out
                &&& final(port).transport.in_bytes() == rest
                &&& r == res
            }),
            final(port).registry == old(port).registry,
    {
        let base: u64 = 25_000_000 / (SERVO_PWM_STEPS as u64);
        assert(base / frequency >= 1) by {
            vstd::arithmetic::div_mod::lemma_div_non_zero(base as int, frequency as int);
        }
        let prescale = ((base / frequency - 1) % 256) as u8;
        let mut cmd: Vec<u8> = Vec::new();
        cmd.push(REG_MODE1);
        proof {
            assert(cmd@ =~= seq![REG_MODE1]);
        }
        let payload = match self.i2c.transfer(port, self.i2c_id, cmd.as_slice(), 1) {
            Ok(v) => v,
            Err(e) => {
                return Err(e);
            }
        };
        assert(payload@.len() == 1);
        let mode = payload[0];
        self.write_register(port, REG_MODE1, mode | 0x10);
        self.write_register(port, REG_PRESCALE, prescale);
        self.write_register(port, REG_MODE1, mode);
        self.write_register(port, REG_MODE1, 0xA1);
        proof {
            let (res, out, rest) = set_module_frequency_outcome(
                old(port).transport.in_bytes(),
                servo_prescale(frequency as int),
            );
            assert(port.transport.out_bytes() =~= old(port).transport.out_bytes() + out);
        }
        Ok(())
    }

    /// Drives the output-enable and address lines low and programs the
    /// default module frequency.
    pub fn connect(&self, port: &mut Port) -> (r: Result<(), Error>)
        requires
            self.wf(),
        ensures
            ({
                let (res, out, rest) = servo_connect_outcome(old(port).transport.in_bytes());
                &&& final(port).transport.out_bytes() == old(port).transport.out_bytes() + out
                &&& final(port).transport.in_bytes() == rest
                &&& r == res
            }),
            final(port).registry == old(port).registry,
    {
        self.output_enable.output(&mut port.transport, false);
        self.addr2.output(&mut port.transport, false);
        self.addr3.output(&mut port.transport, false);
        let result = self.set_module_frequency(port, SERVO_DEFAULT_FREQUENCY);
        proof {
            let (res, out, rest) = servo_connect_outcome(old(port).transport.in_bytes());
            assert(port.transport.out_bytes() =~= old(port).transport.out_bytes() + out);
        }
        result
    }

    /// Sets the compare value of one channel, numbered 1 to 16: the
    /// channel's pulse starts at counter step zero and ends at `compare`,
    /// clamped to the last counter step. Any other channel number fails
    /// with [`Error::PinOutOfRange`] and changes nothing.
    pub fn set_duty_cycle_raw(&self, port: &mut Port, channel: usize, compare: u16) -> (r: Result<
        (),
        Error,
    >)
        requires
            self.wf(),
        ensures
            match r {
                Ok(()) => {
                    &&& 1 <= channel <= 16
                    &&& final(port).transport.out_bytes() == old(port).transport.out_bytes()
                        + servo_duty_frames((((channel - 1) * 4) as u8), (if compare
                        > (SERVO_PWM_STEPS - 1) {
                        (SERVO_PWM_STEPS - 1) as u16
                    } else {
                        compare
                    }))
                },
                Err(e) => {
                    &&& !(1 <= channel <= 16)
                    &&& e == Error::PinOutOfRange { index: channel }
                    &&& final(port).transport == old(port).transport
                },
            },
            final(port).transport.in_bytes() == old(port).transport.in_bytes(),
            final(port).registry == old(port).registry,
    {
        if channel < 1 || channel > 16 {
            return Err(Error::PinOutOfRange { index: channel });
        }
        let clamped = if compare > SERVO_PWM_STEPS - 1 {
            SERVO_PWM_STEPS - 1
        } else {
            compare
        };
        let offset = ((channel - 1) * 4) as u8;
        self.write_register(port, REG_LED0_ON_L + offset, 0);
        self.write_register(port, REG_LED0_ON_H + offset, 0);
        self.write_register(port, REG_LED0_OFF_L + offset, (clamped & 0xFF) as u8);
        self.write_register(port, REG_LED0_OFF_H + offset, ((clamped >> 8) & 0xFF) as u8);
        assert(port.transport.out_bytes() =~= old(port).transport.out_bytes() + servo_duty_frames(
            (((channel - 1) * 4) as u8),
            clamped,
        ));
        Ok(())
    }
}

} // verus!
