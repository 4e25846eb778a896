//! Driver for the humidity/temperature sensor: fixed hold-master
//! measurement reads over the I2C adapter.

use vstd::prelude::*;

use crate::error::Error;
use crate::i2c::I2C_DEFAULT_FREQUENCY;
use crate::i2c::I2C_SCL_PIN;
use crate::i2c::I2C_SDA_PIN;
use crate::i2c::I2cPort;
use crate::i2c::i2c_baud_reg;
use crate::i2c::i2c_enable_frame;
use crate::i2c::i2c_transfer_frame;
use crate::port::Port;
use crate::registry::Pin;
use crate::registry::acquire_set_outcome;
use crate::registry::lemma_acquire_set_outcome_ok;
use crate::transport::reply_outcome;

verus! {

/// The sensor's fixed I2C device address.
pub const CLIMATE_I2C_ID: u8 = 0x40;

/// The two interrupt pin indices the driver holds alongside the bus.
pub const CLIMATE_INT1_PIN: usize = 5;

pub const CLIMATE_INT2_PIN: usize = 6;

/// Measurement and identification command codes of the sensor.
pub const CMD_TEMP_HOLD: u8 = 0xE3;

pub const CMD_RH_HOLD: u8 = 0xE5;

pub const CMD_READ_ID3: u8 = 0xFC;

pub const CMD_READ_ID4: u8 = 0xC9;

/// The first identity byte the sensor answers to the second
/// identification read.
pub const CLIMATE_ID_VALUE: u8 = 0x14;

/// What the identity check makes of the incoming queue: six identity
/// bytes whose first must match the known device code.
pub open spec fn climate_connect_outcome(inp: Seq<u8>) -> (Result<(), Error>, Seq<u8>) {
    let (outcome, rest) = reply_outcome(inp, 6);
    match outcome {
        Ok(payload) => {
            if payload[0] == CLIMATE_ID_VALUE {
                (Ok(()), rest)
            } else {
                (Err(Error::Protocol { expected: CLIMATE_ID_VALUE, found: payload[0] }), rest)
            }
        },
        Err(e) => (Err(e), rest),
    }
}

/// What a two-byte measurement read makes of the incoming queue: the
/// big-endian register value, or the reply error.
pub open spec fn climate_measure_outcome(inp: Seq<u8>) -> (Result<u16, Error>, Seq<u8>) {
    let (outcome, rest) = reply_outcome(inp, 2);
    match outcome {
        Ok(payload) => (Ok((((payload[0] as u16) << 8) + payload[1] as u16) as u16), rest),
        Err(e) => (Err(e), rest),
    }
}

/// The climate sensor: the I2C adapter plus the two interrupt pins, all
/// held for the driver's lifetime.
pub struct Climate {
    i2c: I2cPort,
    i1: Pin,
    i2: Pin,
}

impl Climate {
    /// The driver holds a well-formed bus adapter and the two interrupt
    /// pins.
    pub closed spec fn wf(&self) -> bool {
        self.i2c.wf() && self.i1.idx() == CLIMATE_INT1_PIN && self.i2.idx() == CLIMATE_INT2_PIN
    }

    /// The bus adapter the driver holds.
    pub closed spec fn bus(&self) -> I2cPort {
        self.i2c
    }

    /// Claims the interrupt pins and the I2C bus (at the default
    /// frequency) on `port` and queues the bus-enable command. Fails with
    /// [`Error::PinBusy`] if any needed pin is held, leaving the port
    /// exactly as it was.
    pub fn new(port: &mut Port) -> (r: Result<Climate, Error>)
        ensures
            match r {
                Ok(climate) => {
                    &&& climate.wf()
                    &&& !old(port).registry.locked_set().contains(I2C_SCL_PIN)
                    &&& !old(port).registry.locked_set().contains(I2C_SDA_PIN)
                    &&& !old(port).registry.locked_set().contains(CLIMATE_INT1_PIN)
                    &&& !old(port).registry.locked_set().contains(CLIMATE_INT2_PIN)
                    &&& forall|x: usize|
                        final(port).registry.locked_set().contains(x) <==> (old(
                            port,
                        ).registry.locked_set().contains(x) || x == I2C_SCL_PIN || x == I2C_SDA_PIN
                            || x == CLIMATE_INT1_PIN || x == CLIMATE_INT2_PIN)
                    &&& final(port).transport.out_bytes() == old(port).transport.out_bytes()
                        + i2c_enable_frame(climate.bus().baud_reg())
                    &&& climate.bus().baud_reg() as int == i2c_baud_reg(
                        I2C_DEFAULT_FREQUENCY as int,
                    )
                    &&& final(port).transport.in_bytes() == old(port).transport.in_bytes()
                },
                Err(e) => {
                    &&& final(port).registry.locked_set() == old(port).registry.locked_set()
                    &&& final(port).transport == old(port).transport
                    &&& e == (if old(port).registry.locked_set().contains(CLIMATE_INT1_PIN) {
                        Error::PinBusy { index: CLIMATE_INT1_PIN }
                    } else if old(port).registry.locked_set().contains(CLIMATE_INT2_PIN) {
                        Error::PinBusy { index: CLIMATE_INT2_PIN }
                    } else if old(port).registry.locked_set().contains(I2C_SCL_PIN) {
                        Error::PinBusy { index: I2C_SCL_PIN }
                    } else {
                        Error::PinBusy { index: I2C_SDA_PIN }
                    })
                    &&& (old(port).registry.locked_set().contains(CLIMATE_INT1_PIN) || old(
                        port,
                    ).registry.locked_set().contains(CLIMATE_INT2_PIN) || old(
                        port,
                    ).registry.locked_set().contains(I2C_SCL_PIN) || old(
                        port,
                    ).registry.locked_set().contains(I2C_SDA_PIN))
                },
            },
    {
        let mut indices: Vec<usize> = Vec::new();
        indices.push(CLIMATE_INT1_PIN);
        indices.push(CLIMATE_INT2_PIN);
        let index_slice: &[usize] = indices.as_slice();
        let ghost s = index_slice@;
        proof {
            assert(s =~= seq![CLIMATE_INT1_PIN, CLIMATE_INT2_PIN]);
        }
        let ghost locked0 = port.registry.locked_set();
        let mut pins = match port.registry.acquire_set(index_slice) {
            Ok(pins) => pins,
            Err(e) => {
                proof {
                    reveal_with_fuel(acquire_set_outcome, 3);
                    assert(s.skip(1) =~= seq![CLIMATE_INT2_PIN]);
                    assert(seq![CLIMATE_INT2_PIN].skip(1) =~= Seq::<usize>::empty());
                    if !locked0.contains(CLIMATE_INT1_PIN) && !locked0.contains(CLIMATE_INT2_PIN) {
                        lemma_acquire_set_outcome_ok(locked0, s);
                    }
                }
                return Err(e);
            }
        };
        proof {
            assert forall|x: usize| port.registry.locked_set().contains(x) <==> (locked0.contains(
                x,
            ) || x == CLIMATE_INT1_PIN || x == CLIMATE_INT2_PIN) by {
                // Mention the membership term so the batch-acquire
                // postcondition instantiates at this index.
                assert(s.contains(x) || !s.contains(x));
                assert(s[0] == CLIMATE_INT1_PIN && s[1] == CLIMATE_INT2_PIN);
                if x == CLIMATE_INT1_PIN {
                    assert(s.contains(x)) by {
                        assert(s[0] == x);
                    }
                }
                if x == CLIMATE_INT2_PIN {
                    assert(s.contains(x)) by {
                        assert(s[1] == x);
                    }
                }
            }
        }
        let i2 = pins.pop().unwrap();
        let i1 = pins.pop().unwrap();
        match I2cPort::open(port, I2C_DEFAULT_FREQUENCY) {
            Ok(i2c) => Ok(Climate { i2c, i1, i2 }),
            Err(e) => {
                port.registry.release(i1);
                port.registry.release(i2);
                proof {
                    assert(port.registry.locked_set() =~= locked0);
                }
                Err(e)
            }
        }
    }

    /// Reads `len` bytes back from a list of sensor command codes through
    /// a combined write-then-read transaction.
    fn read(&self, port: &mut Port, cmds: &[u8], len: u8) -> (r: Result<Vec<u8>, Error>)
        ensures
            final(port).transport.out_bytes() == old(port).transport.out_bytes()
                + i2c_transfer_frame(CLIMATE_I2C_ID, cmds@, len),
            ({
                let (outcome, rest) = reply_outcome(old(port).transport.in_bytes(), len as nat);
                &&& final(port).transport.in_bytes() == rest
                &&& match r {
                    Ok(payload) => outcome == Ok::<Seq<u8>, Error>(payload@),
                    Err(e) => outcome == Err::<Seq<u8>, Error>(e),
                }
            }),
            final(port).registry == old(port).registry,
    {
        self.i2c.transfer(port, CLIMATE_I2C_ID, cmds, len)
    }

    /// Sends a list of sensor command codes followed by one value byte.
    /// No reply is expected.
    pub fn write(&self, port: &mut Port, cmds: &[u8], value: u8)
        ensures
            final(port).transport.out_bytes() == old(port).transport.out_bytes()
                + crate::i2c::i2c_send_frame(CLIMATE_I2C_ID, cmds@ + seq![value]),
            final(port).transport.in_bytes() == old(port).transport.in_bytes(),
            final(port).registry == old(port).registry,
    {
        let mut buf: Vec<u8> = Vec::new();
        crate::protocol::append_bytes(&mut buf, cmds);
        buf.push(value);
        assert(buf@ =~= cmds@ + seq![value]);
        self.i2c.send(port, CLIMATE_I2C_ID, buf.as_slice());
    }

    /// Reads the sensor's identification registers and checks the device
    /// code. A wrong code fails with [`Error::Protocol`] carrying the
    /// expected and found values.
    ///
    /// The sensor needs its wake-up time after power-on before it will
    /// answer; the embedding program waits that out before connecting.
    pub fn connect(&self, port: &mut Port) -> (r: Result<(), Error>)
        ensures
            final(port).transport.out_bytes() == old(port).transport.out_bytes()
                + i2c_transfer_frame(CLIMATE_I2C_ID, seq![CMD_READ_ID3, CMD_READ_ID4], 6),
            ({
                let (res, rest) = climate_connect_outcome(old(port).transport.in_bytes());
                &&& final(port).transport.in_bytes() == rest
                &&& r == res
            }),
            final(port).registry == old(port).registry,
    {
        let mut cmds: Vec<u8> = Vec::new();
        cmds.push(CMD_READ_ID3);
        cmds.push(CMD_READ_ID4);
        proof {
            assert(cmds@ =~= seq![CMD_READ_ID3, CMD_READ_ID4]);
        }
        let payload = match self.read(port, cmds.as_slice(), 6) {
            Ok(v) => v,
            Err(e) => {
                return Err(e);
            }
        };
        assert(payload@.len() == 6);
        let id = payload[0];
        if id != CLIMATE_ID_VALUE {
            return Err(Error::Protocol { expected: CLIMATE_ID_VALUE, found: id });
        }
        Ok(())
    }

    /// Reads the raw big-endian temperature register through a
    /// hold-master measurement. The conversion into degrees is left to
    /// the caller.
    pub fn read_temperature_raw(&self, port: &mut Port) -> (r: Result<u16, Error>)
        ensures
            final(port).transport.out_bytes() == old(port).transport.out_bytes()
                + i2c_transfer_frame(CLIMATE_I2C_ID, seq![CMD_TEMP_HOLD], 2),
            ({
                let (res, rest) = climate_measure_outcome(old(port).transport.in_bytes());
                &&& final(port).transport.in_bytes() == rest
                &&& r == res
            }),
            final(port).registry == old(port).registry,
    {
        self.measure(port, CMD_TEMP_HOLD)
    }

    /// Reads the raw big-endian relative-humidity register through a
    /// hold-master measurement. The conversion into percent is left to
    /// the caller.
    pub fn read_humidity_raw(&self, port: &mut Port) -> (r: Result<u16, Error>)
        ensures
            final(port).transport.out_bytes() == old(port).transport.out_bytes()
                + i2c_transfer_frame(CLIMATE_I2C_ID, seq![CMD_RH_HOLD], 2),
            ({
                let (res, rest) = climate_measure_outcome(old(port).transport.in_bytes());
                &&& final(port).transport.in_bytes() == rest
                &&& r == res
            }),
            final(port).registry == old(port).registry,
    {
        self.measure(port, CMD_RH_HOLD)
    }

    /// Runs one two-byte hold-master measurement for the given command
    /// code and combines the reply into the big-endian register value.
    fn measure(&self, port: &mut Port, code: u8) -> (r: Result<u16, Error>)
        ensures
            final(port).transport.out_bytes() == old(port).transport.out_bytes()
                + i2c_transfer_frame(CLIMATE_I2C_ID, seq![code], 2),
            ({
                let (res, rest) = climate_measure_outcome(old(port).transport.in_bytes());
                &&& final(port).transport.in_bytes() == rest
                &&& r == res
            }),
            final(port).registry == old(port).registry,
    {
        let mut cmds: Vec<u8> = Vec::new();
        cmds.push(code);
        proof {
            assert(cmds@ =~= seq![code]);
        }
        let payload = match self.read(port, cmds.as_slice(), 2) {
            Ok(v) => v,
            Err(e) => {
                return Err(e);
            }
        };
        assert(payload@.len() == 2);
        let high = payload[0];
        let low = payload[1];
        assert(((high as u16) << 8) <= 0xFF00) by (bit_vector);
        Ok(((high as u16) << 8) + low as u16)
    }
}

} // verus!
