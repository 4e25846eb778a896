//! The I2C bus adapter: exclusive ownership of the two bus pins, the
//! clock-divisor register derivation, and the framed start/transmit/
//! receive/stop transactions.

use vstd::prelude::*;

use crate::error::Error;
use crate::port::Port;
use crate::protocol::CMD_ENABLE_I2C;
use crate::protocol::CMD_RX;
use crate::protocol::CMD_START;
use crate::protocol::CMD_STOP;
use crate::protocol::Command;
use crate::protocol::tx_encoding;
use crate::registry::Pin;
use crate::registry::acquire_set_outcome;
use crate::registry::lemma_acquire_set_outcome_ok;
use crate::transport::reply_outcome;

verus! {

/// The pin index of the I2C clock line.
pub const I2C_SCL_PIN: usize = 0;

/// The pin index of the I2C data line.
pub const I2C_SDA_PIN: usize = 1;

/// The bus frequency used when a caller has no particular preference.
pub const I2C_DEFAULT_FREQUENCY: u32 = 100_000;

/// The coprocessor's I2C clock-divisor register for a requested bus
/// frequency `f` in hertz: the value
/// `(F_max / f - F_max * T_rise) / 2 - 5` rounded down and clamped into
/// one byte, where `F_max` is the 48 MHz coprocessor clock and `T_rise`
/// the 15 ns clock rise time. Written over integers by scaling numerator
/// and denominator by 100: `F_max / f - F_max * T_rise` equals
/// `(4_800_000_000 - 72 * f) / (100 * f)`.
pub open spec fn i2c_baud_reg(f: int) -> int {
    let num = 4_800_000_000 - 72 * f;
    if num < 0 {
        0
    } else {
        let v = num / (200 * f) - 5;
        if v < 0 {
            0
        } else if v > 255 {
            255
        } else {
            v
        }
    }
}

/// The register value never leaves one byte, whatever positive frequency
/// is requested.
pub proof fn lemma_i2c_baud_reg_in_range(f: int)
    requires
        1 <= f,
    ensures
        0 <= i2c_baud_reg(f) <= 255,
{
    let num = 4_800_000_000 - 72 * f;
    if num >= 0 {
        vstd::arithmetic::div_mod::lemma_div_pos_is_pos(num, 200 * f);
    }
}

/// The frame of a bus-enable command carrying the clock register.
pub open spec fn i2c_enable_frame(baud: u8) -> Seq<u8> {
    seq![CMD_ENABLE_I2C, baud]
}

/// The frame of an addressed write: start with the write-direction
/// address byte, the chunked payload, then stop.
pub open spec fn i2c_send_frame(address: u8, data: Seq<u8>) -> Seq<u8> {
    seq![CMD_START, address << 1] + tx_encoding(data) + seq![CMD_STOP]
}

/// The frame of an addressed read request: start with the read-direction
/// address byte, the receive length, then stop.
pub open spec fn i2c_read_frame(address: u8, read_len: u8) -> Seq<u8> {
    seq![CMD_START, (address << 1) | 1, CMD_RX, read_len, CMD_STOP]
}

/// The frame of a combined write-then-read transaction: a write-direction
/// start and the payload, a second read-direction start with the receive
/// length, then one stop.
pub open spec fn i2c_transfer_frame(address: u8, data: Seq<u8>, read_len: u8) -> Seq<u8> {
    seq![CMD_START, address << 1] + tx_encoding(data) + seq![
        CMD_START,
        (address << 1) | 1,
        CMD_RX,
        read_len,
        CMD_STOP,
    ]
}

/// An open I2C bus: the two bus pins held for the adapter's lifetime and
/// the currently configured frequency and register value.
pub struct I2cPort {
    scl: Pin,
    sda: Pin,
    baud: u8,
    frequency: u32,
}

impl I2cPort {
    /// The adapter holds exactly the clock and data pins.
    pub closed spec fn wf(&self) -> bool {
        self.scl.idx() == I2C_SCL_PIN && self.sda.idx() == I2C_SDA_PIN
    }

    /// The configured bus frequency in hertz.
    pub closed spec fn freq(&self) -> u32 {
        self.frequency
    }

    /// The register value configured for the current frequency.
    pub closed spec fn baud_reg(&self) -> u8 {
        self.baud
    }

    /// The configured bus frequency in hertz.
    pub fn frequency(&self) -> (r: u32)
        ensures
            r == self.freq(),
    {
        self.frequency
    }

    /// Computes the I2C clock-divisor register for the requested
    /// frequency, clamping the raw derivation into one byte.
    pub fn compute_baud(frequency: u32) -> (r: u8)
        requires
            1 <= frequency,
        ensures
            r as int == i2c_baud_reg(frequency as int),
    {
        let f: u64 = frequency as u64;
        if 72 * f >= 4_800_000_000 {
            return 0;
        }
        let num: u64 = 4_800_000_000 - 72 * f;
        let q: u64 = num / (200 * f);
        if q <= 5 {
            0
        } else if q - 5 > 255 {
            255
        } else {
            (q - 5) as u8
        }
    }

    /// Opens the bus on `port`: acquires the clock and data pins as one
    /// atomic unit, computes the clock register, and queues the bus-enable
    /// command. Fails with [`Error::PinBusy`] naming the first held bus
    /// pin, in which case the port is left exactly as it was.
    pub fn open(port: &mut Port, frequency: u32) -> (r: Result<I2cPort, Error>)
        requires
            1 <= frequency,
        ensures
            match r {
                Ok(i2c) => {
                    &&& !old(port).registry.locked_set().contains(I2C_SCL_PIN)
                    &&& !old(port).registry.locked_set().contains(I2C_SDA_PIN)
                    &&& i2c.wf()
                    &&& i2c.freq() == frequency
                    &&& i2c.baud_reg() as int == i2c_baud_reg(frequency as int)
                    &&& forall|x: usize|
                        final(port).registry.locked_set().contains(x) <==> (old(
                            port,
                        ).registry.locked_set().contains(x) || x == I2C_SCL_PIN || x
                            == I2C_SDA_PIN)
                    &&& final(port).transport.out_bytes() == old(port).transport.out_bytes()
                        + i2c_enable_frame(i2c.baud_reg())
                    &&& final(port).transport.in_bytes() == old(port).transport.in_bytes()
                },
                Err(e) => {
                    &&& old(port).registry.locked_set().contains(I2C_SCL_PIN) || old(
                        port,
                    ).registry.locked_set().contains(I2C_SDA_PIN)
                    &&& e == (if old(port).registry.locked_set().contains(I2C_SCL_PIN) {
                        Error::PinBusy { index: I2C_SCL_PIN }
                    } else {
                        Error::PinBusy { index: I2C_SDA_PIN }
                    })
                    &&& final(port).registry.locked_set() == old(port).registry.locked_set()
                    &&& final(port).transport == old(port).transport
                },
            },
    {
        let mut indices: Vec<usize> = Vec::new();
        indices.push(I2C_SCL_PIN);
        indices.push(I2C_SDA_PIN);
        let index_slice: &[usize] = indices.as_slice();
        let ghost s = index_slice@;
        proof {
            assert(s =~= seq![I2C_SCL_PIN, I2C_SDA_PIN]);
        }
        let ghost locked0 = port.registry.locked_set();
        match port.registry.acquire_set(index_slice) {
            Ok(mut pins) => {
                proof {
                    assert forall|x: usize| port.registry.locked_set().contains(x) <==> (
                    locked0.contains(x) || x == I2C_SCL_PIN || x == I2C_SDA_PIN) by {
                        // Mention the membership term so the batch-acquire
                        // postcondition instantiates at this index.
                        assert(s.contains(x) || !s.contains(x));
                        assert(s[0] == I2C_SCL_PIN && s[1] == I2C_SDA_PIN);
                        if x == I2C_SCL_PIN {
                            assert(s.contains(x)) by {
                                assert(s[0] == x);
                            }
                        }
                        if x == I2C_SDA_PIN {
                            assert(s.contains(x)) by {
                                assert(s[1] == x);
                            }
                        }
                    }
                }
                let sda = pins.pop().unwrap();
                let scl = pins.pop().unwrap();
                let baud = I2cPort::compute_baud(frequency);
                port.transport.write_command(Command::EnableI2c { baud });
                Ok(I2cPort { scl, sda, baud, frequency })
            }
            Err(e) => {
                proof {
                    reveal_with_fuel(acquire_set_outcome, 3);
                    assert(s.skip(1) =~= seq![I2C_SDA_PIN]);
                    assert(seq![I2C_SDA_PIN].skip(1) =~= Seq::<usize>::empty());
                    if !locked0.contains(I2C_SCL_PIN) && !locked0.contains(I2C_SDA_PIN) {
                        lemma_acquire_set_outcome_ok(locked0, s);
                    }
                }
                Err(e)
            }
        }
    }

    /// Closes the bus, releasing both bus pins so the port can hand them
    /// out again. The transport is left untouched.
    pub fn close(self, port: &mut Port)
        requires
            self.wf(),
        ensures
            forall|x: usize|
                final(port).registry.locked_set().contains(x) <==> (old(
                    port,
                ).registry.locked_set().contains(x) && x != I2C_SCL_PIN && x != I2C_SDA_PIN),
            final(port).transport == old(port).transport,
    {
        let I2cPort { scl, sda, baud: _, frequency: _ } = self;
        port.registry.release(scl);
        port.registry.release(sda);
    }

    /// Recomputes the clock register for the new frequency and queues a
    /// fresh bus-enable command; the bus pins stay held.
    pub fn set_frequency(&mut self, port: &mut Port, frequency: u32)
        requires
            1 <= frequency,
        ensures
            final(self).wf() == old(self).wf(),
            final(self).freq() == frequency,
            final(self).baud_reg() as int == i2c_baud_reg(frequency as int),
            final(port).transport.out_bytes() == old(port).transport.out_bytes()
                + i2c_enable_frame(final(self).baud_reg()),
            final(port).transport.in_bytes() == old(port).transport.in_bytes(),
            final(port).registry == old(port).registry,
    {
        let baud = I2cPort::compute_baud(frequency);
        self.baud = baud;
        self.frequency = frequency;
        port.transport.write_command(Command::EnableI2c { baud });
    }

    /// Queues an addressed write as one atomic transaction: start with the
    /// write-direction address byte, the payload, then stop. No reply is
    /// expected.
    pub fn send(&self, port: &mut Port, address: u8, data: &[u8])
        ensures
            final(port).transport.out_bytes() == old(port).transport.out_bytes() + i2c_send_frame(
                address,
                data@,
            ),
            final(port).transport.in_bytes() == old(port).transport.in_bytes(),
            final(port).registry == old(port).registry,
    {
        port.transport.write_command(Command::Start(address << 1));
        port.transport.write_command(Command::Tx(data));
        port.transport.write_command(Command::Stop);
        assert(port.transport.out_bytes() =~= old(port).transport.out_bytes() + i2c_send_frame(
            address,
            data@,
        ));
    }

    /// Queues an addressed read request: start with the read-direction
    /// address byte, the receive length, then stop. The reply is consumed
    /// separately, with [`Port::read_reply`] or [`I2cPort::read`].
    pub fn request_read(&self, port: &mut Port, address: u8, read_len: u8)
        ensures
            final(port).transport.out_bytes() == old(port).transport.out_bytes() + i2c_read_frame(
                address,
                read_len,
            ),
            final(port).transport.in_bytes() == old(port).transport.in_bytes(),
            final(port).registry == old(port).registry,
    {
        port.transport.write_command(Command::Start((address << 1) | 1));
        port.transport.write_command(Command::Rx(read_len));
        port.transport.write_command(Command::Stop);
        assert(port.transport.out_bytes() =~= old(port).transport.out_bytes() + i2c_read_frame(
            address,
            read_len,
        ));
    }

    /// Queues an addressed read request and consumes its reply from the
    /// incoming queue: one data-follows tag, then exactly `read_len`
    /// payload bytes, which are returned. A different tag fails with
    /// [`Error::Protocol`]; missing bytes fail with [`Error::Eof`].
    pub fn read(&self, port: &mut Port, address: u8, read_len: u8) -> (r: Result<Vec<u8>, Error>)
        ensures
            final(port).transport.out_bytes() == old(port).transport.out_bytes() + i2c_read_frame(
                address,
                read_len,
            ),
            ({
                let (outcome, rest) = reply_outcome(old(port).transport.in_bytes(), read_len as nat);
                &&& final(port).transport.in_bytes() == rest
                &&& match r {
                    Ok(payload) => outcome == Ok::<Seq<u8>, Error>(payload@),
                    Err(e) => outcome == Err::<Seq<u8>, Error>(e),
                }
            }),
            final(port).registry == old(port).registry,
    {
        self.request_read(port, address, read_len);
        port.transport.read_reply(read_len)
    }

    /// Queues a combined write-then-read transaction: a write-direction
    /// start and the payload, a read-direction start with the receive
    /// length, then stop. The reply is consumed separately.
    pub fn request_transfer(&self, port: &mut Port, address: u8, data: &[u8], read_len: u8)
        ensures
            final(port).transport.out_bytes() == old(port).transport.out_bytes()
                + i2c_transfer_frame(address, data@, read_len),
            final(port).transport.in_bytes() == old(port).transport.in_bytes(),
            final(port).registry == old(port).registry,
    {
        port.transport.write_command(Command::Start(address << 1));
        port.transport.write_command(Command::Tx(data));
        port.transport.write_command(Command::Start((address << 1) | 1));
        port.transport.write_command(Command::Rx(read_len));
        port.transport.write_command(Command::Stop);
        assert(port.transport.out_bytes() =~= old(port).transport.out_bytes() + i2c_transfer_frame(
            address,
            data@,
            read_len,
        ));
    }

    /// Queues a combined write-then-read transaction and consumes its
    /// reply: one data-follows tag, then exactly `read_len` payload bytes,
    /// which are returned. Used for the register-read idiom of the sensor
    /// drivers.
    pub fn transfer(&self, port: &mut Port, address: u8, data: &[u8], read_len: u8) -> (r: Result<
        Vec<u8>,
        Error,
    >)
        ensures
            final(port).transport.out_bytes() == old(port).transport.out_bytes()
                + i2c_transfer_frame(address, data@, read_len),
            ({
                let (outcome, rest) = reply_outcome(old(port).transport.in_bytes(), read_len as nat);
                &&& final(port).transport.in_bytes() == rest
                &&& match r {
                    Ok(payload) => outcome == Ok::<Seq<u8>, Error>(payload@),
                    Err(e) => outcome == Err::<Seq<u8>, Error>(e),
                }
            }),
            final(port).registry == old(port).registry,
    {
        self.request_transfer(port, address, data, read_len);
        port.transport.read_reply(read_len)
    }
}

} // verus!
