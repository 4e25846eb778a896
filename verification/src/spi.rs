//! The SPI bus adapter: exclusive ownership of the three bus pins, the
//! two-stage clock register/divisor derivation, and addressless framed
//! transfers.

use vstd::prelude::*;

use crate::error::Error;
use crate::port::Port;
use crate::protocol::CMD_ENABLE_SPI;
use crate::protocol::CMD_RX;
use crate::protocol::Command;
use crate::protocol::tx_encoding;
use crate::registry::Pin;
use crate::registry::acquire_set_outcome;
use crate::registry::lemma_acquire_set_outcome_ok;
use crate::transport::reply_outcome;

verus! {

/// The pin index of the SPI clock line.
pub const SPI_SCK_PIN: usize = 2;

/// The pin index of the SPI controller-in data line.
pub const SPI_MISO_PIN: usize = 3;

/// The pin index of the SPI controller-out data line.
pub const SPI_MOSI_PIN: usize = 4;

/// The slowest representable bus frequency: with the largest clock
/// divisor of 255, the coprocessor clock cannot be divided further down.
pub const SPI_MIN_FREQUENCY: u32 = 368;

/// The fastest representable bus frequency: half the coprocessor clock
/// divided by the smallest register value plus one.
pub const SPI_MAX_FREQUENCY: u32 = 24_000_000;

/// The bus frequency used when a caller has no particular preference.
pub const SPI_DEFAULT_FREQUENCY: u32 = 1_000_000;

/// The coprocessor's SPI (register, divisor) pair for a requested bus
/// frequency `f` in hertz. The bus clock follows
/// `f = 48 MHz / (divisor * 2 * (register + 1))`: when
/// `48 MHz / (2 f) - 1` fits one byte the divisor stays 1; otherwise a
/// clock divisor `48 MHz / (512 f)`, at least 1, stretches the range, and
/// the register keeps its low byte. Should even the largest divisor be
/// too small, the divisor pins at 255 and the register falls back to
/// `f / 255`, at least 1.
pub open spec fn spi_baud_pair(f: int) -> (int, int) {
    let reg0 = 48_000_000int / (2 * f) - 1;
    if reg0 <= 255 {
        (reg0, 1)
    } else {
        let div0 = 48_000_000int / (f * 512);
        let div1 = if div0 == 0 {
            1
        } else {
            div0
        };
        if div1 > 255 {
            let reg1 = if f / 255 == 0 {
                1
            } else {
                f / 255
            };
            (reg1 % 256, 255)
        } else {
            (reg0 % 256, div1)
        }
    }
}

/// The frame of a bus-enable command carrying mode, register and divisor.
pub open spec fn spi_enable_frame(reg: u8, div: u8) -> Seq<u8> {
    seq![CMD_ENABLE_SPI, 0, reg, div]
}

/// The frame of a read request: just the receive length, no addressing.
pub open spec fn spi_read_frame(read_len: u8) -> Seq<u8> {
    seq![CMD_RX, read_len]
}

/// The frame of a combined write-then-read transaction.
pub open spec fn spi_transfer_frame(data: Seq<u8>, read_len: u8) -> Seq<u8> {
    tx_encoding(data) + seq![CMD_RX, read_len]
}

/// An open SPI bus: the three bus pins held for the adapter's lifetime
/// and the currently configured frequency and register values.
pub struct SpiPort {
    sck: Pin,
    miso: Pin,
    mosi: Pin,
    reg: u8,
    div: u8,
    frequency: u32,
}

impl SpiPort {
    /// The adapter holds exactly the clock and the two data pins.
    pub closed spec fn wf(&self) -> bool {
        self.sck.idx() == SPI_SCK_PIN && self.miso.idx() == SPI_MISO_PIN && self.mosi.idx()
            == SPI_MOSI_PIN
    }

    /// The configured bus frequency in hertz.
    pub closed spec fn freq(&self) -> u32 {
        self.frequency
    }

    /// The register value configured for the current frequency.
    pub closed spec fn baud_reg(&self) -> u8 {
        self.reg
    }

    /// The clock divisor configured for the current frequency.
    pub closed spec fn divisor(&self) -> u8 {
        self.div
    }

    /// The configured bus frequency in hertz.
    pub fn frequency(&self) -> (r: u32)
        ensures
            r == self.freq(),
    {
        self.frequency
    }

    /// Computes the SPI (register, divisor) pair for the requested
    /// frequency. Frequencies outside the representable range are a
    /// configuration error, not a fault.
    pub fn compute_baud(frequency: u32) -> (r: Result<(u8, u8), Error>)
        ensures
            r is Ok <==> SPI_MIN_FREQUENCY <= frequency <= SPI_MAX_FREQUENCY,
            r is Err ==> r == Err::<(u8, u8), Error>(Error::Configuration),
            r is Ok ==> ({
                let (reg, div) = spi_baud_pair(frequency as int);
                r->Ok_0.0 as int == reg && r->Ok_0.1 as int == div
            }),
    {
        if frequency < SPI_MIN_FREQUENCY || frequency > SPI_MAX_FREQUENCY {
            return Err(Error::Configuration);
        }
        let f: u64 = frequency as u64;
        let q: u64 = 48_000_000 / (2 * f);
        assert(q >= 1) by {
            vstd::arithmetic::div_mod::lemma_div_non_zero(48_000_000, 2 * f as int);
        }
        let reg0: u64 = q - 1;
        if reg0 <= 255 {
            Ok((reg0 as u8, 1))
        } else {
            let div0: u64 = 48_000_000 / (f * 512);
            let div1: u64 = if div0 == 0 {
                1
            } else {
                div0
            };
            if div1 > 255 {
                let reg1: u64 = f / 255;
                let reg2: u64 = if reg1 == 0 {
                    1
                } else {
                    reg1
                };
                Ok(((reg2 % 256) as u8, 255))
            } else {
                Ok(((reg0 % 256) as u8, div1 as u8))
            }
        }
    }

    /// Opens the bus on `port`: checks the requested frequency, acquires
    /// the clock and both data pins as one atomic unit, and queues the
    /// bus-enable command carrying mode, register and divisor. An
    /// out-of-range frequency fails with [`Error::Configuration`] and a
    /// held bus pin with [`Error::PinBusy`]; either failure leaves the
    /// port exactly as it was.
    pub fn open(port: &mut Port, frequency: u32) -> (r: Result<SpiPort, Error>)
        ensures
            match r {
                Ok(spi) => {
                    &&& SPI_MIN_FREQUENCY <= frequency <= SPI_MAX_FREQUENCY
                    &&& !old(port).registry.locked_set().contains(SPI_SCK_PIN)
                    &&& !old(port).registry.locked_set().contains(SPI_MISO_PIN)
                    &&& !old(port).registry.locked_set().contains(SPI_MOSI_PIN)
                    &&& spi.wf()
                    &&& spi.freq() == frequency
                    &&& spi.baud_reg() as int == spi_baud_pair(frequency as int).0
                    &&& spi.divisor() as int == spi_baud_pair(frequency as int).1
                    &&& forall|x: usize|
                        final(port).registry.locked_set().contains(x) <==> (old(
                            port,
                        ).registry.locked_set().contains(x) || x == SPI_SCK_PIN || x
                            == SPI_MISO_PIN || x == SPI_MOSI_PIN)
                    &&& final(port).transport.out_bytes() == old(port).transport.out_bytes()
                        + spi_enable_frame(spi.baud_reg(), spi.divisor())
                    &&& final(port).transport.in_bytes() == old(port).transport.in_bytes()
                },
                Err(e) => {
                    &&& final(port).registry.locked_set() == old(port).registry.locked_set()
                    &&& final(port).transport == old(port).transport
                    &&& !(SPI_MIN_FREQUENCY <= frequency <= SPI_MAX_FREQUENCY) ==> e
                        == Error::Configuration
                    &&& (SPI_MIN_FREQUENCY <= frequency <= SPI_MAX_FREQUENCY) ==> {
                        &&& old(port).registry.locked_set().contains(SPI_SCK_PIN) || old(
                            port,
                        ).registry.locked_set().contains(SPI_MISO_PIN) || old(
                            port,
                        ).registry.locked_set().contains(SPI_MOSI_PIN)
                        &&& e == (if old(port).registry.locked_set().contains(SPI_SCK_PIN) {
                            Error::PinBusy { index: SPI_SCK_PIN }
                        } else if old(port).registry.locked_set().contains(SPI_MISO_PIN) {
                            Error::PinBusy { index: SPI_MISO_PIN }
                        } else {
                            Error::PinBusy { index: SPI_MOSI_PIN }
                        })
                    }
                },
            },
    {
        let (reg, div) = match SpiPort::compute_baud(frequency) {
            Ok(pair) => pair,
            Err(e) => {
                return Err(e);
            }
        };
        let mut indices: Vec<usize> = Vec::new();
        indices.push(SPI_SCK_PIN);
        indices.push(SPI_MISO_PIN);
        indices.push(SPI_MOSI_PIN);
        let index_slice: &[usize] = indices.as_slice();
        let ghost s = index_slice@;
        proof {
            assert(s =~= seq![SPI_SCK_PIN, SPI_MISO_PIN, SPI_MOSI_PIN]);
        }
        let ghost locked0 = port.registry.locked_set();
        match port.registry.acquire_set(index_slice) {
            Ok(mut pins) => {
                proof {
                    assert forall|x: usize| port.registry.locked_set().contains(x) <==> (
                    locked0.contains(x) || x == SPI_SCK_PIN || x == SPI_MISO_PIN || x
                        == SPI_MOSI_PIN) by {
                        // Mention the membership term so the batch-acquire
                        // postcondition instantiates at this index.
                        assert(s.contains(x) || !s.contains(x));
                        assert(s[0] == SPI_SCK_PIN && s[1] == SPI_MISO_PIN && s[2]
                            == SPI_MOSI_PIN);
                        if x == SPI_SCK_PIN {
                            assert(s.contains(x)) by {
                                assert(s[0] == x);
                            }
                        }
                        if x == SPI_MISO_PIN {
                            assert(s.contains(x)) by {
                                assert(s[1] == x);
                            }
                        }
                        if x == SPI_MOSI_PIN {
                            assert(s.contains(x)) by {
                                assert(s[2] == x);
                            }
                        }
                    }
                }
                let mosi = pins.pop().unwrap();
                let miso = pins.pop().unwrap();
                let sck = pins.pop().unwrap();
                port.transport.write_command(Command::EnableSpi { mode: 0, freq: reg, div });
                Ok(SpiPort { sck, miso, mosi, reg, div, frequency })
            }
            Err(e) => {
                proof {
                    reveal_with_fuel(acquire_set_outcome, 4);
                    assert(s.skip(1) =~= seq![SPI_MISO_PIN, SPI_MOSI_PIN]);
                    assert(seq![SPI_MISO_PIN, SPI_MOSI_PIN].skip(1) =~= seq![SPI_MOSI_PIN]);
                    assert(seq![SPI_MOSI_PIN].skip(1) =~= Seq::<usize>::empty());
                    if !locked0.contains(SPI_SCK_PIN) && !locked0.contains(SPI_MISO_PIN)
                        && !locked0.contains(SPI_MOSI_PIN) {
                        lemma_acquire_set_outcome_ok(locked0, s);
                    }
                }
                Err(e)
            }
        }
    }

    /// Closes the bus, releasing all three bus pins so the port can hand
    /// them out again. The transport is left untouched.
    pub fn close(self, port: &mut Port)
        requires
            self.wf(),
        ensures
            forall|x: usize|
                final(port).registry.locked_set().contains(x) <==> (old(
                    port,
                ).registry.locked_set().contains(x) && x != SPI_SCK_PIN && x != SPI_MISO_PIN && x
                    != SPI_MOSI_PIN),
            final(port).transport == old(port).transport,
    {
        let SpiPort { sck, miso, mosi, reg: _, div: _, frequency: _ } = self;
        port.registry.release(sck);
        port.registry.release(miso);
        port.registry.release(mosi);
    }

    /// Recomputes the (register, divisor) pair for the new frequency and
    /// queues a fresh bus-enable command; the bus pins stay held. An
    /// out-of-range frequency fails with [`Error::Configuration`] and
    /// changes nothing.
    pub fn set_frequency(&mut self, port: &mut Port, frequency: u32) -> (r: Result<(), Error>)
        ensures
            r is Ok <==> SPI_MIN_FREQUENCY <= frequency <= SPI_MAX_FREQUENCY,
            final(self).wf() == old(self).wf(),
            final(port).registry == old(port).registry,
            final(port).transport.in_bytes() == old(port).transport.in_bytes(),
            match r {
                Ok(()) => {
                    &&& final(self).freq() == frequency
                    &&& final(self).baud_reg() as int == spi_baud_pair(frequency as int).0
                    &&& final(self).divisor() as int == spi_baud_pair(frequency as int).1
                    &&& final(port).transport.out_bytes() == old(port).transport.out_bytes()
                        + spi_enable_frame(final(self).baud_reg(), final(self).divisor())
                },
                Err(e) => {
                    &&& e == Error::Configuration
                    &&& *final(self) == *old(self)
                    &&& final(port).transport == old(port).transport
                },
            },
    {
        let (reg, div) = match SpiPort::compute_baud(frequency) {
            Ok(pair) => pair,
            Err(e) => {
                return Err(e);
            }
        };
        self.reg = reg;
        self.div = div;
        self.frequency = frequency;
        port.transport.write_command(Command::EnableSpi { mode: 0, freq: reg, div });
        Ok(())
    }

    /// Queues a write as one transaction: just the chunked payload, since
    /// SPI does no on-wire addressing. No reply is expected.
    pub fn send(&self, port: &mut Port, data: &[u8])
        ensures
            final(port).transport.out_bytes() == old(port).transport.out_bytes() + tx_encoding(
                data@,
            ),
            final(port).transport.in_bytes() == old(port).transport.in_bytes(),
            final(port).registry == old(port).registry,
    {
        port.transport.write_command(Command::Tx(data));
    }

    /// Queues a read request for `read_len` bytes. The reply is consumed
    /// separately, with [`crate::transport::Transport::read_reply`] or
    /// [`SpiPort::read`].
    pub fn request_read(&self, port: &mut Port, read_len: u8)
        ensures
            final(port).transport.out_bytes() == old(port).transport.out_bytes() + spi_read_frame(
                read_len,
            ),
            final(port).transport.in_bytes() == old(port).transport.in_bytes(),
            final(port).registry == old(port).registry,
    {
        port.transport.write_command(Command::Rx(read_len));
    }

    /// Queues a read request and consumes its reply: one data-follows
    /// tag, then exactly `read_len` payload bytes, which are returned. A
    /// different tag fails with [`Error::Protocol`]; missing bytes fail
    /// with [`Error::Eof`].
    pub fn read(&self, port: &mut Port, read_len: u8) -> (r: Result<Vec<u8>, Error>)
        ensures
            final(port).transport.out_bytes() == old(port).transport.out_bytes() + spi_read_frame(
                read_len,
            ),
            ({
                let (outcome, rest) = reply_outcome(old(port).transport.in_bytes(), read_len as nat);
                &&& final(port).transport.in_bytes() == rest
                &&& match r {
                    Ok(payload) => outcome == Ok::<Seq<u8>, Error>(payload@),
                    Err(e) => outcome == Err::<Seq<u8>, Error>(e),
                }
            }),
            final(port).registry == old(port).registry,
    {
        self.request_read(port, read_len);
        port.transport.read_reply(read_len)
    }

    /// Queues a combined write-then-read transaction. The reply is
    /// consumed separately.
    pub fn request_transfer(&self, port: &mut Port, data: &[u8], read_len: u8)
        ensures
            final(port).transport.out_bytes() == old(port).transport.out_bytes()
                + spi_transfer_frame(data@, read_len),
            final(port).transport.in_bytes() == old(port).transport.in_bytes(),
            final(port).registry == old(port).registry,
    {
        port.transport.write_command(Command::Tx(data));
        port.transport.write_command(Command::Rx(read_len));
        assert(port.transport.out_bytes() =~= old(port).transport.out_bytes()
            + spi_transfer_frame(data@, read_len));
    }

    /// Queues a combined write-then-read transaction and consumes its
    /// reply: one data-follows tag, then exactly `read_len` payload
    /// bytes, which are returned.
    pub fn transfer(&self, port: &mut Port, data: &[u8], read_len: u8) -> (r: Result<
        Vec<u8>,
        Error,
    >)
        ensures
            final(port).transport.out_bytes() == old(port).transport.out_bytes()
                + spi_transfer_frame(data@, read_len),
            ({
                let (outcome, rest) = reply_outcome(old(port).transport.in_bytes(), read_len as nat);
                &&& final(port).transport.in_bytes() == rest
                &&& match r {
                    Ok(payload) => outcome == Ok::<Seq<u8>, Error>(payload@),
                    Err(e) => outcome == Err::<Seq<u8>, Error>(e),
                }
            }),
            final(port).registry == old(port).registry,
    {
        self.request_transfer(port, data, read_len);
        port.transport.read_reply(read_len)
    }
}

} // verus!
