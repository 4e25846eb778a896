//! A port pairs one transport with one pin registry and is the entry point
//! for acquiring pin capabilities and bus adapters.

use vstd::prelude::*;

use crate::error::Error;
use crate::i2c::I2C_SCL_PIN;
use crate::i2c::I2C_SDA_PIN;
use crate::i2c::I2cPort;
use crate::i2c::i2c_baud_reg;
use crate::i2c::i2c_enable_frame;
use crate::registry::Pin;
use crate::registry::PinRegistry;
use crate::registry::acquire_set_outcome;
use crate::spi::SPI_MAX_FREQUENCY;
use crate::spi::SPI_MIN_FREQUENCY;
use crate::spi::SPI_MISO_PIN;
use crate::spi::SPI_MOSI_PIN;
use crate::spi::SPI_SCK_PIN;
use crate::spi::SpiPort;
use crate::spi::spi_baud_pair;
use crate::spi::spi_enable_frame;
use crate::transport::Transport;

verus! {

/// One physical module port: its byte transport and its pin lock table.
/// All traffic of every capability and adapter derived from this port
/// funnels through the one transport.
pub struct Port {
    pub transport: Transport,
    pub registry: PinRegistry,
}

impl Port {
    /// A port with empty transport queues and every pin available.
    pub fn new() -> (r: Port)
        ensures
            r.transport.out_bytes() == Seq::<u8>::empty(),
            r.transport.in_bytes() == Seq::<u8>::empty(),
            r.registry.locked_set() == Set::<usize>::empty(),
    {
        Port { transport: Transport::new(), registry: PinRegistry::new() }
    }

    /// Acquires one pin capability, as [`PinRegistry::acquire`] does.
    pub fn pin(&mut self, index: usize) -> (r: Result<Pin, Error>)
        ensures
            final(self).transport == old(self).transport,
            index >= crate::registry::PIN_COUNT ==> {
                &&& r == Err::<Pin, Error>(Error::PinOutOfRange { index })
                &&& final(self).registry.locked_set() == old(self).registry.locked_set()
            },
            index < crate::registry::PIN_COUNT && old(self).registry.locked_set().contains(index)
                ==> {
                &&& r == Err::<Pin, Error>(Error::PinBusy { index })
                &&& final(self).registry.locked_set() == old(self).registry.locked_set()
            },
            index < crate::registry::PIN_COUNT && !old(self).registry.locked_set().contains(index)
                ==> {
                &&& r is Ok
                &&& r->Ok_0.idx() == index
                &&& final(self).registry.locked_set() == old(self).registry.locked_set().insert(
                    index,
                )
            },
    {
        self.registry.acquire(index)
    }

    /// Acquires an ordered list of pins as one atomic unit, as
    /// [`PinRegistry::acquire_set`] does.
    pub fn pins(&mut self, indices: &[usize]) -> (r: Result<Vec<Pin>, Error>)
        ensures
            final(self).transport == old(self).transport,
            match r {
                Ok(pins) => {
                    &&& acquire_set_outcome(old(self).registry.locked_set(), indices@) == Ok::<
                        Set<usize>,
                        Error,
                    >(final(self).registry.locked_set())
                    &&& pins@.len() == indices@.len()
                    &&& forall|j: int|
                        0 <= j < indices@.len() ==> (#[trigger] pins@[j]).idx() == indices@[j]
                    &&& forall|j: int| 0 <= j < indices@.len() ==> (#[trigger] pins@[j]).wf()
                },
                Err(e) => {
                    &&& acquire_set_outcome(old(self).registry.locked_set(), indices@) == Err::<
                        Set<usize>,
                        Error,
                    >(e)
                    &&& final(self).registry.locked_set() == old(self).registry.locked_set()
                },
            },
    {
        self.registry.acquire_set(indices)
    }

    /// Hands a pin capability back, freeing its index.
    pub fn release_pin(&mut self, pin: Pin)
        ensures
            final(self).transport == old(self).transport,
            final(self).registry.locked_set() == old(self).registry.locked_set().remove(pin.idx()),
    {
        self.registry.release(pin);
    }

    /// Opens an I2C bus adapter on this port, as [`I2cPort::open`] does.
    pub fn i2c(&mut self, frequency: u32) -> (r: Result<I2cPort, Error>)
        requires
            1 <= frequency,
        ensures
            match r {
                Ok(adapter) => {
                    &&& !old(self).registry.locked_set().contains(I2C_SCL_PIN)
                    &&& !old(self).registry.locked_set().contains(I2C_SDA_PIN)
                    &&& adapter.wf()
                    &&& adapter.freq() == frequency
                    &&& adapter.baud_reg() as int == i2c_baud_reg(frequency as int)
                    &&& forall|x: usize|
                        final(self).registry.locked_set().contains(x) <==> (old(
                            self,
                        ).registry.locked_set().contains(x) || x == I2C_SCL_PIN || x
                            == I2C_SDA_PIN)
                    &&& final(self).transport.out_bytes() == old(self).transport.out_bytes()
                        + i2c_enable_frame(adapter.baud_reg())
                    &&& final(self).transport.in_bytes() == old(self).transport.in_bytes()
                },
                Err(e) => {
                    &&& old(self).registry.locked_set().contains(I2C_SCL_PIN) || old(
                        self,
                    ).registry.locked_set().contains(I2C_SDA_PIN)
                    &&& e == (if old(self).registry.locked_set().contains(I2C_SCL_PIN) {
                        Error::PinBusy { index: I2C_SCL_PIN }
                    } else {
                        Error::PinBusy { index: I2C_SDA_PIN }
                    })
                    &&& final(self).registry.locked_set() == old(self).registry.locked_set()
                    &&& final(self).transport == old(self).transport
                },
            },
    {
        I2cPort::open(self, frequency)
    }

    /// Opens an SPI bus adapter on this port, as [`SpiPort::open`] does.
    pub fn spi(&mut self, frequency: u32) -> (r: Result<SpiPort, Error>)
        ensures
            match r {
                Ok(adapter) => {
                    &&& SPI_MIN_FREQUENCY <= frequency <= SPI_MAX_FREQUENCY
                    &&& !old(self).registry.locked_set().contains(SPI_SCK_PIN)
                    &&& !old(self).registry.locked_set().contains(SPI_MISO_PIN)
                    &&& !old(self).registry.locked_set().contains(SPI_MOSI_PIN)
                    &&& adapter.wf()
                    &&& adapter.freq() == frequency
                    &&& adapter.baud_reg() as int == spi_baud_pair(frequency as int).0
                    &&& adapter.divisor() as int == spi_baud_pair(frequency as int).1
                    &&& forall|x: usize|
                        final(self).registry.locked_set().contains(x) <==> (old(
                            self,
                        ).registry.locked_set().contains(x) || x == SPI_SCK_PIN || x
                            == SPI_MISO_PIN || x == SPI_MOSI_PIN)
                    &&& final(self).transport.out_bytes() == old(self).transport.out_bytes()
                        + spi_enable_frame(adapter.baud_reg(), adapter.divisor())
                    &&& final(self).transport.in_bytes() == old(self).transport.in_bytes()
                },
                Err(e) => {
                    &&& final(self).registry.locked_set() == old(self).registry.locked_set()
                    &&& final(self).transport == old(self).transport
                    &&& !(SPI_MIN_FREQUENCY <= frequency <= SPI_MAX_FREQUENCY) ==> e
                        == Error::Configuration
                    &&& (SPI_MIN_FREQUENCY <= frequency <= SPI_MAX_FREQUENCY) ==> {
                        &&& old(self).registry.locked_set().contains(SPI_SCK_PIN) || old(
                            self,
                        ).registry.locked_set().contains(SPI_MISO_PIN) || old(
                            self,
                        ).registry.locked_set().contains(SPI_MOSI_PIN)
                        &&& e == (if old(self).registry.locked_set().contains(SPI_SCK_PIN) {
                            Error::PinBusy { index: SPI_SCK_PIN }
                        } else if old(self).registry.locked_set().contains(SPI_MISO_PIN) {
                            Error::PinBusy { index: SPI_MISO_PIN }
                        } else {
                            Error::PinBusy { index: SPI_MOSI_PIN }
                        })
                    }
                },
            },
    {
        SpiPort::open(self, frequency)
    }

    /// Consumes one synchronous reply from the incoming queue, as
    /// [`Transport::read_reply`] does.
    pub fn read_reply(&mut self, len: u8) -> (r: Result<Vec<u8>, Error>)
        ensures
            final(self).transport.out_bytes() == old(self).transport.out_bytes(),
            final(self).registry == old(self).registry,
            ({
                let (outcome, rest) = crate::transport::reply_outcome(
                    old(self).transport.in_bytes(),
                    len as nat,
                );
                &&& final(self).transport.in_bytes() == rest
                &&& match r {
                    Ok(payload) => outcome == Ok::<Seq<u8>, Error>(payload@),
                    Err(e) => outcome == Err::<Seq<u8>, Error>(e),
                }
            }),
    {
        self.transport.read_reply(len)
    }
}

} // verus!
