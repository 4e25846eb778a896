//! Driver for the two-channel relay board: plain GPIO latching over two
//! held pins, with the last commanded state remembered per channel.

use vstd::prelude::*;

use crate::error::Error;
use crate::i2c::I2C_SCL_PIN;
use crate::i2c::I2C_SDA_PIN;
use crate::i2c::I2C_DEFAULT_FREQUENCY;
use crate::i2c::I2cPort;
use crate::i2c::i2c_baud_reg;
use crate::i2c::i2c_enable_frame;
use crate::port::Port;
use crate::protocol::Command;
use crate::registry::Pin;
use crate::registry::acquire_set_outcome;
use crate::registry::lemma_acquire_set_outcome_ok;

verus! {

/// The pin indices of the two relay channels.
pub const RELAY_CHANNEL1_PIN: usize = 5;

pub const RELAY_CHANNEL2_PIN: usize = 6;

/// The relay board: two held latch pins and the last state each was
/// driven to. Channels are numbered 1 and 2.
pub struct RelayArray {
    pin1: Pin,
    pin2: Pin,
    state1: bool,
    state2: bool,
}

impl RelayArray {
    /// The driver holds the two channel pins.
    pub closed spec fn wf(&self) -> bool {
        self.pin1.idx() == RELAY_CHANNEL1_PIN && self.pin2.idx() == RELAY_CHANNEL2_PIN
    }

    /// The last state each channel was driven to.
    pub closed spec fn states(&self) -> (bool, bool) {
        (self.state1, self.state2)
    }

    /// The last state each channel was driven to, both channels off at
    /// the start.
    pub fn latch_states(&self) -> (r: (bool, bool))
        ensures
            r == self.states(),
    {
        (self.state1, self.state2)
    }

    /// Claims the two channel pins on `port`. The bus-enable command of
    /// the module port's I2C interface is queued and the bus released
    /// again, leaving only the channel pins held. Fails with
    /// [`Error::PinBusy`] if any needed pin is held, leaving the port
    /// exactly as it was.
    pub fn new(port: &mut Port) -> (r: Result<RelayArray, Error>)
        ensures
            match r {
                Ok(relays) => {
                    &&& relays.wf()
                    &&& relays.states() == (false, false)
                    &&& !old(port).registry.locked_set().contains(RELAY_CHANNEL1_PIN)
                    &&& !old(port).registry.locked_set().contains(RELAY_CHANNEL2_PIN)
                    &&& !old(port).registry.locked_set().contains(I2C_SCL_PIN)
                    &&& !old(port).registry.locked_set().contains(I2C_SDA_PIN)
                    &&& forall|x: usize|
                        final(port).registry.locked_set().contains(x) <==> (old(
                            port,
                        ).registry.locked_set().contains(x) || x == RELAY_CHANNEL1_PIN || x
                            == RELAY_CHANNEL2_PIN)
                    &&& final(port).transport.out_bytes() == old(port).transport.out_bytes()
                        + i2c_enable_frame(i2c_baud_reg(I2C_DEFAULT_FREQUENCY as int) as u8)
                    &&& final(port).transport.in_bytes() == old(port).transport.in_bytes()
                },
                Err(e) => {
                    &&& final(port).registry.locked_set() == old(port).registry.locked_set()
                    &&& final(port).transport == old(port).transport
                    &&& e == (if old(port).registry.locked_set().contains(RELAY_CHANNEL1_PIN) {
                        Error::PinBusy { index: RELAY_CHANNEL1_PIN }
                    } else if old(port).registry.locked_set().contains(RELAY_CHANNEL2_PIN) {
                        Error::PinBusy { index: RELAY_CHANNEL2_PIN }
                    } else if old(port).registry.locked_set().contains(I2C_SCL_PIN) {
                        Error::PinBusy { index: I2C_SCL_PIN }
                    } else {
                        Error::PinBusy { index: I2C_SDA_PIN }
                    })
                    &&& (old(port).registry.locked_set().contains(RELAY_CHANNEL1_PIN) || old(
                        port,
                    ).registry.locked_set().contains(RELAY_CHANNEL2_PIN) || old(
                        port,
                    ).registry.locked_set().contains(I2C_SCL_PIN) || old(
                        port,
                    ).registry.locked_set().contains(I2C_SDA_PIN))
                },
            },
    {
        let mut indices: Vec<usize> = Vec::new();
        indices.push(RELAY_CHANNEL1_PIN);
        indices.push(RELAY_CHANNEL2_PIN);
        let index_slice: &[usize] = indices.as_slice();
        let ghost s = index_slice@;
        proof {
            assert(s =~= seq![RELAY_CHANNEL1_PIN, RELAY_CHANNEL2_PIN]);
        }
        let ghost locked0 = port.registry.locked_set();
        let mut pins = match port.registry.acquire_set(index_slice) {
            Ok(pins) => pins,
            Err(e) => {
                proof {
                    reveal_with_fuel(acquire_set_outcome, 3);
                    assert(s.skip(1) =~= seq![RELAY_CHANNEL2_PIN]);
                    assert(seq![RELAY_CHANNEL2_PIN].skip(1) =~= Seq::<usize>::empty());
                    if !locked0.contains(RELAY_CHANNEL1_PIN) && !locked0.contains(
                        RELAY_CHANNEL2_PIN,
                    ) {
                        lemma_acquire_set_outcome_ok(locked0, s);
                    }
                }
                return Err(e);
            }
        };
        proof {
            assert forall|x: usize| port.registry.locked_set().contains(x) <==> (locked0.contains(
                x,
            ) || x == RELAY_CHANNEL1_PIN || x == RELAY_CHANNEL2_PIN) by {
                // Mention the membership term so the batch-acquire
                // postcondition instantiates at this index.
                assert(s.contains(x) || !s.contains(x));
                assert(s[0] == RELAY_CHANNEL1_PIN && s[1] == RELAY_CHANNEL2_PIN);
                if x == RELAY_CHANNEL1_PIN {
                    assert(s.contains(x)) by {
                        assert(s[0] == x);
                    }
                }
                if x == RELAY_CHANNEL2_PIN {
                    assert(s.contains(x)) by {
                        assert(s[1] == x);
                    }
                }
            }
        }
        let pin2 = pins.pop().unwrap();
        let pin1 = pins.pop().unwrap();
        // The module port hands the relay board an enabled I2C interface
        // even though the latches are plain GPIO; the bus itself is not
        // kept.
        match I2cPort::open(port, I2C_DEFAULT_FREQUENCY) {
            Ok(i2c) => {
                i2c.close(port);
                proof {
                    assert forall|x: usize| port.registry.locked_set().contains(x) <==> (
                    locked0.contains(x) || x == RELAY_CHANNEL1_PIN || x == RELAY_CHANNEL2_PIN) by {
                    }
                }
                Ok(RelayArray { pin1, pin2, state1: false, state2: false })
            }
            Err(e) => {
                port.registry.release(pin1);
                port.registry.release(pin2);
                proof {
                    assert(port.registry.locked_set() =~= locked0);
                }
                Err(e)
            }
        }
    }

    /// Drives both channel pins low, matching the remembered off state.
    pub fn connect(&self, port: &mut Port) -> (r: Result<(), Error>)
        requires
            self.wf(),
        ensures
            r is Ok,
            final(port).transport.out_bytes() == old(port).transport.out_bytes() + Command::GpioLow(
                RELAY_CHANNEL1_PIN as u8,
            ).encoding() + Command::GpioLow(RELAY_CHANNEL2_PIN as u8).encoding(),
            final(port).transport.in_bytes() == old(port).transport.in_bytes(),
            final(port).registry == old(port).registry,
    {
        self.pin1.output(&mut port.transport, false);
        self.pin2.output(&mut port.transport, false);
        Ok(())
    }

    /// Latches channel 1 or 2 to the given state, driving its pin and
    /// remembering the state. Any other channel number fails with
    /// [`Error::PinOutOfRange`] and changes nothing.
    pub fn set_latch(&mut self, port: &mut Port, index: usize, value: bool) -> (r: Result<
        (),
        Error,
    >)
        requires
            old(self).wf(),
        ensures
            final(self).wf(),
            match r {
                Ok(()) => {
                    &&& index == 1 || index == 2
                    &&& final(port).transport.out_bytes() == old(port).transport.out_bytes() + (
                    if value {
                        Command::GpioHigh((if index == 1 {
                            RELAY_CHANNEL1_PIN
                        } else {
                            RELAY_CHANNEL2_PIN
                        }) as u8)
                    } else {
                        Command::GpioLow((if index == 1 {
                            RELAY_CHANNEL1_PIN
                        } else {
                            RELAY_CHANNEL2_PIN
                        }) as u8)
                    }).encoding()
                    &&& final(self).states() == (if index == 1 {
                        (value, old(self).states().1)
                    } else {
                        (old(self).states().0, value)
                    })
                },
                Err(e) => {
                    &&& !(index == 1 || index == 2)
                    &&& e == Error::PinOutOfRange { index }
                    &&& *final(self) == *old(self)
                    &&& final(port).transport == old(port).transport
                },
            },
            final(port).transport.in_bytes() == old(port).transport.in_bytes(),
            final(port).registry == old(port).registry,
    {
        if index == 1 {
            self.pin1.output(&mut port.transport, value);
            self.state1 = value;
            Ok(())
        } else if index == 2 {
            self.pin2.output(&mut port.transport, value);
            self.state2 = value;
            Ok(())
        } else {
            Err(Error::PinOutOfRange { index })
        }
    }
}

} // verus!
