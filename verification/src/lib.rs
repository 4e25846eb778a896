//! Host-side access to the GPIO/I2C/SPI capabilities of an expansion board
//! driven by a microcontroller coprocessor.
//!
//! The library is organised around a small binary command/reply protocol:
//! typed commands are serialised to exact byte frames, pin indices are
//! guarded by an exclusive-lock registry, and the I2C/SPI bus adapters
//! derive clock-divisor register values and issue framed transactions whose
//! replies are validated tag-first. All byte traffic goes through an
//! in-memory [`transport::Transport`]; moving those bytes over a real
//! stream connection is left to the embedding program.

pub mod accel;
pub mod climate;
pub mod error;
pub mod i2c;
pub mod pin_set;
pub mod port;
pub mod protocol;
pub mod registry;
pub mod relay;
pub mod servo;
pub mod spi;
pub mod tessel;
pub mod transport;
