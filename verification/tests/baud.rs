use tessel::error::Error;
use tessel::i2c::I2cPort;
use tessel::spi::SpiPort;

#[test]
fn i2c_baud_at_default_frequency() {
    // (48 MHz / 100 kHz - 48 MHz * 15 ns) / 2 - 5 = 234.64, rounded down.
    assert_eq!(I2cPort::compute_baud(100_000), 234);
}

#[test]
fn i2c_baud_at_one_megahertz() {
    // (48 - 0.72) / 2 - 5 = 18.64, rounded down.
    assert_eq!(I2cPort::compute_baud(1_000_000), 18);
}

#[test]
fn i2c_baud_clamps_low_frequencies_to_max() {
    // At 1 kHz the raw derivation is far above one byte.
    assert_eq!(I2cPort::compute_baud(1_000), 255);
    assert_eq!(I2cPort::compute_baud(1), 255);
}

#[test]
fn i2c_baud_clamps_negative_derivations_to_zero() {
    // Above roughly 4.36 MHz the raw formula goes negative.
    assert_eq!(I2cPort::compute_baud(48_000_000), 0);
    assert_eq!(I2cPort::compute_baud(4_000_000), 0);
    assert_eq!(I2cPort::compute_baud(u32::MAX), 0);
}

#[test]
fn spi_baud_rejects_out_of_range_frequencies() {
    assert_eq!(SpiPort::compute_baud(367), Err(Error::Configuration));
    assert_eq!(SpiPort::compute_baud(1), Err(Error::Configuration));
    assert_eq!(SpiPort::compute_baud(24_000_001), Err(Error::Configuration));
    assert_eq!(SpiPort::compute_baud(u32::MAX), Err(Error::Configuration));
}

#[test]
fn spi_baud_at_one_megahertz() {
    // 48 MHz / (2 * 1 MHz) - 1 = 23, no clock divisor needed.
    assert_eq!(SpiPort::compute_baud(1_000_000), Ok((23, 1)));
}

#[test]
fn spi_baud_at_the_boundaries() {
    // The fastest clock: register 0, divisor 1.
    assert_eq!(SpiPort::compute_baud(24_000_000), Ok((0, 1)));
    // The slowest clock without a divisor.
    assert_eq!(SpiPort::compute_baud(93_750), Ok((255, 1)));
    // The slowest accepted clock: the divisor takes over; the register
    // keeps the low byte of the raw derivation.
    assert_eq!(SpiPort::compute_baud(368), Ok((192, 254)));
}

#[test]
fn spi_baud_uses_divisor_below_single_byte_range() {
    // Just past the single-byte register range the raw register wraps
    // and the divisor becomes 1.
    assert_eq!(SpiPort::compute_baud(93_384), Ok((0, 1)));
    // Well into divisor territory: the raw register 2399 keeps its low
    // byte, and the divisor is 48 MHz / (10 kHz * 512).
    assert_eq!(SpiPort::compute_baud(10_000), Ok((95, 9)));
}
