use tessel::error::Error;
use tessel::i2c::I2cPort;
use tessel::port::Port;

#[test]
fn open_emits_the_enable_frame() {
    let mut port = Port::new();
    let i2c = I2cPort::open(&mut port, 100_000).unwrap();
    assert_eq!(i2c.frequency(), 100_000);
    assert_eq!(port.transport.take_outgoing(), vec![0x0C, 234]);
}

#[test]
fn open_fails_busy_and_leaves_registry_unchanged() {
    let mut port = Port::new();
    let held = port.pin(0).unwrap();
    let result = I2cPort::open(&mut port, 100_000);
    assert_eq!(result.err().unwrap(), Error::PinBusy { index: 0 });
    // No partial lock was retained and nothing was written.
    assert!(!port.registry.is_locked(1));
    assert!(port.registry.is_locked(0));
    assert_eq!(port.transport.take_outgoing(), Vec::<u8>::new());
    // After releasing the conflicting pin the bus opens.
    port.release_pin(held);
    assert!(I2cPort::open(&mut port, 100_000).is_ok());
}

#[test]
fn send_emits_start_payload_stop() {
    let mut port = Port::new();
    let i2c = I2cPort::open(&mut port, 100_000).unwrap();
    port.transport.take_outgoing();
    i2c.send(&mut port, 0x1D, &[0x0D, 0x42]);
    assert_eq!(
        port.transport.take_outgoing(),
        vec![0x13, 0x3A, 0x10, 2, 0x0D, 0x42, 0x14]
    );
}

#[test]
fn read_emits_request_and_consumes_data_reply() {
    let mut port = Port::new();
    let i2c = I2cPort::open(&mut port, 100_000).unwrap();
    port.transport.take_outgoing();
    port.transport.feed_incoming(&[0x84, 0xAB, 0xCD]);
    let payload = i2c.read(&mut port, 0x1D, 2).unwrap();
    assert_eq!(payload, vec![0xAB, 0xCD]);
    // Start carries the read-direction address byte.
    assert_eq!(
        port.transport.take_outgoing(),
        vec![0x13, 0x3B, 0x11, 2, 0x14]
    );
}

#[test]
fn transfer_emits_the_documented_sequence() {
    let mut port = Port::new();
    let i2c = I2cPort::open(&mut port, 100_000).unwrap();
    port.transport.take_outgoing();
    port.transport.feed_incoming(&[0x84, 0x2A]);
    let payload = i2c.transfer(&mut port, 0x1D, &[0x0D], 1).unwrap();
    assert_eq!(payload, vec![0x2A]);
    // start(0x3A), transmit([0x0D]), start(0x3B), receive(1), stop.
    assert_eq!(
        port.transport.take_outgoing(),
        vec![0x13, 0x3A, 0x10, 1, 0x0D, 0x13, 0x3B, 0x11, 1, 0x14]
    );
}

#[test]
fn transfer_rejects_a_wrong_reply_tag() {
    let mut port = Port::new();
    let i2c = I2cPort::open(&mut port, 100_000).unwrap();
    port.transport.take_outgoing();
    // An acknowledge tag where data must follow is a protocol error, not
    // garbage data.
    port.transport.feed_incoming(&[0x80, 0x2A]);
    let result = i2c.transfer(&mut port, 0x1D, &[0x0D], 1);
    assert_eq!(
        result.unwrap_err(),
        Error::Protocol { expected: 0x84, found: 0x80 }
    );
}

#[test]
fn transfer_reports_eof_on_missing_reply() {
    let mut port = Port::new();
    let i2c = I2cPort::open(&mut port, 100_000).unwrap();
    port.transport.take_outgoing();
    let result = i2c.transfer(&mut port, 0x1D, &[0x0D], 1);
    assert_eq!(result.unwrap_err(), Error::Eof);
    // A data tag with too few payload bytes behind it is cut short too.
    port.transport.feed_incoming(&[0x84]);
    let result = i2c.read(&mut port, 0x1D, 4);
    assert_eq!(result.unwrap_err(), Error::Eof);
}

#[test]
fn set_frequency_reenables_without_touching_pins() {
    let mut port = Port::new();
    let mut i2c = I2cPort::open(&mut port, 100_000).unwrap();
    port.transport.take_outgoing();
    i2c.set_frequency(&mut port, 1_000_000);
    assert_eq!(i2c.frequency(), 1_000_000);
    assert_eq!(port.transport.take_outgoing(), vec![0x0C, 18]);
    assert!(port.registry.is_locked(0));
    assert!(port.registry.is_locked(1));
}

#[test]
fn closing_releases_both_pins_for_reopening() {
    let mut port = Port::new();
    // Opening at the default frequency, closing, and reopening on the
    // same pins succeeds, so closing released both indices.
    let i2c = port.i2c(100_000).unwrap();
    assert!(port.registry.is_locked(0));
    assert!(port.registry.is_locked(1));
    i2c.close(&mut port);
    assert!(!port.registry.is_locked(0));
    assert!(!port.registry.is_locked(1));
    let again = port.i2c(100_000);
    assert!(again.is_ok());
}
