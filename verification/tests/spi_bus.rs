use tessel::error::Error;
use tessel::port::Port;
use tessel::spi::SpiPort;

#[test]
fn open_emits_mode_register_divisor() {
    let mut port = Port::new();
    let spi = SpiPort::open(&mut port, 1_000_000).unwrap();
    assert_eq!(spi.frequency(), 1_000_000);
    assert_eq!(port.transport.take_outgoing(), vec![0x0A, 0, 23, 1]);
    assert!(port.registry.is_locked(2));
    assert!(port.registry.is_locked(3));
    assert!(port.registry.is_locked(4));
}

#[test]
fn open_rejects_out_of_range_frequency() {
    let mut port = Port::new();
    let result = SpiPort::open(&mut port, 100);
    assert_eq!(result.err().unwrap(), Error::Configuration);
    // Nothing was locked or written.
    for i in 0..8 {
        assert!(!port.registry.is_locked(i));
    }
    assert_eq!(port.transport.take_outgoing(), Vec::<u8>::new());
}

#[test]
fn spi_open_fails_busy_and_leaves_registry_unchanged() {
    let mut port = Port::new();
    let held = port.pin(3).unwrap();
    let result = SpiPort::open(&mut port, 1_000_000);
    assert_eq!(result.err().unwrap(), Error::PinBusy { index: 3 });
    assert!(!port.registry.is_locked(2));
    assert!(!port.registry.is_locked(4));
    port.release_pin(held);
    assert!(SpiPort::open(&mut port, 1_000_000).is_ok());
}

#[test]
fn send_emits_only_the_payload_frame() {
    let mut port = Port::new();
    let spi = SpiPort::open(&mut port, 1_000_000).unwrap();
    port.transport.take_outgoing();
    spi.send(&mut port, &[1, 2, 3]);
    assert_eq!(port.transport.take_outgoing(), vec![0x10, 3, 1, 2, 3]);
}

#[test]
fn spi_read_emits_request_and_consumes_data_reply() {
    let mut port = Port::new();
    let spi = SpiPort::open(&mut port, 1_000_000).unwrap();
    port.transport.take_outgoing();
    port.transport.feed_incoming(&[0x84, 0x55]);
    let payload = spi.read(&mut port, 1).unwrap();
    assert_eq!(payload, vec![0x55]);
    assert_eq!(port.transport.take_outgoing(), vec![0x11, 1]);
}

#[test]
fn transfer_emits_payload_then_receive() {
    let mut port = Port::new();
    let spi = SpiPort::open(&mut port, 1_000_000).unwrap();
    port.transport.take_outgoing();
    port.transport.feed_incoming(&[0x84, 0x01, 0x02]);
    let payload = spi.transfer(&mut port, &[0xEE], 2).unwrap();
    assert_eq!(payload, vec![0x01, 0x02]);
    assert_eq!(port.transport.take_outgoing(), vec![0x10, 1, 0xEE, 0x11, 2]);
}

#[test]
fn spi_transfer_rejects_a_wrong_reply_tag() {
    let mut port = Port::new();
    let spi = SpiPort::open(&mut port, 1_000_000).unwrap();
    port.transport.take_outgoing();
    port.transport.feed_incoming(&[0x81, 0x01]);
    let result = spi.transfer(&mut port, &[0xEE], 1);
    assert_eq!(
        result.unwrap_err(),
        Error::Protocol { expected: 0x84, found: 0x81 }
    );
}

#[test]
fn set_frequency_validates_and_reenables() {
    let mut port = Port::new();
    let mut spi = SpiPort::open(&mut port, 1_000_000).unwrap();
    port.transport.take_outgoing();
    assert_eq!(spi.set_frequency(&mut port, 200), Err(Error::Configuration));
    assert_eq!(spi.frequency(), 1_000_000);
    assert_eq!(port.transport.take_outgoing(), Vec::<u8>::new());
    assert_eq!(spi.set_frequency(&mut port, 24_000_000), Ok(()));
    assert_eq!(spi.frequency(), 24_000_000);
    assert_eq!(port.transport.take_outgoing(), vec![0x0A, 0, 0, 1]);
}

#[test]
fn closing_releases_all_three_pins() {
    let mut port = Port::new();
    let spi = port.spi(1_000_000).unwrap();
    spi.close(&mut port);
    for i in 2..5 {
        assert!(!port.registry.is_locked(i));
    }
    assert!(port.spi(1_000_000).is_ok());
}

#[test]
fn i2c_and_spi_coexist_on_disjoint_pins() {
    let mut port = Port::new();
    let _i2c = port.i2c(100_000).unwrap();
    let _spi = port.spi(1_000_000).unwrap();
    for i in 0..5 {
        assert!(port.registry.is_locked(i));
    }
    for i in 5..8 {
        assert!(!port.registry.is_locked(i));
    }
}
