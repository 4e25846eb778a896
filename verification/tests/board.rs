use tessel::port::Port;
use tessel::tessel::Tessel;

#[test]
fn ports_are_handed_out_exactly_once() {
    let mut board = Tessel::new();
    let taken = board.ports();
    assert!(taken.is_some());
    // A second taker learns the ports are gone.
    assert!(board.ports().is_none());
    assert!(board.ports().is_none());
    // The ports that came out are usable.
    let (mut port_a, mut port_b) = taken.unwrap();
    assert!(port_a.i2c(100_000).is_ok());
    assert!(port_b.spi(1_000_000).is_ok());
}

#[test]
fn i2c_open_close_reopen_roundtrip() {
    // The end-to-end resource story: opening an I2C bus at the default
    // frequency and closing it again releases both acquired pin indices,
    // shown by reopening the same bus on the same pins.
    let mut port = Port::new();
    let first = port.i2c(100_000).unwrap();
    let busy = port.i2c(100_000);
    assert!(busy.is_err());
    first.close(&mut port);
    let second = port.i2c(100_000);
    assert!(second.is_ok());
    // Each open queued one enable frame; the failed attempt queued
    // nothing.
    assert_eq!(
        port.transport.take_outgoing(),
        vec![0x0C, 234, 0x0C, 234]
    );
}
