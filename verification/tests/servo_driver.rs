use tessel::error::Error;
use tessel::port::Port;
use tessel::servo::ServoArray;

/// The addressed send frame of a register write on the servo controller.
fn servo_write_frame(reg: u8, value: u8) -> Vec<u8> {
    vec![0x13, 0xE6, 0x10, 2, reg, value, 0x14]
}

#[test]
fn servo_claims_its_pins_and_enables_the_bus() {
    let mut port = Port::new();
    let _servos = ServoArray::new(&mut port, false, false).unwrap();
    assert_eq!(port.transport.take_outgoing(), vec![0x0C, 234]);
    for i in [0, 1, 5, 6, 7] {
        assert!(port.registry.is_locked(i));
    }
    for i in [2, 3, 4] {
        assert!(!port.registry.is_locked(i));
    }
}

#[test]
fn servo_new_fails_busy_without_partial_locks() {
    let mut port = Port::new();
    let held = port.pin(7).unwrap();
    let result = ServoArray::new(&mut port, false, false);
    assert!(matches!(result, Err(Error::PinBusy { index: 7 })));
    for i in [0, 1, 5, 6] {
        assert!(!port.registry.is_locked(i));
    }
    port.release_pin(held);
    assert!(ServoArray::new(&mut port, false, false).is_ok());
}

#[test]
fn servo_connect_programs_the_default_frequency() {
    let mut port = Port::new();
    let servos = ServoArray::new(&mut port, false, false).unwrap();
    port.transport.take_outgoing();
    port.transport.feed_incoming(&[0x84, 0x20]);
    servos.connect(&mut port).unwrap();

    let mut expected: Vec<u8> = Vec::new();
    // Output-enable and both address lines go low.
    expected.extend_from_slice(&[0x05, 7, 0x05, 5, 0x05, 6]);
    // Mode register read: combined write-then-read at the device address.
    expected.extend_from_slice(&[0x13, 0xE6, 0x10, 1, 0x00, 0x13, 0xE7, 0x11, 1, 0x14]);
    // Sleep, prescale for 50 Hz (25 MHz / 4096 / 50 - 1 = 121), wake,
    // restart with auto-increment.
    expected.extend_from_slice(&servo_write_frame(0x00, 0x30));
    expected.extend_from_slice(&servo_write_frame(0xFE, 121));
    expected.extend_from_slice(&servo_write_frame(0x00, 0x20));
    expected.extend_from_slice(&servo_write_frame(0x00, 0xA1));
    assert_eq!(port.transport.take_outgoing(), expected);
}

#[test]
fn servo_duty_cycle_writes_the_channel_compare() {
    let mut port = Port::new();
    let servos = ServoArray::new(&mut port, false, false).unwrap();
    port.transport.take_outgoing();
    servos.set_duty_cycle_raw(&mut port, 1, 0x0234).unwrap();
    let mut expected: Vec<u8> = Vec::new();
    expected.extend_from_slice(&servo_write_frame(0x06, 0));
    expected.extend_from_slice(&servo_write_frame(0x07, 0));
    expected.extend_from_slice(&servo_write_frame(0x08, 0x34));
    expected.extend_from_slice(&servo_write_frame(0x09, 0x02));
    assert_eq!(port.transport.take_outgoing(), expected);

    // Channel 2 uses the next register block; oversized compare values
    // clamp to the last counter step.
    servos.set_duty_cycle_raw(&mut port, 2, 0x2000).unwrap();
    let mut expected: Vec<u8> = Vec::new();
    expected.extend_from_slice(&servo_write_frame(0x0A, 0));
    expected.extend_from_slice(&servo_write_frame(0x0B, 0));
    expected.extend_from_slice(&servo_write_frame(0x0C, 0xFF));
    expected.extend_from_slice(&servo_write_frame(0x0D, 0x0F));
    assert_eq!(port.transport.take_outgoing(), expected);
}

#[test]
fn servo_duty_cycle_rejects_unknown_channels() {
    let mut port = Port::new();
    let servos = ServoArray::new(&mut port, false, false).unwrap();
    port.transport.take_outgoing();
    let result = servos.set_duty_cycle_raw(&mut port, 0, 100);
    assert_eq!(result.unwrap_err(), Error::PinOutOfRange { index: 0 });
    let result = servos.set_duty_cycle_raw(&mut port, 17, 100);
    assert_eq!(result.unwrap_err(), Error::PinOutOfRange { index: 17 });
    assert_eq!(port.transport.take_outgoing(), Vec::<u8>::new());
}

#[test]
fn servo_frequency_errors_propagate() {
    let mut port = Port::new();
    let servos = ServoArray::new(&mut port, false, false).unwrap();
    port.transport.take_outgoing();
    // An acknowledge tag instead of the mode byte aborts the sequence
    // after the read request.
    port.transport.feed_incoming(&[0x80]);
    let result = servos.set_module_frequency(&mut port, 50);
    assert_eq!(
        result.unwrap_err(),
        Error::Protocol { expected: 0x84, found: 0x80 }
    );
    assert_eq!(
        port.transport.take_outgoing(),
        vec![0x13, 0xE6, 0x10, 1, 0x00, 0x13, 0xE7, 0x11, 1, 0x14]
    );
}
