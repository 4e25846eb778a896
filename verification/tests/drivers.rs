use tessel::accel::Accelerometer;
use tessel::accel::SampleRate;
use tessel::accel::ScaleRange;
use tessel::climate::Climate;
use tessel::error::Error;
use tessel::port::Port;
use tessel::relay::RelayArray;

/// The combined write-then-read frame of a one-byte register read on the
/// accelerometer.
fn accel_read_frame(reg: u8, len: u8) -> Vec<u8> {
    vec![0x13, 0x3A, 0x10, 1, reg, 0x13, 0x3B, 0x11, len, 0x14]
}

/// The addressed send frame of a register write on the accelerometer.
fn accel_write_frame(reg: u8, value: u8) -> Vec<u8> {
    vec![0x13, 0x3A, 0x10, 2, reg, value, 0x14]
}

#[test]
fn accelerometer_claims_pins_and_enables_the_bus() {
    let mut port = Port::new();
    let _acc = Accelerometer::new(&mut port).unwrap();
    assert_eq!(port.transport.take_outgoing(), vec![0x0C, 234]);
    for i in [0, 1, 5, 6] {
        assert!(port.registry.is_locked(i));
    }
    for i in [2, 3, 4, 7] {
        assert!(!port.registry.is_locked(i));
    }
}

#[test]
fn accelerometer_new_fails_busy_without_partial_locks() {
    let mut port = Port::new();
    let held = port.pin(6).unwrap();
    let result = Accelerometer::new(&mut port);
    assert!(matches!(result, Err(Error::PinBusy { index: 6 })));
    for i in [0, 1, 5] {
        assert!(!port.registry.is_locked(i));
    }
    port.release_pin(held);
    assert!(Accelerometer::new(&mut port).is_ok());
}

#[test]
fn accelerometer_connect_runs_the_documented_register_sequence() {
    let mut port = Port::new();
    let acc = Accelerometer::new(&mut port).unwrap();
    port.transport.take_outgoing();
    // Six register reads answer in order: identity, then the control
    // register around each configuration write.
    let replies: Vec<u8> = vec![
        0x84, 0x2A, // who-am-i
        0x84, 0x01, // scale: enter standby, control register was active
        0x84, 0x00, // scale: leave standby
        0x84, 0x01, // rate: enter standby
        0x84, 0xFF, // rate: read-modify-write sees all bits set
        0x84, 0x00, // rate: leave standby
    ];
    port.transport.feed_incoming(&replies);
    acc.connect(&mut port).unwrap();
    assert_eq!(port.transport.incoming_len(), 0);

    let mut expected: Vec<u8> = Vec::new();
    expected.extend_from_slice(&accel_read_frame(0x0D, 1));
    // Scale range: standby on, range bits, standby off.
    expected.extend_from_slice(&accel_read_frame(0x2A, 1));
    expected.extend_from_slice(&accel_write_frame(0x2A, 0x00));
    expected.extend_from_slice(&accel_write_frame(0x0E, 0b00));
    expected.extend_from_slice(&accel_read_frame(0x2A, 1));
    expected.extend_from_slice(&accel_write_frame(0x2A, 0x01));
    // Sample rate: standby on, rate bits into the cleared field, standby
    // off.
    expected.extend_from_slice(&accel_read_frame(0x2A, 1));
    expected.extend_from_slice(&accel_write_frame(0x2A, 0x00));
    expected.extend_from_slice(&accel_read_frame(0x2A, 1));
    expected.extend_from_slice(&accel_write_frame(0x2A, 0xC7 | (3 << 3)));
    expected.extend_from_slice(&accel_read_frame(0x2A, 1));
    expected.extend_from_slice(&accel_write_frame(0x2A, 0x01));
    assert_eq!(port.transport.take_outgoing(), expected);
}

#[test]
fn accelerometer_connect_rejects_a_wrong_identity() {
    let mut port = Port::new();
    let acc = Accelerometer::new(&mut port).unwrap();
    port.transport.take_outgoing();
    port.transport.feed_incoming(&[0x84, 0x55]);
    let result = acc.connect(&mut port);
    assert_eq!(
        result.unwrap_err(),
        Error::Protocol { expected: 0x2A, found: 0x55 }
    );
}

#[test]
fn accelerometer_configuration_can_be_changed_alone() {
    let mut port = Port::new();
    let acc = Accelerometer::new(&mut port).unwrap();
    port.transport.take_outgoing();
    port.transport.feed_incoming(&[0x84, 0x01, 0x84, 0x00]);
    acc.set_scale_range(&mut port, ScaleRange::Scale8G).unwrap();
    let mut expected: Vec<u8> = Vec::new();
    expected.extend_from_slice(&accel_read_frame(0x2A, 1));
    expected.extend_from_slice(&accel_write_frame(0x2A, 0x00));
    expected.extend_from_slice(&accel_write_frame(0x0E, 0b10));
    expected.extend_from_slice(&accel_read_frame(0x2A, 1));
    expected.extend_from_slice(&accel_write_frame(0x2A, 0x01));
    assert_eq!(port.transport.take_outgoing(), expected);

    port.transport.feed_incoming(&[0x84, 0x00, 0x84, 0x38, 0x84, 0x00]);
    acc.set_sample_rate(&mut port, SampleRate::Rate800).unwrap();
    let mut expected: Vec<u8> = Vec::new();
    expected.extend_from_slice(&accel_read_frame(0x2A, 1));
    expected.extend_from_slice(&accel_write_frame(0x2A, 0x00));
    expected.extend_from_slice(&accel_read_frame(0x2A, 1));
    // 0x38 has exactly the three rate bits set; clearing them and
    // writing rate 0 leaves zero.
    expected.extend_from_slice(&accel_write_frame(0x2A, 0x00));
    expected.extend_from_slice(&accel_read_frame(0x2A, 1));
    expected.extend_from_slice(&accel_write_frame(0x2A, 0x01));
    assert_eq!(port.transport.take_outgoing(), expected);
}

#[test]
fn accelerometer_decodes_signed_axis_values() {
    let mut port = Port::new();
    let acc = Accelerometer::new(&mut port).unwrap();
    port.transport.take_outgoing();
    port.transport.feed_incoming(&[0x84, 0x01, 0x00, 0x80, 0x00, 0xFF, 0xF0]);
    let (x, y, z) = acc.read_acceleration_raw(&mut port).unwrap();
    assert_eq!(x, 16);
    assert_eq!(y, -2048);
    assert_eq!(z, -1);
    assert_eq!(port.transport.take_outgoing(), accel_read_frame(0x01, 6));
}

#[test]
fn climate_connect_checks_the_device_code() {
    let mut port = Port::new();
    let climate = Climate::new(&mut port).unwrap();
    assert_eq!(port.transport.take_outgoing(), vec![0x0C, 234]);
    port.transport.feed_incoming(&[0x84, 0x14, 0, 0, 0, 0, 0]);
    climate.connect(&mut port).unwrap();
    // Both identification command codes travel in one write, then six
    // bytes come back.
    assert_eq!(
        port.transport.take_outgoing(),
        vec![0x13, 0x80, 0x10, 2, 0xFC, 0xC9, 0x13, 0x81, 0x11, 6, 0x14]
    );

    port.transport.feed_incoming(&[0x84, 0x99, 0, 0, 0, 0, 0]);
    let result = climate.connect(&mut port);
    assert_eq!(
        result.unwrap_err(),
        Error::Protocol { expected: 0x14, found: 0x99 }
    );
}

#[test]
fn climate_reads_raw_measurements_big_endian() {
    let mut port = Port::new();
    let climate = Climate::new(&mut port).unwrap();
    port.transport.take_outgoing();
    port.transport.feed_incoming(&[0x84, 0x66, 0x80]);
    assert_eq!(climate.read_temperature_raw(&mut port).unwrap(), 0x6680);
    assert_eq!(
        port.transport.take_outgoing(),
        vec![0x13, 0x80, 0x10, 1, 0xE3, 0x13, 0x81, 0x11, 2, 0x14]
    );
    port.transport.feed_incoming(&[0x84, 0x12, 0x34]);
    assert_eq!(climate.read_humidity_raw(&mut port).unwrap(), 0x1234);
    assert_eq!(
        port.transport.take_outgoing(),
        vec![0x13, 0x80, 0x10, 1, 0xE5, 0x13, 0x81, 0x11, 2, 0x14]
    );
}

#[test]
fn relay_claims_only_its_channel_pins() {
    let mut port = Port::new();
    let relays = RelayArray::new(&mut port).unwrap();
    // The transient bus enable is on the wire, but the bus pins are free
    // again.
    assert_eq!(port.transport.take_outgoing(), vec![0x0C, 234]);
    assert!(port.registry.is_locked(5));
    assert!(port.registry.is_locked(6));
    for i in [0, 1, 2, 3, 4, 7] {
        assert!(!port.registry.is_locked(i));
    }
    assert_eq!(relays.latch_states(), (false, false));
}

#[test]
fn relay_connect_drives_both_channels_low() {
    let mut port = Port::new();
    let relays = RelayArray::new(&mut port).unwrap();
    port.transport.take_outgoing();
    relays.connect(&mut port).unwrap();
    assert_eq!(port.transport.take_outgoing(), vec![0x05, 5, 0x05, 6]);
}

#[test]
fn relay_set_latch_drives_and_remembers() {
    let mut port = Port::new();
    let mut relays = RelayArray::new(&mut port).unwrap();
    port.transport.take_outgoing();
    relays.set_latch(&mut port, 1, true).unwrap();
    assert_eq!(relays.latch_states(), (true, false));
    assert_eq!(port.transport.take_outgoing(), vec![0x04, 5]);
    relays.set_latch(&mut port, 2, true).unwrap();
    assert_eq!(relays.latch_states(), (true, true));
    assert_eq!(port.transport.take_outgoing(), vec![0x04, 6]);
    relays.set_latch(&mut port, 1, false).unwrap();
    assert_eq!(relays.latch_states(), (false, true));
    assert_eq!(port.transport.take_outgoing(), vec![0x05, 5]);
}

#[test]
fn relay_set_latch_rejects_unknown_channels() {
    let mut port = Port::new();
    let mut relays = RelayArray::new(&mut port).unwrap();
    port.transport.take_outgoing();
    let result = relays.set_latch(&mut port, 0, true);
    assert_eq!(result.unwrap_err(), Error::PinOutOfRange { index: 0 });
    let result = relays.set_latch(&mut port, 3, false);
    assert_eq!(result.unwrap_err(), Error::PinOutOfRange { index: 3 });
    assert_eq!(relays.latch_states(), (false, false));
    assert_eq!(port.transport.take_outgoing(), Vec::<u8>::new());
}
