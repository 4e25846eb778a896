use tessel::protocol::Command;
use tessel::protocol::encode_command;
use tessel::transport::Transport;

fn check(cmd: Command<'_>, expected: &[u8]) {
    assert_eq!(encode_command(cmd).as_slice(), expected);
    // The transport emits exactly the same frame as one unit.
    let mut t = Transport::new();
    t.write_command(cmd);
    assert_eq!(t.take_outgoing().as_slice(), expected);
}

#[test]
fn encodes_plain_commands() {
    check(Command::Nop, &[0x00]);
    check(Command::Flush, &[0x01]);
    check(Command::DisableSpi, &[0x0B]);
    check(Command::DisableI2c, &[0x0D]);
    check(Command::DisableUart, &[0x0F]);
    check(Command::Stop, &[0x14]);
}

#[test]
fn encodes_gpio_commands() {
    check(Command::GpioIn(3), &[0x03, 3]);
    check(Command::GpioHigh(4), &[0x04, 4]);
    check(Command::GpioLow(5), &[0x05, 5]);
    check(Command::GpioCfg(6), &[0x06, 6]);
    check(Command::GpioWait(7), &[0x07, 7]);
    check(Command::GpioInt(0), &[0x08, 0]);
    check(Command::GpioToggle(1), &[0x15, 1]);
    check(Command::GpioInput(2), &[0x16, 2]);
    check(Command::GpioRawRead(3), &[0x17, 3]);
    check(Command::GpioPull(4), &[0x1A, 4]);
}

#[test]
fn encodes_analog_commands() {
    check(Command::AnalogRead(2), &[0x18, 2]);
    check(Command::AnalogWrite { pin: 7, value: 0xAB }, &[0x19, 7, 0xAB]);
}

#[test]
fn encodes_bus_commands() {
    check(Command::EnableSpi { mode: 0, freq: 23, div: 1 }, &[0x0A, 0, 23, 1]);
    check(Command::EnableI2c { baud: 234 }, &[0x0C, 234]);
    check(Command::EnableUart { baud: 12, mode: 3 }, &[0x0E, 12, 3]);
    check(Command::Start(0x3A), &[0x13, 0x3A]);
    check(Command::Rx(9), &[0x11, 9]);
}

#[test]
fn encodes_pwm_commands() {
    check(
        Command::PwmDutyCycle { pin: 5, duty_cycle: 0x1234 },
        &[0x1B, 5, 0x12, 0x34],
    );
    // The second byte packs the prescalar into the high nibble, combined
    // with the timer id.
    check(
        Command::PwmPeriod { prescalar: 2, tcc_id: 1, period: 0x0506 },
        &[0x1C, 0x21, 0x05, 0x06],
    );
    check(
        Command::PwmPeriod { prescalar: 0, tcc_id: 8, period: 0 },
        &[0x1C, 0x08, 0x00, 0x00],
    );
    check(
        Command::PwmPeriod { prescalar: 0xF, tcc_id: 0xFF, period: 0xFFFF },
        &[0x1C, 0xFF, 0xFF, 0xFF],
    );
}

#[test]
fn encodes_buffer_commands() {
    check(Command::Echo(&[1, 2, 3]), &[0x02, 3, 1, 2, 3]);
    check(Command::TxRx(&[9, 8]), &[0x12, 2, 9, 8]);
    check(Command::Tx(&[0xAA]), &[0x10, 1, 0xAA]);
}

#[test]
fn transmit_of_nothing_emits_nothing() {
    check(Command::Tx(&[]), &[]);
}

#[test]
fn transmit_chunks_long_payloads() {
    // 300 bytes: one full 255-byte chunk, then the remaining 45 bytes,
    // each chunk with its own opcode and length.
    let data: Vec<u8> = (0..300u32).map(|i| (i % 251) as u8).collect();
    let encoded = encode_command(Command::Tx(&data));
    let mut expected: Vec<u8> = Vec::new();
    expected.push(0x10);
    expected.push(255);
    expected.extend_from_slice(&data[..255]);
    expected.push(0x10);
    expected.push(45);
    expected.extend_from_slice(&data[255..]);
    assert_eq!(encoded, expected);
}

#[test]
fn transmit_boundary_single_chunk() {
    let data: Vec<u8> = vec![7; 255];
    let encoded = encode_command(Command::Tx(&data));
    assert_eq!(encoded.len(), 257);
    assert_eq!(encoded[0], 0x10);
    assert_eq!(encoded[1], 255);
    assert_eq!(&encoded[2..], data.as_slice());
}

#[test]
fn frames_are_appended_in_order() {
    let mut t = Transport::new();
    t.write_command(Command::GpioHigh(5));
    t.write_command(Command::GpioLow(6));
    assert_eq!(t.take_outgoing(), vec![0x04, 5, 0x05, 6]);
    // Taking the queue leaves it empty.
    assert_eq!(t.take_outgoing(), Vec::<u8>::new());
}
