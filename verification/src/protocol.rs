//! The wire protocol spoken with the coprocessor: one opcode byte followed
//! by a fixed-format payload per command, and single-byte reply tags.

use vstd::prelude::*;

verus! {

pub const CMD_NOP: u8 = 0x00;
pub const CMD_FLUSH: u8 = 0x01;
pub const CMD_ECHO: u8 = 0x02;
pub const CMD_GPIO_IN: u8 = 0x03;
pub const CMD_GPIO_HIGH: u8 = 0x04;
pub const CMD_GPIO_LOW: u8 = 0x05;
pub const CMD_GPIO_CFG: u8 = 0x06;
pub const CMD_GPIO_WAIT: u8 = 0x07;
pub const CMD_GPIO_INT: u8 = 0x08;
pub const CMD_ENABLE_SPI: u8 = 0x0A;
pub const CMD_DISABLE_SPI: u8 = 0x0B;
pub const CMD_ENABLE_I2C: u8 = 0x0C;
pub const CMD_DISABLE_I2C: u8 = 0x0D;
pub const CMD_ENABLE_UART: u8 = 0x0E;
pub const CMD_DISABLE_UART: u8 = 0x0F;
pub const CMD_TX: u8 = 0x10;
pub const CMD_RX: u8 = 0x11;
pub const CMD_TXRX: u8 = 0x12;
pub const CMD_START: u8 = 0x13;
pub const CMD_STOP: u8 = 0x14;
pub const CMD_GPIO_TOGGLE: u8 = 0x15;
pub const CMD_GPIO_INPUT: u8 = 0x16;
pub const CMD_GPIO_RAW_READ: u8 = 0x17;
pub const CMD_ANALOG_READ: u8 = 0x18;
pub const CMD_ANALOG_WRITE: u8 = 0x19;
pub const CMD_GPIO_PULL: u8 = 0x1A;
pub const CMD_PWM_DUTY_CYCLE: u8 = 0x1B;
pub const CMD_PWM_PERIOD: u8 = 0x1C;

/// First byte of a synchronous reply packet.
pub const REPLY_ACK: u8 = 0x80;
pub const REPLY_NACK: u8 = 0x81;
pub const REPLY_HIGH: u8 = 0x82;
pub const REPLY_LOW: u8 = 0x83;
pub const REPLY_DATA: u8 = 0x84;

/// Reply tags at or above this value are asynchronous event notifications,
/// delivered outside the synchronous request/reply pairing.
pub const REPLY_MIN_ASYNC: u8 = 0xA0;
/// Asynchronous pin-change notification for pin `n` arrives as `0xC0 + n`.
pub const REPLY_ASYNC_PIN_CHANGE_N: u8 = 0xC0;
/// Asynchronous UART-receive notification.
pub const REPLY_ASYNC_UART_RX: u8 = 0xD0;

/// A reply tag byte read back from the coprocessor.
#[derive(Clone, Copy, Debug, PartialEq, Eq, Structural)]
pub struct Reply(pub u8);

impl Reply {
    /// Whether this tag marks an asynchronous event notification rather
    /// than part of the synchronous request/reply flow.
    pub fn is_async(&self) -> (r: bool)
        ensures
            r == (self.0 >= REPLY_MIN_ASYNC),
    {
        self.0 >= REPLY_MIN_ASYNC
    }
}

/// A typed command, one variant per opcode of the wire table.
#[derive(Clone, Copy, Debug)]
pub enum Command<'a> {
    Nop,
    Flush,

    GpioIn(u8),
    GpioHigh(u8),
    GpioLow(u8),
    GpioToggle(u8),
    GpioWait(u8),
    GpioInt(u8),
    GpioCfg(u8),
    GpioInput(u8),
    GpioRawRead(u8),
    GpioPull(u8),
    AnalogRead(u8),

    AnalogWrite { pin: u8, value: u8 },

    EnableSpi { mode: u8, freq: u8, div: u8 },
    DisableSpi,
    EnableI2c { baud: u8 },
    DisableI2c,
    EnableUart { baud: u8, mode: u8 },
    DisableUart,

    Start(u8),
    Stop,

    PwmDutyCycle { pin: u8, duty_cycle: u16 },
    PwmPeriod { prescalar: u8, tcc_id: u8, period: u16 },

    Rx(u8),
    Echo(&'a [u8]),
    Tx(&'a [u8]),
    TxRx(&'a [u8]),
}

/// Encoding of a transmit command: the payload is cut into chunks of at
/// most 255 bytes, each preceded by the opcode and the chunk length. An
/// empty payload emits nothing.
pub open spec fn tx_encoding(data: Seq<u8>) -> Seq<u8>
    decreases data.len(),
{
    if data.len() == 0 {
        Seq::empty()
    } else if data.len() <= 255 {
        seq![CMD_TX, data.len() as u8] + data
    } else {
        seq![CMD_TX, 255u8] + data.take(255) + tx_encoding(data.skip(255))
    }
}

impl<'a> Command<'a> {
    /// Commands whose single length byte must describe the whole payload
    /// cannot carry more than 255 bytes.
    pub open spec fn wf(self) -> bool {
        match self {
            Command::Echo(data) => data@.len() <= 255,
            Command::TxRx(data) => data@.len() <= 255,
            _ => true,
        }
    }

    /// The exact byte sequence this command puts on the wire: the opcode
    /// byte followed by the payload bytes of the fixed wire table.
    pub open spec fn encoding(self) -> Seq<u8> {
        match self {
            Command::Nop => seq![CMD_NOP],
            Command::Flush => seq![CMD_FLUSH],
            Command::GpioIn(pin) => seq![CMD_GPIO_IN, pin],
            Command::GpioHigh(pin) => seq![CMD_GPIO_HIGH, pin],
            Command::GpioLow(pin) => seq![CMD_GPIO_LOW, pin],
            Command::GpioToggle(pin) => seq![CMD_GPIO_TOGGLE, pin],
            Command::GpioWait(pin) => seq![CMD_GPIO_WAIT, pin],
            Command::GpioInt(pin) => seq![CMD_GPIO_INT, pin],
            Command::GpioCfg(pin) => seq![CMD_GPIO_CFG, pin],
            Command::GpioInput(pin) => seq![CMD_GPIO_INPUT, pin],
            Command::GpioRawRead(pin) => seq![CMD_GPIO_RAW_READ, pin],
            Command::GpioPull(pin) => seq![CMD_GPIO_PULL, pin],
            Command::AnalogRead(pin) => seq![CMD_ANALOG_READ, pin],
            Command::AnalogWrite { pin, value } => seq![CMD_ANALOG_WRITE, pin, value],
            Command::EnableSpi { mode, freq, div } => seq![CMD_ENABLE_SPI, mode, freq, div],
            Command::DisableSpi => seq![CMD_DISABLE_SPI],
            Command::EnableI2c { baud } => seq![CMD_ENABLE_I2C, baud],
            Command::DisableI2c => seq![CMD_DISABLE_I2C],
            Command::EnableUart { baud, mode } => seq![CMD_ENABLE_UART, baud, mode],
            Command::DisableUart => seq![CMD_DISABLE_UART],
            Command::Start(address) => seq![CMD_START, address],
            Command::Stop => seq![CMD_STOP],
            Command::PwmDutyCycle { pin, duty_cycle } => seq![
                CMD_PWM_DUTY_CYCLE,
                pin,
                (duty_cycle >> 8) as u8,
                duty_cycle as u8,
            ],
            Command::PwmPeriod { prescalar, tcc_id, period } => seq![
                CMD_PWM_PERIOD,
                (prescalar << 4) | tcc_id,
                (period >> 8) as u8,
                period as u8,
            ],
            Command::Rx(len) => seq![CMD_RX, len],
            Command::Echo(data) => seq![CMD_ECHO, data@.len() as u8] + data@,
            Command::Tx(data) => tx_encoding(data@),
            Command::TxRx(data) => seq![CMD_TXRX, data@.len() as u8] + data@,
        }
    }
}

/// Appends every byte of `data` to `out`, in order.
pub(crate) fn append_bytes(out: &mut Vec<u8>, data: &[u8])
    ensures
        final(out)@ == old(out)@ + data@,
{
    let mut i: usize = 0;
    while i < data.len()
        invariant
            i <= data@.len(),
            out@ == old(out)@ + data@.take(i as int),
        decreases data@.len() - i,
    {
        out.push(data[i]);
        assert(old(out)@ + data@.take(i + 1 as int) =~= (old(out)@ + data@.take(i as int)).push(
            data@[i as int],
        ));
        i += 1;
    }
    assert(out@ =~= old(out)@ + data@);
}

/// Serialises one command into the exact byte sequence of the wire table.
pub fn encode_command(cmd: Command<'_>) -> (r: Vec<u8>)
    requires
        cmd.wf(),
    ensures
        r@ == cmd.encoding(),
{
    let mut out: Vec<u8> = Vec::new();
    match cmd {
        Command::Nop => {
            out.push(CMD_NOP);
        }
        Command::Flush => {
            out.push(CMD_FLUSH);
        }
        Command::GpioIn(pin) => {
            out.push(CMD_GPIO_IN);
            out.push(pin);
        }
        Command::GpioHigh(pin) => {
            out.push(CMD_GPIO_HIGH);
            out.push(pin);
        }
        Command::GpioLow(pin) => {
            out.push(CMD_GPIO_LOW);
            out.push(pin);
        }
        Command::GpioToggle(pin) => {
            out.push(CMD_GPIO_TOGGLE);
            out.push(pin);
        }
        Command::GpioWait(pin) => {
            out.push(CMD_GPIO_WAIT);
            out.push(pin);
        }
        Command::GpioInt(pin) => {
            out.push(CMD_GPIO_INT);
            out.push(pin);
        }
        Command::GpioCfg(pin) => {
            out.push(CMD_GPIO_CFG);
            out.push(pin);
        }
        Command::GpioInput(pin) => {
            out.push(CMD_GPIO_INPUT);
            out.push(pin);
        }
        Command::GpioRawRead(pin) => {
            out.push(CMD_GPIO_RAW_READ);
            out.push(pin);
        }
        Command::GpioPull(pin) => {
            out.push(CMD_GPIO_PULL);
            out.push(pin);
        }
        Command::AnalogRead(pin) => {
            out.push(CMD_ANALOG_READ);
            out.push(pin);
        }
        Command::AnalogWrite { pin, value } => {
            out.push(CMD_ANALOG_WRITE);
            out.push(pin);
            out.push(value);
        }
        Command::EnableSpi { mode, freq, div } => {
            out.push(CMD_ENABLE_SPI);
            out.push(mode);
            out.push(freq);
            out.push(div);
        }
        Command::DisableSpi => {
            out.push(CMD_DISABLE_SPI);
        }
        Command::EnableI2c { baud } => {
            out.push(CMD_ENABLE_I2C);
            out.push(baud);
        }
        Command::DisableI2c => {
            out.push(CMD_DISABLE_I2C);
        }
        Command::EnableUart { baud, mode } => {
            out.push(CMD_ENABLE_UART);
            out.push(baud);
            out.push(mode);
        }
        Command::DisableUart => {
            out.push(CMD_DISABLE_UART);
        }
        Command::Start(address) => {
            out.push(CMD_START);
            out.push(address);
        }
        Command::Stop => {
            out.push(CMD_STOP);
        }
        Command::PwmDutyCycle { pin, duty_cycle } => {
            out.push(CMD_PWM_DUTY_CYCLE);
            out.push(pin);
            out.push((duty_cycle >> 8) as u8);
            out.push(#[verifier::truncate] (duty_cycle as u8));
        }
        Command::PwmPeriod { prescalar, tcc_id, period } => {
            out.push(CMD_PWM_PERIOD);
            out.push((prescalar << 4) | tcc_id);
            out.push((period >> 8) as u8);
            out.push(#[verifier::truncate] (period as u8));
        }
        Command::Rx(len) => {
            out.push(CMD_RX);
            out.push(len);
        }
        Command::Echo(data) => {
            out.push(CMD_ECHO);
            out.push(data.len() as u8);
            append_bytes(&mut out, data);
        }
        Command::Tx(data) => {
            append_tx(&mut out, data);
        }
        Command::TxRx(data) => {
            out.push(CMD_TXRX);
            out.push(data.len() as u8);
            append_bytes(&mut out, data);
        }
    }
    assert(out@ =~= cmd.encoding());
    out
}

/// Appends the chunked transmit encoding of `data` to `out`.
fn append_tx(out: &mut Vec<u8>, data: &[u8])
    ensures
        final(out)@ == old(out)@ + tx_encoding(data@),
{
    let mut i: usize = 0;
    assert(data@.skip(0) =~= data@);
    while i < data.len()
        invariant
            i <= data@.len(),
            out@ + tx_encoding(data@.skip(i as int)) == old(out)@ + tx_encoding(data@),
        decreases data@.len() - i,
    {
        let ghost rest = data@.skip(i as int);
        let remaining = data.len() - i;
        if remaining > 255 {
            out.push(CMD_TX);
            out.push(255);
            append_bytes(out, &data[i..i + 255]);
            assert(data@.subrange(i as int, i + 255 as int) =~= rest.take(255));
            assert(data@.skip(i + 255 as int) =~= rest.skip(255));
            assert(tx_encoding(rest) == seq![CMD_TX, 255u8] + rest.take(255) + tx_encoding(
                rest.skip(255),
            ));
            i += 255;
        } else {
            out.push(CMD_TX);
            out.push(remaining as u8);
            append_bytes(out, &data[i..data.len()]);
            assert(data@.subrange(i as int, data@.len() as int) =~= rest);
            assert(tx_encoding(rest) == seq![CMD_TX, rest.len() as u8] + rest);
            i = data.len();
            assert(data@.skip(i as int) =~= Seq::<u8>::empty());
        }
    }
    assert(data@.skip(i as int) =~= Seq::<u8>::empty());
    assert(out@ =~= out@ + tx_encoding(data@.skip(i as int)));
}

} // verus!
