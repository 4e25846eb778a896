use vstd::prelude::*;

verus! {

/// Everything that can go wrong in the library, kept as one flat taxonomy so
/// that callers can distinguish connection setup failures, stream I/O
/// failures (with the end-of-stream case told apart), protocol-integrity
/// violations, pin-locking conflicts, and bus-frequency configuration
/// mistakes.
#[derive(Clone, Copy, Debug, PartialEq, Eq, Structural)]
pub enum Error {
    /// The stream connection to the coprocessor could not be established.
    Connection,
    /// A read or write on the established stream failed mid-transaction.
    Io,
    /// The incoming stream ended before the expected reply bytes arrived.
    Eof,
    /// A configured read or write deadline elapsed before the transaction
    /// completed. Distinguished from other stream failures so callers can
    /// tell a wedged coprocessor from a broken connection.
    Timeout,
    /// A reply tag did not match the value the issued command calls for.
    Protocol { expected: u8, found: u8 },
    /// The requested pin index is already held by a live capability.
    PinBusy { index: usize },
    /// The requested pin index is outside the valid range.
    PinOutOfRange { index: usize },
    /// The requested bus frequency is outside the representable range.
    Configuration,
}

} // verus!
