//! What a driver operation asks of the bus, and what the bus answers.
use crate::types::SensorError;
use vstd::prelude::*;

verus! {

/// Set in the address byte of a register write.
pub const WRITE_FLAG: u8 = 0x80;

/// Number of bytes that a motion burst read returns.
pub const MOTION_BURST_LEN: usize = 12;

/// One step of bus work that a driver operation asks for.
#[derive(Debug, Clone, Copy, PartialEq, Eq, Structural)]
pub enum Command {
    /// Write `value` to `register`: one SPI write of `write_frame(register, value)`.
    Write { register: u8, value: u8 },
    /// Read one byte from `register`: an SPI transaction that writes `[register]`
    /// and then reads one byte.
    Read { register: u8 },
    /// Read a motion burst: an SPI transaction that writes `[register]` and then
    /// reads `MOTION_BURST_LEN` bytes.
    ReadBurst { register: u8 },
    /// Wait for `ms` milliseconds.
    Delay { ms: u32 },
}

/// What the bus gave back for a command.
#[derive(Debug, Clone, Copy, PartialEq, Eq)]
pub enum Reply {
    /// A write went through.
    Written,
    /// A read returned this byte.
    Byte(u8),
    /// A burst read returned these bytes.
    Burst([u8; 12]),
    /// The delay has passed.
    Waited,
    /// The SPI transfer failed with this kind of error.
    Failed(embedded_hal_async::spi::ErrorKind),
}

impl Reply {
    /// Whether this reply is one that `command` can get.
    pub open spec fn answers(self, command: Command) -> bool {
        match self {
            Reply::Written => command is Write,
            Reply::Byte(_) => command is Read,
            Reply::Burst(_) => command is ReadBurst,
            Reply::Waited => command is Delay,
            Reply::Failed(_) => !(command is Delay),
        }
    }
}

/// Where an operation stands after it was started or resumed.
pub enum Progress<M, T> {
    /// The operation goes on: perform the command, then resume the machine with the reply.
    Continue(M, Command),
    /// The operation is over.
    Finish(Result<T, SensorError>),
}

/// The two bytes of an SPI write of `value` to `register`.
pub fn write_frame(register: u8, value: u8) -> (frame: [u8; 2])
    ensures
        frame[0] == register | WRITE_FLAG,
        frame[1] == value,
        frame[0] & 0x80 == 0x80,
        frame[0] & 0x7F == register & 0x7F,
{
    let address = register | WRITE_FLAG;
    assert(address & 0x80 == 0x80 && address & 0x7F == register & 0x7F) by (bit_vector)
        requires
            address == register | 0x80u8,
    ;
    [address, value]
}

} // verus!
