//! What the driver asks of the bus, and what the bus answers.
//!
//! The driver never touches the bus. It hands out one [`BusRequest`] at a
//! time; whoever owns the bus handle performs it and reports the result as a
//! [`BusReply`].

use vstd::prelude::*;

verus! {

/// The error type of `i2cdev`'s Linux devices. The driver carries such a value
/// from a failed transfer to its own result and never looks inside.
#[verifier::external_type_specification]
#[verifier::external_body]
pub struct ExLinuxI2CError(i2cdev::linux::LinuxI2CError);

/// One operation for the bus to perform.
#[derive(Debug, Clone, Copy, PartialEq, Eq)]
pub enum BusRequest {
    /// Write one byte to a register.
    WriteByte { register: u8, value: u8 },
    /// Read one byte from a register.
    ReadByte { register: u8 },
    /// Read a 16-bit word from a register, low byte first.
    ReadWord { register: u8 },
    /// Block for at least this many milliseconds before anything else is
    /// sent.
    Sleep { millis: u64 },
}

/// What came of one operation.
#[derive(Debug)]
pub enum BusReply {
    /// The byte was written.
    Written,
    /// The byte that was read.
    Byte(u8),
    /// The word that was read.
    Word(u16),
    /// The time asked for has passed.
    Slept,
    /// The transfer failed.
    Failed(i2cdev::linux::LinuxI2CError),
}

impl BusReply {
    /// Whether this reply reports success and is of the kind that `request`
    /// calls for.
    pub open spec fn answers(self, request: BusRequest) -> bool {
        match self {
            BusReply::Written => request is WriteByte,
            BusReply::Byte(_) => request is ReadByte,
            BusReply::Word(_) => request is ReadWord,
            BusReply::Slept => request is Sleep,
            BusReply::Failed(_) => false,
        }
    }
}

} // verus!
