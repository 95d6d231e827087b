//! The driver's error type.

use vstd::prelude::*;

verus! {

/// Why a reset or a status read did not go through.
#[derive(Debug)]
pub enum Mpr121Error {
    /// A transfer on the bus failed. The transport's own error is kept as it
    /// came.
    Transport(i2cdev::linux::LinuxI2CError),
    /// After the soft reset the chip did not show the configuration of a
    /// freshly reset MPR121: another device answers at this address, or none
    /// that works.
    UnexpectedDeviceState,
    /// The reply handed in is not of the kind that the pending request calls
    /// for.
    UnexpectedReply,
}

} // verus!
