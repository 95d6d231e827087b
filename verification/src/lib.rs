//! Driver core for the MPR121 twelve-channel capacitive touch sensor.
//!
//! The crate holds everything the driver decides: which registers a reset
//! writes and in what order, how the chip's answers are judged, and how the
//! touch status word is read channel by channel. It performs no bus traffic
//! itself. A caller owns the bus handle, carries out each [`BusRequest`] it is
//! handed and reports what came back as a [`BusReply`].

pub mod bus;
pub mod device;
pub mod error;
pub mod registers;
pub mod reset;
pub mod run;
pub mod status;
pub mod text;

pub use bus::BusReply;
pub use bus::BusRequest;
pub use device::Mpr121;
pub use error::Mpr121Error;
pub use registers::MPR121_I2CADDR_DEFAULT;
pub use registers::MPR121_RELEASE_THRESHOLD_DEFAULT;
pub use registers::MPR121_TOUCH_THRESHOLD_DEFAULT;
pub use reset::Mpr121Reset;
pub use reset::ResetStep;
pub use status::Mpr121TouchStatus;
pub use status::Mpr121TouchStatusIterator;
