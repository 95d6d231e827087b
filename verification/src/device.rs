//! The sensor as the driver sees it: where it sits, how a reset is begun and
//! how the touch status is read.

use crate::bus::BusReply;
use crate::bus::BusRequest;
use crate::error::Mpr121Error;
use crate::registers::MPR121_I2CADDR_DEFAULT;
use crate::registers::MPR121_RELEASE_THRESHOLD_DEFAULT;
use crate::registers::MPR121_TOUCH_THRESHOLD_DEFAULT;
use crate::registers::REG_TOUCHSTATUS_L;
use crate::reset::Mpr121Reset;
use crate::status::Mpr121TouchStatus;
use crate::text::append_decimal;
use crate::text::decimal;
use vstd::prelude::*;

verus! {

/// The path of the device file of bus `device_id`.
pub open spec fn device_path_text(device_id: u8) -> Seq<char> {
    "/dev/i2c-"@ + decimal(device_id as nat)
}

/// Manages adafruit MPR121 capacitive sensor HAT I2C device.
///
/// The value says where the sensor sits. It holds no bus handle: whoever
/// opens the bus does so at `device_path()` with address `slave_addr`, sends
/// what the driver asks for and hands back what the bus answered.
#[derive(Debug, Clone, Copy, PartialEq, Eq)]
pub struct Mpr121 {
    /// Number of the I2C bus.
    pub device_id: u8,
    /// Address of the sensor on that bus.
    pub slave_addr: u16,
}

impl Mpr121 {
    /// The sensor at the default I2C address (see `MPR121_I2CADDR_DEFAULT`)
    /// on bus `device_id`.
    pub fn new_default(device_id: u8) -> (sensor: Self)
        ensures
            sensor == (Mpr121 { device_id, slave_addr: 0x5A }),
    {
        Mpr121::new(device_id, MPR121_I2CADDR_DEFAULT)
    }

    /// The sensor at address `slave_addr` on bus `device_id`. Neither is
    /// checked: the bus refuses what it cannot open.
    pub fn new(device_id: u8, slave_addr: u16) -> (sensor: Self)
        ensures
            sensor == (Mpr121 { device_id, slave_addr }),
    {
        Mpr121 { device_id, slave_addr }
    }

    /// The device file through which the sensor's bus is reached.
    pub fn device_path(&self) -> (path: String)
        ensures
            path@ == device_path_text(self.device_id),
    {
        let mut path = String::from_str("/dev/i2c-");
        append_decimal(&mut path, self.device_id);
        path
    }

    /// Begins a reset of the MPR121 into a default state ready to detect
    /// touch inputs, with default thresholds for touch and release.
    pub fn reset(&self) -> (reset: Mpr121Reset)
        ensures
            reset.touch() == 12,
            reset.release() == 6,
            reset.position() == 0,
    {
        self.reset_with_thresholds(
            MPR121_TOUCH_THRESHOLD_DEFAULT,
            MPR121_RELEASE_THRESHOLD_DEFAULT,
        )
    }

    /// Begins a reset of the MPR121 into a default state ready to detect
    /// touch inputs. The reset starts at the first request of its script,
    /// whatever was sent to the chip before.
    pub fn reset_with_thresholds(&self, touch: u8, release: u8) -> (reset: Mpr121Reset)
        ensures
            reset.touch() == touch,
            reset.release() == release,
            reset.position() == 0,
    {
        Mpr121Reset::new(touch, release)
    }

    /// The request that reads the touch status: one word at the status
    /// register.
    pub fn touch_status_request(&self) -> (request: BusRequest)
        ensures
            request == (BusRequest::ReadWord { register: 0x00 }),
    {
        BusRequest::ReadWord { register: REG_TOUCHSTATUS_L }
    }

    /// Makes the touch status of the reply to `touch_status_request()`. In
    /// order to detect if something was really touched, old and new status
    /// must be compared.
    ///
    /// The word read becomes the status as it is. A failed transfer gives the
    /// transport's error, any other reply `UnexpectedReply`.
    pub fn touch_status(&self, reply: BusReply) -> (result: Result<Mpr121TouchStatus, Mpr121Error>)
        ensures
            match reply {
                BusReply::Word(word) => result matches Ok(status) && status@ == word,
                BusReply::Failed(error) => result matches Err(Mpr121Error::Transport(e)) && e
                    == error,
                _ => result matches Err(Mpr121Error::UnexpectedReply),
            },
    {
        match reply {
            BusReply::Word(word) => Ok(Mpr121TouchStatus::new(word)),
            BusReply::Failed(error) => Err(Mpr121Error::Transport(error)),
            _ => Err(Mpr121Error::UnexpectedReply),
        }
    }
}

} // verus!
