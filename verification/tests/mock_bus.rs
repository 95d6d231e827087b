use adafruit_mpr121::BusReply;
use adafruit_mpr121::BusRequest;
use adafruit_mpr121::Mpr121;
use adafruit_mpr121::Mpr121Error;
use adafruit_mpr121::Mpr121Reset;
use adafruit_mpr121::ResetStep;
use i2cdev::linux::LinuxI2CError;
use i2cdev::mock::MockI2CDevice;

/// Carries out one request on the mock device.
fn perform(dev: &mut MockI2CDevice, request: BusRequest) -> BusReply {
    let failed = |e: std::io::Error| BusReply::Failed(LinuxI2CError::from(e));
    match request {
        BusRequest::WriteByte { register, value } => {
            match i2cdev::core::I2CDevice::smbus_write_byte_data(dev, register, value) {
                Ok(()) => BusReply::Written,
                Err(e) => failed(e),
            }
        }
        BusRequest::ReadByte { register } => match i2cdev::core::I2CDevice::smbus_read_byte_data(dev, register) {
            Ok(value) => BusReply::Byte(value),
            Err(e) => failed(e),
        },
        BusRequest::ReadWord { register } => match i2cdev::core::I2CDevice::smbus_read_word_data(dev, register) {
            Ok(value) => BusReply::Word(value),
            Err(e) => failed(e),
        },
        BusRequest::Sleep { .. } => BusReply::Slept,
    }
}

fn drive(dev: &mut MockI2CDevice, mut reset: Mpr121Reset) -> Result<(), Mpr121Error> {
    loop {
        let reply = perform(dev, reset.request());
        match reset.advance(reply) {
            ResetStep::Continue(next) => reset = next,
            ResetStep::Finished(result) => return result,
        }
    }
}

fn register(dev: &mut MockI2CDevice, address: u8) -> u8 {
    i2cdev::core::I2CDevice::smbus_read_byte_data(dev, address).unwrap()
}

#[test]
fn reset_configures_a_fresh_chip() {
    let mut dev = MockI2CDevice::new();
    dev.regmap.write_regs(0x5D, &[0x24]);
    let sensor = Mpr121::new_default(1);
    drive(&mut dev, sensor.reset()).unwrap();
    assert_eq!(register(&mut dev, 0x80), 0x63);
    for channel in 0u8..12 {
        assert_eq!(register(&mut dev, 0x41 + 2 * channel), 12);
        assert_eq!(register(&mut dev, 0x42 + 2 * channel), 6);
    }
    let filters: [(u8, u8); 11] = [
        (0x2B, 0x01),
        (0x2C, 0x01),
        (0x2D, 0x0E),
        (0x2E, 0x00),
        (0x2F, 0x01),
        (0x30, 0x05),
        (0x31, 0x01),
        (0x32, 0x00),
        (0x33, 0x00),
        (0x34, 0x00),
        (0x35, 0x00),
    ];
    for (address, value) in filters {
        assert_eq!(register(&mut dev, address), value);
    }
    assert_eq!(register(&mut dev, 0x5B), 0x00);
    assert_eq!(register(&mut dev, 0x5C), 0x10);
    assert_eq!(register(&mut dev, 0x5D), 0x20);
    assert_eq!(register(&mut dev, 0x5E), 0x8F);
}

#[test]
fn reset_with_thresholds_configures_a_fresh_chip() {
    let mut dev = MockI2CDevice::new();
    dev.regmap.write_regs(0x5D, &[0x24]);
    drive(&mut dev, Mpr121::new_default(1).reset_with_thresholds(40, 20)).unwrap();
    for channel in 0u8..12 {
        assert_eq!(register(&mut dev, 0x41 + 2 * channel), 40);
        assert_eq!(register(&mut dev, 0x42 + 2 * channel), 20);
    }
    assert_eq!(register(&mut dev, 0x40), 0);
    assert_eq!(register(&mut dev, 0x59), 0);
    assert_eq!(register(&mut dev, 0x5E), 0x8F);
}

#[test]
fn reset_leaves_a_foreign_chip_alone() {
    let mut dev = MockI2CDevice::new();
    let result = drive(&mut dev, Mpr121::new_default(1).reset());
    assert!(matches!(result, Err(Mpr121Error::UnexpectedDeviceState)));
    assert_eq!(register(&mut dev, 0x80), 0x63);
    assert_eq!(register(&mut dev, 0x5E), 0x00);
    for address in 0x2Bu8..=0x5D {
        assert_eq!(register(&mut dev, address), 0, "register {:#04x}", address);
    }
}

#[test]
fn reset_twice_gives_the_same_chip() {
    let mut dev = MockI2CDevice::new();
    dev.regmap.write_regs(0x5D, &[0x24]);
    let sensor = Mpr121::new_default(1);
    drive(&mut dev, sensor.reset_with_thresholds(40, 20)).unwrap();
    // a real chip shows its fresh configuration again after the soft reset
    dev.regmap.write_regs(0x5D, &[0x24]);
    drive(&mut dev, sensor.reset()).unwrap();
    for channel in 0u8..12 {
        assert_eq!(register(&mut dev, 0x41 + 2 * channel), 12);
        assert_eq!(register(&mut dev, 0x42 + 2 * channel), 6);
    }
    assert_eq!(register(&mut dev, 0x5E), 0x8F);
}

#[test]
fn touch_status_reads_the_status_word() {
    let mut dev = MockI2CDevice::new();
    dev.regmap.write_regs(0x00, &[0b1010_1010, 0b0000_1010]);
    let sensor = Mpr121::new_default(1);
    let reply = perform(&mut dev, sensor.touch_status_request());
    let status = sensor.touch_status(reply).unwrap();
    for channel in 0u8..12 {
        assert_eq!(status.touched(channel), channel % 2 == 1);
    }
    assert!(status.was_touched());
}

#[test]
fn touch_status_of_an_idle_chip() {
    let mut dev = MockI2CDevice::new();
    let sensor = Mpr121::new_default(1);
    let reply = perform(&mut dev, sensor.touch_status_request());
    let status = sensor.touch_status(reply).unwrap();
    assert!(!status.was_touched());
}
