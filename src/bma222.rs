//! The BMA222 accelerometer.
use vstd::prelude::*;
use crate::i2c_devices::{I2C, I2CDevice};

verus! {

pub const BMA222_DEV_ADDR: u8 = 0x18;

pub const BMA222_CHIP_ID_REG: u8 = 0x00;

pub const BMA222_CHIP_ID_VALUE: u8 = 0xf8;

/// First register of the acceleration data: new-data flag and value of each
/// axis in turn.
pub const BMA222_ACC_DATA_X_NEW: u8 = 0x2;

/// A BMA222 found on the bus.
#[derive(Clone, Copy, Debug)]
pub struct BMA222 {
    pub sensor: I2CDevice,
}

impl BMA222 {
    /// The accelerometer at its usual address, if the chip id read from it
    /// (`None` when the read failed) is the BMA222's.
    pub fn default(i2c: &I2C, chip_id: Option<u8>) -> (r: Option<Self>)
        ensures
            r is Some <==> chip_id == Some(BMA222_CHIP_ID_VALUE),
            r matches Some(b) ==> b.sensor.dev_addr == BMA222_DEV_ADDR,
    {
        match chip_id {
            Some(id) => if id == BMA222_CHIP_ID_VALUE {
                Some(BMA222 { sensor: I2CDevice::create(i2c, BMA222_DEV_ADDR) })
            } else {
                None
            },
            None => None,
        }
    }

    /// Whether any axis in the data block (flag and value per axis) has new
    /// data.
    pub fn some_changed(out: [u8; 6]) -> (r: bool)
        ensures
            r == (out@[0] == 1 || out@[2] == 1 || out@[4] == 1),
    {
        out[0] == 1 || out[2] == 1 || out[4] == 1
    }
}

} // verus!
