//! The TMP006 infrared thermopile sensor.
use vstd::prelude::*;
use crate::i2c_devices::{I2C, I2CDevice};

verus! {

pub const TMP006_DEV_ADDR: u8 = 0x41;

pub const TMP006_VOBJECT_REG_ADDR: u8 = 0x00;

pub const TMP006_TAMBIENT_REG_ADDR: u8 = 0x01;

pub const TMP006_MANUFAC_ID_REG_ADDR: u8 = 0xFE;

pub const TMP006_DEVICE_ID_REG_ADDR: u8 = 0xFF;

pub const TMP006_MANUFAC_ID: u16 = 0x5449;

pub const TMP006_DEVICE_ID: u16 = 0x0067;

/// A TMP006 found on the bus.
#[derive(Clone, Copy, Debug)]
pub struct TMP006 {
    pub sensor: I2CDevice,
}

impl TMP006 {
    /// The sensor at its usual address, if the manufacturer and device ids
    /// read from it (`None` where a read failed) are the TMP006's.
    pub fn default(i2c: &I2C, manufac_id: Option<u16>, device_id: Option<u16>) -> (r: Option<
        Self,
    >)
        ensures
            r is Some <==> (manufac_id == Some(TMP006_MANUFAC_ID) && device_id == Some(
                TMP006_DEVICE_ID,
            )),
            r matches Some(t) ==> t.sensor.dev_addr == TMP006_DEV_ADDR,
    {
        let ok = match (manufac_id, device_id) {
            (Some(m), Some(d)) => m == TMP006_MANUFAC_ID && d == TMP006_DEVICE_ID,
            _ => false,
        };
        if ok {
            Some(TMP006 { sensor: I2CDevice::create(i2c, TMP006_DEV_ADDR) })
        } else {
            None
        }
    }
}

} // verus!
