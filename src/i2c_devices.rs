//! Devices on the I2C bus and the conversion of their register bytes.
use vstd::prelude::*;

verus! {

/// How the I2C bus is opened.
#[derive(Clone, Copy, Debug, PartialEq, Eq, Structural)]
pub enum I2COpenMode {
    MasterModeStd,
    MasterModeFst,
}

/// The I2C bus. Its transfers are made by the host, which owns the driver.
#[derive(Clone, Copy, Debug)]
pub struct I2C {}

/// A device at an address on the bus.
#[derive(Clone, Copy, Debug)]
pub struct I2CDevice {
    pub i2c: I2C,
    pub dev_addr: u8,
}

impl I2CDevice {
    pub fn create(i2c: &I2C, dev_addr: u8) -> (r: I2CDevice)
        ensures
            r.dev_addr == dev_addr,
    {
        I2CDevice { i2c: *i2c, dev_addr }
    }
}

/// The value of a big-endian 16-bit register.
pub open spec fn be16(input: [u8; 2]) -> int {
    input@[0] * 256 + input@[1]
}

/// A register value type: its width in bytes, and how it is read from the
/// bytes of a register, most significant first.
pub trait Converter: Sized {
    fn size() -> (r: usize)
        ensures
            1 <= r <= 2,
    ;

    fn convert(input: [u8; 2]) -> Self;
}

impl Converter for u16 {
    fn size() -> (r: usize) {
        2
    }

    fn convert(input: [u8; 2]) -> u16 {
        u16_from_be(input)
    }
}

impl Converter for i16 {
    fn size() -> (r: usize) {
        2
    }

    fn convert(input: [u8; 2]) -> i16 {
        i16_from_be(input)
    }
}

impl Converter for u8 {
    fn size() -> (r: usize) {
        1
    }

    fn convert(input: [u8; 2]) -> u8 {
        input[0]
    }
}

impl Converter for i8 {
    fn size() -> (r: usize) {
        1
    }

    fn convert(input: [u8; 2]) -> i8 {
        i8_from_byte(input[0])
    }
}

/// The unsigned value of a 16-bit register.
pub fn u16_from_be(input: [u8; 2]) -> (r: u16)
    ensures
        r == be16(input),
{
    input[0] as u16 * 256 + input[1] as u16
}

/// The two's-complement value of a 16-bit register.
pub fn i16_from_be(input: [u8; 2]) -> (r: i16)
    ensures
        r == (if be16(input) >= 32768 {
            be16(input) - 65536
        } else {
            be16(input)
        }),
{
    let u: u16 = u16_from_be(input);
    if u >= 32768 {
        (u as i32 - 65536) as i16
    } else {
        u as i16
    }
}

/// The two's-complement value of an 8-bit register.
pub fn i8_from_byte(b: u8) -> (r: i8)
    ensures
        r == (if b >= 128 {
            b - 256
        } else {
            b as int
        }),
{
    if b >= 128 {
        (b as i32 - 256) as i8
    } else {
        b as i8
    }
}

} // verus!
