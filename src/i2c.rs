//! I2C devices, each addressed by a bus device path and a device address.

use vstd::prelude::*;

verus! {

/// A claimed I2C device, open on the native file descriptor it holds.
#[derive(Debug)]
pub struct I2C {
    path: String,
    addr: i32,
    fd: i32,
}

/// Failure of a transfer with an I2C device.
#[derive(Debug, Clone, Copy, PartialEq, Eq, Structural)]
pub enum I2CError {
    Read,
    Write,
}

/// The value read from a native status: the status itself, taken modulo
/// `modulus`, unless it is negative.
pub open spec fn read_outcome(raw: i32, modulus: int) -> Result<int, I2CError> {
    if raw < 0 {
        Err(I2CError::Read)
    } else {
        Ok(raw as int % modulus)
    }
}

/// The outcome of a write from a native status.
pub open spec fn write_outcome(status: i32) -> Result<(), I2CError> {
    if status < 0 {
        Err(I2CError::Write)
    } else {
        Ok(())
    }
}

impl View for I2C {
    type V = (Seq<char>, i32, i32);

    closed spec fn view(&self) -> (Seq<char>, i32, i32) {
        (self.path@, self.addr, self.fd)
    }
}

impl I2C {
    pub(crate) fn new(path: String, addr: i32, fd: i32) -> (r: I2C)
        ensures
            r@ == (path@, addr, fd),
    {
        I2C { path, addr, fd }
    }

    /// Returns the bus device path.
    pub fn path(&self) -> (r: &str)
        ensures
            r@ == self@.0,
    {
        self.path.as_str()
    }

    /// Returns the device address.
    pub fn address(&self) -> (r: i32)
        ensures
            r == self@.1,
    {
        self.addr
    }

    /// Returns the native file descriptor.
    pub fn fd(&self) -> (r: i32)
        ensures
            r == self@.2,
    {
        self.fd
    }

    fn byte_of(raw: i32) -> (r: Result<u8, I2CError>)
        ensures
            r matches Ok(v) ==> read_outcome(raw, 256) == Ok::<int, I2CError>(v as int),
            r matches Err(e) ==> read_outcome(raw, 256) == Err::<int, I2CError>(e),
    {
        if raw < 0 {
            Err(I2CError::Read)
        } else {
            Ok((raw % 256) as u8)
        }
    }

    fn write_of(status: i32) -> (r: Result<(), I2CError>)
        ensures
            r == write_outcome(status),
    {
        if status < 0 {
            Err(I2CError::Write)
        } else {
            Ok(())
        }
    }

    /// One byte read, from the native status of a plain read.
    pub fn read(&self, raw: i32) -> (r: Result<u8, I2CError>)
        ensures
            r matches Ok(v) ==> read_outcome(raw, 256) == Ok::<int, I2CError>(v as int),
            r matches Err(e) ==> read_outcome(raw, 256) == Err::<int, I2CError>(e),
    {
        I2C::byte_of(raw)
    }

    /// One byte read, from the native status of an 8-bit register read.
    pub fn read_reg8(&self, raw: i32) -> (r: Result<u8, I2CError>)
        ensures
            r matches Ok(v) ==> read_outcome(raw, 256) == Ok::<int, I2CError>(v as int),
            r matches Err(e) ==> read_outcome(raw, 256) == Err::<int, I2CError>(e),
    {
        I2C::byte_of(raw)
    }

    /// Two bytes read, from the native status of a 16-bit register read.
    pub fn read_reg16(&self, raw: i32) -> (r: Result<u16, I2CError>)
        ensures
            r matches Ok(v) ==> read_outcome(raw, 65536) == Ok::<int, I2CError>(v as int),
            r matches Err(e) ==> read_outcome(raw, 65536) == Err::<int, I2CError>(e),
    {
        if raw < 0 {
            Err(I2CError::Read)
        } else {
            Ok((raw % 65536) as u16)
        }
    }

    /// The outcome of selecting a register, from the native status.
    pub fn write(&self, status: i32) -> (r: Result<(), I2CError>)
        ensures
            r == write_outcome(status),
    {
        I2C::write_of(status)
    }

    /// The outcome of an 8-bit register write, from the native status.
    pub fn write_reg8(&self, status: i32) -> (r: Result<(), I2CError>)
        ensures
            r == write_outcome(status),
    {
        I2C::write_of(status)
    }

    /// The outcome of a 16-bit register write, from the native status.
    pub fn write_reg16(&self, status: i32) -> (r: Result<(), I2CError>)
        ensures
            r == write_outcome(status),
    {
        I2C::write_of(status)
    }
}

} // verus!
