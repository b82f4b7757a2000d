//! Serial (UART) ports: the configuration and its validation, and the port handle.

use vstd::prelude::*;

verus! {

/// Configuration of a serial connection.
#[derive(Clone, Copy, Debug, PartialEq, Eq, Structural)]
pub struct SerialConfig {
    pub baud_rate: u32,
    pub data_bits: u32,
    pub parity: Parity,
    pub stop_bits: u32,
    pub flow_control: FlowControl,
}

/// Parity used for error detection on the line.
#[derive(Debug, PartialEq, Eq, Structural, PartialOrd, Ord, Clone, Copy)]
pub enum Parity {
    /// No parity at all.
    Off,
    /// Even parity.
    Even,
    /// Odd parity.
    Odd,
}

/// Flow control on the line.
#[derive(Debug, PartialEq, Eq, Structural, PartialOrd, Ord, Clone, Copy)]
pub enum FlowControl {
    /// No flow control.
    Off,
    /// Software flow control with the XON and XOFF control characters.
    XOnOff,
}

/// The setting of a configuration that is not supported.
#[derive(Debug, Clone, Copy, PartialEq, Eq, Structural)]
pub enum InvalidUARTConfig {
    BaudRate,
    DataBits,
    StopBits,
}

/// The baud rates that the native library can set.
pub open spec fn valid_baud(b: u32) -> bool {
    b == 50 || b == 75 || b == 110 || b == 134 || b == 150 || b == 200 || b == 300 || b == 600
        || b == 1200 || b == 1800 || b == 2400 || b == 4800 || b == 9600 || b == 19200
        || b == 38400 || b == 57600 || b == 115200 || b == 230400
}

/// The outcome of validating a configuration: the first unsupported setting,
/// in the order baud rate, data bits, stop bits.
pub open spec fn config_check(c: SerialConfig) -> Result<(), InvalidUARTConfig> {
    if !valid_baud(c.baud_rate) {
        Err(InvalidUARTConfig::BaudRate)
    } else if !(c.data_bits == 7 || c.data_bits == 8) {
        Err(InvalidUARTConfig::DataBits)
    } else if !(c.stop_bits == 1 || c.stop_bits == 2) {
        Err(InvalidUARTConfig::StopBits)
    } else {
        Ok(())
    }
}

/// The serial settings in the form the native library takes them: parity and
/// flow control as the character codes `'n'`, `'e'`, `'o'` and `'n'`, `'x'`.
#[derive(Clone, Copy, Debug, PartialEq, Eq, Structural)]
pub struct NativeSerial {
    pub baud: u32,
    pub databits: u32,
    pub parity: u32,
    pub stopbits: u32,
    pub flowcontrol: u32,
}

/// The native character code of a parity setting.
pub open spec fn parity_code(p: Parity) -> u32 {
    match p {
        Parity::Off => 110,
        Parity::Even => 101,
        Parity::Odd => 111,
    }
}

/// The native character code of a flow control setting.
pub open spec fn flow_code(f: FlowControl) -> u32 {
    match f {
        FlowControl::Off => 110,
        FlowControl::XOnOff => 120,
    }
}

impl SerialConfig {
    /// Checks that every setting is one that the native library supports.
    /// The check needs no hardware and changes nothing.
    pub fn check(&self) -> (r: Result<(), InvalidUARTConfig>)
        ensures
            r == config_check(*self),
    {
        let b = self.baud_rate;
        if !(b == 50 || b == 75 || b == 110 || b == 134 || b == 150 || b == 200 || b == 300
            || b == 600 || b == 1200 || b == 1800 || b == 2400 || b == 4800 || b == 9600
            || b == 19200 || b == 38400 || b == 57600 || b == 115200 || b == 230400) {
            return Err(InvalidUARTConfig::BaudRate);
        }
        if !(self.data_bits == 7 || self.data_bits == 8) {
            return Err(InvalidUARTConfig::DataBits);
        }
        if !(self.stop_bits == 1 || self.stop_bits == 2) {
            return Err(InvalidUARTConfig::StopBits);
        }
        Ok(())
    }

    /// The settings as the native library takes them.
    pub fn to_native(&self) -> (r: NativeSerial)
        ensures
            r.baud == self.baud_rate,
            r.databits == self.data_bits,
            r.parity == parity_code(self.parity),
            r.stopbits == self.stop_bits,
            r.flowcontrol == flow_code(self.flow_control),
    {
        let parity: u32 = match self.parity {
            Parity::Odd => 111,
            Parity::Even => 101,
            Parity::Off => 110,
        };
        let flowcontrol: u32 = match self.flow_control {
            FlowControl::XOnOff => 120,
            FlowControl::Off => 110,
        };
        NativeSerial {
            baud: self.baud_rate,
            databits: self.data_bits,
            parity,
            stopbits: self.stop_bits,
            flowcontrol,
        }
    }
}


/// Whether a string holds the NUL character, which no C string can carry.
pub open spec fn has_nul(s: Seq<char>) -> bool {
    exists|i: int| 0 <= i < s.len() && s[i] == '\0'
}

/// Whether `s` holds the NUL character.
pub fn contains_nul(s: &str) -> (r: bool)
    ensures
        r == has_nul(s@),
{
    let n = s.unicode_len();
    let mut i: usize = 0;
    while i < n
        invariant
            n == s@.len(),
            i <= n,
            forall|j: int| 0 <= j < i ==> s@[j] != '\0',
        decreases n - i,
    {
        if s.get_char(i) == '\0' {
            return true;
        }
        i += 1;
    }
    false
}

/// A claimed serial port, open on the native file descriptor it holds.
#[derive(Debug)]
pub struct Uart {
    fd: i32,
    dev: String,
}

impl View for Uart {
    type V = (i32, Seq<char>);

    closed spec fn view(&self) -> (i32, Seq<char>) {
        (self.fd, self.dev@)
    }
}

impl Uart {
    pub(crate) fn new(fd: i32, dev: String) -> (r: Uart)
        ensures
            r@ == (fd, dev@),
    {
        Uart { fd, dev }
    }

    /// Returns the native file descriptor.
    pub fn fd(&self) -> (r: i32)
        ensures
            r == self@.0,
    {
        self.fd
    }

    /// Returns the device path.
    pub fn path(&self) -> (r: &str)
        ensures
            r@ == self@.1,
    {
        self.dev.as_str()
    }

    /// The byte that the native library sends for `c`: its code point,
    /// truncated to eight bits.
    pub fn put_char(&self, c: char) -> (r: u8)
        ensures
            r as int == (c as u32) as int % 256,
    {
        let code = c as u32;
        (code % 256) as u8
    }

    /// Whether `s` can be sent as one string: it must hold no NUL character.
    pub fn put_string(&self, s: &str) -> (r: bool)
        ensures
            r == !has_nul(s@),
    {
        !contains_nul(s)
    }

    /// The number of bytes waiting, from the native count; a negative count,
    /// which reports an error, is taken as none.
    pub fn data_available(&self, raw: i32) -> (r: usize)
        ensures
            r as int == (if raw < 0 { 0 } else { raw as int }),
    {
        if raw < 0 {
            0
        } else {
            raw as usize
        }
    }

    /// The character read, from the native result: a byte read is the
    /// character of that code; anything else, which reports an error, is NUL.
    pub fn read_char(&self, raw: i32) -> (r: char)
        ensures
            0 <= raw < 256 ==> r as u32 == raw as u32,
            !(0 <= raw < 256) ==> r == '\0',
    {
        if 0 <= raw && raw < 256 {
            (raw as u8) as char
        } else {
            '\0'
        }
    }
}

} // verus!
