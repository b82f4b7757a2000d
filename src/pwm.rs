//! Pulse width modulated pins.

use vstd::prelude::*;

use crate::{native_outcome, WiringXError};

verus! {

/// A claimed pin with its PWM channel enabled.
#[derive(Debug)]
pub struct PwmPin {
    number: i32,
}

/// Polarity of a PWM signal.
#[derive(Debug, Clone, Copy, PartialEq, Eq, Structural)]
pub enum Polarity {
    Normal,
    Inversed,
}

/// The native code of a polarity.
pub open spec fn polarity_code(p: Polarity) -> i32 {
    match p {
        Polarity::Normal => 0,
        Polarity::Inversed => 1,
    }
}

/// The greatest duration, in nanoseconds, that the native library takes.
pub const MAX_NANOS: i64 = 9223372036854775807;

impl Polarity {
    /// The code under which the native library knows this polarity.
    pub fn code(&self) -> (r: i32)
        ensures
            r == polarity_code(*self),
    {
        match self {
            Polarity::Normal => 0,
            Polarity::Inversed => 1,
        }
    }
}

impl View for PwmPin {
    type V = i32;

    closed spec fn view(&self) -> i32 {
        self.number
    }
}

impl PwmPin {
    pub(crate) fn new(number: i32) -> (r: PwmPin)
        ensures
            r@ == number,
    {
        PwmPin { number }
    }

    /// Returns the number of this pin.
    pub fn number(&self) -> (r: i32)
        ensures
            r == self@,
    {
        self.number
    }

    /// A duration of `nanos` nanoseconds as the native library takes it,
    /// held at the greatest value it can take.
    pub fn native_nanos(nanos: u128) -> (r: i64)
        ensures
            0 <= r,
            r == (if nanos <= MAX_NANOS as u128 { nanos as i64 } else { MAX_NANOS }),
    {
        if nanos <= MAX_NANOS as u128 {
            nanos as i64
        } else {
            MAX_NANOS
        }
    }

    /// The outcome of setting the period of a cycle, from the native status.
    pub fn set_pwm_period(&self, status: i32) -> (r: Result<(), WiringXError>)
        ensures
            r == (if status < 0 { Err(WiringXError::Unsupported) } else { Ok(()) }),
    {
        native_outcome(status)
    }

    /// The outcome of setting the duty cycle, from the native status. That the
    /// duty cycle does not exceed the period is left to the caller.
    pub fn set_pwm_duty(&self, status: i32) -> (r: Result<(), WiringXError>)
        ensures
            r == (if status < 0 { Err(WiringXError::Unsupported) } else { Ok(()) }),
    {
        native_outcome(status)
    }

    /// The outcome of setting the polarity, from the native status.
    pub fn set_pwm_polarity(&self, status: i32) -> (r: Result<(), WiringXError>)
        ensures
            r == (if status < 0 { Err(WiringXError::Unsupported) } else { Ok(()) }),
    {
        native_outcome(status)
    }
}

} // verus!
