//! GPIO pins, typed by their direction.

use vstd::prelude::*;

use crate::WiringXError;

verus! {

/// A claimed GPIO pin whose direction is the type `S`: [`Input`] or [`Output`].
#[derive(Debug)]
pub struct Pin<S> {
    number: i32,
    _mode: std::marker::PhantomData<S>,
}

/// The direction a pin is set to.
#[derive(Debug, Clone, Copy, PartialEq, Eq, Structural)]
pub enum Direction {
    Input,
    Output,
}

/// A direction marker type, mapped to the direction it stands for.
pub trait PinState {
    spec fn spec_direction() -> Direction;

    fn direction() -> (r: Direction)
        ensures
            r == Self::spec_direction(),
    ;
}

/// Marks a pin set to output: it can be written.
#[derive(Debug, Clone, Copy)]
pub struct Output;

/// Marks a pin set to input: it can be read and waited on.
#[derive(Debug, Clone, Copy)]
pub struct Input;

impl PinState for Output {
    open spec fn spec_direction() -> Direction {
        Direction::Output
    }

    fn direction() -> (r: Direction) {
        Direction::Output
    }
}

impl PinState for Input {
    open spec fn spec_direction() -> Direction {
        Direction::Input
    }

    fn direction() -> (r: Direction) {
        Direction::Input
    }
}

/// Digital level of a pin.
#[derive(Debug, Clone, Copy, PartialEq, Eq, Structural, PartialOrd, Ord)]
pub enum Value {
    High,
    Low,
}

/// Returned when waiting for an interrupt timed out.
#[derive(Debug, Clone, Copy, PartialEq, Eq, Structural)]
pub struct InterruptTimeOut;

/// Which edges trigger an interrupt.
#[derive(Debug, Clone, Copy, PartialEq, Eq, Structural, PartialOrd, Ord)]
pub enum IsrMode {
    Unknown,
    Rising,
    Falling,
    Both,
    /// No edge triggers an interrupt.
    Off,
}

/// The native code of an interrupt mode.
pub open spec fn isr_code(m: IsrMode) -> u32 {
    match m {
        IsrMode::Unknown => 0,
        IsrMode::Rising => 2,
        IsrMode::Falling => 4,
        IsrMode::Both => 8,
        IsrMode::Off => 16,
    }
}

/// The native code of a level: 1 for high, 0 for low.
pub open spec fn level_code(v: Value) -> i32 {
    match v {
        Value::High => 1,
        Value::Low => 0,
    }
}

/// The greatest wait, in milliseconds, that the native library takes.
pub const MAX_WAIT_MS: i32 = 2147483647;

impl IsrMode {
    /// The code under which the native library knows this mode.
    pub fn code(&self) -> (r: u32)
        ensures
            r == isr_code(*self),
    {
        match self {
            IsrMode::Unknown => 0,
            IsrMode::Rising => 2,
            IsrMode::Falling => 4,
            IsrMode::Both => 8,
            IsrMode::Off => 16,
        }
    }
}

impl<S> View for Pin<S> {
    type V = i32;

    closed spec fn view(&self) -> i32 {
        self.number
    }
}

impl<S> Pin<S> {
    pub(crate) fn new(number: i32) -> (r: Pin<S>)
        ensures
            r@ == number,
    {
        Pin { number, _mode: std::marker::PhantomData }
    }

    /// Returns the number of this pin.
    pub fn number(&self) -> (r: i32)
        ensures
            r == self@,
    {
        self.number
    }
}

impl Pin<Output> {
    /// Returns the native level code that writes `value` to this pin.
    pub fn write(&self, value: Value) -> (r: i32)
        ensures
            r == level_code(value),
    {
        match value {
            Value::High => 1,
            Value::Low => 0,
        }
    }
}

impl Pin<Input> {
    /// Reads the level from what the native read returned: 1 is high, anything else low.
    pub fn read(&self, raw: i32) -> (r: Value)
        ensures
            r == (if raw == 1 { Value::High } else { Value::Low }),
    {
        if raw == 1 {
            Value::High
        } else {
            Value::Low
        }
    }

    /// The outcome of setting the interrupt mode, from the native status:
    /// a negative status means the pin does not support the mode.
    pub fn set_isr_mode(&self, status: i32) -> (r: Result<(), WiringXError>)
        ensures
            r == (if status < 0 { Err(WiringXError::Unsupported) } else { Ok(()) }),
    {
        if status < 0 {
            Err(WiringXError::Unsupported)
        } else {
            Ok(())
        }
    }

    /// The wait, in milliseconds, to hand the native library for a timeout of
    /// `millis`: never longer than asked for, and never negative, which the
    /// native library would take as no timeout at all.
    pub fn wait_millis(millis: u128) -> (r: i32)
        ensures
            0 <= r,
            r as u128 <= millis,
            r == (if millis <= MAX_WAIT_MS as u128 { millis as i32 } else { MAX_WAIT_MS }),
    {
        if millis <= MAX_WAIT_MS as u128 {
            millis as i32
        } else {
            MAX_WAIT_MS
        }
    }

    /// The outcome of waiting for an interrupt, from the native status: an
    /// interrupt occurred if it is positive, else the wait timed out.
    pub fn wait_for_interrupt(&self, status: i32) -> (r: Result<(), InterruptTimeOut>)
        ensures
            r == (if status < 1 { Err(InterruptTimeOut) } else { Ok(()) }),
    {
        if status < 1 {
            Err(InterruptTimeOut)
        } else {
            Ok(())
        }
    }
}

} // verus!
