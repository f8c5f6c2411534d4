//! A simulated GPIO bank, used where no physical pins are present.
//!
//! Every operation succeeds and has no effect on any hardware; inputs always
//! read high (an idle line held up, so no endstop ever reports a trigger).

use vstd::prelude::*;

verus! {

#[verifier::external_type_specification]
#[verifier::external_body]
pub struct ExGpioError(sysfs_gpio::Error);

/// The result of a GPIO request, with the error type of the sysfs backend.
pub type Result<T> = core::result::Result<T, sysfs_gpio::Error>;

/// The logic level of a digital line.
#[derive(Debug, PartialEq, Eq, Structural, Copy, Clone)]
pub enum Level {
    Low,
    High,
}

/// Handle on the simulated GPIO bank.
#[derive(Clone, Copy)]
pub struct Gpio {}

/// A simulated pin that has not been configured yet.
pub struct Pin;

/// A simulated pin configured as an output.
pub struct OutputPin;

/// A simulated pin configured as an input.
pub struct InputPin;

impl Gpio {
    /// Requests the pin with the given number; always granted.
    pub fn get(&self, _num: u8) -> (r: Result<Pin>)
        ensures
            r is Ok,
    {
        Ok(Pin {})
    }

    /// Opens the simulated bank; always succeeds.
    pub fn new() -> (r: Result<Gpio>)
        ensures
            r is Ok,
    {
        Ok(Gpio {})
    }
}

impl Pin {
    pub fn into_output(&self) -> (r: OutputPin)
        ensures
            r == (OutputPin {}),
    {
        OutputPin {}
    }

    pub fn into_input(&self) -> (r: InputPin)
        ensures
            r == (InputPin {}),
    {
        InputPin {}
    }

    pub fn into_input_pulldown(&self) -> (r: InputPin)
        ensures
            r == (InputPin {}),
    {
        InputPin {}
    }
}

impl OutputPin {
    pub fn set_low(&mut self)
        ensures
            *final(self) == *old(self),
    {
    }

    pub fn set_high(&mut self)
        ensures
            *final(self) == *old(self),
    {
    }

    pub fn set_reset_on_drop(&mut self, _reset: bool)
        ensures
            *final(self) == *old(self),
    {
    }
}

impl InputPin {
    /// Reads the line: a simulated input always reads high.
    pub fn read(&self) -> (r: Level)
        ensures
            r == Level::High,
    {
        Level::High
    }

    pub fn set_reset_on_drop(&mut self, _reset: bool)
        ensures
            *final(self) == *old(self),
    {
    }
}

} // verus!
