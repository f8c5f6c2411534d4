//! Assignment of the controller's functions to GPIO pin numbers.

use vstd::prelude::*;

verus! {

/// Pin numbers of one controller: the motor driver's step, direction,
/// power-relay and two current-limit lines, and the optional endstop and
/// manual up/down inputs.
#[derive(Clone, Copy)]
pub struct GpioConfig {
    pub step: u8,
    pub dir: u8,
    pub power_relay_pin: u8,
    pub pt1: u8,
    pub pt2: u8,
    pub is_up_pin: Option<u8>,
    pub is_down_pin: Option<u8>,
    pub go_up_pin: Option<u8>,
    pub go_down_pin: Option<u8>,
}

} // verus!
