//! Edge detection on a polled digital input, such as a limit switch or a
//! manual up/down button.

use vstd::prelude::*;
use crate::mock_gpio::Level;

verus! {

/// Interval between two samples of a polled input, in milliseconds.
pub const POLL_INTERVAL_MS: u64 = 30;

/// A level as the value 0 (low) or 1 (high).
pub open spec fn level_bit(l: Level) -> u8 {
    match l {
        Level::Low => 0,
        Level::High => 1,
    }
}

pub fn level_value(l: Level) -> (r: u8)
    ensures
        r == level_bit(l),
{
    match l {
        Level::Low => 0,
        Level::High => 1,
    }
}

/// Remembers the last sampled value of one input and reports each change
/// once.
pub struct InputListener {
    pub last: u8,
}

impl InputListener {
    /// Starts from the input's level when listening begins; that level is
    /// not reported.
    pub fn new(initial: Level) -> (r: InputListener)
        ensures
            r.last == level_bit(initial),
    {
        InputListener { last: level_value(initial) }
    }

    /// Takes one sample. Returns the new value when it differs from the last
    /// sample, and `None` when it does not.
    pub fn sample(&mut self, level: Level) -> (r: Option<u8>)
        ensures
            r == (if level_bit(level) != old(self).last {
                Some(level_bit(level))
            } else {
                None
            }),
            final(self).last == level_bit(level),
    {
        let v = level_value(level);
        if v != self.last {
            self.last = v;
            Some(v)
        } else {
            None
        }
    }
}

} // verus!
