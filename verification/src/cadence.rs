use vstd::prelude::*;
use crate::config::OK_DELAY;

verus! {

/// The hold time currently in force, in nanoseconds.
///
/// The cell itself is a plain value; a caller that shares it between tasks puts
/// it behind a lock of its own.
#[derive(Debug)]
pub struct LEDDelay {
    delay: u64,
}

impl View for LEDDelay {
    type V = u64;

    closed spec fn view(&self) -> u64 {
        self.delay
    }
}

impl LEDDelay {
    /// A cell that holds the clear-zone hold time.
    pub fn new() -> (d: Self)
        ensures
            d@ == OK_DELAY,
    {
        LEDDelay { delay: OK_DELAY }
    }

    /// Replaces the hold time unconditionally.
    pub fn set(&mut self, value: u64)
        ensures
            final(self)@ == value,
    {
        self.delay = value;
    }

    /// Returns the hold time last stored.
    pub fn get(&self) -> (value: u64)
        ensures
            value == self@,
    {
        self.delay
    }
}

} // verus!
