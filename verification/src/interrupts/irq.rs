//! The keyboard interrupt: waiting for a new scancode.
use vstd::prelude::*;

verus! {

/// The data port of the PS/2 keyboard controller.
pub const KEYBOARD_DATA_PORT: u16 = 0x60;

/// Waits for a new scancode. The data port is read until it shows a value
/// other than the last one seen; then it is read again, that value becomes
/// the last one seen, and it is the scancode if it is not zero.
pub struct ScancodeReader {
    last: u8,
}

impl ScancodeReader {
    /// The last value seen.
    pub closed spec fn last_seen(&self) -> u8 {
        self.last
    }

    /// A reader that has seen only zero.
    pub fn new() -> (r: ScancodeReader)
        ensures
            r.last_seen() == 0,
    {
        ScancodeReader { last: 0 }
    }

    /// Whether the port, read as `value`, has changed, so that it is read
    /// again.
    pub fn changed(&self, value: u8) -> (r: bool)
        ensures
            r == (value != self.last_seen()),
    {
        value != self.last
    }

    /// Takes the second read `value`: the scancode if it is not zero, else
    /// `None` and the wait goes on.
    pub fn accept(&mut self, value: u8) -> (r: Option<u8>)
        ensures
            final(self).last_seen() == value,
            r == (if value > 0 { Some(value) } else { None::<u8> }),
    {
        self.last = value;
        if value > 0 {
            Some(value)
        } else {
            None
        }
    }
}

} // verus!
