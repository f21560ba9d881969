//! Activation of the digital audio interface, written on the command itself.
use crate::command::Command;
use crate::field::{clear_bit, frame_of, set_bit, with_bit_clear, with_bit_set};
use crate::register::Register;
use vstd::prelude::*;

verus! {

/// Marker of a command that activates or deactivates the digital audio
/// interface.
#[derive(Debug, PartialEq, Eq)]
pub struct Active;

impl Command<Active> {
    /// The command that holds the power-on content of the active control
    /// register: the interface inactive.
    pub fn new() -> (r: Self)
        ensures
            r@ == Register::ActiveControl.reset_frame_spec(),
            r@ == frame_of(0x9, 0b0_0000_0000),
    {
        Command::from_raw(Register::ActiveControl.reset_frame())
    }

    /// Activates the digital audio interface.
    #[must_use]
    pub fn active(self) -> (r: Command<Active>)
        ensures
            r@ == with_bit_set(self@, 0),
    {
        Command::from_raw(set_bit(self.into_raw(), 0))
    }

    /// Deactivates the digital audio interface.
    #[must_use]
    pub fn inactive(self) -> (r: Command<Active>)
        ensures
            r@ == with_bit_clear(self@, 0),
    {
        Command::from_raw(clear_bit(self.into_raw(), 0))
    }
}

} // verus!
