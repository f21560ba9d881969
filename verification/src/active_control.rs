//! Activation of the digital audio interface.
use crate::command::Command;
use crate::field::{
    address_of, clear_bit, frame_of, lemma_bit_keeps_address, set_bit, with_bit_clear,
    with_bit_set,
};
use crate::register::Register;
use vstd::prelude::*;

verus! {

/// Active control builder.
#[derive(Debug, PartialEq, Eq)]
pub struct ActiveControl {
    data: u16,
}

impl Copy for ActiveControl {}

impl Clone for ActiveControl {
    fn clone(&self) -> (r: Self)
        ensures
            r == *self,
    {
        *self
    }
}

impl View for ActiveControl {
    type V = u16;

    /// The frame built so far: address in bits 15 to 9, payload in bits 8 to 0.
    closed spec fn view(&self) -> u16 {
        self.data
    }
}

/// Instantiates a builder for the active control.
pub fn active_control() -> (r: ActiveControl)
    ensures
        r@ == Register::ActiveControl.reset_frame_spec(),
        r@ == frame_of(0x9, 0b0_0000_0000),
{
    ActiveControl::new()
}

impl ActiveControl {
    /// The frame always names the register that the builder was made for.
    #[verifier::type_invariant]
    spec fn addressed(self) -> bool {
        address_of(self.data) == 0x9
    }

    /// Sets the bit at `pos`.
    fn raise(self, pos: u16) -> (r: Self)
        requires
            pos < 9,
        ensures
            r@ == with_bit_set(self@, pos),
    {
        proof {
            use_type_invariant(self);
            lemma_bit_keeps_address(self.data, pos);
        }
        let data = set_bit(self.data, pos);
        ActiveControl { data }
    }

    /// Clears the bit at `pos`.
    fn lower(self, pos: u16) -> (r: Self)
        requires
            pos < 9,
        ensures
            r@ == with_bit_clear(self@, pos),
    {
        proof {
            use_type_invariant(self);
            lemma_bit_keeps_address(self.data, pos);
        }
        let data = clear_bit(self.data, pos);
        ActiveControl { data }
    }

    /// A builder that holds the register's power-on content.
    fn new() -> (r: Self)
        ensures
            r@ == Register::ActiveControl.reset_frame_spec(),
            r@ == frame_of(0x9, 0b0_0000_0000),
    {
        let data = Register::ActiveControl.reset_frame();
        ActiveControl { data }
    }

    /// Activates the digital audio interface.
    #[must_use]
    pub fn active(self) -> (r: ActiveControl)
        ensures
            r@ == with_bit_set(self@, 0),
    {
        self.raise(0)
    }

    /// Deactivates the digital audio interface.
    #[must_use]
    pub fn inactive(self) -> (r: ActiveControl)
        ensures
            r@ == with_bit_clear(self@, 0),
    {
        self.lower(0)
    }

    /// Ends the building: the command that carries the frame built so far.
    /// Its address is the one the builder started with.
    pub fn into_command(self) -> (c: Command<()>)
        ensures
            c@ == self@,
            address_of(c@) == 0x9,
    {
        proof {
            use_type_invariant(self);
        }
        Command::from_raw(self.data)
    }
}

} // verus!
