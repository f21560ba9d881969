//! Reset of the device.
use crate::command::Command;
use crate::field::{address_of, frame_of};
use crate::register::Register;
use vstd::prelude::*;

verus! {

/// Reset command builder.
#[derive(Debug, PartialEq, Eq)]
pub struct Reset {
    data: u16,
}

impl Copy for Reset {}

impl Clone for Reset {
    fn clone(&self) -> (r: Self)
        ensures
            r == *self,
    {
        *self
    }
}

impl View for Reset {
    type V = u16;

    /// The frame built so far: address in bits 15 to 9, payload in bits 8 to 0.
    closed spec fn view(&self) -> u16 {
        self.data
    }
}

/// Instantiates a reset command builder.
pub fn reset() -> (r: Reset)
    ensures
        r@ == Register::Reset.reset_frame_spec(),
        r@ == frame_of(0x6, 0b0_1001_1111),
{
    Reset::new()
}

impl Reset {
    /// The frame always names the register that the builder was made for.
    #[verifier::type_invariant]
    spec fn addressed(self) -> bool {
        address_of(self.data) == 0x6
    }

    /// A builder that holds the reset frame.
    fn new() -> (r: Self)
        ensures
            r@ == Register::Reset.reset_frame_spec(),
            r@ == frame_of(0x6, 0b0_1001_1111),
    {
        let data = Register::Reset.reset_frame();
        Reset { data }
    }

    /// Ends the building: the command that carries the frame built so far.
    /// Its address is the one the builder started with.
    pub fn into_command(self) -> (c: Command<()>)
        ensures
            c@ == self@,
            address_of(c@) == 0x6,
    {
        proof {
            use_type_invariant(self);
        }
        Command::from_raw(self.data)
    }
}

} // verus!
