//! Power down configuration: one bit per part of the codec that can be switched off.
//! A set bit powers the part down.
use crate::command::Command;
use crate::field::{
    address_of, clear_bit, frame_of, lemma_bit_keeps_address, set_bit, with_bit, with_bit_clear,
    with_bit_set, write_bit,
};
use crate::register::Register;
use vstd::prelude::*;

verus! {

/// Power down configuration builder.
#[derive(Debug, PartialEq, Eq)]
pub struct PowerDown {
    data: u16,
}

impl Copy for PowerDown {}

impl Clone for PowerDown {
    fn clone(&self) -> (r: Self)
        ensures
            r == *self,
    {
        *self
    }
}

impl View for PowerDown {
    type V = u16;

    /// The frame built so far: address in bits 15 to 9, payload in bits 8 to 0.
    closed spec fn view(&self) -> u16 {
        self.data
    }
}

/// Instantiates a builder for the power down configuration.
pub fn power_down() -> (r: PowerDown)
    ensures
        r@ == Register::PowerDown.reset_frame_spec(),
        r@ == frame_of(0x6, 0b0_1001_1111),
{
    PowerDown::new()
}

impl PowerDown {
    /// The frame always names the register that the builder was made for.
    #[verifier::type_invariant]
    spec fn addressed(self) -> bool {
        address_of(self.data) == 0x6
    }

    /// Makes the bit at `pos` equal to `value`.
    fn assign(self, pos: u16, value: bool) -> (r: Self)
        requires
            pos < 9,
        ensures
            r@ == with_bit(self@, pos, value),
    {
        proof {
            use_type_invariant(self);
            lemma_bit_keeps_address(self.data, pos);
        }
        let data = write_bit(self.data, pos, value);
        PowerDown { data }
    }

    /// Sets the bit at `pos`.
    fn raise(self, pos: u16) -> (r: Self)
        requires
            pos < 9,
        ensures
            r@ == with_bit_set(self@, pos),
    {
        proof {
            use_type_invariant(self);
            lemma_bit_keeps_address(self.data, pos);
        }
        let data = set_bit(self.data, pos);
        PowerDown { data }
    }

    /// Clears the bit at `pos`.
    fn lower(self, pos: u16) -> (r: Self)
        requires
            pos < 9,
        ensures
            r@ == with_bit_clear(self@, pos),
    {
        proof {
            use_type_invariant(self);
            lemma_bit_keeps_address(self.data, pos);
        }
        let data = clear_bit(self.data, pos);
        PowerDown { data }
    }

    /// A builder that holds the register's power-on content.
    fn new() -> (r: Self)
        ensures
            r@ == Register::PowerDown.reset_frame_spec(),
            r@ == frame_of(0x6, 0b0_1001_1111),
    {
        let data = Register::PowerDown.reset_frame();
        PowerDown { data }
    }

    /// The writer of the power down bit of the line input.
    pub fn lineinpd(self) -> (w: Lineinpd)
        ensures
            w@ == self@,
    {
        Lineinpd { cmd: self }
    }

    /// The writer of the power down bit of the microphone input and bias.
    pub fn micpd(self) -> (w: Micpd)
        ensures
            w@ == self@,
    {
        Micpd { cmd: self }
    }

    /// The writer of the power down bit of the ADC.
    pub fn adcpd(self) -> (w: Adcpd)
        ensures
            w@ == self@,
    {
        Adcpd { cmd: self }
    }

    /// The writer of the power down bit of the DAC.
    pub fn dacpd(self) -> (w: Dacpd)
        ensures
            w@ == self@,
    {
        Dacpd { cmd: self }
    }

    /// The writer of the power down bit of the line output.
    pub fn outpd(self) -> (w: Outpd)
        ensures
            w@ == self@,
    {
        Outpd { cmd: self }
    }

    /// The writer of the power down bit of the oscillator.
    pub fn oscpd(self) -> (w: Oscpd)
        ensures
            w@ == self@,
    {
        Oscpd { cmd: self }
    }

    /// The writer of the power down bit of the clock output.
    pub fn clkoutpd(self) -> (w: Clkoutpd)
        ensures
            w@ == self@,
    {
        Clkoutpd { cmd: self }
    }

    /// The writer of the power down bit of the whole device.
    pub fn poweroff(self) -> (w: Poweroff)
        ensures
            w@ == self@,
    {
        Poweroff { cmd: self }
    }

    /// Ends the building: the command that carries the frame built so far.
    /// Its address is the one the builder started with.
    pub fn into_command(self) -> (c: Command<()>)
        ensures
            c@ == self@,
            address_of(c@) == 0x6,
    {
        proof {
            use_type_invariant(self);
        }
        Command::from_raw(self.data)
    }
}

/// Writer of bit 0: power down of the line input.
pub struct Lineinpd {
    cmd: PowerDown,
}

impl View for Lineinpd {
    type V = u16;

    /// The frame that the write starts from.
    closed spec fn view(&self) -> u16 {
        self.cmd@
    }
}

impl Lineinpd {
    /// Writes `value` to the bit.
    #[must_use]
    pub fn bit(self, value: bool) -> (r: PowerDown)
        ensures
            r@ == with_bit(self@, 0, value),
    {
        self.cmd.assign(0, value)
    }

    /// Powers the line input down.
    #[must_use]
    pub fn set_bit(self) -> (r: PowerDown)
        ensures
            r@ == with_bit_set(self@, 0),
    {
        self.cmd.raise(0)
    }

    /// Powers the line input up.
    #[must_use]
    pub fn clear_bit(self) -> (r: PowerDown)
        ensures
            r@ == with_bit_clear(self@, 0),
    {
        self.cmd.lower(0)
    }

    /// Powers the line input down.
    #[must_use]
    pub fn enable(self) -> (r: PowerDown)
        ensures
            r@ == with_bit_set(self@, 0),
    {
        self.cmd.raise(0)
    }

    /// Powers the line input up.
    #[must_use]
    pub fn disable(self) -> (r: PowerDown)
        ensures
            r@ == with_bit_clear(self@, 0),
    {
        self.cmd.lower(0)
    }
}

/// Writer of bit 1: power down of the microphone input and bias.
pub struct Micpd {
    cmd: PowerDown,
}

impl View for Micpd {
    type V = u16;

    /// The frame that the write starts from.
    closed spec fn view(&self) -> u16 {
        self.cmd@
    }
}

impl Micpd {
    /// Writes `value` to the bit.
    #[must_use]
    pub fn bit(self, value: bool) -> (r: PowerDown)
        ensures
            r@ == with_bit(self@, 1, value),
    {
        self.cmd.assign(1, value)
    }

    /// Powers the microphone input and bias down.
    #[must_use]
    pub fn set_bit(self) -> (r: PowerDown)
        ensures
            r@ == with_bit_set(self@, 1),
    {
        self.cmd.raise(1)
    }

    /// Powers the microphone input and bias up.
    #[must_use]
    pub fn clear_bit(self) -> (r: PowerDown)
        ensures
            r@ == with_bit_clear(self@, 1),
    {
        self.cmd.lower(1)
    }

    /// Powers the microphone input and bias down.
    #[must_use]
    pub fn enable(self) -> (r: PowerDown)
        ensures
            r@ == with_bit_set(self@, 1),
    {
        self.cmd.raise(1)
    }

    /// Powers the microphone input and bias up.
    #[must_use]
    pub fn disable(self) -> (r: PowerDown)
        ensures
            r@ == with_bit_clear(self@, 1),
    {
        self.cmd.lower(1)
    }
}

/// Writer of bit 2: power down of the ADC.
pub struct Adcpd {
    cmd: PowerDown,
}

impl View for Adcpd {
    type V = u16;

    /// The frame that the write starts from.
    closed spec fn view(&self) -> u16 {
        self.cmd@
    }
}

impl Adcpd {
    /// Writes `value` to the bit.
    #[must_use]
    pub fn bit(self, value: bool) -> (r: PowerDown)
        ensures
            r@ == with_bit(self@, 2, value),
    {
        self.cmd.assign(2, value)
    }

    /// Powers the ADC down.
    #[must_use]
    pub fn set_bit(self) -> (r: PowerDown)
        ensures
            r@ == with_bit_set(self@, 2),
    {
        self.cmd.raise(2)
    }

    /// Powers the ADC up.
    #[must_use]
    pub fn clear_bit(self) -> (r: PowerDown)
        ensures
            r@ == with_bit_clear(self@, 2),
    {
        self.cmd.lower(2)
    }

    /// Powers the ADC down.
    #[must_use]
    pub fn enable(self) -> (r: PowerDown)
        ensures
            r@ == with_bit_set(self@, 2),
    {
        self.cmd.raise(2)
    }

    /// Powers the ADC up.
    #[must_use]
    pub fn disable(self) -> (r: PowerDown)
        ensures
            r@ == with_bit_clear(self@, 2),
    {
        self.cmd.lower(2)
    }
}

/// Writer of bit 3: power down of the DAC.
pub struct Dacpd {
    cmd: PowerDown,
}

impl View for Dacpd {
    type V = u16;

    /// The frame that the write starts from.
    closed spec fn view(&self) -> u16 {
        self.cmd@
    }
}

impl Dacpd {
    /// Writes `value` to the bit.
    #[must_use]
    pub fn bit(self, value: bool) -> (r: PowerDown)
        ensures
            r@ == with_bit(self@, 3, value),
    {
        self.cmd.assign(3, value)
    }

    /// Powers the DAC down.
    #[must_use]
    pub fn set_bit(self) -> (r: PowerDown)
        ensures
            r@ == with_bit_set(self@, 3),
    {
        self.cmd.raise(3)
    }

    /// Powers the DAC up.
    #[must_use]
    pub fn clear_bit(self) -> (r: PowerDown)
        ensures
            r@ == with_bit_clear(self@, 3),
    {
        self.cmd.lower(3)
    }

    /// Powers the DAC down.
    #[must_use]
    pub fn enable(self) -> (r: PowerDown)
        ensures
            r@ == with_bit_set(self@, 3),
    {
        self.cmd.raise(3)
    }

    /// Powers the DAC up.
    #[must_use]
    pub fn disable(self) -> (r: PowerDown)
        ensures
            r@ == with_bit_clear(self@, 3),
    {
        self.cmd.lower(3)
    }
}

/// Writer of bit 4: power down of the line output.
pub struct Outpd {
    cmd: PowerDown,
}

impl View for Outpd {
    type V = u16;

    /// The frame that the write starts from.
    closed spec fn view(&self) -> u16 {
        self.cmd@
    }
}

impl Outpd {
    /// Writes `value` to the bit.
    #[must_use]
    pub fn bit(self, value: bool) -> (r: PowerDown)
        ensures
            r@ == with_bit(self@, 4, value),
    {
        self.cmd.assign(4, value)
    }

    /// Powers the line output down.
    #[must_use]
    pub fn set_bit(self) -> (r: PowerDown)
        ensures
            r@ == with_bit_set(self@, 4),
    {
        self.cmd.raise(4)
    }

    /// Powers the line output up.
    #[must_use]
    pub fn clear_bit(self) -> (r: PowerDown)
        ensures
            r@ == with_bit_clear(self@, 4),
    {
        self.cmd.lower(4)
    }

    /// Powers the line output down.
    #[must_use]
    pub fn enable(self) -> (r: PowerDown)
        ensures
            r@ == with_bit_set(self@, 4),
    {
        self.cmd.raise(4)
    }

    /// Powers the line output up.
    #[must_use]
    pub fn disable(self) -> (r: PowerDown)
        ensures
            r@ == with_bit_clear(self@, 4),
    {
        self.cmd.lower(4)
    }
}

/// Writer of bit 5: power down of the oscillator.
pub struct Oscpd {
    cmd: PowerDown,
}

impl View for Oscpd {
    type V = u16;

    /// The frame that the write starts from.
    closed spec fn view(&self) -> u16 {
        self.cmd@
    }
}

impl Oscpd {
    /// Writes `value` to the bit.
    #[must_use]
    pub fn bit(self, value: bool) -> (r: PowerDown)
        ensures
            r@ == with_bit(self@, 5, value),
    {
        self.cmd.assign(5, value)
    }

    /// Powers the oscillator down.
    #[must_use]
    pub fn set_bit(self) -> (r: PowerDown)
        ensures
            r@ == with_bit_set(self@, 5),
    {
        self.cmd.raise(5)
    }

    /// Powers the oscillator up.
    #[must_use]
    pub fn clear_bit(self) -> (r: PowerDown)
        ensures
            r@ == with_bit_clear(self@, 5),
    {
        self.cmd.lower(5)
    }

    /// Powers the oscillator down.
    #[must_use]
    pub fn enable(self) -> (r: PowerDown)
        ensures
            r@ == with_bit_set(self@, 5),
    {
        self.cmd.raise(5)
    }

    /// Powers the oscillator up.
    #[must_use]
    pub fn disable(self) -> (r: PowerDown)
        ensures
            r@ == with_bit_clear(self@, 5),
    {
        self.cmd.lower(5)
    }
}

/// Writer of bit 6: power down of the clock output.
pub struct Clkoutpd {
    cmd: PowerDown,
}

impl View for Clkoutpd {
    type V = u16;

    /// The frame that the write starts from.
    closed spec fn view(&self) -> u16 {
        self.cmd@
    }
}

impl Clkoutpd {
    /// Writes `value` to the bit.
    #[must_use]
    pub fn bit(self, value: bool) -> (r: PowerDown)
        ensures
            r@ == with_bit(self@, 6, value),
    {
        self.cmd.assign(6, value)
    }

    /// Powers the clock output down.
    #[must_use]
    pub fn set_bit(self) -> (r: PowerDown)
        ensures
            r@ == with_bit_set(self@, 6),
    {
        self.cmd.raise(6)
    }

    /// Powers the clock output up.
    #[must_use]
    pub fn clear_bit(self) -> (r: PowerDown)
        ensures
            r@ == with_bit_clear(self@, 6),
    {
        self.cmd.lower(6)
    }

    /// Powers the clock output down.
    #[must_use]
    pub fn enable(self) -> (r: PowerDown)
        ensures
            r@ == with_bit_set(self@, 6),
    {
        self.cmd.raise(6)
    }

    /// Powers the clock output up.
    #[must_use]
    pub fn disable(self) -> (r: PowerDown)
        ensures
            r@ == with_bit_clear(self@, 6),
    {
        self.cmd.lower(6)
    }
}

/// Writer of bit 7: power down of the whole device.
pub struct Poweroff {
    cmd: PowerDown,
}

impl View for Poweroff {
    type V = u16;

    /// The frame that the write starts from.
    closed spec fn view(&self) -> u16 {
        self.cmd@
    }
}

impl Poweroff {
    /// Writes `value` to the bit.
    #[must_use]
    pub fn bit(self, value: bool) -> (r: PowerDown)
        ensures
            r@ == with_bit(self@, 7, value),
    {
        self.cmd.assign(7, value)
    }

    /// Powers the whole device down.
    #[must_use]
    pub fn set_bit(self) -> (r: PowerDown)
        ensures
            r@ == with_bit_set(self@, 7),
    {
        self.cmd.raise(7)
    }

    /// Powers the whole device up.
    #[must_use]
    pub fn clear_bit(self) -> (r: PowerDown)
        ensures
            r@ == with_bit_clear(self@, 7),
    {
        self.cmd.lower(7)
    }

    /// Powers the whole device down.
    #[must_use]
    pub fn enable(self) -> (r: PowerDown)
        ensures
            r@ == with_bit_set(self@, 7),
    {
        self.cmd.raise(7)
    }

    /// Powers the whole device up.
    #[must_use]
    pub fn disable(self) -> (r: PowerDown)
        ensures
            r@ == with_bit_clear(self@, 7),
    {
        self.cmd.lower(7)
    }
}

} // verus!
