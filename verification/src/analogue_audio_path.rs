//! Analogue audio path configuration: what feeds the ADC and what reaches the output.
use crate::command::Command;
use crate::field::{
    address_of, clear_bit, frame_of, lemma_bit_keeps_address, lemma_bits_keep_address, set_bit,
    with_bit, with_bit_clear, with_bit_set, with_bits, write_bit, write_bits,
};
use crate::register::Register;
use vstd::prelude::*;

verus! {

/// Analogue audio path configuration builder.
#[derive(Debug, PartialEq, Eq)]
pub struct AnalogueAudioPath {
    data: u16,
}

impl Copy for AnalogueAudioPath {}

impl Clone for AnalogueAudioPath {
    fn clone(&self) -> (r: Self)
        ensures
            r == *self,
    {
        *self
    }
}

impl View for AnalogueAudioPath {
    type V = u16;

    /// The frame built so far: address in bits 15 to 9, payload in bits 8 to 0.
    closed spec fn view(&self) -> u16 {
        self.data
    }
}

/// Instantiates a builder for the analogue audio path configuration.
pub fn analogue_audio_path() -> (r: AnalogueAudioPath)
    ensures
        r@ == Register::AnalogueAudioPath.reset_frame_spec(),
        r@ == frame_of(0x4, 0b0_0000_1010),
{
    AnalogueAudioPath::new()
}

impl AnalogueAudioPath {
    /// The frame always names the register that the builder was made for.
    #[verifier::type_invariant]
    spec fn addressed(self) -> bool {
        address_of(self.data) == 0x4
    }

    /// Stores `value` in the field of `len` bits at offset `shift`.
    fn store(self, len: u16, shift: u16, value: u8) -> (r: Self)
        requires
            len + shift <= 9,
        ensures
            r@ == with_bits(self@, len, shift, value),
    {
        proof {
            use_type_invariant(self);
            lemma_bits_keep_address(self.data, len, shift, value);
        }
        let data = write_bits(self.data, len, shift, value);
        AnalogueAudioPath { data }
    }

    /// Makes the bit at `pos` equal to `value`.
    fn assign(self, pos: u16, value: bool) -> (r: Self)
        requires
            pos < 9,
        ensures
            r@ == with_bit(self@, pos, value),
    {
        proof {
            use_type_invariant(self);
            lemma_bit_keeps_address(self.data, pos);
        }
        let data = write_bit(self.data, pos, value);
        AnalogueAudioPath { data }
    }

    /// Sets the bit at `pos`.
    fn raise(self, pos: u16) -> (r: Self)
        requires
            pos < 9,
        ensures
            r@ == with_bit_set(self@, pos),
    {
        proof {
            use_type_invariant(self);
            lemma_bit_keeps_address(self.data, pos);
        }
        let data = set_bit(self.data, pos);
        AnalogueAudioPath { data }
    }

    /// Clears the bit at `pos`.
    fn lower(self, pos: u16) -> (r: Self)
        requires
            pos < 9,
        ensures
            r@ == with_bit_clear(self@, pos),
    {
        proof {
            use_type_invariant(self);
            lemma_bit_keeps_address(self.data, pos);
        }
        let data = clear_bit(self.data, pos);
        AnalogueAudioPath { data }
    }

    /// A builder that holds the register's power-on content.
    pub fn new() -> (r: Self)
        ensures
            r@ == Register::AnalogueAudioPath.reset_frame_spec(),
            r@ == frame_of(0x4, 0b0_0000_1010),
    {
        let data = Register::AnalogueAudioPath.reset_frame();
        AnalogueAudioPath { data }
    }

    /// The writer of the microphone boost bit.
    pub fn micboost(self) -> (w: Micboost)
        ensures
            w@ == self@,
    {
        Micboost { cmd: self }
    }

    /// The writer of the microphone mute bit.
    pub fn mutemic(self) -> (w: Mutemic)
        ensures
            w@ == self@,
    {
        Mutemic { cmd: self }
    }

    /// The writer of the ADC input selection bit.
    pub fn insel(self) -> (w: Insel)
        ensures
            w@ == self@,
    {
        Insel { cmd: self }
    }

    /// The writer of the bypass bit.
    pub fn bypass(self) -> (w: Bypass)
        ensures
            w@ == self@,
    {
        Bypass { cmd: self }
    }

    /// The writer of the DAC selection bit.
    pub fn dacsel(self) -> (w: Dacsel)
        ensures
            w@ == self@,
    {
        Dacsel { cmd: self }
    }

    /// The writer of the side tone bit.
    pub fn sidetone(self) -> (w: Sidetone)
        ensures
            w@ == self@,
    {
        Sidetone { cmd: self }
    }

    /// The writer of the side tone attenuation field.
    pub fn sideatt(self) -> (w: Sideatt)
        ensures
            w@ == self@,
    {
        Sideatt { cmd: self }
    }

    /// Ends the building: the command that carries the frame built so far.
    /// Its address is the one the builder started with.
    pub fn into_command(self) -> (c: Command<()>)
        ensures
            c@ == self@,
            address_of(c@) == 0x4,
    {
        proof {
            use_type_invariant(self);
        }
        Command::from_raw(self.data)
    }
}

/// Writer of bit 0: boost of the microphone input.
pub struct Micboost {
    cmd: AnalogueAudioPath,
}

impl View for Micboost {
    type V = u16;

    /// The frame that the write starts from.
    closed spec fn view(&self) -> u16 {
        self.cmd@
    }
}

impl Micboost {
    /// Writes `value` to the bit.
    #[must_use]
    pub fn bit(self, value: bool) -> (r: AnalogueAudioPath)
        ensures
            r@ == with_bit(self@, 0, value),
    {
        self.cmd.assign(0, value)
    }

    /// Switches the boost on.
    #[must_use]
    pub fn set_bit(self) -> (r: AnalogueAudioPath)
        ensures
            r@ == with_bit_set(self@, 0),
    {
        self.cmd.raise(0)
    }

    /// Switches the boost off.
    #[must_use]
    pub fn clear_bit(self) -> (r: AnalogueAudioPath)
        ensures
            r@ == with_bit_clear(self@, 0),
    {
        self.cmd.lower(0)
    }

    /// Switches the boost on.
    #[must_use]
    pub fn enable(self) -> (r: AnalogueAudioPath)
        ensures
            r@ == with_bit_set(self@, 0),
    {
        self.cmd.raise(0)
    }

    /// Switches the boost off.
    #[must_use]
    pub fn disable(self) -> (r: AnalogueAudioPath)
        ensures
            r@ == with_bit_clear(self@, 0),
    {
        self.cmd.lower(0)
    }
}

/// Writer of bit 1: mute of the microphone input to the ADC.
pub struct Mutemic {
    cmd: AnalogueAudioPath,
}

impl View for Mutemic {
    type V = u16;

    /// The frame that the write starts from.
    closed spec fn view(&self) -> u16 {
        self.cmd@
    }
}

impl Mutemic {
    /// Writes `value` to the bit.
    #[must_use]
    pub fn bit(self, value: bool) -> (r: AnalogueAudioPath)
        ensures
            r@ == with_bit(self@, 1, value),
    {
        self.cmd.assign(1, value)
    }

    /// Mutes the microphone.
    #[must_use]
    pub fn set_bit(self) -> (r: AnalogueAudioPath)
        ensures
            r@ == with_bit_set(self@, 1),
    {
        self.cmd.raise(1)
    }

    /// Lets the microphone through.
    #[must_use]
    pub fn clear_bit(self) -> (r: AnalogueAudioPath)
        ensures
            r@ == with_bit_clear(self@, 1),
    {
        self.cmd.lower(1)
    }

    /// Mutes the microphone.
    #[must_use]
    pub fn enable(self) -> (r: AnalogueAudioPath)
        ensures
            r@ == with_bit_set(self@, 1),
    {
        self.cmd.raise(1)
    }

    /// Lets the microphone through.
    #[must_use]
    pub fn disable(self) -> (r: AnalogueAudioPath)
        ensures
            r@ == with_bit_clear(self@, 1),
    {
        self.cmd.lower(1)
    }
}

/// Writer of bit 3: line input passed straight to the output.
pub struct Bypass {
    cmd: AnalogueAudioPath,
}

impl View for Bypass {
    type V = u16;

    /// The frame that the write starts from.
    closed spec fn view(&self) -> u16 {
        self.cmd@
    }
}

impl Bypass {
    /// Writes `value` to the bit.
    #[must_use]
    pub fn bit(self, value: bool) -> (r: AnalogueAudioPath)
        ensures
            r@ == with_bit(self@, 3, value),
    {
        self.cmd.assign(3, value)
    }

    /// Switches the bypass on.
    #[must_use]
    pub fn set_bit(self) -> (r: AnalogueAudioPath)
        ensures
            r@ == with_bit_set(self@, 3),
    {
        self.cmd.raise(3)
    }

    /// Switches the bypass off.
    #[must_use]
    pub fn clear_bit(self) -> (r: AnalogueAudioPath)
        ensures
            r@ == with_bit_clear(self@, 3),
    {
        self.cmd.lower(3)
    }

    /// Switches the bypass on.
    #[must_use]
    pub fn enable(self) -> (r: AnalogueAudioPath)
        ensures
            r@ == with_bit_set(self@, 3),
    {
        self.cmd.raise(3)
    }

    /// Switches the bypass off.
    #[must_use]
    pub fn disable(self) -> (r: AnalogueAudioPath)
        ensures
            r@ == with_bit_clear(self@, 3),
    {
        self.cmd.lower(3)
    }
}

/// Writer of bit 5: microphone input passed straight to the output.
pub struct Sidetone {
    cmd: AnalogueAudioPath,
}

impl View for Sidetone {
    type V = u16;

    /// The frame that the write starts from.
    closed spec fn view(&self) -> u16 {
        self.cmd@
    }
}

impl Sidetone {
    /// Writes `value` to the bit.
    #[must_use]
    pub fn bit(self, value: bool) -> (r: AnalogueAudioPath)
        ensures
            r@ == with_bit(self@, 5, value),
    {
        self.cmd.assign(5, value)
    }

    /// Switches the side tone on.
    #[must_use]
    pub fn set_bit(self) -> (r: AnalogueAudioPath)
        ensures
            r@ == with_bit_set(self@, 5),
    {
        self.cmd.raise(5)
    }

    /// Switches the side tone off.
    #[must_use]
    pub fn clear_bit(self) -> (r: AnalogueAudioPath)
        ensures
            r@ == with_bit_clear(self@, 5),
    {
        self.cmd.lower(5)
    }

    /// Switches the side tone on.
    #[must_use]
    pub fn enable(self) -> (r: AnalogueAudioPath)
        ensures
            r@ == with_bit_set(self@, 5),
    {
        self.cmd.raise(5)
    }

    /// Switches the side tone off.
    #[must_use]
    pub fn disable(self) -> (r: AnalogueAudioPath)
        ensures
            r@ == with_bit_clear(self@, 5),
    {
        self.cmd.lower(5)
    }
}

/// The inputs that the ADC can take.
#[derive(Debug, Clone, Copy, PartialEq, Eq)]
pub enum InselV {
    /// The line input feeds the ADC.
    Line,
    /// The microphone input feeds the ADC.
    Microphone,
}

/// Writer of bit 2: the input of the ADC.
pub struct Insel {
    cmd: AnalogueAudioPath,
}

impl View for Insel {
    type V = u16;

    /// The frame that the write starts from.
    closed spec fn view(&self) -> u16 {
        self.cmd@
    }
}

impl Insel {
    /// Writes `value` to the bit.
    #[must_use]
    pub fn bit(self, value: bool) -> (r: AnalogueAudioPath)
        ensures
            r@ == with_bit(self@, 2, value),
    {
        self.cmd.assign(2, value)
    }

    /// Sets the bit: selects the microphone input.
    #[must_use]
    pub fn set_bit(self) -> (r: AnalogueAudioPath)
        ensures
            r@ == with_bit_set(self@, 2),
    {
        self.cmd.raise(2)
    }

    /// Clears the bit: selects the line input.
    #[must_use]
    pub fn clear_bit(self) -> (r: AnalogueAudioPath)
        ensures
            r@ == with_bit_clear(self@, 2),
    {
        self.cmd.lower(2)
    }

    /// Selects the microphone input.
    #[must_use]
    pub fn microphone(self) -> (r: AnalogueAudioPath)
        ensures
            r@ == with_bit_set(self@, 2),
    {
        self.cmd.raise(2)
    }

    /// Selects the line input.
    #[must_use]
    pub fn line(self) -> (r: AnalogueAudioPath)
        ensures
            r@ == with_bit_clear(self@, 2),
    {
        self.cmd.lower(2)
    }

    /// Writes the bit that stands for `value`.
    #[must_use]
    pub fn variant(self, value: InselV) -> (r: AnalogueAudioPath)
        ensures
            r@ == with_bit(self@, 2, value is Microphone),
    {
        match value {
            InselV::Line => self.line(),
            InselV::Microphone => self.microphone(),
        }
    }
}

/// Whether the DAC is mixed into the output.
#[derive(Debug, Clone, Copy, PartialEq, Eq)]
pub enum DacselV {
    /// The DAC is kept from the output.
    Deselect,
    /// The DAC reaches the output.
    Select,
}

/// Writer of bit 4: whether the DAC reaches the output.
pub struct Dacsel {
    cmd: AnalogueAudioPath,
}

impl View for Dacsel {
    type V = u16;

    /// The frame that the write starts from.
    closed spec fn view(&self) -> u16 {
        self.cmd@
    }
}

impl Dacsel {
    /// Writes `value` to the bit.
    #[must_use]
    pub fn bit(self, value: bool) -> (r: AnalogueAudioPath)
        ensures
            r@ == with_bit(self@, 4, value),
    {
        self.cmd.assign(4, value)
    }

    /// Sets the bit: lets the DAC reach the output.
    #[must_use]
    pub fn set_bit(self) -> (r: AnalogueAudioPath)
        ensures
            r@ == with_bit_set(self@, 4),
    {
        self.cmd.raise(4)
    }

    /// Clears the bit: keeps the DAC from the output.
    #[must_use]
    pub fn clear_bit(self) -> (r: AnalogueAudioPath)
        ensures
            r@ == with_bit_clear(self@, 4),
    {
        self.cmd.lower(4)
    }

    /// Lets the DAC reach the output.
    #[must_use]
    pub fn select(self) -> (r: AnalogueAudioPath)
        ensures
            r@ == with_bit_set(self@, 4),
    {
        self.cmd.raise(4)
    }

    /// Keeps the DAC from the output.
    #[must_use]
    pub fn deselect(self) -> (r: AnalogueAudioPath)
        ensures
            r@ == with_bit_clear(self@, 4),
    {
        self.cmd.lower(4)
    }

    /// Writes the bit that stands for `value`.
    #[must_use]
    pub fn variant(self, value: DacselV) -> (r: AnalogueAudioPath)
        ensures
            r@ == with_bit(self@, 4, value is Select),
    {
        match value {
            DacselV::Deselect => self.deselect(),
            DacselV::Select => self.select(),
        }
    }
}

/// The attenuations that the side tone can have.
#[derive(Debug, Clone, Copy, PartialEq, Eq)]
pub enum SideAttdB {
    /// -6 dB.
    N6dB,
    /// -9 dB.
    N9dB,
    /// -12 dB.
    N12dB,
    /// -15 dB.
    N15dB,
}

impl SideAttdB {
    /// The field code that stands for the attenuation.
    pub open spec fn code(self) -> u8 {
        match self {
            SideAttdB::N6dB => 0b00,
            SideAttdB::N9dB => 0b01,
            SideAttdB::N12dB => 0b10,
            SideAttdB::N15dB => 0b11,
        }
    }

    /// The attenuation in decibels.
    pub open spec fn decibels(self) -> int {
        -6 - 3 * self.code()
    }

    /// The field code that stands for the attenuation.
    pub fn into_raw(self) -> (r: u8)
        ensures
            r == self.code(),
    {
        match self {
            SideAttdB::N6dB => 0b00,
            SideAttdB::N9dB => 0b01,
            SideAttdB::N12dB => 0b10,
            SideAttdB::N15dB => 0b11,
        }
    }
}

/// Writer of the SIDEATT field, bits 6 and 7: the attenuation of the side tone.
pub struct Sideatt {
    cmd: AnalogueAudioPath,
}

impl View for Sideatt {
    type V = u16;

    /// The frame that the write starts from.
    closed spec fn view(&self) -> u16 {
        self.cmd@
    }
}

impl Sideatt {
    /// Writes raw bits to the field. Of `value` only the low 2 bits count; the bits
    /// above them are dropped.
    #[must_use]
    pub fn bits(self, value: u8) -> (r: AnalogueAudioPath)
        ensures
            r@ == with_bits(self@, 2, 6, value),
    {
        self.cmd.store(2, 6, value)
    }

    /// Writes the attenuation given in decibels.
    #[must_use]
    pub fn db(self, volume: SideAttdB) -> (r: AnalogueAudioPath)
        ensures
            r@ == with_bits(self@, 2, 6, volume.code()),
    {
        self.bits(volume.into_raw())
    }


}

} // verus!
