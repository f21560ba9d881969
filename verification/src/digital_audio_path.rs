//! Digital audio path configuration: filters and mute on the digital side.
use crate::command::Command;
use crate::field::{
    address_of, clear_bit, frame_of, lemma_bit_keeps_address, lemma_bits_keep_address, set_bit,
    with_bit, with_bit_clear, with_bit_set, with_bits, write_bit, write_bits,
};
use crate::register::Register;
use vstd::prelude::*;

verus! {

/// Digital audio path configuration builder.
#[derive(Debug, PartialEq, Eq)]
pub struct DigitalAudioPath {
    data: u16,
}

impl Copy for DigitalAudioPath {}

impl Clone for DigitalAudioPath {
    fn clone(&self) -> (r: Self)
        ensures
            r == *self,
    {
        *self
    }
}

impl View for DigitalAudioPath {
    type V = u16;

    /// The frame built so far: address in bits 15 to 9, payload in bits 8 to 0.
    closed spec fn view(&self) -> u16 {
        self.data
    }
}

/// Instantiates a builder for the digital audio path configuration.
pub fn digital_audio_path() -> (r: DigitalAudioPath)
    ensures
        r@ == Register::DigitalAudioPath.reset_frame_spec(),
        r@ == frame_of(0x5, 0b0_0000_1000),
{
    DigitalAudioPath::new()
}

impl DigitalAudioPath {
    /// The frame always names the register that the builder was made for.
    #[verifier::type_invariant]
    spec fn addressed(self) -> bool {
        address_of(self.data) == 0x5
    }

    /// Stores `value` in the field of `len` bits at offset `shift`.
    fn store(self, len: u16, shift: u16, value: u8) -> (r: Self)
        requires
            len + shift <= 9,
        ensures
            r@ == with_bits(self@, len, shift, value),
    {
        proof {
            use_type_invariant(self);
            lemma_bits_keep_address(self.data, len, shift, value);
        }
        let data = write_bits(self.data, len, shift, value);
        DigitalAudioPath { data }
    }

    /// Makes the bit at `pos` equal to `value`.
    fn assign(self, pos: u16, value: bool) -> (r: Self)
        requires
            pos < 9,
        ensures
            r@ == with_bit(self@, pos, value),
    {
        proof {
            use_type_invariant(self);
            lemma_bit_keeps_address(self.data, pos);
        }
        let data = write_bit(self.data, pos, value);
        DigitalAudioPath { data }
    }

    /// Sets the bit at `pos`.
    fn raise(self, pos: u16) -> (r: Self)
        requires
            pos < 9,
        ensures
            r@ == with_bit_set(self@, pos),
    {
        proof {
            use_type_invariant(self);
            lemma_bit_keeps_address(self.data, pos);
        }
        let data = set_bit(self.data, pos);
        DigitalAudioPath { data }
    }

    /// Clears the bit at `pos`.
    fn lower(self, pos: u16) -> (r: Self)
        requires
            pos < 9,
        ensures
            r@ == with_bit_clear(self@, pos),
    {
        proof {
            use_type_invariant(self);
            lemma_bit_keeps_address(self.data, pos);
        }
        let data = clear_bit(self.data, pos);
        DigitalAudioPath { data }
    }

    /// A builder that holds the register's power-on content.
    fn new() -> (r: Self)
        ensures
            r@ == Register::DigitalAudioPath.reset_frame_spec(),
            r@ == frame_of(0x5, 0b0_0000_1000),
    {
        let data = Register::DigitalAudioPath.reset_frame();
        DigitalAudioPath { data }
    }

    /// The writer of the bit that disables the ADC high pass filter.
    pub fn adchpd(self) -> (w: Adchpd)
        ensures
            w@ == self@,
    {
        Adchpd { cmd: self }
    }

    /// The writer of the de-emphasis field.
    pub fn deemp(self) -> (w: Deemp)
        ensures
            w@ == self@,
    {
        Deemp { cmd: self }
    }

    /// The writer of the DAC soft mute bit.
    pub fn dacmu(self) -> (w: Dacmu)
        ensures
            w@ == self@,
    {
        Dacmu { cmd: self }
    }

    /// The writer of the bit that keeps the DC offset when the high pass filter is off.
    pub fn hpor(self) -> (w: Hpor)
        ensures
            w@ == self@,
    {
        Hpor { cmd: self }
    }

    /// Ends the building: the command that carries the frame built so far.
    /// Its address is the one the builder started with.
    pub fn into_command(self) -> (c: Command<()>)
        ensures
            c@ == self@,
            address_of(c@) == 0x5,
    {
        proof {
            use_type_invariant(self);
        }
        Command::from_raw(self.data)
    }
}

/// Writer of bit 0: disable of the ADC high pass filter.
pub struct Adchpd {
    cmd: DigitalAudioPath,
}

impl View for Adchpd {
    type V = u16;

    /// The frame that the write starts from.
    closed spec fn view(&self) -> u16 {
        self.cmd@
    }
}

impl Adchpd {
    /// Writes `value` to the bit.
    #[must_use]
    pub fn bit(self, value: bool) -> (r: DigitalAudioPath)
        ensures
            r@ == with_bit(self@, 0, value),
    {
        self.cmd.assign(0, value)
    }

    /// Switches the high pass filter off.
    #[must_use]
    pub fn set_bit(self) -> (r: DigitalAudioPath)
        ensures
            r@ == with_bit_set(self@, 0),
    {
        self.cmd.raise(0)
    }

    /// Switches the high pass filter on.
    #[must_use]
    pub fn clear_bit(self) -> (r: DigitalAudioPath)
        ensures
            r@ == with_bit_clear(self@, 0),
    {
        self.cmd.lower(0)
    }

    /// Switches the high pass filter off.
    #[must_use]
    pub fn enable(self) -> (r: DigitalAudioPath)
        ensures
            r@ == with_bit_set(self@, 0),
    {
        self.cmd.raise(0)
    }

    /// Switches the high pass filter on.
    #[must_use]
    pub fn disable(self) -> (r: DigitalAudioPath)
        ensures
            r@ == with_bit_clear(self@, 0),
    {
        self.cmd.lower(0)
    }
}

/// Writer of bit 3: soft mute of the DAC.
pub struct Dacmu {
    cmd: DigitalAudioPath,
}

impl View for Dacmu {
    type V = u16;

    /// The frame that the write starts from.
    closed spec fn view(&self) -> u16 {
        self.cmd@
    }
}

impl Dacmu {
    /// Writes `value` to the bit.
    #[must_use]
    pub fn bit(self, value: bool) -> (r: DigitalAudioPath)
        ensures
            r@ == with_bit(self@, 3, value),
    {
        self.cmd.assign(3, value)
    }

    /// Mutes the DAC.
    #[must_use]
    pub fn set_bit(self) -> (r: DigitalAudioPath)
        ensures
            r@ == with_bit_set(self@, 3),
    {
        self.cmd.raise(3)
    }

    /// Lets the DAC through.
    #[must_use]
    pub fn clear_bit(self) -> (r: DigitalAudioPath)
        ensures
            r@ == with_bit_clear(self@, 3),
    {
        self.cmd.lower(3)
    }

    /// Mutes the DAC.
    #[must_use]
    pub fn enable(self) -> (r: DigitalAudioPath)
        ensures
            r@ == with_bit_set(self@, 3),
    {
        self.cmd.raise(3)
    }

    /// Lets the DAC through.
    #[must_use]
    pub fn disable(self) -> (r: DigitalAudioPath)
        ensures
            r@ == with_bit_clear(self@, 3),
    {
        self.cmd.lower(3)
    }
}

/// The de-emphasis settings.
#[derive(Debug, Clone, Copy, PartialEq, Eq)]
pub enum DeempV {
    /// No de-emphasis.
    Disable,
    /// De-emphasis for 32 kHz.
    F32k,
    /// De-emphasis for 44.1 kHz.
    F44k1,
    /// De-emphasis for 48 kHz.
    F48k,
}

impl DeempV {
    /// The field code that stands for the choice.
    pub open spec fn code(self) -> u8 {
        match self {
            DeempV::Disable => 0b00,
            DeempV::F32k => 0b01,
            DeempV::F44k1 => 0b10,
            DeempV::F48k => 0b11,
        }
    }
}

/// Writer of the DEEMP field, bits 1 and 2: the de-emphasis filter.
pub struct Deemp {
    cmd: DigitalAudioPath,
}

impl View for Deemp {
    type V = u16;

    /// The frame that the write starts from.
    closed spec fn view(&self) -> u16 {
        self.cmd@
    }
}

impl Deemp {
    /// Writes raw bits to the field. Of `value` only the low 2 bits count; the bits
    /// above them are dropped.
    #[must_use]
    pub fn bits(self, value: u8) -> (r: DigitalAudioPath)
        ensures
            r@ == with_bits(self@, 2, 1, value),
    {
        self.cmd.store(2, 1, value)
    }

    /// Writes the code that stands for `value`.
    #[must_use]
    pub fn variant(self, value: DeempV) -> (r: DigitalAudioPath)
        ensures
            r@ == with_bits(self@, 2, 1, value.code()),
    {
        match value {
            DeempV::Disable => self.bits(0b00),
            DeempV::F32k => self.bits(0b01),
            DeempV::F44k1 => self.bits(0b10),
            DeempV::F48k => self.bits(0b11),
        }
    }

    /// Switches the de-emphasis off.
    pub fn disable(self) -> (r: DigitalAudioPath)
        ensures
            r@ == with_bits(self@, 2, 1, 0b00),
    {
        self.bits(0b00)
    }

    /// Selects the de-emphasis for 32 kHz.
    pub fn f32k(self) -> (r: DigitalAudioPath)
        ensures
            r@ == with_bits(self@, 2, 1, 0b01),
    {
        self.bits(0b01)
    }

    /// Selects the de-emphasis for 44.1 kHz.
    pub fn f44k1(self) -> (r: DigitalAudioPath)
        ensures
            r@ == with_bits(self@, 2, 1, 0b10),
    {
        self.bits(0b10)
    }

    /// Selects the de-emphasis for 48 kHz.
    pub fn f48k(self) -> (r: DigitalAudioPath)
        ensures
            r@ == with_bits(self@, 2, 1, 0b11),
    {
        self.bits(0b11)
    }
}

/// What becomes of the DC offset when the high pass filter is switched off.
#[derive(Debug, Clone, Copy, PartialEq, Eq)]
pub enum HporV {
    /// The offset is cleared.
    ClearOffset,
    /// The offset is stored.
    StoreOffset,
}

/// Writer of bit 4: what becomes of the DC offset when the high pass filter is switched off.
pub struct Hpor {
    cmd: DigitalAudioPath,
}

impl View for Hpor {
    type V = u16;

    /// The frame that the write starts from.
    closed spec fn view(&self) -> u16 {
        self.cmd@
    }
}

impl Hpor {
    /// Writes `value` to the bit.
    #[must_use]
    pub fn bit(self, value: bool) -> (r: DigitalAudioPath)
        ensures
            r@ == with_bit(self@, 4, value),
    {
        self.cmd.assign(4, value)
    }

    /// Clears the bit: has the offset cleared.
    #[must_use]
    pub fn clear_bit(self) -> (r: DigitalAudioPath)
        ensures
            r@ == with_bit_clear(self@, 4),
    {
        self.cmd.lower(4)
    }

    /// Sets the bit: has the offset stored.
    #[must_use]
    pub fn set_bit(self) -> (r: DigitalAudioPath)
        ensures
            r@ == with_bit_set(self@, 4),
    {
        self.cmd.raise(4)
    }

    /// Has the offset stored.
    #[must_use]
    pub fn store_offset(self) -> (r: DigitalAudioPath)
        ensures
            r@ == with_bit_set(self@, 4),
    {
        self.cmd.raise(4)
    }

    /// Has the offset cleared.
    #[must_use]
    pub fn clear_offset(self) -> (r: DigitalAudioPath)
        ensures
            r@ == with_bit_clear(self@, 4),
    {
        self.cmd.lower(4)
    }

    /// Writes the bit that stands for `value`.
    #[must_use]
    pub fn variant(self, value: HporV) -> (r: DigitalAudioPath)
        ensures
            r@ == with_bit(self@, 4, value is StoreOffset),
    {
        match value {
            HporV::ClearOffset => self.clear_offset(),
            HporV::StoreOffset => self.store_offset(),
        }
    }
}

} // verus!
