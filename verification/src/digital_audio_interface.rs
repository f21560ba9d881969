//! Digital audio interface configuration: data format, word length and clocking roles.
use crate::command::Command;
use crate::field::{
    address_of, clear_bit, frame_of, lemma_bit_keeps_address, lemma_bits_keep_address, set_bit,
    with_bit, with_bit_clear, with_bit_set, with_bits, write_bit, write_bits,
};
use crate::register::Register;
use vstd::prelude::*;

verus! {

/// Digital audio interface configuration builder.
#[derive(Debug, PartialEq, Eq)]
pub struct DigitalAudioInterface {
    data: u16,
}

impl Copy for DigitalAudioInterface {}

impl Clone for DigitalAudioInterface {
    fn clone(&self) -> (r: Self)
        ensures
            r == *self,
    {
        *self
    }
}

impl View for DigitalAudioInterface {
    type V = u16;

    /// The frame built so far: address in bits 15 to 9, payload in bits 8 to 0.
    closed spec fn view(&self) -> u16 {
        self.data
    }
}

/// Instantiates a builder for the digital audio interface configuration.
pub fn digital_audio_interface() -> (r: DigitalAudioInterface)
    ensures
        r@ == Register::DigitalAudioInterface.reset_frame_spec(),
        r@ == frame_of(0x7, 0b0_0000_1010),
{
    DigitalAudioInterface::new()
}

impl DigitalAudioInterface {
    /// The frame always names the register that the builder was made for.
    #[verifier::type_invariant]
    spec fn addressed(self) -> bool {
        address_of(self.data) == 0x7
    }

    /// Stores `value` in the field of `len` bits at offset `shift`.
    fn store(self, len: u16, shift: u16, value: u8) -> (r: Self)
        requires
            len + shift <= 9,
        ensures
            r@ == with_bits(self@, len, shift, value),
    {
        proof {
            use_type_invariant(self);
            lemma_bits_keep_address(self.data, len, shift, value);
        }
        let data = write_bits(self.data, len, shift, value);
        DigitalAudioInterface { data }
    }

    /// Makes the bit at `pos` equal to `value`.
    fn assign(self, pos: u16, value: bool) -> (r: Self)
        requires
            pos < 9,
        ensures
            r@ == with_bit(self@, pos, value),
    {
        proof {
            use_type_invariant(self);
            lemma_bit_keeps_address(self.data, pos);
        }
        let data = write_bit(self.data, pos, value);
        DigitalAudioInterface { data }
    }

    /// Sets the bit at `pos`.
    fn raise(self, pos: u16) -> (r: Self)
        requires
            pos < 9,
        ensures
            r@ == with_bit_set(self@, pos),
    {
        proof {
            use_type_invariant(self);
            lemma_bit_keeps_address(self.data, pos);
        }
        let data = set_bit(self.data, pos);
        DigitalAudioInterface { data }
    }

    /// Clears the bit at `pos`.
    fn lower(self, pos: u16) -> (r: Self)
        requires
            pos < 9,
        ensures
            r@ == with_bit_clear(self@, pos),
    {
        proof {
            use_type_invariant(self);
            lemma_bit_keeps_address(self.data, pos);
        }
        let data = clear_bit(self.data, pos);
        DigitalAudioInterface { data }
    }

    /// A builder that holds the register's power-on content.
    fn new() -> (r: Self)
        ensures
            r@ == Register::DigitalAudioInterface.reset_frame_spec(),
            r@ == frame_of(0x7, 0b0_0000_1010),
    {
        let data = Register::DigitalAudioInterface.reset_frame();
        DigitalAudioInterface { data }
    }

    /// The writer of the data format field.
    pub fn format(self) -> (w: Format)
        ensures
            w@ == self@,
    {
        Format { cmd: self }
    }

    /// The writer of the input word length field.
    pub fn iwl(self) -> (w: Iwl)
        ensures
            w@ == self@,
    {
        Iwl { cmd: self }
    }

    /// The writer of the left/right phase bit.
    pub fn lrp(self) -> (w: Lrp)
        ensures
            w@ == self@,
    {
        Lrp { cmd: self }
    }

    /// The writer of the left/right swap bit.
    pub fn lrswap(self) -> (w: Lrswap)
        ensures
            w@ == self@,
    {
        Lrswap { cmd: self }
    }

    /// The writer of the master/slave bit.
    pub fn ms(self) -> (w: Ms)
        ensures
            w@ == self@,
    {
        Ms { cmd: self }
    }

    /// The writer of the bit clock inversion bit.
    pub fn bclkinv(self) -> (w: Bclkinv)
        ensures
            w@ == self@,
    {
        Bclkinv { cmd: self }
    }

    /// Ends the building: the command that carries the frame built so far.
    /// Its address is the one the builder started with.
    pub fn into_command(self) -> (c: Command<()>)
        ensures
            c@ == self@,
            address_of(c@) == 0x7,
    {
        proof {
            use_type_invariant(self);
        }
        Command::from_raw(self.data)
    }
}

/// The audio data formats.
#[derive(Debug, Clone, Copy, PartialEq, Eq)]
pub enum FormatV {
    /// DSP mode.
    Dsp,
    /// I2S format.
    I2s,
    /// MSB first, left justified.
    LeftJustified,
    /// MSB first, right justified.
    RigthJustified,
}

impl FormatV {
    /// The field code that stands for the choice.
    pub open spec fn code(self) -> u8 {
        match self {
            FormatV::Dsp => 0b11,
            FormatV::I2s => 0b10,
            FormatV::LeftJustified => 0b01,
            FormatV::RigthJustified => 0b00,
        }
    }
}

/// Writer of the FORMAT field, bits 0 and 1: the audio data format.
pub struct Format {
    cmd: DigitalAudioInterface,
}

impl View for Format {
    type V = u16;

    /// The frame that the write starts from.
    closed spec fn view(&self) -> u16 {
        self.cmd@
    }
}

impl Format {
    /// Writes raw bits to the field. Of `value` only the low 2 bits count; the bits
    /// above them are dropped.
    #[must_use]
    pub fn bits(self, value: u8) -> (r: DigitalAudioInterface)
        ensures
            r@ == with_bits(self@, 2, 0, value),
    {
        self.cmd.store(2, 0, value)
    }

    /// Writes the code that stands for `value`.
    #[must_use]
    pub fn variant(self, value: FormatV) -> (r: DigitalAudioInterface)
        ensures
            r@ == with_bits(self@, 2, 0, value.code()),
    {
        match value {
            FormatV::Dsp => self.bits(0b11),
            FormatV::I2s => self.bits(0b10),
            FormatV::LeftJustified => self.bits(0b01),
            FormatV::RigthJustified => self.bits(0b00),
        }
    }

    /// Selects DSP mode.
    #[must_use]
    pub fn dsp(self) -> (r: DigitalAudioInterface)
        ensures
            r@ == with_bits(self@, 2, 0, 0b11),
    {
        self.bits(0b11)
    }

    /// Selects the I2S format.
    #[must_use]
    pub fn i2s(self) -> (r: DigitalAudioInterface)
        ensures
            r@ == with_bits(self@, 2, 0, 0b10),
    {
        self.bits(0b10)
    }

    /// Selects the left justified format, MSB first.
    #[must_use]
    pub fn left_justified(self) -> (r: DigitalAudioInterface)
        ensures
            r@ == with_bits(self@, 2, 0, 0b01),
    {
        self.bits(0b01)
    }

    /// Selects the right justified format, MSB first.
    #[must_use]
    pub fn right_justified(self) -> (r: DigitalAudioInterface)
        ensures
            r@ == with_bits(self@, 2, 0, 0b00),
    {
        self.bits(0b00)
    }
}

/// The input word lengths.
#[derive(Debug, Clone, Copy, PartialEq, Eq)]
pub enum IwlV {
    /// Words of 32 bits.
    Iwl32bits,
    /// Words of 24 bits.
    Iwl24bits,
    /// Words of 20 bits.
    Iwl20bits,
    /// Words of 16 bits.
    Iwl16bits,
}

impl IwlV {
    /// The field code that stands for the choice.
    pub open spec fn code(self) -> u8 {
        match self {
            IwlV::Iwl32bits => 0b11,
            IwlV::Iwl24bits => 0b10,
            IwlV::Iwl20bits => 0b01,
            IwlV::Iwl16bits => 0b00,
        }
    }
}

/// Writer of the IWL field, bits 2 and 3: the input audio data word length.
pub struct Iwl {
    cmd: DigitalAudioInterface,
}

impl View for Iwl {
    type V = u16;

    /// The frame that the write starts from.
    closed spec fn view(&self) -> u16 {
        self.cmd@
    }
}

impl Iwl {
    /// Writes raw bits to the field. Of `value` only the low 2 bits count; the bits
    /// above them are dropped.
    #[must_use]
    pub fn bits(self, value: u8) -> (r: DigitalAudioInterface)
        ensures
            r@ == with_bits(self@, 2, 2, value),
    {
        self.cmd.store(2, 2, value)
    }

    /// Writes the code that stands for `value`.
    #[must_use]
    pub fn variant(self, value: IwlV) -> (r: DigitalAudioInterface)
        ensures
            r@ == with_bits(self@, 2, 2, value.code()),
    {
        match value {
            IwlV::Iwl32bits => self.bits(0b11),
            IwlV::Iwl24bits => self.bits(0b10),
            IwlV::Iwl20bits => self.bits(0b01),
            IwlV::Iwl16bits => self.bits(0b00),
        }
    }

    /// Selects words of 32 bits.
    #[must_use]
    pub fn iwl_32_bits(self) -> (r: DigitalAudioInterface)
        ensures
            r@ == with_bits(self@, 2, 2, 0b11),
    {
        self.bits(0b11)
    }

    /// Selects words of 24 bits.
    #[must_use]
    pub fn iwl_24_bits(self) -> (r: DigitalAudioInterface)
        ensures
            r@ == with_bits(self@, 2, 2, 0b10),
    {
        self.bits(0b10)
    }

    /// Selects words of 20 bits.
    #[must_use]
    pub fn iwl_20_bits(self) -> (r: DigitalAudioInterface)
        ensures
            r@ == with_bits(self@, 2, 2, 0b01),
    {
        self.bits(0b01)
    }

    /// Selects words of 16 bits.
    #[must_use]
    pub fn iwl_16_bits(self) -> (r: DigitalAudioInterface)
        ensures
            r@ == with_bits(self@, 2, 2, 0b00),
    {
        self.bits(0b00)
    }
}

/// Writer of bit 4: the phase of the left/right clock.
pub struct Lrp {
    cmd: DigitalAudioInterface,
}

impl View for Lrp {
    type V = u16;

    /// The frame that the write starts from.
    closed spec fn view(&self) -> u16 {
        self.cmd@
    }
}

impl Lrp {
    /// Writes `value` to the bit.
    #[must_use]
    pub fn bit(self, value: bool) -> (r: DigitalAudioInterface)
        ensures
            r@ == with_bit(self@, 4, value),
    {
        self.cmd.assign(4, value)
    }

    /// Clears the bit.
    #[must_use]
    pub fn clear_bit(self) -> (r: DigitalAudioInterface)
        ensures
            r@ == with_bit_clear(self@, 4),
    {
        self.cmd.lower(4)
    }

    /// Sets the bit.
    #[must_use]
    pub fn set_bit(self) -> (r: DigitalAudioInterface)
        ensures
            r@ == with_bit_set(self@, 4),
    {
        self.cmd.raise(4)
    }
}

/// Writer of bit 5: swap of the left and right channel of the DAC.
pub struct Lrswap {
    cmd: DigitalAudioInterface,
}

impl View for Lrswap {
    type V = u16;

    /// The frame that the write starts from.
    closed spec fn view(&self) -> u16 {
        self.cmd@
    }
}

impl Lrswap {
    /// Writes `value` to the bit.
    #[must_use]
    pub fn bit(self, value: bool) -> (r: DigitalAudioInterface)
        ensures
            r@ == with_bit(self@, 5, value),
    {
        self.cmd.assign(5, value)
    }

    /// Swaps the channels.
    #[must_use]
    pub fn set_bit(self) -> (r: DigitalAudioInterface)
        ensures
            r@ == with_bit_set(self@, 5),
    {
        self.cmd.raise(5)
    }

    /// Leaves the channels as they come.
    #[must_use]
    pub fn clear_bit(self) -> (r: DigitalAudioInterface)
        ensures
            r@ == with_bit_clear(self@, 5),
    {
        self.cmd.lower(5)
    }

    /// Swaps the channels.
    #[must_use]
    pub fn enable(self) -> (r: DigitalAudioInterface)
        ensures
            r@ == with_bit_set(self@, 5),
    {
        self.cmd.raise(5)
    }

    /// Leaves the channels as they come.
    #[must_use]
    pub fn disable(self) -> (r: DigitalAudioInterface)
        ensures
            r@ == with_bit_clear(self@, 5),
    {
        self.cmd.lower(5)
    }
}

/// The roles that the codec can take on the interface.
#[derive(Debug, Clone, Copy, PartialEq, Eq)]
pub enum MsV {
    /// The codec drives the clocks.
    Master,
    /// The codec takes the clocks.
    Slave,
}

/// Writer of bit 6: whether the codec drives the interface clocks.
pub struct Ms {
    cmd: DigitalAudioInterface,
}

impl View for Ms {
    type V = u16;

    /// The frame that the write starts from.
    closed spec fn view(&self) -> u16 {
        self.cmd@
    }
}

impl Ms {
    /// Writes `value` to the bit.
    #[must_use]
    pub fn bit(self, value: bool) -> (r: DigitalAudioInterface)
        ensures
            r@ == with_bit(self@, 6, value),
    {
        self.cmd.assign(6, value)
    }

    /// Clears the bit: makes the codec take the clocks.
    #[must_use]
    pub fn clear_bit(self) -> (r: DigitalAudioInterface)
        ensures
            r@ == with_bit_clear(self@, 6),
    {
        self.cmd.lower(6)
    }

    /// Sets the bit: makes the codec drive the clocks.
    #[must_use]
    pub fn set_bit(self) -> (r: DigitalAudioInterface)
        ensures
            r@ == with_bit_set(self@, 6),
    {
        self.cmd.raise(6)
    }

    /// Makes the codec drive the clocks.
    #[must_use]
    pub fn master(self) -> (r: DigitalAudioInterface)
        ensures
            r@ == with_bit_set(self@, 6),
    {
        self.cmd.raise(6)
    }

    /// Makes the codec take the clocks.
    #[must_use]
    pub fn slave(self) -> (r: DigitalAudioInterface)
        ensures
            r@ == with_bit_clear(self@, 6),
    {
        self.cmd.lower(6)
    }

    /// Writes the bit that stands for `value`.
    #[must_use]
    pub fn variant(self, value: MsV) -> (r: DigitalAudioInterface)
        ensures
            r@ == with_bit(self@, 6, value is Master),
    {
        match value {
            MsV::Master => self.master(),
            MsV::Slave => self.slave(),
        }
    }
}

/// Writer of bit 7: inversion of the bit clock.
pub struct Bclkinv {
    cmd: DigitalAudioInterface,
}

impl View for Bclkinv {
    type V = u16;

    /// The frame that the write starts from.
    closed spec fn view(&self) -> u16 {
        self.cmd@
    }
}

impl Bclkinv {
    /// Writes `value` to the bit.
    #[must_use]
    pub fn bit(self, value: bool) -> (r: DigitalAudioInterface)
        ensures
            r@ == with_bit(self@, 7, value),
    {
        self.cmd.assign(7, value)
    }

    /// Inverts the bit clock.
    #[must_use]
    pub fn set_bit(self) -> (r: DigitalAudioInterface)
        ensures
            r@ == with_bit_set(self@, 7),
    {
        self.cmd.raise(7)
    }

    /// Leaves the bit clock as it is.
    #[must_use]
    pub fn clear_bit(self) -> (r: DigitalAudioInterface)
        ensures
            r@ == with_bit_clear(self@, 7),
    {
        self.cmd.lower(7)
    }

    /// Inverts the bit clock.
    #[must_use]
    pub fn enable(self) -> (r: DigitalAudioInterface)
        ensures
            r@ == with_bit_set(self@, 7),
    {
        self.cmd.raise(7)
    }

    /// Leaves the bit clock as it is.
    #[must_use]
    pub fn disable(self) -> (r: DigitalAudioInterface)
        ensures
            r@ == with_bit_clear(self@, 7),
    {
        self.cmd.lower(7)
    }
}

} // verus!
