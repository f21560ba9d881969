//! Line input configuration: volume and mute of one channel, and whether the other
//! channel follows.
use core::marker::PhantomData;
use crate::command::{Channel, Command, Left, Right};
use crate::field::{
    address_of, clear_bit, frame_of, lemma_bit_keeps_address, lemma_bits_keep_address, set_bit,
    with_bit, with_bit_clear, with_bit_set, with_bits, write_bit, write_bits,
};
use crate::register::Register;
use vstd::prelude::*;

verus! {

/// Line input configuration builder.
#[derive(Debug, PartialEq, Eq)]
pub struct LineIn<CHANNEL: Channel> {
    data: u16,
    channel: PhantomData<CHANNEL>,
}

impl<CHANNEL: Channel> Copy for LineIn<CHANNEL> {}

impl<CHANNEL: Channel> Clone for LineIn<CHANNEL> {
    fn clone(&self) -> (r: Self)
        ensures
            r == *self,
    {
        *self
    }
}

impl<CHANNEL: Channel> View for LineIn<CHANNEL> {
    type V = u16;

    /// The frame built so far: address in bits 15 to 9, payload in bits 8 to 0.
    closed spec fn view(&self) -> u16 {
        self.data
    }
}

/// Left line input configuration builder.
pub type LeftLineIn = LineIn<Left>;

/// Right line input configuration builder.
pub type RightLineIn = LineIn<Right>;

/// Instantiates a builder for the left line input configuration.
pub fn left_line_in() -> (r: LeftLineIn)
    ensures
        r@ == Register::LeftLineIn.reset_frame_spec(),
        r@ == frame_of(0x0, 0b0_1001_0111),
{
    LeftLineIn::new()
}

/// Instantiates a builder for the right line input configuration.
pub fn right_line_in() -> (r: RightLineIn)
    ensures
        r@ == Register::RightLineIn.reset_frame_spec(),
        r@ == frame_of(0x1, 0b0_1001_0111),
{
    RightLineIn::new()
}

impl LineIn<Left> {
    /// A builder that holds the register's power-on content.
    pub fn new() -> (r: Self)
        ensures
            r@ == Register::LeftLineIn.reset_frame_spec(),
            r@ == frame_of(0x0, 0b0_1001_0111),
    {
        let data = Register::LeftLineIn.reset_frame();
        LineIn { data, channel: PhantomData }
    }
}

impl LineIn<Right> {
    /// A builder that holds the register's power-on content.
    pub fn new() -> (r: Self)
        ensures
            r@ == Register::RightLineIn.reset_frame_spec(),
            r@ == frame_of(0x1, 0b0_1001_0111),
    {
        let data = Register::RightLineIn.reset_frame();
        LineIn { data, channel: PhantomData }
    }
}

impl<CHANNEL: Channel> LineIn<CHANNEL> {
    /// The frame always names the register that the builder was made for.
    #[verifier::type_invariant]
    spec fn addressed(self) -> bool {
        address_of(self.data) == CHANNEL::index()
    }

    /// Stores `value` in the field of `len` bits at offset `shift`.
    fn store(self, len: u16, shift: u16, value: u8) -> (r: Self)
        requires
            len + shift <= 9,
        ensures
            r@ == with_bits(self@, len, shift, value),
    {
        proof {
            use_type_invariant(self);
            lemma_bits_keep_address(self.data, len, shift, value);
        }
        let data = write_bits(self.data, len, shift, value);
        LineIn { data, channel: PhantomData }
    }

    /// Makes the bit at `pos` equal to `value`.
    fn assign(self, pos: u16, value: bool) -> (r: Self)
        requires
            pos < 9,
        ensures
            r@ == with_bit(self@, pos, value),
    {
        proof {
            use_type_invariant(self);
            lemma_bit_keeps_address(self.data, pos);
        }
        let data = write_bit(self.data, pos, value);
        LineIn { data, channel: PhantomData }
    }

    /// Sets the bit at `pos`.
    fn raise(self, pos: u16) -> (r: Self)
        requires
            pos < 9,
        ensures
            r@ == with_bit_set(self@, pos),
    {
        proof {
            use_type_invariant(self);
            lemma_bit_keeps_address(self.data, pos);
        }
        let data = set_bit(self.data, pos);
        LineIn { data, channel: PhantomData }
    }

    /// Clears the bit at `pos`.
    fn lower(self, pos: u16) -> (r: Self)
        requires
            pos < 9,
        ensures
            r@ == with_bit_clear(self@, pos),
    {
        proof {
            use_type_invariant(self);
            lemma_bit_keeps_address(self.data, pos);
        }
        let data = clear_bit(self.data, pos);
        LineIn { data, channel: PhantomData }
    }

    /// The writer of the volume field.
    pub fn invol(self) -> (w: Invol<CHANNEL>)
        ensures
            w@ == self@,
    {
        Invol { cmd: self }
    }

    /// The writer of the mute bit.
    pub fn inmute(self) -> (w: Inmute<CHANNEL>)
        ensures
            w@ == self@,
    {
        Inmute { cmd: self }
    }

    /// The writer of the bit that makes both channels take this volume and mute.
    pub fn inboth(self) -> (w: Inboth<CHANNEL>)
        ensures
            w@ == self@,
    {
        Inboth { cmd: self }
    }

    /// Ends the building: the command that carries the frame built so far.
    /// Its address is the one the builder started with.
    pub fn into_command(self) -> (c: Command<()>)
        ensures
            c@ == self@,
            address_of(c@) == CHANNEL::index(),
    {
        proof {
            use_type_invariant(self);
        }
        Command::from_raw(self.data)
    }
}

/// A line input volume: a whole number of steps of 1.5 dB, from 23 steps below
/// 0 dB (-34.5 dB) to 8 steps above (+12 dB).
#[derive(Debug, Clone, Copy, PartialEq, Eq)]
pub struct InVoldB {
    inner: u8,
}

impl InVoldB {
    /// The code fits the five bits of the volume field.
    #[verifier::type_invariant]
    spec fn fits(self) -> bool {
        self.inner <= 0x1f
    }

    /// The field code that stands for the volume: 23 for 0 dB, one more for
    /// each step above and one less for each step below.
    pub closed spec fn code(self) -> u8 {
        self.inner
    }

    /// The volume in tenths of a decibel.
    pub open spec fn tenths_of_db(self) -> int {
        15 * (self.code() - 23)
    }

    /// The volume that lies `steps` steps of 1.5 dB above 0 dB, or below for
    /// a negative number, where the codec has such a step: from -23, code
    /// `0b0_0000`, to 8, code `0b1_1111`.
    pub fn from_steps(steps: i8) -> (v: Option<Self>)
        ensures
            v is Some <==> -23 <= steps <= 8,
            v is Some ==> v->0.code() == 23 + steps,
    {
        if -23 <= steps && steps <= 8 {
            let inner: u8 = (23 + steps) as u8;
            Some(InVoldB { inner })
        } else {
            None
        }
    }

    /// The field code that stands for the volume.
    pub fn into_raw(self) -> (r: u8)
        ensures
            r == self.code(),
            r <= 0x1f,
    {
        proof {
            use_type_invariant(self);
        }
        self.inner
    }
}

/// Writer of the LINVOL or RINVOL field, bits 0 to 4: the line input volume.
pub struct Invol<CHANNEL: Channel> {
    cmd: LineIn<CHANNEL>,
}

impl<CHANNEL: Channel> View for Invol<CHANNEL> {
    type V = u16;

    /// The frame that the write starts from.
    closed spec fn view(&self) -> u16 {
        self.cmd@
    }
}

impl<CHANNEL: Channel> Invol<CHANNEL> {
    /// Writes raw bits to the field. Of `value` only the low 5 bits count; the bits
    /// above them are dropped.
    #[must_use]
    pub fn bits(self, value: u8) -> (r: LineIn<CHANNEL>)
        ensures
            r@ == with_bits(self@, 5, 0, value),
    {
        self.cmd.store(5, 0, value)
    }

    /// Writes the volume given in steps of 1.5 dB.
    #[must_use]
    pub fn db(self, volume: InVoldB) -> (r: LineIn<CHANNEL>)
        ensures
            r@ == with_bits(self@, 5, 0, volume.code()),
    {
        self.bits(volume.into_raw())
    }


}

/// Writer of bit 7: mute of the line input.
pub struct Inmute<CHANNEL: Channel> {
    cmd: LineIn<CHANNEL>,
}

impl<CHANNEL: Channel> View for Inmute<CHANNEL> {
    type V = u16;

    /// The frame that the write starts from.
    closed spec fn view(&self) -> u16 {
        self.cmd@
    }
}

impl<CHANNEL: Channel> Inmute<CHANNEL> {
    /// Writes `value` to the bit.
    #[must_use]
    pub fn bit(self, value: bool) -> (r: LineIn<CHANNEL>)
        ensures
            r@ == with_bit(self@, 7, value),
    {
        self.cmd.assign(7, value)
    }

    /// Mutes the input.
    #[must_use]
    pub fn set_bit(self) -> (r: LineIn<CHANNEL>)
        ensures
            r@ == with_bit_set(self@, 7),
    {
        self.cmd.raise(7)
    }

    /// Lets the input through.
    #[must_use]
    pub fn clear_bit(self) -> (r: LineIn<CHANNEL>)
        ensures
            r@ == with_bit_clear(self@, 7),
    {
        self.cmd.lower(7)
    }

    /// Mutes the input.
    #[must_use]
    pub fn enable(self) -> (r: LineIn<CHANNEL>)
        ensures
            r@ == with_bit_set(self@, 7),
    {
        self.cmd.raise(7)
    }

    /// Lets the input through.
    #[must_use]
    pub fn disable(self) -> (r: LineIn<CHANNEL>)
        ensures
            r@ == with_bit_clear(self@, 7),
    {
        self.cmd.lower(7)
    }
}

/// Writer of bit 8: load of volume and mute into both channels at once.
pub struct Inboth<CHANNEL: Channel> {
    cmd: LineIn<CHANNEL>,
}

impl<CHANNEL: Channel> View for Inboth<CHANNEL> {
    type V = u16;

    /// The frame that the write starts from.
    closed spec fn view(&self) -> u16 {
        self.cmd@
    }
}

impl<CHANNEL: Channel> Inboth<CHANNEL> {
    /// Writes `value` to the bit.
    #[must_use]
    pub fn bit(self, value: bool) -> (r: LineIn<CHANNEL>)
        ensures
            r@ == with_bit(self@, 8, value),
    {
        self.cmd.assign(8, value)
    }

    /// Makes the write reach both channels.
    #[must_use]
    pub fn set_bit(self) -> (r: LineIn<CHANNEL>)
        ensures
            r@ == with_bit_set(self@, 8),
    {
        self.cmd.raise(8)
    }

    /// Makes the write reach this channel only.
    #[must_use]
    pub fn clear_bit(self) -> (r: LineIn<CHANNEL>)
        ensures
            r@ == with_bit_clear(self@, 8),
    {
        self.cmd.lower(8)
    }

    /// Makes the write reach both channels.
    #[must_use]
    pub fn enable(self) -> (r: LineIn<CHANNEL>)
        ensures
            r@ == with_bit_set(self@, 8),
    {
        self.cmd.raise(8)
    }

    /// Makes the write reach this channel only.
    #[must_use]
    pub fn disable(self) -> (r: LineIn<CHANNEL>)
        ensures
            r@ == with_bit_clear(self@, 8),
    {
        self.cmd.lower(8)
    }
}

} // verus!
