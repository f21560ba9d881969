//! Headphone output configuration: volume of one channel, zero-cross detection, and
//! whether the other channel follows.
use core::marker::PhantomData;
use crate::command::{Channel, Command, Left, Right};
use crate::field::{
    address_of, clear_bit, frame_of, lemma_bit_keeps_address, lemma_bits_keep_address, set_bit,
    with_bit, with_bit_clear, with_bit_set, with_bits, write_bit, write_bits,
};
use crate::register::Register;
use vstd::prelude::*;

verus! {

/// Headphone output configuration builder.
#[derive(Debug, PartialEq, Eq)]
pub struct HeadphoneOut<CHANNEL: Channel> {
    data: u16,
    channel: PhantomData<CHANNEL>,
}

impl<CHANNEL: Channel> Copy for HeadphoneOut<CHANNEL> {}

impl<CHANNEL: Channel> Clone for HeadphoneOut<CHANNEL> {
    fn clone(&self) -> (r: Self)
        ensures
            r == *self,
    {
        *self
    }
}

impl<CHANNEL: Channel> View for HeadphoneOut<CHANNEL> {
    type V = u16;

    /// The frame built so far: address in bits 15 to 9, payload in bits 8 to 0.
    closed spec fn view(&self) -> u16 {
        self.data
    }
}

/// Left headphone output configuration builder.
pub type LeftHeadphoneOut = HeadphoneOut<Left>;

/// Right headphone output configuration builder.
pub type RightHeadphoneOut = HeadphoneOut<Right>;

/// Instantiates a builder for the left headphone output configuration.
pub fn left_headphone_out() -> (r: LeftHeadphoneOut)
    ensures
        r@ == Register::LeftHeadphoneOut.reset_frame_spec(),
        r@ == frame_of(0x2, 0b0_0111_1001),
{
    LeftHeadphoneOut::new()
}

/// Instantiates a builder for the right headphone output configuration.
pub fn right_headphone_out() -> (r: RightHeadphoneOut)
    ensures
        r@ == Register::RightHeadphoneOut.reset_frame_spec(),
        r@ == frame_of(0x3, 0b0_0111_1001),
{
    RightHeadphoneOut::new()
}

impl HeadphoneOut<Left> {
    /// A builder that holds the register's power-on content.
    fn new() -> (r: Self)
        ensures
            r@ == Register::LeftHeadphoneOut.reset_frame_spec(),
            r@ == frame_of(0x2, 0b0_0111_1001),
    {
        let data = Register::LeftHeadphoneOut.reset_frame();
        HeadphoneOut { data, channel: PhantomData }
    }
}

impl HeadphoneOut<Right> {
    /// A builder that holds the register's power-on content.
    fn new() -> (r: Self)
        ensures
            r@ == Register::RightHeadphoneOut.reset_frame_spec(),
            r@ == frame_of(0x3, 0b0_0111_1001),
    {
        let data = Register::RightHeadphoneOut.reset_frame();
        HeadphoneOut { data, channel: PhantomData }
    }
}

impl<CHANNEL: Channel> HeadphoneOut<CHANNEL> {
    /// The frame always names the register that the builder was made for.
    #[verifier::type_invariant]
    spec fn addressed(self) -> bool {
        address_of(self.data) == 0x2 + CHANNEL::index()
    }

    /// Stores `value` in the field of `len` bits at offset `shift`.
    fn store(self, len: u16, shift: u16, value: u8) -> (r: Self)
        requires
            len + shift <= 9,
        ensures
            r@ == with_bits(self@, len, shift, value),
    {
        proof {
            use_type_invariant(self);
            lemma_bits_keep_address(self.data, len, shift, value);
        }
        let data = write_bits(self.data, len, shift, value);
        HeadphoneOut { data, channel: PhantomData }
    }

    /// Makes the bit at `pos` equal to `value`.
    fn assign(self, pos: u16, value: bool) -> (r: Self)
        requires
            pos < 9,
        ensures
            r@ == with_bit(self@, pos, value),
    {
        proof {
            use_type_invariant(self);
            lemma_bit_keeps_address(self.data, pos);
        }
        let data = write_bit(self.data, pos, value);
        HeadphoneOut { data, channel: PhantomData }
    }

    /// Sets the bit at `pos`.
    fn raise(self, pos: u16) -> (r: Self)
        requires
            pos < 9,
        ensures
            r@ == with_bit_set(self@, pos),
    {
        proof {
            use_type_invariant(self);
            lemma_bit_keeps_address(self.data, pos);
        }
        let data = set_bit(self.data, pos);
        HeadphoneOut { data, channel: PhantomData }
    }

    /// Clears the bit at `pos`.
    fn lower(self, pos: u16) -> (r: Self)
        requires
            pos < 9,
        ensures
            r@ == with_bit_clear(self@, pos),
    {
        proof {
            use_type_invariant(self);
            lemma_bit_keeps_address(self.data, pos);
        }
        let data = clear_bit(self.data, pos);
        HeadphoneOut { data, channel: PhantomData }
    }

    /// The writer of the volume field.
    pub fn hpvol(self) -> (w: Hpvol<CHANNEL>)
        ensures
            w@ == self@,
    {
        Hpvol { cmd: self }
    }

    /// The writer of the zero-cross detection bit.
    pub fn zcen(self) -> (w: Zcen<CHANNEL>)
        ensures
            w@ == self@,
    {
        Zcen { cmd: self }
    }

    /// The writer of the bit that makes both channels take this volume and zero-cross setting.
    pub fn hpboth(self) -> (w: Hpboth<CHANNEL>)
        ensures
            w@ == self@,
    {
        Hpboth { cmd: self }
    }

    /// Ends the building: the command that carries the frame built so far.
    /// Its address is the one the builder started with.
    pub fn into_command(self) -> (c: Command<()>)
        ensures
            c@ == self@,
            address_of(c@) == 0x2 + CHANNEL::index(),
    {
        proof {
            use_type_invariant(self);
        }
        Command::from_raw(self.data)
    }
}

/// A headphone output volume: a whole number of decibels from -73 dB to +6 dB,
/// or mute.
#[derive(Debug, Clone, Copy, PartialEq, Eq)]
pub struct HpVoldB {
    inner: u8,
}

impl HpVoldB {
    /// The code fits the seven bits of the volume field.
    #[verifier::type_invariant]
    spec fn fits(self) -> bool {
        self.inner <= 0x7f
    }

    /// The field code that stands for the volume: 121 for 0 dB, one more for
    /// each decibel above and one less for each decibel below, and 47 for mute.
    pub closed spec fn code(self) -> u8 {
        self.inner
    }

    /// The output muted.
    pub fn mute() -> (v: Self)
        ensures
            v.code() == 0b010_1111,
    {
        HpVoldB { inner: 0b010_1111 }
    }

    /// The volume of `db` decibels, where the codec has such a step: from
    /// -73 dB, code `0b011_0000`, to +6 dB, code `0b111_1111`.
    pub fn from_db(db: i8) -> (v: Option<Self>)
        ensures
            v is Some <==> -73 <= db <= 6,
            v is Some ==> v->0.code() == 121 + db,
    {
        if -73 <= db && db <= 6 {
            let inner: u8 = (121 + db) as u8;
            Some(HpVoldB { inner })
        } else {
            None
        }
    }

    /// The field code that stands for the volume.
    pub fn into_raw(self) -> (r: u8)
        ensures
            r == self.code(),
            r <= 0x7f,
    {
        proof {
            use_type_invariant(self);
        }
        self.inner
    }
}

/// Writer of the LHPVOL or RHPVOL field, bits 0 to 6: the headphone output volume.
pub struct Hpvol<CHANNEL: Channel> {
    cmd: HeadphoneOut<CHANNEL>,
}

impl<CHANNEL: Channel> View for Hpvol<CHANNEL> {
    type V = u16;

    /// The frame that the write starts from.
    closed spec fn view(&self) -> u16 {
        self.cmd@
    }
}

impl<CHANNEL: Channel> Hpvol<CHANNEL> {
    /// Writes raw bits to the field. Of `value` only the low 7 bits count; the bits
    /// above them are dropped.
    #[must_use]
    pub fn bits(self, value: u8) -> (r: HeadphoneOut<CHANNEL>)
        ensures
            r@ == with_bits(self@, 7, 0, value),
    {
        self.cmd.store(7, 0, value)
    }

    /// Writes the volume given in decibels.
    #[must_use]
    pub fn db(self, volume: HpVoldB) -> (r: HeadphoneOut<CHANNEL>)
        ensures
            r@ == with_bits(self@, 7, 0, volume.code()),
    {
        self.bits(volume.into_raw())
    }


}

/// Writer of bit 7: zero-cross detection, which delays a volume change until the signal
/// crosses zero.
pub struct Zcen<CHANNEL: Channel> {
    cmd: HeadphoneOut<CHANNEL>,
}

impl<CHANNEL: Channel> View for Zcen<CHANNEL> {
    type V = u16;

    /// The frame that the write starts from.
    closed spec fn view(&self) -> u16 {
        self.cmd@
    }
}

impl<CHANNEL: Channel> Zcen<CHANNEL> {
    /// Writes `value` to the bit.
    #[must_use]
    pub fn bit(self, value: bool) -> (r: HeadphoneOut<CHANNEL>)
        ensures
            r@ == with_bit(self@, 7, value),
    {
        self.cmd.assign(7, value)
    }

    /// Switches zero-cross detection on.
    #[must_use]
    pub fn set_bit(self) -> (r: HeadphoneOut<CHANNEL>)
        ensures
            r@ == with_bit_set(self@, 7),
    {
        self.cmd.raise(7)
    }

    /// Switches zero-cross detection off.
    #[must_use]
    pub fn clear_bit(self) -> (r: HeadphoneOut<CHANNEL>)
        ensures
            r@ == with_bit_clear(self@, 7),
    {
        self.cmd.lower(7)
    }

    /// Switches zero-cross detection on.
    #[must_use]
    pub fn enable(self) -> (r: HeadphoneOut<CHANNEL>)
        ensures
            r@ == with_bit_set(self@, 7),
    {
        self.cmd.raise(7)
    }

    /// Switches zero-cross detection off.
    #[must_use]
    pub fn disable(self) -> (r: HeadphoneOut<CHANNEL>)
        ensures
            r@ == with_bit_clear(self@, 7),
    {
        self.cmd.lower(7)
    }
}

/// Writer of bit 8: load of volume and zero-cross setting into both channels at once.
pub struct Hpboth<CHANNEL: Channel> {
    cmd: HeadphoneOut<CHANNEL>,
}

impl<CHANNEL: Channel> View for Hpboth<CHANNEL> {
    type V = u16;

    /// The frame that the write starts from.
    closed spec fn view(&self) -> u16 {
        self.cmd@
    }
}

impl<CHANNEL: Channel> Hpboth<CHANNEL> {
    /// Writes `value` to the bit.
    #[must_use]
    pub fn bit(self, value: bool) -> (r: HeadphoneOut<CHANNEL>)
        ensures
            r@ == with_bit(self@, 8, value),
    {
        self.cmd.assign(8, value)
    }

    /// Makes the write reach both channels.
    #[must_use]
    pub fn set_bit(self) -> (r: HeadphoneOut<CHANNEL>)
        ensures
            r@ == with_bit_set(self@, 8),
    {
        self.cmd.raise(8)
    }

    /// Makes the write reach this channel only.
    #[must_use]
    pub fn clear_bit(self) -> (r: HeadphoneOut<CHANNEL>)
        ensures
            r@ == with_bit_clear(self@, 8),
    {
        self.cmd.lower(8)
    }

    /// Makes the write reach both channels.
    #[must_use]
    pub fn enable(self) -> (r: HeadphoneOut<CHANNEL>)
        ensures
            r@ == with_bit_set(self@, 8),
    {
        self.cmd.raise(8)
    }

    /// Makes the write reach this channel only.
    #[must_use]
    pub fn disable(self) -> (r: HeadphoneOut<CHANNEL>)
        ensures
            r@ == with_bit_clear(self@, 8),
    {
        self.cmd.lower(8)
    }
}

} // verus!
