//! Command builder for the sampling configuration.
//!
//! There are two ways to build the command.
//!
//! With a master clock: the builder is made with a marker for the frequency
//! of the master clock, one of `Mclk12M288`, `Mclk18M432`, `Mclk11M2896`,
//! `Mclk16M9344` and `Mclk12M`. The mode bit, the oversampling bit and the
//! sample rate field are then written together, through the virtual field
//! `SampleRate`, which offers the rates that the clock can give.
//!
//! Raw: the mode bit, the oversampling bit and the sample rate field are
//! written one by one. The mode and the oversampling bit come first, each
//! once; the sample rate comes after them, and cannot be left out. The writer
//! of the sample rate names its methods by the code that they write, since
//! one code gives different rates with different master clocks.
//!
//! The markers in the builder's type record what was written. The builder
//! offers a write only in the states in which
//! [`offered`](crate::sampling_state::offered) holds, and hands out the
//! command only where [`can_finalize`](crate::sampling_state::can_finalize)
//! holds.
use crate::command::Command;
use crate::field::{
    address_of, clear_bit, frame_of, lemma_bit_keeps_address, lemma_bits_keep_address, set_bit,
    with_bit, with_bit_clear, with_bit_set, with_bits, write_bit, write_bits,
};
use crate::register::Register;
use crate::sampling_state::{
    can_finalize, documented_code, documented_rate_code, initial_state, offered, state_after,
    BosrState, ModeState, SamplingOp, SamplingState, SrState,
};
use core::marker::PhantomData;
use vstd::prelude::*;

verus! {

/// A marker that can stand in the first place of a raw builder's state.
pub trait ModeMarker {
    /// What the marker says of the mode bit.
    spec fn mode() -> ModeState;
}

/// A marker that can stand in the second place of a raw builder's state.
pub trait BosrMarker {
    /// What the marker says of the base oversampling rate bit.
    spec fn bosr() -> BosrState;
}

/// A marker that can stand in the last place of a builder's state.
pub trait SrMarker {
    /// What the marker says of the sample rate.
    spec fn sr() -> SrState;
}

/// A marker of the base oversampling rate bit that says that the bit was
/// written.
pub trait IsSet: BosrMarker {
    /// The marker does not stand for a bit that is still to be written.
    proof fn lemma_is_set()
        ensures
            !(Self::bosr() is Unset),
    ;
}

/// A marker that stands for a master clock.
pub trait Mclk {
    /// Whether the clock is the 12 MHz clock of USB mode.
    spec fn usb() -> bool;
}

/// Marker used to indicate normal mode.
#[derive(Debug, PartialEq, Eq)]
pub struct Normal;

/// Marker used to indicate USB mode.
#[derive(Debug, PartialEq, Eq)]
pub struct Usb;

/// Marker used to indicate that the BOSR bit is set.
#[derive(Debug, PartialEq, Eq)]
pub struct BosrIsSet;

/// Marker used to indicate that the BOSR bit is clear.
#[derive(Debug, PartialEq, Eq)]
pub struct BosrIsClear;

/// Marker used to indicate that the sample rate was written.
#[derive(Debug, PartialEq, Eq)]
pub struct SrIsSet;

/// Marker used to indicate something that is still to be written.
#[derive(Debug, PartialEq, Eq)]
pub struct Unset;

/// Marker for a master clock of 12.288 MHz (normal mode).
#[derive(Debug, PartialEq, Eq)]
pub struct Mclk12M288;

/// Marker for a master clock of 18.432 MHz (normal mode).
#[derive(Debug, PartialEq, Eq)]
pub struct Mclk18M432;

/// Marker for a master clock of 11.2896 MHz (normal mode).
#[derive(Debug, PartialEq, Eq)]
pub struct Mclk11M2896;

/// Marker for a master clock of 16.9344 MHz (normal mode).
#[derive(Debug, PartialEq, Eq)]
pub struct Mclk16M9344;

/// Marker for a master clock of 12 MHz (USB mode).
#[derive(Debug, PartialEq, Eq)]
pub struct Mclk12M;

impl ModeMarker for Unset {
    open spec fn mode() -> ModeState {
        ModeState::Unset
    }
}

impl ModeMarker for Normal {
    open spec fn mode() -> ModeState {
        ModeState::Normal
    }
}

impl ModeMarker for Usb {
    open spec fn mode() -> ModeState {
        ModeState::Usb
    }
}

impl BosrMarker for Unset {
    open spec fn bosr() -> BosrState {
        BosrState::Unset
    }
}

impl BosrMarker for BosrIsClear {
    open spec fn bosr() -> BosrState {
        BosrState::IsClear
    }
}

impl BosrMarker for BosrIsSet {
    open spec fn bosr() -> BosrState {
        BosrState::IsSet
    }
}

impl SrMarker for Unset {
    open spec fn sr() -> SrState {
        SrState::Unset
    }
}

impl SrMarker for SrIsSet {
    open spec fn sr() -> SrState {
        SrState::IsSet
    }
}

impl IsSet for BosrIsClear {
    proof fn lemma_is_set() {
    }
}

impl IsSet for BosrIsSet {
    proof fn lemma_is_set() {
    }
}

impl Mclk for Mclk12M288 {
    open spec fn usb() -> bool {
        false
    }
}

impl Mclk for Mclk18M432 {
    open spec fn usb() -> bool {
        false
    }
}

impl Mclk for Mclk11M2896 {
    open spec fn usb() -> bool {
        false
    }
}

impl Mclk for Mclk16M9344 {
    open spec fn usb() -> bool {
        false
    }
}

impl Mclk for Mclk12M {
    open spec fn usb() -> bool {
        true
    }
}

/// The state that the three markers of a raw builder stand for.
pub open spec fn state_of<MODE: ModeMarker, BOSR: BosrMarker, SR: SrMarker>() -> SamplingState {
    SamplingState { mode: MODE::mode(), bosr: BOSR::bosr(), sr: SR::sr() }
}

/// Builder for the sampling command. The markers in `T` record what was
/// written: three of them for a raw builder, a master clock and one more for
/// a builder with a master clock.
#[derive(Debug, PartialEq, Eq)]
pub struct Sampling<T> {
    data: u16,
    t: PhantomData<T>,
}

impl<T> Copy for Sampling<T> {}

impl<T> Clone for Sampling<T> {
    fn clone(&self) -> (r: Self)
        ensures
            r == *self,
    {
        *self
    }
}

impl<T> View for Sampling<T> {
    type V = u16;

    /// The frame built so far: address in bits 15 to 9, payload in bits 8 to 0.
    closed spec fn view(&self) -> u16 {
        self.data
    }
}

/// Instantiates a raw command builder for the sampling configuration.
pub fn sampling_command_builder() -> (r: Sampling<(Unset, Unset, Unset)>)
    ensures
        r@ == Register::Sampling.reset_frame_spec(),
        r@ == frame_of(0x8, 0b0_0000_0000),
        r.state() == initial_state(),
{
    Sampling::<(Unset, Unset, Unset)>::new()
}

/// Instantiates a command builder for the sampling configuration under the
/// master clock that the marker names.
pub fn sampling_command_builder_mclk<MCLK: Mclk>(_mclk: MCLK) -> (r: Sampling<(MCLK, Unset)>)
    ensures
        r@ == Register::Sampling.reset_frame_spec(),
        r@ == frame_of(0x8, 0b0_0000_0000),
        !r.rate_selected(),
{
    let data = Register::Sampling.reset_frame();
    Sampling { data, t: PhantomData }
}

impl<T> Sampling<T> {
    /// The frame always names the register that the builder was made for.
    #[verifier::type_invariant]
    spec fn addressed(self) -> bool {
        address_of(self.data) == 0x8
    }

    /// Stores `value` in the field of `len` bits at offset `shift`.
    fn store(self, len: u16, shift: u16, value: u8) -> (r: Self)
        requires
            len + shift <= 9,
        ensures
            r@ == with_bits(self@, len, shift, value),
    {
        proof {
            use_type_invariant(self);
            lemma_bits_keep_address(self.data, len, shift, value);
        }
        let data = write_bits(self.data, len, shift, value);
        Sampling { data, t: PhantomData }
    }

    /// Makes the bit at `pos` equal to `value`.
    fn assign(self, pos: u16, value: bool) -> (r: Self)
        requires
            pos < 9,
        ensures
            r@ == with_bit(self@, pos, value),
    {
        proof {
            use_type_invariant(self);
            lemma_bit_keeps_address(self.data, pos);
        }
        let data = write_bit(self.data, pos, value);
        Sampling { data, t: PhantomData }
    }

    /// Sets the bit at `pos`.
    fn raise(self, pos: u16) -> (r: Self)
        requires
            pos < 9,
        ensures
            r@ == with_bit_set(self@, pos),
    {
        proof {
            use_type_invariant(self);
            lemma_bit_keeps_address(self.data, pos);
        }
        let data = set_bit(self.data, pos);
        Sampling { data, t: PhantomData }
    }

    /// Clears the bit at `pos`.
    fn lower(self, pos: u16) -> (r: Self)
        requires
            pos < 9,
        ensures
            r@ == with_bit_clear(self@, pos),
    {
        proof {
            use_type_invariant(self);
            lemma_bit_keeps_address(self.data, pos);
        }
        let data = clear_bit(self.data, pos);
        Sampling { data, t: PhantomData }
    }

    /// The same frame under other markers.
    fn retag<U>(self) -> (r: Sampling<U>)
        ensures
            r@ == self@,
    {
        proof {
            use_type_invariant(self);
        }
        Sampling { data: self.data, t: PhantomData }
    }

    /// The writer of the bit that halves the core clock. It can be written
    /// in every state.
    pub fn clkidiv2(self) -> (w: Clkidiv2<T>)
        ensures
            w@ == self@,
    {
        Clkidiv2 { cmd: self }
    }

    /// The writer of the bit that halves the output clock. It can be written
    /// in every state.
    pub fn clkodiv2(self) -> (w: Clkodiv2<T>)
        ensures
            w@ == self@,
    {
        Clkodiv2 { cmd: self }
    }
}

impl Sampling<(Unset, Unset, Unset)> {
    /// A raw builder that holds the register's power-on content, with
    /// nothing written.
    pub fn new() -> (r: Self)
        ensures
            r@ == Register::Sampling.reset_frame_spec(),
            r@ == frame_of(0x8, 0b0_0000_0000),
            r.state() == initial_state(),
    {
        let data = Register::Sampling.reset_frame();
        Sampling { data, t: PhantomData }
    }
}

impl<MODE: ModeMarker, BOSR: BosrMarker, SR: SrMarker> Sampling<(MODE, BOSR, SR)> {
    /// The state that the markers of the builder stand for.
    pub open spec fn state(&self) -> SamplingState {
        state_of::<MODE, BOSR, SR>()
    }
}

impl<MCLK: Mclk, SR: SrMarker> Sampling<(MCLK, SR)> {
    /// Whether a sample rate was selected.
    pub open spec fn rate_selected(&self) -> bool {
        SR::sr() is IsSet
    }

    /// The writer of the virtual field that selects a sample rate of the ADC
    /// and of the DAC.
    pub fn sample_rate(self) -> (w: SampleRate<(MCLK, SR)>)
        ensures
            w@ == self@,
    {
        SampleRate { cmd: self }
    }
}

// Once a sample rate is selected, the command can be had.
impl<MCLK: Mclk> Sampling<(MCLK, SrIsSet)> {
    /// Ends the building: the command that carries the frame built so far.
    pub fn into_command(self) -> (c: Command<()>)
        ensures
            c@ == self@,
            address_of(c@) == 0x8,
            self.rate_selected(),
    {
        proof {
            use_type_invariant(self);
        }
        Command::from_raw(self.data)
    }
}

// Once the sample rate is written, the command can be had.
impl<MODE: ModeMarker, BOSR: BosrMarker> Sampling<(MODE, BOSR, SrIsSet)> {
    /// Ends the building: the command that carries the frame built so far.
    pub fn into_command(self) -> (c: Command<()>)
        ensures
            c@ == self@,
            address_of(c@) == 0x8,
            can_finalize(self.state()),
    {
        proof {
            use_type_invariant(self);
        }
        Command::from_raw(self.data)
    }
}

// The mode can be written once, and not after the sample rate.
impl<BOSR: BosrMarker> Sampling<(Unset, BOSR, Unset)> {
    /// The writer of the mode bit.
    pub fn usb_normal(self) -> (w: UsbNormal<(Unset, BOSR, Unset)>)
        ensures
            w@ == self@,
            w.state() == self.state(),
            forall|usb: bool| offered(self.state(), SamplingOp::WriteMode { usb }),
    {
        UsbNormal { cmd: self }
    }
}

// The oversampling bit can be written once, and not after the sample rate.
impl<MODE: ModeMarker> Sampling<(MODE, Unset, Unset)> {
    /// The writer of the base oversampling rate bit.
    pub fn bosr(self) -> (w: Bosr<(MODE, Unset, Unset)>)
        ensures
            w@ == self@,
            w.state() == self.state(),
            forall|set: bool| offered(self.state(), SamplingOp::WriteBosr { set }),
    {
        Bosr { cmd: self }
    }
}

// In USB mode the oversampling bit decides which sample rates there are, so
// it comes before the sample rate.
impl<BOSR: IsSet, SR: SrMarker> Sampling<(Usb, BOSR, SR)> {
    /// The writer of the sample rate field.
    pub fn sr(self) -> (w: Sr<(Usb, BOSR, SR)>)
        ensures
            w@ == self@,
            w.state() == self.state(),
            forall|code: u8| offered(self.state(), SamplingOp::WriteSr { code }),
    {
        proof {
            BOSR::lemma_is_set();
        }
        Sr { cmd: self }
    }
}

// In normal mode the oversampling bit does not decide which sample rates
// there are, so the sample rate need not wait for it.
impl<BOSR: BosrMarker, SR: SrMarker> Sampling<(Normal, BOSR, SR)> {
    /// The writer of the sample rate field.
    pub fn sr(self) -> (w: Sr<(Normal, BOSR, SR)>)
        ensures
            w@ == self@,
            w.state() == self.state(),
            forall|code: u8| offered(self.state(), SamplingOp::WriteSr { code }),
    {
        Sr { cmd: self }
    }
}

/// Virtual field writer: selects a sample rate of the ADC and of the DAC by name.
///
/// What it writes is the mode bit, the oversampling bit and the sample rate field at once:
/// the low six bits of the payload.
pub struct SampleRate<T> {
    cmd: Sampling<T>,
}

impl<T> View for SampleRate<T> {
    type V = u16;

    /// The frame that the write starts from.
    closed spec fn view(&self) -> u16 {
        self.cmd@
    }
}

impl<MCLK: Mclk, SR: SrMarker> SampleRate<(MCLK, SR)> {
    /// Writes the mode bit, the oversampling bit and the sample rate field:
    /// the low six bits of `value` become the low six bits of the payload.
    fn bits(self, value: u8) -> (r: Sampling<(MCLK, SrIsSet)>)
        ensures
            r@ == with_bits(self@, 6, 0, value),
            r.rate_selected(),
    {
        self.cmd.store(6, 0, value).retag()
    }
}

impl<SR: SrMarker> SampleRate<(Mclk12M288, SR)> {
    /// Selects 48 kHz for the ADC and for the DAC.
    #[must_use]
    pub fn adc48k_dac48k(self) -> (r: Sampling<(Mclk12M288, SrIsSet)>)
        ensures
            r@ == with_bits(self@, 6, 0, 0b000000),
            r.rate_selected(),
            documented_rate_code(Mclk12M288::usb(), 0b000000),
    {
        self.bits(0b000000)
    }

    /// Selects 48 kHz for the ADC and 8 kHz for the DAC.
    #[must_use]
    pub fn adc48k_dac8k(self) -> (r: Sampling<(Mclk12M288, SrIsSet)>)
        ensures
            r@ == with_bits(self@, 6, 0, 0b000100),
            r.rate_selected(),
            documented_rate_code(Mclk12M288::usb(), 0b000100),
    {
        self.bits(0b000100)
    }

    /// Selects 8 kHz for the ADC and 48 kHz for the DAC.
    #[must_use]
    pub fn adc8k_dac48k(self) -> (r: Sampling<(Mclk12M288, SrIsSet)>)
        ensures
            r@ == with_bits(self@, 6, 0, 0b001000),
            r.rate_selected(),
            documented_rate_code(Mclk12M288::usb(), 0b001000),
    {
        self.bits(0b001000)
    }

    /// Selects 8 kHz for the ADC and for the DAC.
    #[must_use]
    pub fn adc8k_dac8k(self) -> (r: Sampling<(Mclk12M288, SrIsSet)>)
        ensures
            r@ == with_bits(self@, 6, 0, 0b001100),
            r.rate_selected(),
            documented_rate_code(Mclk12M288::usb(), 0b001100),
    {
        self.bits(0b001100)
    }

    /// Selects 32 kHz for the ADC and for the DAC.
    #[must_use]
    pub fn adc32k_dac32k(self) -> (r: Sampling<(Mclk12M288, SrIsSet)>)
        ensures
            r@ == with_bits(self@, 6, 0, 0b011000),
            r.rate_selected(),
            documented_rate_code(Mclk12M288::usb(), 0b011000),
    {
        self.bits(0b011000)
    }

    /// Selects 96 kHz for the ADC and for the DAC.
    #[must_use]
    pub fn adc96k_dac96k(self) -> (r: Sampling<(Mclk12M288, SrIsSet)>)
        ensures
            r@ == with_bits(self@, 6, 0, 0b011100),
            r.rate_selected(),
            documented_rate_code(Mclk12M288::usb(), 0b011100),
    {
        self.bits(0b011100)
    }
}

impl<SR: SrMarker> SampleRate<(Mclk18M432, SR)> {
    /// Selects 48 kHz for the ADC and for the DAC.
    #[must_use]
    pub fn adc48k_dac48k(self) -> (r: Sampling<(Mclk18M432, SrIsSet)>)
        ensures
            r@ == with_bits(self@, 6, 0, 0b000010),
            r.rate_selected(),
            documented_rate_code(Mclk18M432::usb(), 0b000010),
    {
        self.bits(0b000010)
    }

    /// Selects 48 kHz for the ADC and 8 kHz for the DAC.
    #[must_use]
    pub fn adc48k_dac8k(self) -> (r: Sampling<(Mclk18M432, SrIsSet)>)
        ensures
            r@ == with_bits(self@, 6, 0, 0b000110),
            r.rate_selected(),
            documented_rate_code(Mclk18M432::usb(), 0b000110),
    {
        self.bits(0b000110)
    }

    /// Selects 8 kHz for the ADC and 48 kHz for the DAC.
    #[must_use]
    pub fn adc8k_dac48k(self) -> (r: Sampling<(Mclk18M432, SrIsSet)>)
        ensures
            r@ == with_bits(self@, 6, 0, 0b001010),
            r.rate_selected(),
            documented_rate_code(Mclk18M432::usb(), 0b001010),
    {
        self.bits(0b001010)
    }

    /// Selects 8 kHz for the ADC and for the DAC.
    #[must_use]
    pub fn adc8k_dac8k(self) -> (r: Sampling<(Mclk18M432, SrIsSet)>)
        ensures
            r@ == with_bits(self@, 6, 0, 0b001110),
            r.rate_selected(),
            documented_rate_code(Mclk18M432::usb(), 0b001110),
    {
        self.bits(0b001110)
    }

    /// Selects 32 kHz for the ADC and for the DAC.
    #[must_use]
    pub fn adc32k_dac32k(self) -> (r: Sampling<(Mclk18M432, SrIsSet)>)
        ensures
            r@ == with_bits(self@, 6, 0, 0b011010),
            r.rate_selected(),
            documented_rate_code(Mclk18M432::usb(), 0b011010),
    {
        self.bits(0b011010)
    }

    /// Selects 96 kHz for the ADC and for the DAC.
    #[must_use]
    pub fn adc96k_dac96k(self) -> (r: Sampling<(Mclk18M432, SrIsSet)>)
        ensures
            r@ == with_bits(self@, 6, 0, 0b011110),
            r.rate_selected(),
            documented_rate_code(Mclk18M432::usb(), 0b011110),
    {
        self.bits(0b011110)
    }
}

impl<SR: SrMarker> SampleRate<(Mclk11M2896, SR)> {
    /// Selects 44.1 kHz for the ADC and for the DAC.
    #[must_use]
    pub fn adc44k1_dac44k1(self) -> (r: Sampling<(Mclk11M2896, SrIsSet)>)
        ensures
            r@ == with_bits(self@, 6, 0, 0b100000),
            r.rate_selected(),
            documented_rate_code(Mclk11M2896::usb(), 0b100000),
    {
        self.bits(0b100000)
    }

    /// Selects 44.1 kHz for the ADC and about 8 kHz for the DAC.
    ///
    /// The rate of about 8 kHz is 8.018 kHz.
    #[must_use]
    pub fn adc44k1_dac8k(self) -> (r: Sampling<(Mclk11M2896, SrIsSet)>)
        ensures
            r@ == with_bits(self@, 6, 0, 0b100100),
            r.rate_selected(),
            documented_rate_code(Mclk11M2896::usb(), 0b100100),
    {
        self.bits(0b100100)
    }

    /// Selects about 8 kHz for the ADC and 44.1 kHz for the DAC.
    ///
    /// The rate of about 8 kHz is 8.018 kHz.
    #[must_use]
    pub fn adc8k_dac44k1(self) -> (r: Sampling<(Mclk11M2896, SrIsSet)>)
        ensures
            r@ == with_bits(self@, 6, 0, 0b101000),
            r.rate_selected(),
            documented_rate_code(Mclk11M2896::usb(), 0b101000),
    {
        self.bits(0b101000)
    }

    /// Selects about 8 kHz for the ADC and for the DAC.
    ///
    /// The rate of about 8 kHz is 8.018 kHz.
    #[must_use]
    pub fn adc8k_dac8k(self) -> (r: Sampling<(Mclk11M2896, SrIsSet)>)
        ensures
            r@ == with_bits(self@, 6, 0, 0b101100),
            r.rate_selected(),
            documented_rate_code(Mclk11M2896::usb(), 0b101100),
    {
        self.bits(0b101100)
    }

    /// Selects 88.2 kHz for the ADC and for the DAC.
    #[must_use]
    pub fn adc88k2_dac88k2(self) -> (r: Sampling<(Mclk11M2896, SrIsSet)>)
        ensures
            r@ == with_bits(self@, 6, 0, 0b111100),
            r.rate_selected(),
            documented_rate_code(Mclk11M2896::usb(), 0b111100),
    {
        self.bits(0b111100)
    }
}

impl<SR: SrMarker> SampleRate<(Mclk16M9344, SR)> {
    /// Selects 44.1 kHz for the ADC and for the DAC.
    #[must_use]
    pub fn adc44k1_dac44k1(self) -> (r: Sampling<(Mclk16M9344, SrIsSet)>)
        ensures
            r@ == with_bits(self@, 6, 0, 0b100010),
            r.rate_selected(),
            documented_rate_code(Mclk16M9344::usb(), 0b100010),
    {
        self.bits(0b100010)
    }

    /// Selects 44.1 kHz for the ADC and about 8 kHz for the DAC.
    ///
    /// The rate of about 8 kHz is 8.018 kHz.
    #[must_use]
    pub fn adc44k1_dac8k(self) -> (r: Sampling<(Mclk16M9344, SrIsSet)>)
        ensures
            r@ == with_bits(self@, 6, 0, 0b100110),
            r.rate_selected(),
            documented_rate_code(Mclk16M9344::usb(), 0b100110),
    {
        self.bits(0b100110)
    }

    /// Selects about 8 kHz for the ADC and 44.1 kHz for the DAC.
    ///
    /// The rate of about 8 kHz is 8.018 kHz.
    #[must_use]
    pub fn adc8k_dac44k1(self) -> (r: Sampling<(Mclk16M9344, SrIsSet)>)
        ensures
            r@ == with_bits(self@, 6, 0, 0b101010),
            r.rate_selected(),
            documented_rate_code(Mclk16M9344::usb(), 0b101010),
    {
        self.bits(0b101010)
    }

    /// Selects about 8 kHz for the ADC and for the DAC.
    ///
    /// The rate of about 8 kHz is 8.018 kHz.
    #[must_use]
    pub fn adc8k_dac8k(self) -> (r: Sampling<(Mclk16M9344, SrIsSet)>)
        ensures
            r@ == with_bits(self@, 6, 0, 0b101110),
            r.rate_selected(),
            documented_rate_code(Mclk16M9344::usb(), 0b101110),
    {
        self.bits(0b101110)
    }

    /// Selects 88.2 kHz for the ADC and for the DAC.
    #[must_use]
    pub fn adc88k2_dac88k2(self) -> (r: Sampling<(Mclk16M9344, SrIsSet)>)
        ensures
            r@ == with_bits(self@, 6, 0, 0b111110),
            r.rate_selected(),
            documented_rate_code(Mclk16M9344::usb(), 0b111110),
    {
        self.bits(0b111110)
    }
}

impl<SR: SrMarker> SampleRate<(Mclk12M, SR)> {
    /// Selects 48 kHz for the ADC and for the DAC.
    #[must_use]
    pub fn adc48k_dac48k(self) -> (r: Sampling<(Mclk12M, SrIsSet)>)
        ensures
            r@ == with_bits(self@, 6, 0, 0b000001),
            r.rate_selected(),
            documented_rate_code(Mclk12M::usb(), 0b000001),
    {
        self.bits(0b000001)
    }

    /// Selects 44.1 kHz for the ADC and for the DAC.
    ///
    /// The rate is 44.118 kHz.
    #[must_use]
    pub fn adc44k1_dac44k1(self) -> (r: Sampling<(Mclk12M, SrIsSet)>)
        ensures
            r@ == with_bits(self@, 6, 0, 0b100011),
            r.rate_selected(),
            documented_rate_code(Mclk12M::usb(), 0b100011),
    {
        self.bits(0b100011)
    }

    /// Selects 48 kHz for the ADC and 8 kHz for the DAC.
    #[must_use]
    pub fn adc48k_dac8k(self) -> (r: Sampling<(Mclk12M, SrIsSet)>)
        ensures
            r@ == with_bits(self@, 6, 0, 0b000101),
            r.rate_selected(),
            documented_rate_code(Mclk12M::usb(), 0b000101),
    {
        self.bits(0b000101)
    }

    /// Selects 44.1 kHz for the ADC and about 8 kHz for the DAC.
    ///
    /// The rates are 44.118 kHz and 8.021 kHz.
    #[must_use]
    pub fn adc44k1_dac8k(self) -> (r: Sampling<(Mclk12M, SrIsSet)>)
        ensures
            r@ == with_bits(self@, 6, 0, 0b100111),
            r.rate_selected(),
            documented_rate_code(Mclk12M::usb(), 0b100111),
    {
        self.bits(0b100111)
    }

    /// Selects 8 kHz for the ADC and 48 kHz for the DAC.
    #[must_use]
    pub fn adc8k_dac48k(self) -> (r: Sampling<(Mclk12M, SrIsSet)>)
        ensures
            r@ == with_bits(self@, 6, 0, 0b001001),
            r.rate_selected(),
            documented_rate_code(Mclk12M::usb(), 0b001001),
    {
        self.bits(0b001001)
    }

    /// Selects about 8 kHz for the ADC and 44.1 kHz for the DAC.
    ///
    /// The rates are 8.021 kHz and 44.118 kHz.
    #[must_use]
    pub fn adc8k_dac44k1(self) -> (r: Sampling<(Mclk12M, SrIsSet)>)
        ensures
            r@ == with_bits(self@, 6, 0, 0b101011),
            r.rate_selected(),
            documented_rate_code(Mclk12M::usb(), 0b101011),
    {
        self.bits(0b101011)
    }

    /// Selects 8 kHz for the ADC and for the DAC.
    #[must_use]
    pub fn adc8k_dac8k(self) -> (r: Sampling<(Mclk12M, SrIsSet)>)
        ensures
            r@ == with_bits(self@, 6, 0, 0b001101),
            r.rate_selected(),
            documented_rate_code(Mclk12M::usb(), 0b001101),
    {
        self.bits(0b001101)
    }

    /// Selects about 8 kHz for the ADC and for the DAC.
    ///
    /// The rate of about 8 kHz is 8.021 kHz.
    #[must_use]
    pub fn adc8k_dac8k_bis(self) -> (r: Sampling<(Mclk12M, SrIsSet)>)
        ensures
            r@ == with_bits(self@, 6, 0, 0b101111),
            r.rate_selected(),
            documented_rate_code(Mclk12M::usb(), 0b101111),
    {
        self.bits(0b101111)
    }

    /// Selects 32 kHz for the ADC and for the DAC.
    #[must_use]
    pub fn adc32k_dac32k(self) -> (r: Sampling<(Mclk12M, SrIsSet)>)
        ensures
            r@ == with_bits(self@, 6, 0, 0b011001),
            r.rate_selected(),
            documented_rate_code(Mclk12M::usb(), 0b011001),
    {
        self.bits(0b011001)
    }

    /// Selects 96 kHz for the ADC and for the DAC.
    #[must_use]
    pub fn adc96k_dac96k(self) -> (r: Sampling<(Mclk12M, SrIsSet)>)
        ensures
            r@ == with_bits(self@, 6, 0, 0b011101),
            r.rate_selected(),
            documented_rate_code(Mclk12M::usb(), 0b011101),
    {
        self.bits(0b011101)
    }

    /// Selects 88.2 kHz for the ADC and for the DAC.
    ///
    /// The rate is 88.235 kHz.
    #[must_use]
    pub fn adc88k2_dac88k2(self) -> (r: Sampling<(Mclk12M, SrIsSet)>)
        ensures
            r@ == with_bits(self@, 6, 0, 0b111111),
            r.rate_selected(),
            documented_rate_code(Mclk12M::usb(), 0b111111),
    {
        self.bits(0b111111)
    }
}

/// Selecting a rate by name writes what three raw writes write: the lowest
/// bit of the rate code to the mode bit, the next one to the oversampling
/// bit, and the upper four to the sample rate field.
pub proof fn lemma_rate_code_is_three_writes(data: u16, code: u8)
    by (bit_vector)
    requires
        code < 64,
    ensures
        with_bits(data, 6, 0, code) == with_bits(
            with_bit(with_bit(data, 0, code % 2 == 1), 1, (code / 2) % 2 == 1),
            4,
            2,
            code / 4,
        ),
{
}

/// Field writer of bit 0: selects USB mode or normal mode.
pub struct UsbNormal<T> {
    cmd: Sampling<T>,
}

impl<T> View for UsbNormal<T> {
    type V = u16;

    /// The frame that the write starts from.
    closed spec fn view(&self) -> u16 {
        self.cmd@
    }
}

impl<MODE: ModeMarker, BOSR: BosrMarker, SR: SrMarker> UsbNormal<(MODE, BOSR, SR)> {
    /// The state of the builder that the write starts from.
    pub open spec fn state(&self) -> SamplingState {
        state_of::<MODE, BOSR, SR>()
    }

    /// Clears the bit: normal mode.
    #[must_use]
    pub fn clear_bit(self) -> (r: Sampling<(Normal, BOSR, SR)>)
        ensures
            r@ == with_bit_clear(self@, 0),
            r.state() == state_after(self.state(), SamplingOp::WriteMode { usb: false }),
    {
        self.cmd.lower(0).retag()
    }

    /// Sets the bit: USB mode.
    #[must_use]
    pub fn set_bit(self) -> (r: Sampling<(Usb, BOSR, SR)>)
        ensures
            r@ == with_bit_set(self@, 0),
            r.state() == state_after(self.state(), SamplingOp::WriteMode { usb: true }),
    {
        self.cmd.raise(0).retag()
    }

    /// Selects normal mode.
    #[must_use]
    pub fn normal(self) -> (r: Sampling<(Normal, BOSR, SR)>)
        ensures
            r@ == with_bit_clear(self@, 0),
            r.state() == state_after(self.state(), SamplingOp::WriteMode { usb: false }),
    {
        self.cmd.lower(0).retag()
    }

    /// Selects USB mode.
    #[must_use]
    pub fn usb(self) -> (r: Sampling<(Usb, BOSR, SR)>)
        ensures
            r@ == with_bit_set(self@, 0),
            r.state() == state_after(self.state(), SamplingOp::WriteMode { usb: true }),
    {
        self.cmd.raise(0).retag()
    }
}

/// Field writer of bit 1: selects the base oversampling rate.
pub struct Bosr<T> {
    cmd: Sampling<T>,
}

impl<T> View for Bosr<T> {
    type V = u16;

    /// The frame that the write starts from.
    closed spec fn view(&self) -> u16 {
        self.cmd@
    }
}

impl<MODE: ModeMarker, BOSR: BosrMarker, SR: SrMarker> Bosr<(MODE, BOSR, SR)> {
    /// The state of the builder that the write starts from.
    pub open spec fn state(&self) -> SamplingState {
        state_of::<MODE, BOSR, SR>()
    }

    /// Clears the bit.
    #[must_use]
    pub fn clear_bit(self) -> (r: Sampling<(MODE, BosrIsClear, SR)>)
        ensures
            r@ == with_bit_clear(self@, 1),
            r.state() == state_after(self.state(), SamplingOp::WriteBosr { set: false }),
    {
        self.cmd.lower(1).retag()
    }

    /// Sets the bit.
    #[must_use]
    pub fn set_bit(self) -> (r: Sampling<(MODE, BosrIsSet, SR)>)
        ensures
            r@ == with_bit_set(self@, 1),
            r.state() == state_after(self.state(), SamplingOp::WriteBosr { set: true }),
    {
        self.cmd.raise(1).retag()
    }
}

/// Field writer of bits 2 to 5: writes raw bits to the sample rate field.
pub struct Sr<T> {
    cmd: Sampling<T>,
}

impl<T> View for Sr<T> {
    type V = u16;

    /// The frame that the write starts from.
    closed spec fn view(&self) -> u16 {
        self.cmd@
    }
}

impl<MODE: ModeMarker, BOSR: BosrMarker, SR: SrMarker> Sr<(MODE, BOSR, SR)> {
    /// The state of the builder that the write starts from.
    pub open spec fn state(&self) -> SamplingState {
        state_of::<MODE, BOSR, SR>()
    }

    /// Writes raw bits to the field. Of `value` only the low 4 bits count; the
    /// bits above them are dropped.
    ///
    /// Not every code has a meaning in every mode: the data sheet lists those
    /// that have, and [`documented_code`] repeats the list. This method writes
    /// any code; whether the code is a documented one is left to the caller.
    #[must_use]
    pub fn bits(self, value: u8) -> (r: Sampling<(MODE, BOSR, SrIsSet)>)
        ensures
            r@ == with_bits(self@, 4, 2, value),
            r.state() == state_after(self.state(), SamplingOp::WriteSr { code: value }),
            can_finalize(r.state()),
    {
        self.cmd.store(4, 2, value).retag()
    }
}

impl<BOSR: BosrMarker, SR: SrMarker> Sr<(Normal, BOSR, SR)> {
    /// Writes `0b0000` to the field.
    #[must_use]
    pub fn sr_0b0000(self) -> (r: Sampling<(Normal, BOSR, SrIsSet)>)
        ensures
            r@ == with_bits(self@, 4, 2, 0b0000),
            r.state() == state_after(self.state(), SamplingOp::WriteSr { code: 0b0000 }),
            documented_code(self.state(), 0b0000),
    {
        self.bits(0b0000)
    }

    /// Writes `0b0001` to the field.
    #[must_use]
    pub fn sr_0b0001(self) -> (r: Sampling<(Normal, BOSR, SrIsSet)>)
        ensures
            r@ == with_bits(self@, 4, 2, 0b0001),
            r.state() == state_after(self.state(), SamplingOp::WriteSr { code: 0b0001 }),
            documented_code(self.state(), 0b0001),
    {
        self.bits(0b0001)
    }

    /// Writes `0b0010` to the field.
    #[must_use]
    pub fn sr_0b0010(self) -> (r: Sampling<(Normal, BOSR, SrIsSet)>)
        ensures
            r@ == with_bits(self@, 4, 2, 0b0010),
            r.state() == state_after(self.state(), SamplingOp::WriteSr { code: 0b0010 }),
            documented_code(self.state(), 0b0010),
    {
        self.bits(0b0010)
    }

    /// Writes `0b0011` to the field.
    #[must_use]
    pub fn sr_0b0011(self) -> (r: Sampling<(Normal, BOSR, SrIsSet)>)
        ensures
            r@ == with_bits(self@, 4, 2, 0b0011),
            r.state() == state_after(self.state(), SamplingOp::WriteSr { code: 0b0011 }),
            documented_code(self.state(), 0b0011),
    {
        self.bits(0b0011)
    }

    /// Writes `0b0110` to the field.
    #[must_use]
    pub fn sr_0b0110(self) -> (r: Sampling<(Normal, BOSR, SrIsSet)>)
        ensures
            r@ == with_bits(self@, 4, 2, 0b0110),
            r.state() == state_after(self.state(), SamplingOp::WriteSr { code: 0b0110 }),
            documented_code(self.state(), 0b0110),
    {
        self.bits(0b0110)
    }

    /// Writes `0b0111` to the field.
    #[must_use]
    pub fn sr_0b0111(self) -> (r: Sampling<(Normal, BOSR, SrIsSet)>)
        ensures
            r@ == with_bits(self@, 4, 2, 0b0111),
            r.state() == state_after(self.state(), SamplingOp::WriteSr { code: 0b0111 }),
            documented_code(self.state(), 0b0111),
    {
        self.bits(0b0111)
    }

    /// Writes `0b1000` to the field.
    #[must_use]
    pub fn sr_0b1000(self) -> (r: Sampling<(Normal, BOSR, SrIsSet)>)
        ensures
            r@ == with_bits(self@, 4, 2, 0b1000),
            r.state() == state_after(self.state(), SamplingOp::WriteSr { code: 0b1000 }),
            documented_code(self.state(), 0b1000),
    {
        self.bits(0b1000)
    }

    /// Writes `0b1001` to the field.
    #[must_use]
    pub fn sr_0b1001(self) -> (r: Sampling<(Normal, BOSR, SrIsSet)>)
        ensures
            r@ == with_bits(self@, 4, 2, 0b1001),
            r.state() == state_after(self.state(), SamplingOp::WriteSr { code: 0b1001 }),
            documented_code(self.state(), 0b1001),
    {
        self.bits(0b1001)
    }

    /// Writes `0b1010` to the field.
    #[must_use]
    pub fn sr_0b1010(self) -> (r: Sampling<(Normal, BOSR, SrIsSet)>)
        ensures
            r@ == with_bits(self@, 4, 2, 0b1010),
            r.state() == state_after(self.state(), SamplingOp::WriteSr { code: 0b1010 }),
            documented_code(self.state(), 0b1010),
    {
        self.bits(0b1010)
    }

    /// Writes `0b1011` to the field.
    #[must_use]
    pub fn sr_0b1011(self) -> (r: Sampling<(Normal, BOSR, SrIsSet)>)
        ensures
            r@ == with_bits(self@, 4, 2, 0b1011),
            r.state() == state_after(self.state(), SamplingOp::WriteSr { code: 0b1011 }),
            documented_code(self.state(), 0b1011),
    {
        self.bits(0b1011)
    }

    /// Writes `0b1111` to the field.
    #[must_use]
    pub fn sr_0b1111(self) -> (r: Sampling<(Normal, BOSR, SrIsSet)>)
        ensures
            r@ == with_bits(self@, 4, 2, 0b1111),
            r.state() == state_after(self.state(), SamplingOp::WriteSr { code: 0b1111 }),
            documented_code(self.state(), 0b1111),
    {
        self.bits(0b1111)
    }
}

impl<SR: SrMarker> Sr<(Usb, BosrIsClear, SR)> {
    /// Writes `0b0000` to the field.
    #[must_use]
    pub fn sr_0b0000(self) -> (r: Sampling<(Usb, BosrIsClear, SrIsSet)>)
        ensures
            r@ == with_bits(self@, 4, 2, 0b0000),
            r.state() == state_after(self.state(), SamplingOp::WriteSr { code: 0b0000 }),
            documented_code(self.state(), 0b0000),
    {
        self.bits(0b0000)
    }

    /// Writes `0b0001` to the field.
    #[must_use]
    pub fn sr_0b0001(self) -> (r: Sampling<(Usb, BosrIsClear, SrIsSet)>)
        ensures
            r@ == with_bits(self@, 4, 2, 0b0001),
            r.state() == state_after(self.state(), SamplingOp::WriteSr { code: 0b0001 }),
            documented_code(self.state(), 0b0001),
    {
        self.bits(0b0001)
    }

    /// Writes `0b0010` to the field.
    #[must_use]
    pub fn sr_0b0010(self) -> (r: Sampling<(Usb, BosrIsClear, SrIsSet)>)
        ensures
            r@ == with_bits(self@, 4, 2, 0b0010),
            r.state() == state_after(self.state(), SamplingOp::WriteSr { code: 0b0010 }),
            documented_code(self.state(), 0b0010),
    {
        self.bits(0b0010)
    }

    /// Writes `0b0011` to the field.
    #[must_use]
    pub fn sr_0b0011(self) -> (r: Sampling<(Usb, BosrIsClear, SrIsSet)>)
        ensures
            r@ == with_bits(self@, 4, 2, 0b0011),
            r.state() == state_after(self.state(), SamplingOp::WriteSr { code: 0b0011 }),
            documented_code(self.state(), 0b0011),
    {
        self.bits(0b0011)
    }

    /// Writes `0b0110` to the field.
    #[must_use]
    pub fn sr_0b0110(self) -> (r: Sampling<(Usb, BosrIsClear, SrIsSet)>)
        ensures
            r@ == with_bits(self@, 4, 2, 0b0110),
            r.state() == state_after(self.state(), SamplingOp::WriteSr { code: 0b0110 }),
            documented_code(self.state(), 0b0110),
    {
        self.bits(0b0110)
    }

    /// Writes `0b0111` to the field.
    #[must_use]
    pub fn sr_0b0111(self) -> (r: Sampling<(Usb, BosrIsClear, SrIsSet)>)
        ensures
            r@ == with_bits(self@, 4, 2, 0b0111),
            r.state() == state_after(self.state(), SamplingOp::WriteSr { code: 0b0111 }),
            documented_code(self.state(), 0b0111),
    {
        self.bits(0b0111)
    }
}

impl<SR: SrMarker> Sr<(Usb, BosrIsSet, SR)> {
    /// Writes `0b1000` to the field.
    #[must_use]
    pub fn sr_0b1000(self) -> (r: Sampling<(Usb, BosrIsSet, SrIsSet)>)
        ensures
            r@ == with_bits(self@, 4, 2, 0b1000),
            r.state() == state_after(self.state(), SamplingOp::WriteSr { code: 0b1000 }),
            documented_code(self.state(), 0b1000),
    {
        self.bits(0b1000)
    }

    /// Writes `0b1001` to the field.
    #[must_use]
    pub fn sr_0b1001(self) -> (r: Sampling<(Usb, BosrIsSet, SrIsSet)>)
        ensures
            r@ == with_bits(self@, 4, 2, 0b1001),
            r.state() == state_after(self.state(), SamplingOp::WriteSr { code: 0b1001 }),
            documented_code(self.state(), 0b1001),
    {
        self.bits(0b1001)
    }

    /// Writes `0b1010` to the field.
    #[must_use]
    pub fn sr_0b1010(self) -> (r: Sampling<(Usb, BosrIsSet, SrIsSet)>)
        ensures
            r@ == with_bits(self@, 4, 2, 0b1010),
            r.state() == state_after(self.state(), SamplingOp::WriteSr { code: 0b1010 }),
            documented_code(self.state(), 0b1010),
    {
        self.bits(0b1010)
    }

    /// Writes `0b1011` to the field.
    #[must_use]
    pub fn sr_0b1011(self) -> (r: Sampling<(Usb, BosrIsSet, SrIsSet)>)
        ensures
            r@ == with_bits(self@, 4, 2, 0b1011),
            r.state() == state_after(self.state(), SamplingOp::WriteSr { code: 0b1011 }),
            documented_code(self.state(), 0b1011),
    {
        self.bits(0b1011)
    }

    /// Writes `0b1111` to the field.
    #[must_use]
    pub fn sr_0b1111(self) -> (r: Sampling<(Usb, BosrIsSet, SrIsSet)>)
        ensures
            r@ == with_bits(self@, 4, 2, 0b1111),
            r.state() == state_after(self.state(), SamplingOp::WriteSr { code: 0b1111 }),
            documented_code(self.state(), 0b1111),
    {
        self.bits(0b1111)
    }
}

/// Field writer of bit 6: halves the core clock.
pub struct Clkidiv2<T> {
    cmd: Sampling<T>,
}

impl<T> View for Clkidiv2<T> {
    type V = u16;

    /// The frame that the write starts from.
    closed spec fn view(&self) -> u16 {
        self.cmd@
    }
}

impl<T> Clkidiv2<T> {
    /// Writes `value` to the bit.
    #[must_use]
    pub fn bit(self, value: bool) -> (r: Sampling<T>)
        ensures
            r@ == with_bit(self@, 6, value),
    {
        self.cmd.assign(6, value)
    }

    /// Makes the core clock half the master clock.
    #[must_use]
    pub fn set_bit(self) -> (r: Sampling<T>)
        ensures
            r@ == with_bit_set(self@, 6),
    {
        self.cmd.raise(6)
    }

    /// Makes the core clock the master clock.
    #[must_use]
    pub fn clear_bit(self) -> (r: Sampling<T>)
        ensures
            r@ == with_bit_clear(self@, 6),
    {
        self.cmd.lower(6)
    }

    /// Makes the core clock half the master clock.
    #[must_use]
    pub fn enable(self) -> (r: Sampling<T>)
        ensures
            r@ == with_bit_set(self@, 6),
    {
        self.cmd.raise(6)
    }

    /// Makes the core clock the master clock.
    #[must_use]
    pub fn disable(self) -> (r: Sampling<T>)
        ensures
            r@ == with_bit_clear(self@, 6),
    {
        self.cmd.lower(6)
    }
}

/// Field writer of bit 7: halves the output clock.
pub struct Clkodiv2<T> {
    cmd: Sampling<T>,
}

impl<T> View for Clkodiv2<T> {
    type V = u16;

    /// The frame that the write starts from.
    closed spec fn view(&self) -> u16 {
        self.cmd@
    }
}

impl<T> Clkodiv2<T> {
    /// Writes `value` to the bit.
    #[must_use]
    pub fn bit(self, value: bool) -> (r: Sampling<T>)
        ensures
            r@ == with_bit(self@, 7, value),
    {
        self.cmd.assign(7, value)
    }

    /// Makes the output clock half the core clock.
    #[must_use]
    pub fn set_bit(self) -> (r: Sampling<T>)
        ensures
            r@ == with_bit_set(self@, 7),
    {
        self.cmd.raise(7)
    }

    /// Makes the output clock the core clock.
    #[must_use]
    pub fn clear_bit(self) -> (r: Sampling<T>)
        ensures
            r@ == with_bit_clear(self@, 7),
    {
        self.cmd.lower(7)
    }

    /// Makes the output clock half the core clock.
    #[must_use]
    pub fn enable(self) -> (r: Sampling<T>)
        ensures
            r@ == with_bit_set(self@, 7),
    {
        self.cmd.raise(7)
    }

    /// Makes the output clock the core clock.
    #[must_use]
    pub fn disable(self) -> (r: Sampling<T>)
        ensures
            r@ == with_bit_clear(self@, 7),
    {
        self.cmd.lower(7)
    }
}

} // verus!
