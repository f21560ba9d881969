//! The register map of the codec: where each register lives and what it
//! holds after power-on.
use crate::field::{address_of, frame_of, lemma_frame_parts, payload_of};
use vstd::prelude::*;

verus! {

/// The registers that this crate writes.
#[derive(Debug, Clone, Copy, PartialEq, Eq)]
pub enum Register {
    /// Left line input.
    LeftLineIn,
    /// Right line input.
    RightLineIn,
    /// Left headphone output.
    LeftHeadphoneOut,
    /// Right headphone output.
    RightHeadphoneOut,
    /// Analogue audio path control.
    AnalogueAudioPath,
    /// Digital audio path control.
    DigitalAudioPath,
    /// Power down control.
    PowerDown,
    /// Digital audio interface format.
    DigitalAudioInterface,
    /// Sampling control.
    Sampling,
    /// Active control.
    ActiveControl,
    /// Reset trigger.
    Reset,
}

impl Register {
    /// The seven-bit address of the register.
    pub open spec fn address_spec(self) -> u16 {
        match self {
            Register::LeftLineIn => 0x0,
            Register::RightLineIn => 0x1,
            Register::LeftHeadphoneOut => 0x2,
            Register::RightHeadphoneOut => 0x3,
            Register::AnalogueAudioPath => 0x4,
            Register::DigitalAudioPath => 0x5,
            Register::PowerDown => 0x6,
            Register::DigitalAudioInterface => 0x7,
            Register::Sampling => 0x8,
            Register::ActiveControl => 0x9,
            Register::Reset => 0x6,
        }
    }

    /// The nine-bit payload that a builder of the register starts from.
    pub open spec fn reset_payload_spec(self) -> u16 {
        match self {
            Register::LeftLineIn => 0b0_1001_0111,
            Register::RightLineIn => 0b0_1001_0111,
            Register::LeftHeadphoneOut => 0b0_0111_1001,
            Register::RightHeadphoneOut => 0b0_0111_1001,
            Register::AnalogueAudioPath => 0b0_0000_1010,
            Register::DigitalAudioPath => 0b0_0000_1000,
            Register::PowerDown => 0b0_1001_1111,
            Register::DigitalAudioInterface => 0b0_0000_1010,
            Register::Sampling => 0b0_0000_0000,
            Register::ActiveControl => 0b0_0000_0000,
            Register::Reset => 0b0_1001_1111,
        }
    }

    /// The frame that a builder of the register starts from.
    pub open spec fn reset_frame_spec(self) -> u16 {
        frame_of(self.address_spec(), self.reset_payload_spec())
    }

    /// The seven-bit address of the register.
    pub fn address(self) -> (a: u16)
        ensures
            a == self.address_spec(),
            a < 128,
    {
        match self {
            Register::LeftLineIn => 0x0,
            Register::RightLineIn => 0x1,
            Register::LeftHeadphoneOut => 0x2,
            Register::RightHeadphoneOut => 0x3,
            Register::AnalogueAudioPath => 0x4,
            Register::DigitalAudioPath => 0x5,
            Register::PowerDown => 0x6,
            Register::DigitalAudioInterface => 0x7,
            Register::Sampling => 0x8,
            Register::ActiveControl => 0x9,
            Register::Reset => 0x6,
        }
    }

    /// The nine-bit payload that a builder of the register starts from.
    pub fn reset_payload(self) -> (p: u16)
        ensures
            p == self.reset_payload_spec(),
            p < 512,
    {
        match self {
            Register::LeftLineIn | Register::RightLineIn => 0b0_1001_0111,
            Register::LeftHeadphoneOut | Register::RightHeadphoneOut => 0b0_0111_1001,
            Register::AnalogueAudioPath => 0b0_0000_1010,
            Register::DigitalAudioPath => 0b0_0000_1000,
            Register::PowerDown => 0b0_1001_1111,
            Register::DigitalAudioInterface => 0b0_0000_1010,
            Register::Sampling => 0b0_0000_0000,
            Register::ActiveControl => 0b0_0000_0000,
            Register::Reset => 0b0_1001_1111,
        }
    }

    /// The frame that a builder of the register starts from: the address in
    /// the top seven bits, the power-on payload below.
    pub fn reset_frame(self) -> (r: u16)
        ensures
            r == self.reset_frame_spec(),
            address_of(r) == self.address_spec(),
            payload_of(r) == self.reset_payload_spec(),
    {
        let address = self.address();
        let payload = self.reset_payload();
        proof {
            lemma_frame_parts(address, payload);
        }
        address << 9 | payload
    }
}

/// The frames that the builders start from, in numbers.
pub proof fn lemma_reset_frames()
    by (bit_vector)
    ensures
        frame_of(0x0, 0b0_1001_0111) == 0x0097,
        frame_of(0x1, 0b0_1001_0111) == 0x0297,
        frame_of(0x2, 0b0_0111_1001) == 0x0479,
        frame_of(0x3, 0b0_0111_1001) == 0x0679,
        frame_of(0x4, 0b0_0000_1010) == 0x080a,
        frame_of(0x5, 0b0_0000_1000) == 0x0a08,
        frame_of(0x6, 0b0_1001_1111) == 0x0c9f,
        frame_of(0x7, 0b0_0000_1010) == 0x0e0a,
        frame_of(0x8, 0b0_0000_0000) == 0x1000,
        frame_of(0x9, 0b0_0000_0000) == 0x1200,
{
}

/// The registers of the left and of the right channel start from the same
/// payload: their frames differ in the lowest address bit and nowhere else.
pub proof fn lemma_channels_share_reset_payload()
    ensures
        Register::LeftLineIn.reset_payload_spec() == Register::RightLineIn.reset_payload_spec(),
        Register::LeftHeadphoneOut.reset_payload_spec()
            == Register::RightHeadphoneOut.reset_payload_spec(),
        Register::LeftLineIn.reset_frame_spec() ^ Register::RightLineIn.reset_frame_spec() == 1u16
            << 9,
        Register::LeftHeadphoneOut.reset_frame_spec() ^ Register::RightHeadphoneOut.reset_frame_spec()
            == 1u16 << 9,
{
    assert(frame_of(0x0, 0b0_1001_0111) ^ frame_of(0x1, 0b0_1001_0111) == 1u16 << 9)
        by (bit_vector);
    assert(frame_of(0x2, 0b0_0111_1001) ^ frame_of(0x3, 0b0_0111_1001) == 1u16 << 9)
        by (bit_vector);
}

} // verus!
