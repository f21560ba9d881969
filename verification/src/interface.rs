//! The frame that goes over the serial interface, and its wire forms.
use crate::command::Command;
use vstd::prelude::*;
use vstd::std_specs::convert::FromSpec;
use vstd::std_specs::convert::FromSpecImpl;

verus! {

/// A frame as sent over I2C or SPI: the register address in bits 15 to 9, the
/// payload in bits 8 to 0.
#[derive(Debug, PartialEq, Eq, Clone, Copy)]
pub struct Frame {
    data: u16,
}

impl View for Frame {
    type V = u16;

    closed spec fn view(&self) -> u16 {
        self.data
    }
}

/// The two bytes of a frame in the order they are sent: high byte first.
pub open spec fn be_bytes_of(data: u16) -> [u8; 2] {
    [(data >> 8) as u8, (data & 0xff) as u8]
}

/// The high byte followed by the low byte make up the frame again.
pub proof fn lemma_be_bytes_rebuild(data: u16)
    ensures
        ((be_bytes_of(data)[0] as u16) << 8) | (be_bytes_of(data)[1] as u16) == data,
{
    let hi = (data >> 8) as u8;
    let lo = (data & 0xff) as u8;
    assert(((hi as u16) << 8) | (lo as u16) == data) by (bit_vector)
        requires
            hi == (data >> 8) as u8,
            lo == (data & 0xff) as u8,
    ;
}

impl Frame {
    /// The frame as one integer.
    pub fn into_raw(self) -> (r: u16)
        ensures
            r == self@,
    {
        self.data
    }
}

impl From<Frame> for [u8; 2] {
    /// The frame as two bytes for a byte-oriented bus, high byte first.
    fn from(frame: Frame) -> (r: [u8; 2]) {
        let hi: u8 = (frame.data >> 8) as u8;
        let lo: u8 = (frame.data & 0xff) as u8;
        [hi, lo]
    }
}

impl FromSpecImpl<Frame> for [u8; 2] {
    open spec fn obeys_from_spec() -> bool {
        true
    }

    open spec fn from_spec(frame: Frame) -> [u8; 2] {
        be_bytes_of(frame@)
    }
}

impl From<Frame> for [u16; 1] {
    /// The frame as one word for a bus of 16-bit words.
    fn from(frame: Frame) -> (r: [u16; 1]) {
        [frame.data]
    }
}

impl FromSpecImpl<Frame> for [u16; 1] {
    open spec fn obeys_from_spec() -> bool {
        true
    }

    open spec fn from_spec(frame: Frame) -> [u16; 1] {
        [frame@]
    }
}

impl From<Frame> for u16 {
    /// The frame as one integer.
    fn from(frame: Frame) -> (r: u16) {
        frame.data
    }
}

impl FromSpecImpl<Frame> for u16 {
    open spec fn obeys_from_spec() -> bool {
        true
    }

    open spec fn from_spec(frame: Frame) -> u16 {
        frame@
    }
}

impl<T> From<Command<T>> for Frame {
    /// The frame that a command carries; the tag is dropped.
    fn from(cmd: Command<T>) -> (r: Frame)
        ensures
            r@ == cmd@,
    {
        Frame { data: cmd.into_raw() }
    }
}

impl<T> FromSpecImpl<Command<T>> for Frame {
    open spec fn obeys_from_spec() -> bool {
        true
    }

    closed spec fn from_spec(cmd: Command<T>) -> Frame {
        Frame { data: cmd@ }
    }
}

/// The frame made from a command holds what the command holds.
pub proof fn lemma_frame_of_command<T>(cmd: Command<T>)
    ensures
        <Frame as FromSpec<Command<T>>>::from_spec(cmd)@ == cmd@,
{
}

} // verus!
