//! The command that a builder hands out, and the channel markers.
use core::marker::PhantomData;
use vstd::prelude::*;

verus! {

/// A channel of a stereo pair. The registers of the right channel lie one
/// address above those of the left.
pub trait Channel {
    /// How far above the left channel's register this channel's register lies.
    spec fn index() -> u16;
}

/// Marker for the left channel.
#[derive(Debug, PartialEq, Eq)]
pub struct Left;

/// Marker for the right channel.
#[derive(Debug, PartialEq, Eq)]
pub struct Right;

impl Channel for Left {
    open spec fn index() -> u16 {
        0
    }
}

impl Channel for Right {
    open spec fn index() -> u16 {
        1
    }
}

/// A command for the codec: a register address and the content to write to
/// it, packed in one frame. The tag `T` names what the command is about.
#[derive(Debug, PartialEq, Eq)]
pub struct Command<T> {
    data: u16,
    t: PhantomData<T>,
}

impl<T> Copy for Command<T> {}

impl<T> Clone for Command<T> {
    fn clone(&self) -> (r: Self)
        ensures
            r == *self,
    {
        *self
    }
}

impl<T> View for Command<T> {
    type V = u16;

    /// The frame: address in bits 15 to 9, payload in bits 8 to 0.
    closed spec fn view(&self) -> u16 {
        self.data
    }
}

impl<T> Command<T> {
    /// A command that carries the frame `data`.
    pub(crate) fn from_raw(data: u16) -> (c: Self)
        ensures
            c@ == data,
    {
        Command { data, t: PhantomData }
    }

    /// The frame as one integer.
    pub fn into_raw(self) -> (r: u16)
        ensures
            r == self@,
    {
        self.data
    }
}

} // verus!
