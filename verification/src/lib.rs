//! Command builders for the WM8731 audio codec.
//!
//! The codec is configured through a dozen registers. Each is written with
//! one frame of 16 bits: seven bits of register address, then nine bits of
//! payload, which holds the fields of the register. A builder starts from
//! the content that the register has after power-on, lets the fields be
//! written one by one, and hands out the [`Command`] that carries the frame.
//!
//! What a write does to the frame is specified in [`field`]; every builder
//! is proved against it. The register map is in [`register`]. The order in
//! which the fields of the sampling register may be written is laid down
//! in [`sampling_state`].
pub mod active;
pub mod active_control;
pub mod analogue_audio_path;
pub mod command;
pub mod digital_audio_interface;
pub mod digital_audio_path;
pub mod field;
pub mod headphone_out;
pub mod interface;
pub mod line_in;
pub mod power_down;
pub mod prelude;
pub mod register;
pub mod reset;
pub mod sampling;
pub mod sampling_state;

pub use crate::command::{Channel, Command, Left, Right};
