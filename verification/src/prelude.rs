//! The builders of all registers, and what goes with them, under one path.
pub use crate::active_control::active_control;
pub use crate::analogue_audio_path::{analogue_audio_path, SideAttdB};
pub use crate::digital_audio_interface::digital_audio_interface;
pub use crate::digital_audio_path::digital_audio_path;
pub use crate::headphone_out::{left_headphone_out, right_headphone_out, HpVoldB};
pub use crate::line_in::{left_line_in, right_line_in, InVoldB};
pub use crate::power_down::power_down;
pub use crate::reset::reset;
pub use crate::sampling::{sampling_command_builder, sampling_command_builder_mclk};

pub use crate::command::Command;
pub use crate::interface::Frame;
