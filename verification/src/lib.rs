use vstd::prelude::*;

pub mod emu;
pub mod keys;
pub mod machine;
pub mod screen;

pub use crate::emu::{Config, Emu};
pub use crate::keys::{Key, KeyState};
pub use crate::screen::DisplayState;

verus! {

/// Address at which a program image is installed and execution starts.
pub const PROGRAM_START_ADDR: u16 = 0x200;

/// Width of the display buffer, in pixels.
pub const DISPLAY_PIXELS_WIDTH: u8 = 64;

/// Height of the display buffer, in pixels.
pub const DISPLAY_PIXELS_HEIGHT: u8 = 32;

} // verus!
