//! A CHIP-8 interpreter core: memory, registers, timers, keypad and a
//! monochrome display, driven one instruction at a time.

pub mod state;
pub mod instruction;
pub mod machine;
pub mod keypad;
pub mod laws;
pub mod instruction_laws;
pub mod display_laws;

pub use state::{SCREEN_WIDTH, SCREEN_HEIGHT};
pub use machine::Emulator;
pub use keypad::key_to_button;
