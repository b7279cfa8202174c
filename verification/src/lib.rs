//! A CHIP-8 virtual machine: the instruction decoder, the state of the
//! machine and the fetch-decode-execute cycle, with machine-checked
//! contracts.
//!
//! `state::Machine` is the mathematical model of a machine and says what
//! every instruction does. `cpu::Chip8` is the machine that runs; each of
//! its operations is proved to do what the model says.

pub mod cpu;
pub mod display;
pub mod keypad;
pub mod laws;
pub mod memory;
pub mod opcode;
pub mod random;
pub mod state;

pub use crate::cpu::{Chip8, FONTSET};
pub use crate::display::{
    FRAMEBUFFER_HEIGHT, FRAMEBUFFER_PITCH, FRAMEBUFFER_SIZE, FRAMEBUFFER_WIDTH,
};
pub use crate::keypad::Keycode;
pub use crate::opcode::{decode, Instruction};
pub use crate::state::{Fault, LoadError};
