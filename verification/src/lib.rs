//! A CHIP-8 virtual machine: memory, registers, call stack, timers and a
//! 64x32 framebuffer, driven one instruction at a time.

pub mod display;
pub mod error;
pub mod keypad;
pub mod laws;
pub mod machine;
pub mod memory;
pub mod opcode;
mod random;
pub mod registers;
pub mod stack;
pub mod state;
pub mod timers;

pub use crate::error::Chip8Error;
pub use crate::keypad::{HostKey, Keypad};
pub use crate::machine::Machine;
