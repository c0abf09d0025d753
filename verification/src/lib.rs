//! A CHIP-8 virtual machine core: memory, registers, call stack, timers,
//! framebuffer and the instruction interpreter that drives them.
//!
//! The host loads a program, then calls `Chip8::emulate_cycle` once per
//! cycle with the current state of the keypad. The core never blocks and
//! never ends the process: every fault comes back as a value.

pub mod chip8;
pub mod display;
pub mod error;
pub mod font;
pub mod keyboard;
pub mod laws;
pub mod machine;
pub mod opcode;

pub use crate::chip8::{Chip8, Snapshot};
pub use crate::error::{ExecError, LoadError};
pub use crate::keyboard::{HostEvent, KeyBoard};
pub use crate::machine::StepReport;
