//! A CHIP-8 virtual machine whose instruction semantics are stated as a
//! mathematical state machine and proved against the executable interpreter.

pub mod emu;
pub mod instruction;
pub mod laws;
pub mod semantics;
pub mod state;

pub use emu::Emu;
pub use instruction::{decode, Instruction};
pub use state::{EmuError, HEIGHT, RAM_SIZE, START_ADDRESS, WIDTH};
