//! The mathematical model of the machine: its state, its limits and its errors.

use vstd::prelude::*;

verus! {

/// Width of the display, in pixels.
pub const WIDTH: usize = 64;

/// Height of the display, in pixels.
pub const HEIGHT: usize = 32;

/// Number of pixels of the display.
pub const SCREEN_SIZE: usize = 2048;

/// Size of the addressable memory, in bytes.
pub const RAM_SIZE: usize = 4096;

/// Address at which programs are loaded and execution begins.
pub const START_ADDRESS: u16 = 0x200;

/// Number of general registers, `V0` to `VF`.
pub const NUM_REGISTERS: usize = 16;

/// Number of return addresses the call stack can hold.
pub const STACK_SIZE: usize = 16;

/// Number of logical keys.
pub const NUM_KEYS: usize = 16;

/// Size of the built-in font, 16 glyphs of 5 bytes.
pub const FONTSET_SIZE: usize = 80;

/// The register that doubles as carry, borrow and collision flag.
pub const FLAG: u8 = 0xF;

/// Why a step or a load could not be carried out.
#[derive(Clone, Copy, Debug, PartialEq, Eq, Structural)]
pub enum EmuError {
    /// The fetched word matches no instruction.
    InvalidOpcode,
    /// A fetch, sprite read, decimal store or block transfer leaves memory.
    MemoryOutOfBounds,
    /// A call with the stack already full.
    StackOverflow,
    /// A return with the stack empty.
    StackUnderflow,
    /// A key instruction names a key that does not exist.
    InvalidKey,
    /// A program image does not fit between the load address and the end of memory.
    ProgramTooLarge,
}

/// The abstract state of the machine.
pub struct EmuState {
    pub pc: u16,
    pub ram: Seq<u8>,
    pub v: Seq<u8>,
    pub i: u16,
    /// The live return addresses, oldest first.
    pub stack: Seq<u16>,
    pub delay_timer: u8,
    pub sound_timer: u8,
    /// Row-major pixels: the pixel at column `x` and row `y` is at `y * WIDTH + x`.
    pub screen: Seq<bool>,
    pub keys: Seq<bool>,
}

impl EmuState {
    /// Every component has its fixed size.
    pub open spec fn wf(self) -> bool {
        &&& self.ram.len() == RAM_SIZE
        &&& self.v.len() == NUM_REGISTERS
        &&& self.stack.len() <= STACK_SIZE
        &&& self.screen.len() == SCREEN_SIZE
        &&& self.keys.len() == NUM_KEYS
    }

    pub open spec fn reg(self, x: u8) -> u8 {
        self.v[x as int]
    }

    /// The state with register `x` set to `val`.
    pub open spec fn with_reg(self, x: u8, val: u8) -> EmuState {
        EmuState { v: self.v.update(x as int, val), ..self }
    }

    /// The state with the program counter set to `pc`.
    pub open spec fn with_pc(self, pc: u16) -> EmuState {
        EmuState { pc, ..self }
    }
}

/// The glyphs of the hexadecimal digits 0 to F, five rows each.
pub open spec fn font_table() -> Seq<u8> {
    seq![
        0xF0u8, 0x90, 0x90, 0x90, 0xF0,
        0x20, 0x60, 0x20, 0x20, 0x70,
        0xF0, 0x10, 0xF0, 0x80, 0xF0,
        0xF0, 0x10, 0xF0, 0x10, 0xF0,
        0x90, 0x90, 0xF0, 0x10, 0x10,
        0xF0, 0x80, 0xF0, 0x10, 0xF0,
        0xF0, 0x80, 0xF0, 0x90, 0xF0,
        0xF0, 0x10, 0x20, 0x40, 0x40,
        0xF0, 0x90, 0xF0, 0x90, 0xF0,
        0xF0, 0x90, 0xF0, 0x10, 0xF0,
        0xF0, 0x90, 0xF0, 0x90, 0x90,
        0xE0, 0x90, 0xE0, 0x90, 0xE0,
        0xF0, 0x80, 0x80, 0x80, 0xF0,
        0xE0, 0x90, 0x90, 0x90, 0xE0,
        0xF0, 0x80, 0xF0, 0x80, 0xF0,
        0xF0, 0x80, 0xF0, 0x80, 0x80,
    ]
}

/// The state after power-on or reset: everything cleared, the font at address 0
/// and the program counter at the load address.
pub open spec fn initial_state() -> EmuState {
    EmuState {
        pc: START_ADDRESS,
        ram: Seq::new(RAM_SIZE as nat, |a: int| if a < FONTSET_SIZE { font_table()[a] } else { 0u8 }),
        v: Seq::new(NUM_REGISTERS as nat, |r: int| 0u8),
        i: 0,
        stack: Seq::empty(),
        delay_timer: 0,
        sound_timer: 0,
        screen: Seq::new(SCREEN_SIZE as nat, |p: int| false),
        keys: Seq::new(NUM_KEYS as nat, |k: int| false),
    }
}

} // verus!
