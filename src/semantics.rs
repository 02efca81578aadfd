//! What one step of the machine does, stated over the abstract state.

use vstd::prelude::*;
use crate::instruction::{Instruction, decode_spec};
use crate::state::{
    EmuError, EmuState, FLAG, HEIGHT, NUM_KEYS, RAM_SIZE, SCREEN_SIZE, STACK_SIZE, START_ADDRESS, WIDTH,
};

verus! {

/// The big-endian word at `addr` and `addr + 1`.
pub open spec fn word_at(ram: Seq<u8>, addr: int) -> u16 {
    (ram[addr] as int * 256 + ram[addr + 1] as int) as u16
}

/// The lowest-numbered pressed key among keys `from` to 15.
pub open spec fn lowest_pressed(keys: Seq<bool>, from: nat) -> Option<u8>
    decreases NUM_KEYS - from,
{
    if from >= NUM_KEYS {
        None
    } else if keys[from as int] {
        Some(from as u8)
    } else {
        lowest_pressed(keys, from + 1)
    }
}

/// Whether the `n`-row sprite at `ram[i..i + n]`, placed with its top-left corner
/// at column `vx` and row `vy` (both taken modulo the display size, so that the
/// sprite wraps around the edges), sets the pixel at index `p`.
#[verifier::opaque]
pub open spec fn sprite_covers(ram: Seq<u8>, i: int, n: u8, vx: u8, vy: u8, p: int) -> bool {
    let col = (p % WIDTH as int + WIDTH - vx % WIDTH as u8) % WIDTH as int;
    let row = (p / WIDTH as int + HEIGHT - vy % HEIGHT as u8) % HEIGHT as int;
    &&& row < n
    &&& col < 8
    &&& (ram[i + row] >> ((7 - col) as u8)) & 1u8 == 1u8
}

/// The display after XOR-ing the sprite onto it.
pub open spec fn drawn_screen(screen: Seq<bool>, ram: Seq<u8>, i: int, n: u8, vx: u8, vy: u8) -> Seq<bool> {
    Seq::new(SCREEN_SIZE as nat, |p: int| screen[p] != sprite_covers(ram, i, n, vx, vy, p))
}

/// Whether drawing the sprite turns some lit pixel off.
pub open spec fn draw_collides(screen: Seq<bool>, ram: Seq<u8>, i: int, n: u8, vx: u8, vy: u8) -> bool {
    exists|p: int| 0 <= p < SCREEN_SIZE && #[trigger] screen[p] && sprite_covers(ram, i, n, vx, vy, p)
}

/// Memory with the bytes of `data` written from `start` on.
pub open spec fn write_bytes(ram: Seq<u8>, start: int, data: Seq<u8>) -> Seq<u8> {
    Seq::new(ram.len(), |a: int| if start <= a < start + data.len() { data[a - start] } else { ram[a] })
}

/// The three decimal digits of `v`, hundreds first.
pub open spec fn bcd_digits(v: u8) -> Seq<u8> {
    seq![v / 100, (v / 10) % 10, v % 10]
}

/// The result of executing `ins`, which was fetched from `s.pc`.
/// `rnd` is the random byte that `CXNN` masks; no other instruction reads it.
/// On an error the state is left as it was.
pub open spec fn execute_spec(s: EmuState, ins: Instruction, rnd: u8) -> Result<EmuState, EmuError> {
    let next = (s.pc + 2) as u16;
    let skip = (s.pc + 4) as u16;
    match ins {
        Instruction::Nop => Ok(s.with_pc(next)),
        Instruction::ClearScreen => Ok(EmuState {
            screen: Seq::new(SCREEN_SIZE as nat, |p: int| false),
            pc: next,
            ..s
        }),
        Instruction::Return => if s.stack.len() == 0 {
            Err(EmuError::StackUnderflow)
        } else {
            Ok(EmuState { pc: s.stack.last(), stack: s.stack.drop_last(), ..s })
        },
        Instruction::Jump { addr } => Ok(s.with_pc(addr)),
        Instruction::Call { addr } => if s.stack.len() >= STACK_SIZE {
            Err(EmuError::StackOverflow)
        } else {
            Ok(EmuState { pc: addr, stack: s.stack.push(next), ..s })
        },
        Instruction::SkipEqImm { x, nn } => Ok(s.with_pc(if s.reg(x) == nn { skip } else { next })),
        Instruction::SkipNeImm { x, nn } => Ok(s.with_pc(if s.reg(x) != nn { skip } else { next })),
        Instruction::SkipEqReg { x, y } => Ok(
            s.with_pc(if s.reg(x) == s.reg(y) { skip } else { next }),
        ),
        Instruction::LoadImm { x, nn } => Ok(s.with_reg(x, nn).with_pc(next)),
        Instruction::AddImm { x, nn } => Ok(
            s.with_reg(x, ((s.reg(x) + nn) % 256) as u8).with_pc(next),
        ),
        Instruction::Move { x, y } => Ok(s.with_reg(x, s.reg(y)).with_pc(next)),
        Instruction::Or { x, y } => Ok(s.with_reg(x, s.reg(x) | s.reg(y)).with_pc(next)),
        Instruction::And { x, y } => Ok(s.with_reg(x, s.reg(x) & s.reg(y)).with_pc(next)),
        Instruction::Xor { x, y } => Ok(s.with_reg(x, s.reg(x) ^ s.reg(y)).with_pc(next)),
        Instruction::AddReg { x, y } => {
            let sum = s.reg(x) + s.reg(y);
            Ok(
                s.with_reg(x, (sum % 256) as u8).with_reg(FLAG, if sum >= 256 { 1 } else { 0 }).with_pc(
                    next,
                ),
            )
        },
        Instruction::SubReg { x, y } => {
            let (a, b) = (s.reg(x), s.reg(y));
            Ok(
                s.with_reg(x, ((a - b) % 256) as u8).with_reg(FLAG, if a >= b { 1 } else { 0 }).with_pc(
                    next,
                ),
            )
        },
        Instruction::SubRev { x, y } => {
            let (a, b) = (s.reg(y), s.reg(x));
            Ok(
                s.with_reg(x, ((a - b) % 256) as u8).with_reg(FLAG, if a >= b { 1 } else { 0 }).with_pc(
                    next,
                ),
            )
        },
        Instruction::ShiftRight { x } => Ok(
            s.with_reg(x, s.reg(x) / 2).with_reg(FLAG, s.reg(x) % 2).with_pc(next),
        ),
        Instruction::ShiftLeft { x } => Ok(
            s.with_reg(x, ((s.reg(x) * 2) % 256) as u8).with_reg(FLAG, s.reg(x) / 128).with_pc(next),
        ),
        Instruction::SkipNeReg { x, y } => Ok(
            s.with_pc(if s.reg(x) != s.reg(y) { skip } else { next }),
        ),
        Instruction::SetIndex { addr } => Ok(EmuState { i: addr, pc: next, ..s }),
        Instruction::JumpOffset { addr } => Ok(s.with_pc((addr + s.reg(0)) as u16)),
        Instruction::Random { x, nn } => Ok(s.with_reg(x, rnd & nn).with_pc(next)),
        Instruction::Draw { x, y, n } => if s.i + n > RAM_SIZE {
            Err(EmuError::MemoryOutOfBounds)
        } else {
            let (vx, vy) = (s.reg(x), s.reg(y));
            let hit = draw_collides(s.screen, s.ram, s.i as int, n, vx, vy);
            Ok(
                EmuState {
                    screen: drawn_screen(s.screen, s.ram, s.i as int, n, vx, vy),
                    ..s
                }.with_reg(FLAG, if hit { 1 } else { 0 }).with_pc(next),
            )
        },
        Instruction::SkipKeyPressed { x } => if s.reg(x) >= NUM_KEYS {
            Err(EmuError::InvalidKey)
        } else {
            Ok(s.with_pc(if s.keys[s.reg(x) as int] { skip } else { next }))
        },
        Instruction::SkipKeyReleased { x } => if s.reg(x) >= NUM_KEYS {
            Err(EmuError::InvalidKey)
        } else {
            Ok(s.with_pc(if !s.keys[s.reg(x) as int] { skip } else { next }))
        },
        Instruction::ReadDelay { x } => Ok(s.with_reg(x, s.delay_timer).with_pc(next)),
        Instruction::WaitKey { x } => match lowest_pressed(s.keys, 0) {
            None => Ok(s),
            Some(k) => Ok(s.with_reg(x, k).with_pc(next)),
        },
        Instruction::SetDelay { x } => Ok(EmuState { delay_timer: s.reg(x), pc: next, ..s }),
        Instruction::SetSound { x } => Ok(EmuState { sound_timer: s.reg(x), pc: next, ..s }),
        Instruction::AddIndex { x } => Ok(EmuState { i: ((s.i + s.reg(x)) % 0x10000) as u16, pc: next, ..s }),
        Instruction::FontChar { x } => Ok(EmuState { i: ((s.reg(x) % 16) * 5) as u16, pc: next, ..s }),
        Instruction::StoreBcd { x } => if s.i + 3 > RAM_SIZE {
            Err(EmuError::MemoryOutOfBounds)
        } else {
            Ok(EmuState { ram: write_bytes(s.ram, s.i as int, bcd_digits(s.reg(x))), pc: next, ..s })
        },
        Instruction::StoreRegs { x } => if s.i + x + 1 > RAM_SIZE {
            Err(EmuError::MemoryOutOfBounds)
        } else {
            Ok(EmuState { ram: write_bytes(s.ram, s.i as int, s.v.take(x + 1)), pc: next, ..s })
        },
        Instruction::LoadRegs { x } => if s.i + x + 1 > RAM_SIZE {
            Err(EmuError::MemoryOutOfBounds)
        } else {
            Ok(EmuState { v: write_bytes(s.v, 0, s.ram.subrange(s.i as int, s.i + x + 1)), pc: next, ..s })
        },
    }
}

/// One fetch-decode-execute cycle from state `s`.
pub open spec fn step_spec(s: EmuState, rnd: u8) -> Result<EmuState, EmuError> {
    if s.pc + 1 >= RAM_SIZE {
        Err(EmuError::MemoryOutOfBounds)
    } else {
        match decode_spec(word_at(s.ram, s.pc as int)) {
            None => Err(EmuError::InvalidOpcode),
            Some(ins) => execute_spec(s, ins, rnd),
        }
    }
}

/// `new` and `r` are the state and result of an operation whose outcome, from
/// state `old`, the model gives as `expected`: on success the new state is the
/// model's, on failure the same error is reported and the state is untouched.
pub open spec fn applied(
    expected: Result<EmuState, EmuError>,
    old: EmuState,
    new: EmuState,
    r: Result<(), EmuError>,
) -> bool {
    match expected {
        Ok(s) => r == Ok::<(), EmuError>(()) && new == s,
        Err(e) => r == Err::<(), EmuError>(e) && new == old,
    }
}

/// The state after `data` is loaded at the load address, or why it cannot be.
pub open spec fn load_spec(s: EmuState, data: Seq<u8>) -> Result<EmuState, EmuError> {
    if data.len() > RAM_SIZE - START_ADDRESS {
        Err(EmuError::ProgramTooLarge)
    } else {
        Ok(EmuState { ram: write_bytes(s.ram, START_ADDRESS as int, data), ..s })
    }
}

} // verus!
