//! The executable machine, proved to follow the model of `semantics`.

use vstd::prelude::*;
use crate::instruction::{Instruction, decode};
use crate::semantics::{
    applied, bcd_digits, draw_collides, drawn_screen, execute_spec, load_spec, lowest_pressed,
    sprite_covers, step_spec, word_at, write_bytes,
};
use crate::state::{
    font_table, initial_state, EmuError, EmuState, FLAG, FONTSET_SIZE, NUM_KEYS, NUM_REGISTERS,
    RAM_SIZE, SCREEN_SIZE, STACK_SIZE, START_ADDRESS, WIDTH, HEIGHT,
};

verus! {

/// A CHIP-8 machine: memory, registers, call stack, timers, display and keys.
pub struct Emu {
    pc: u16,
    ram: Vec<u8>,
    v_registers: Vec<u8>,
    i_register: u16,
    stack: Vec<u16>,
    delay_timer: u8,
    sound_timer: u8,
    screen: Vec<bool>,
    keys: Vec<bool>,
}

impl View for Emu {
    type V = EmuState;

    closed spec fn view(&self) -> EmuState {
        EmuState {
            pc: self.pc,
            ram: self.ram@,
            v: self.v_registers@,
            i: self.i_register,
            stack: self.stack@,
            delay_timer: self.delay_timer,
            sound_timer: self.sound_timer,
            screen: self.screen@,
            keys: self.keys@,
        }
    }
}

/// The built-in font, one glyph of five rows for each hexadecimal digit.
fn fontset() -> (r: [u8; FONTSET_SIZE])
    ensures
        r@ == font_table(),
{
    let font: [u8; FONTSET_SIZE] = [
        0xF0, 0x90, 0x90, 0x90, 0xF0, // 0
        0x20, 0x60, 0x20, 0x20, 0x70, // 1
        0xF0, 0x10, 0xF0, 0x80, 0xF0, // 2
        0xF0, 0x10, 0xF0, 0x10, 0xF0, // 3
        0x90, 0x90, 0xF0, 0x10, 0x10, // 4
        0xF0, 0x80, 0xF0, 0x10, 0xF0, // 5
        0xF0, 0x80, 0xF0, 0x90, 0xF0, // 6
        0xF0, 0x10, 0x20, 0x40, 0x40, // 7
        0xF0, 0x90, 0xF0, 0x90, 0xF0, // 8
        0xF0, 0x90, 0xF0, 0x10, 0xF0, // 9
        0xF0, 0x90, 0xF0, 0x90, 0x90, // A
        0xE0, 0x90, 0xE0, 0x90, 0xE0, // B
        0xF0, 0x80, 0x80, 0x80, 0xF0, // C
        0xE0, 0x90, 0x90, 0x90, 0xE0, // D
        0xF0, 0x80, 0xF0, 0x80, 0xF0, // E
        0xF0, 0x80, 0xF0, 0x80, 0x80, // F
    ];
    assert(font@ =~= font_table());
    font
}

/// Relies on `rand::random::<u8>`, a byte drawn from the thread-local generator.
/// Nothing is assumed of its value.
#[verifier::external_body]
fn random_byte() -> (r: u8) {
    rand::random::<u8>()
}

/// Whether the sprite of `n` rows at `ram[i..]`, drawn at (`vx`, `vy`), sets pixel `p`.
fn covers(ram: &Vec<u8>, i: usize, n: u8, vx: u8, vy: u8, p: usize) -> (r: bool)
    requires
        ram@.len() == RAM_SIZE,
        i + n <= RAM_SIZE,
        p < SCREEN_SIZE,
    ensures
        r == sprite_covers(ram@, i as int, n, vx, vy, p as int),
{
    reveal(sprite_covers);
    let col = (p % WIDTH + WIDTH - (vx % WIDTH as u8) as usize) % WIDTH;
    let row = (p / WIDTH + HEIGHT - (vy % HEIGHT as u8) as usize) % HEIGHT;
    row < n as usize && col < 8 && (ram[i + row] >> ((7 - col) as u8)) & 1 == 1
}

/// The lowest-numbered key that is held down, if any.
fn first_pressed(keys: &Vec<bool>) -> (r: Option<u8>)
    requires
        keys@.len() == NUM_KEYS,
    ensures
        r == lowest_pressed(keys@, 0),
{
    let mut k: usize = 0;
    while k < NUM_KEYS
        invariant
            k <= NUM_KEYS,
            keys@.len() == NUM_KEYS,
            lowest_pressed(keys@, 0) == lowest_pressed(keys@, k as nat),
        decreases NUM_KEYS - k,
    {
        if keys[k] {
            return Some(k as u8);
        }
        k += 1;
    }
    None
}

impl Emu {
    /// The fixed sizes of memory, registers, stack, display and keys hold.
    pub open spec fn wf(&self) -> bool {
        self@.wf()
    }

    /// A machine in its initial state: all cleared, the font at address 0 and
    /// the program counter at the load address.
    pub fn new() -> (r: Self)
        ensures
            r.wf(),
            r@ == initial_state(),
    {
        let mut ram: Vec<u8> = vec![0u8; RAM_SIZE];
        let font = fontset();
        let mut a: usize = 0;
        while a < FONTSET_SIZE
            invariant
                a <= FONTSET_SIZE,
                font@ == font_table(),
                ram@.len() == RAM_SIZE,
                forall|b: int| 0 <= b < a ==> ram@[b] == font_table()[b],
                forall|b: int| a <= b < RAM_SIZE ==> ram@[b] == 0u8,
            decreases FONTSET_SIZE - a,
        {
            ram[a] = font[a];
            a += 1;
        }
        let emu = Emu {
            pc: START_ADDRESS,
            ram,
            v_registers: vec![0u8; NUM_REGISTERS],
            i_register: 0,
            stack: Vec::new(),
            delay_timer: 0,
            sound_timer: 0,
            screen: vec![false; SCREEN_SIZE],
            keys: vec![false; NUM_KEYS],
        };
        assert(emu@.ram =~= initial_state().ram);
        assert(emu@.v =~= initial_state().v);
        assert(emu@.stack =~= initial_state().stack);
        assert(emu@.screen =~= initial_state().screen);
        assert(emu@.keys =~= initial_state().keys);
        emu
    }

    /// Puts the machine back into its initial state, as `new` makes it.
    pub fn reset(&mut self)
        ensures
            final(self).wf(),
            final(self)@ == initial_state(),
    {
        *self = Emu::new();
    }

    /// The display, row-major, `WIDTH` pixels to a row.
    pub fn get_display(&self) -> (r: &[bool])
        ensures
            r@ == self@.screen,
    {
        self.screen.as_slice()
    }

    /// Sets whether key `idx` is held down.
    pub fn keypress(&mut self, idx: usize, pressed: bool)
        requires
            old(self).wf(),
            idx < NUM_KEYS,
        ensures
            final(self).wf(),
            final(self)@ == (EmuState { keys: old(self)@.keys.update(idx as int, pressed), ..old(self)@ }),
    {
        self.keys[idx] = pressed;
    }

    /// Copies a program image into memory from the load address on; refuses
    /// one that does not fit, leaving memory as it was.
    pub fn load(&mut self, data: &[u8]) -> (r: Result<(), EmuError>)
        requires
            old(self).wf(),
        ensures
            final(self).wf(),
            applied(load_spec(old(self)@, data@), old(self)@, final(self)@, r),
    {
        let start = START_ADDRESS as usize;
        if data.len() > RAM_SIZE - start {
            return Err(EmuError::ProgramTooLarge);
        }
        let mut k: usize = 0;
        while k < data.len()
            invariant
                k <= data@.len(),
                start + data@.len() <= RAM_SIZE,
                start == START_ADDRESS,
                self.wf(),
                self@ == (EmuState { ram: self@.ram, ..old(self)@ }),
                forall|a: int|
                    0 <= a < RAM_SIZE ==> self@.ram[a] == (if start <= a < start + k {
                        data@[a - start]
                    } else {
                        old(self)@.ram[a]
                    }),
            decreases data@.len() - k,
        {
            self.ram[start + k] = data[k];
            k += 1;
        }
        assert(self@.ram =~= write_bytes(old(self)@.ram, start as int, data@));
        Ok(())
    }

    /// Pushes a return address; fails, changing nothing, when the stack is full.
    pub fn push(&mut self, val: u16) -> (r: Result<(), EmuError>)
        requires
            old(self).wf(),
        ensures
            final(self).wf(),
            old(self)@.stack.len() < STACK_SIZE ==> r is Ok && final(self)@ == (EmuState {
                stack: old(self)@.stack.push(val),
                ..old(self)@
            }),
            old(self)@.stack.len() >= STACK_SIZE ==> r == Err::<(), EmuError>(EmuError::StackOverflow)
                && final(self)@ == old(self)@,
    {
        if self.stack.len() >= STACK_SIZE {
            return Err(EmuError::StackOverflow);
        }
        self.stack.push(val);
        Ok(())
    }

    /// Pops the most recent return address; fails, changing nothing, when the
    /// stack is empty.
    pub fn pop(&mut self) -> (r: Result<u16, EmuError>)
        requires
            old(self).wf(),
        ensures
            final(self).wf(),
            old(self)@.stack.len() > 0 ==> r == Ok::<u16, EmuError>(old(self)@.stack.last())
                && final(self)@ == (EmuState { stack: old(self)@.stack.drop_last(), ..old(self)@ }),
            old(self)@.stack.len() == 0 ==> r == Err::<u16, EmuError>(EmuError::StackUnderflow)
                && final(self)@ == old(self)@,
    {
        match self.stack.pop() {
            Some(addr) => Ok(addr),
            None => Err(EmuError::StackUnderflow),
        }
    }

    /// The opcode at the program counter, high byte first.
    pub fn fetch(&self) -> (r: Result<u16, EmuError>)
        requires
            self.wf(),
        ensures
            self@.pc + 1 < RAM_SIZE ==> r == Ok::<u16, EmuError>(word_at(self@.ram, self@.pc as int)),
            self@.pc + 1 >= RAM_SIZE ==> r == Err::<u16, EmuError>(EmuError::MemoryOutOfBounds),
    {
        let pc = self.pc as usize;
        if pc + 1 >= RAM_SIZE {
            return Err(EmuError::MemoryOutOfBounds);
        }
        let high = self.ram[pc] as u16;
        let low = self.ram[pc + 1] as u16;
        Ok(high * 256 + low)
    }
}

impl Emu {
    /// XORs the `n`-row sprite at `I` onto the display at (`VX`, `VY`) and sets
    /// `VF` to whether a lit pixel went dark; fails, changing nothing, when the
    /// sprite's rows leave memory.
    fn draw(&mut self, x: u8, y: u8, n: u8) -> (r: Result<(), EmuError>)
        requires
            old(self).wf(),
            x < NUM_REGISTERS,
            y < NUM_REGISTERS,
            n < 16,
        ensures
            final(self).wf(),
            ({
                let s = old(self)@;
                let (vx, vy) = (s.reg(x), s.reg(y));
                applied(
                    if s.i + n > RAM_SIZE {
                        Err(EmuError::MemoryOutOfBounds)
                    } else {
                        Ok(
                            EmuState {
                                screen: drawn_screen(s.screen, s.ram, s.i as int, n, vx, vy),
                                ..s
                            }.with_reg(
                                FLAG,
                                if draw_collides(s.screen, s.ram, s.i as int, n, vx, vy) {
                                    1
                                } else {
                                    0
                                },
                            ),
                        )
                    },
                    s,
                    final(self)@,
                    r,
                )
            }),
    {
        let vx = self.v_registers[x as usize];
        let vy = self.v_registers[y as usize];
        let i = self.i_register as usize;
        if i + n as usize > RAM_SIZE {
            return Err(EmuError::MemoryOutOfBounds);
        }
        let ghost s = self@;
        let mut screen: Vec<bool> = Vec::with_capacity(SCREEN_SIZE);
        let mut hit = false;
        let mut p: usize = 0;
        while p < SCREEN_SIZE
            invariant
                self@ == s,
                s.wf(),
                i == s.i,
                i + n <= RAM_SIZE,
                vx == s.reg(x),
                vy == s.reg(y),
                p <= SCREEN_SIZE,
                screen@.len() == p,
                forall|q: int|
                    0 <= q < p ==> screen@[q] == (s.screen[q] != sprite_covers(
                        s.ram,
                        i as int,
                        n,
                        vx,
                        vy,
                        q,
                    )),
                hit == exists|q: int|
                    0 <= q < p && #[trigger] s.screen[q] && sprite_covers(
                        s.ram,
                        i as int,
                        n,
                        vx,
                        vy,
                        q,
                    ),
            decreases SCREEN_SIZE - p,
        {
            let lit = self.screen[p];
            let set = covers(&self.ram, i, n, vx, vy, p);
            if lit && set {
                hit = true;
            }
            screen.push(lit != set);
            p += 1;
        }
        self.screen = screen;
        self.v_registers[FLAG as usize] = if hit { 1 } else { 0 };
        assert(self@.screen =~= drawn_screen(s.screen, s.ram, s.i as int, n, vx, vy));
        Ok(())
    }
}

impl Emu {
    /// Writes `V0` to `VX` into memory from `I` on; fails, changing nothing,
    /// when that leaves memory.
    fn store_registers(&mut self, x: u8) -> (r: Result<(), EmuError>)
        requires
            old(self).wf(),
            x < NUM_REGISTERS,
        ensures
            final(self).wf(),
            ({
                let s = old(self)@;
                applied(
                    if s.i + x + 1 > RAM_SIZE {
                        Err(EmuError::MemoryOutOfBounds)
                    } else {
                        Ok(EmuState { ram: write_bytes(s.ram, s.i as int, s.v.take(x + 1)), ..s })
                    },
                    s,
                    final(self)@,
                    r,
                )
            }),
    {
        let i = self.i_register as usize;
        let count = x as usize + 1;
        if i + count > RAM_SIZE {
            return Err(EmuError::MemoryOutOfBounds);
        }
        let ghost s = self@;
        let mut k: usize = 0;
        while k < count
            invariant
                s.wf(),
                i == s.i,
                count == x + 1,
                count <= NUM_REGISTERS,
                i + count <= RAM_SIZE,
                k <= count,
                self.wf(),
                self@ == (EmuState { ram: self@.ram, ..s }),
                forall|a: int|
                    0 <= a < RAM_SIZE ==> self@.ram[a] == (if i <= a < i + k {
                        s.v[a - i]
                    } else {
                        s.ram[a]
                    }),
            decreases count - k,
        {
            self.ram[i + k] = self.v_registers[k];
            k += 1;
        }
        assert(self@.ram =~= write_bytes(s.ram, s.i as int, s.v.take(x + 1)));
        Ok(())
    }

    /// Reads `V0` to `VX` from memory from `I` on; fails, changing nothing,
    /// when that leaves memory.
    fn load_registers(&mut self, x: u8) -> (r: Result<(), EmuError>)
        requires
            old(self).wf(),
            x < NUM_REGISTERS,
        ensures
            final(self).wf(),
            ({
                let s = old(self)@;
                applied(
                    if s.i + x + 1 > RAM_SIZE {
                        Err(EmuError::MemoryOutOfBounds)
                    } else {
                        Ok(
                            EmuState {
                                v: write_bytes(s.v, 0, s.ram.subrange(s.i as int, s.i + x + 1)),
                                ..s
                            },
                        )
                    },
                    s,
                    final(self)@,
                    r,
                )
            }),
    {
        let i = self.i_register as usize;
        let count = x as usize + 1;
        if i + count > RAM_SIZE {
            return Err(EmuError::MemoryOutOfBounds);
        }
        let ghost s = self@;
        let mut k: usize = 0;
        while k < count
            invariant
                s.wf(),
                i == s.i,
                count == x + 1,
                count <= NUM_REGISTERS,
                i + count <= RAM_SIZE,
                k <= count,
                self.wf(),
                self@ == (EmuState { v: self@.v, ..s }),
                forall|r: int|
                    0 <= r < NUM_REGISTERS ==> self@.v[r] == (if r < k {
                        s.ram[i + r]
                    } else {
                        s.v[r]
                    }),
            decreases count - k,
        {
            self.v_registers[k] = self.ram[i + k];
            k += 1;
        }
        assert(self@.v =~= write_bytes(s.v, 0, s.ram.subrange(s.i as int, s.i + x + 1)));
        Ok(())
    }

    /// Writes the decimal digits of `VX`, hundreds first, at `I`, `I + 1` and
    /// `I + 2`; fails, changing nothing, when that leaves memory.
    fn store_bcd(&mut self, x: u8) -> (r: Result<(), EmuError>)
        requires
            old(self).wf(),
            x < NUM_REGISTERS,
        ensures
            final(self).wf(),
            ({
                let s = old(self)@;
                applied(
                    if s.i + 3 > RAM_SIZE {
                        Err(EmuError::MemoryOutOfBounds)
                    } else {
                        Ok(EmuState { ram: write_bytes(s.ram, s.i as int, bcd_digits(s.reg(x))), ..s })
                    },
                    s,
                    final(self)@,
                    r,
                )
            }),
    {
        let i = self.i_register as usize;
        if i + 3 > RAM_SIZE {
            return Err(EmuError::MemoryOutOfBounds);
        }
        let vx = self.v_registers[x as usize];
        self.ram[i] = vx / 100;
        self.ram[i + 1] = (vx / 10) % 10;
        self.ram[i + 2] = vx % 10;
        assert(self@.ram =~= write_bytes(old(self)@.ram, i as int, bcd_digits(vx)));
        Ok(())
    }
}

impl Emu {
    /// Instructions that only decide where execution goes on.
    fn execute_control(&mut self, ins: Instruction, rnd: u8) -> (r: Result<(), EmuError>)
        requires
            old(self).wf(),
            ins.wf(),
            old(self)@.pc + 1 < RAM_SIZE,
            ins is Nop
            || ins is Return
            || ins is Jump
            || ins is Call
            || ins is SkipEqImm
            || ins is SkipNeImm
            || ins is SkipEqReg
            || ins is SkipNeReg
            || ins is JumpOffset
            || ins is SkipKeyPressed
            || ins is SkipKeyReleased
            || ins is WaitKey,
        ensures
            final(self).wf(),
            applied(execute_spec(old(self)@, ins, rnd), old(self)@, final(self)@, r),
    {
        let next = self.pc + 2;
        let skip = self.pc + 4;
        match ins {
            Instruction::Nop => {},
            Instruction::Return => {
                match self.pop() {
                    Ok(addr) => {
                        self.pc = addr;
                    },
                    Err(e) => {
                        return Err(e);
                    },
                }
                return Ok(());
            },
            Instruction::Jump { addr } => {
                self.pc = addr;
                return Ok(());
            },
            Instruction::Call { addr } => {
                match self.push(next) {
                    Ok(()) => {
                        self.pc = addr;
                    },
                    Err(e) => {
                        return Err(e);
                    },
                }
                return Ok(());
            },
            Instruction::SkipEqImm { x, nn } => {
                if self.v_registers[x as usize] == nn {
                    self.pc = skip;
                    return Ok(());
                }
            },
            Instruction::SkipNeImm { x, nn } => {
                if self.v_registers[x as usize] != nn {
                    self.pc = skip;
                    return Ok(());
                }
            },
            Instruction::SkipEqReg { x, y } => {
                if self.v_registers[x as usize] == self.v_registers[y as usize] {
                    self.pc = skip;
                    return Ok(());
                }
            },
            Instruction::SkipNeReg { x, y } => {
                if self.v_registers[x as usize] != self.v_registers[y as usize] {
                    self.pc = skip;
                    return Ok(());
                }
            },
            Instruction::JumpOffset { addr } => {
                self.pc = addr + self.v_registers[0] as u16;
                return Ok(());
            },
            Instruction::SkipKeyPressed { x } => {
                let key = self.v_registers[x as usize] as usize;
                if key >= NUM_KEYS {
                    return Err(EmuError::InvalidKey);
                }
                if self.keys[key] {
                    self.pc = skip;
                    return Ok(());
                }
            },
            Instruction::SkipKeyReleased { x } => {
                let key = self.v_registers[x as usize] as usize;
                if key >= NUM_KEYS {
                    return Err(EmuError::InvalidKey);
                }
                if !self.keys[key] {
                    self.pc = skip;
                    return Ok(());
                }
            },
            Instruction::WaitKey { x } => {
                match first_pressed(&self.keys) {
                    Some(k) => {
                        self.v_registers[x as usize] = k;
                    },
                    None => {
                        // Not advancing runs this instruction again on the next step.
                        return Ok(());
                    },
                }
            },
            _ => {},
        }
        self.pc = next;
        Ok(())
    }

    /// Instructions that compute into the general registers.
    fn execute_register(&mut self, ins: Instruction, rnd: u8) -> (r: Result<(), EmuError>)
        requires
            old(self).wf(),
            ins.wf(),
            old(self)@.pc + 1 < RAM_SIZE,
            ins is LoadImm
            || ins is AddImm
            || ins is Move
            || ins is Or
            || ins is And
            || ins is Xor
            || ins is AddReg
            || ins is SubReg
            || ins is SubRev
            || ins is ShiftRight
            || ins is ShiftLeft
            || ins is Random,
        ensures
            final(self).wf(),
            applied(execute_spec(old(self)@, ins, rnd), old(self)@, final(self)@, r),
    {
        let next = self.pc + 2;
        match ins {
            Instruction::LoadImm { x, nn } => {
                self.v_registers[x as usize] = nn;
            },
            Instruction::AddImm { x, nn } => {
                let vx = self.v_registers[x as usize];
                self.v_registers[x as usize] = vx.wrapping_add(nn);
            },
            Instruction::Move { x, y } => {
                self.v_registers[x as usize] = self.v_registers[y as usize];
            },
            Instruction::Or { x, y } => {
                self.v_registers[x as usize] = self.v_registers[x as usize] | self.v_registers[y as usize];
            },
            Instruction::And { x, y } => {
                self.v_registers[x as usize] = self.v_registers[x as usize] & self.v_registers[y as usize];
            },
            Instruction::Xor { x, y } => {
                self.v_registers[x as usize] = self.v_registers[x as usize] ^ self.v_registers[y as usize];
            },
            Instruction::AddReg { x, y } => {
                let vx = self.v_registers[x as usize];
                let vy = self.v_registers[y as usize];
                let carry = vx as u16 + vy as u16 >= 256;
                self.v_registers[x as usize] = vx.wrapping_add(vy);
                self.v_registers[FLAG as usize] = if carry { 1 } else { 0 };
            },
            Instruction::SubReg { x, y } => {
                let vx = self.v_registers[x as usize];
                let vy = self.v_registers[y as usize];
                self.v_registers[x as usize] = vx.wrapping_sub(vy);
                self.v_registers[FLAG as usize] = if vx >= vy { 1 } else { 0 };
            },
            Instruction::SubRev { x, y } => {
                let vx = self.v_registers[x as usize];
                let vy = self.v_registers[y as usize];
                self.v_registers[x as usize] = vy.wrapping_sub(vx);
                self.v_registers[FLAG as usize] = if vy >= vx { 1 } else { 0 };
            },
            Instruction::ShiftRight { x } => {
                let vx = self.v_registers[x as usize];
                assert(vx >> 1u8 == vx / 2 && vx & 1u8 == vx % 2) by (bit_vector);
                self.v_registers[x as usize] = vx >> 1;
                self.v_registers[FLAG as usize] = vx & 1;
            },
            Instruction::ShiftLeft { x } => {
                let vx = self.v_registers[x as usize];
                assert(vx << 1u8 == ((vx as u16 * 2u16) as u16 % 256u16) as u8 && (vx >> 7u8) & 1u8
                    == vx / 128) by (bit_vector);
                self.v_registers[x as usize] = vx << 1;
                self.v_registers[FLAG as usize] = (vx >> 7) & 1;
            },
            Instruction::Random { x, nn } => {
                self.v_registers[x as usize] = rnd & nn;
            },
            _ => {},
        }
        self.pc = next;
        Ok(())
    }

    /// Instructions on the index register, memory, display and timers.
    fn execute_memory(&mut self, ins: Instruction, rnd: u8) -> (r: Result<(), EmuError>)
        requires
            old(self).wf(),
            ins.wf(),
            old(self)@.pc + 1 < RAM_SIZE,
            ins is ClearScreen
            || ins is SetIndex
            || ins is Draw
            || ins is ReadDelay
            || ins is SetDelay
            || ins is SetSound
            || ins is AddIndex
            || ins is FontChar
            || ins is StoreBcd
            || ins is StoreRegs
            || ins is LoadRegs,
        ensures
            final(self).wf(),
            applied(execute_spec(old(self)@, ins, rnd), old(self)@, final(self)@, r),
    {
        let next = self.pc + 2;
        match ins {
            Instruction::ClearScreen => {
                self.screen = vec![false; SCREEN_SIZE];
                assert(self@.screen =~= Seq::new(SCREEN_SIZE as nat, |p: int| false));
            },
            Instruction::SetIndex { addr } => {
                self.i_register = addr;
            },
            Instruction::Draw { x, y, n } => {
                match self.draw(x, y, n) {
                    Ok(()) => {},
                    Err(e) => {
                        return Err(e);
                    },
                }
            },
            Instruction::ReadDelay { x } => {
                self.v_registers[x as usize] = self.delay_timer;
            },
            Instruction::SetDelay { x } => {
                self.delay_timer = self.v_registers[x as usize];
            },
            Instruction::SetSound { x } => {
                self.sound_timer = self.v_registers[x as usize];
            },
            Instruction::AddIndex { x } => {
                self.i_register = self.i_register.wrapping_add(self.v_registers[x as usize] as u16);
            },
            Instruction::FontChar { x } => {
                self.i_register = (self.v_registers[x as usize] % 16) as u16 * 5;
            },
            Instruction::StoreBcd { x } => {
                match self.store_bcd(x) {
                    Ok(()) => {},
                    Err(e) => {
                        return Err(e);
                    },
                }
            },
            Instruction::StoreRegs { x } => {
                match self.store_registers(x) {
                    Ok(()) => {},
                    Err(e) => {
                        return Err(e);
                    },
                }
            },
            Instruction::LoadRegs { x } => {
                match self.load_registers(x) {
                    Ok(()) => {},
                    Err(e) => {
                        return Err(e);
                    },
                }
            },
            _ => {},
        }
        self.pc = next;
        Ok(())
    }

    /// Carries out `ins`, fetched from the program counter; `rnd` is the byte
    /// that `CXNN` masks.
    fn execute(&mut self, ins: Instruction, rnd: u8) -> (r: Result<(), EmuError>)
        requires
            old(self).wf(),
            ins.wf(),
            old(self)@.pc + 1 < RAM_SIZE,
        ensures
            final(self).wf(),
            applied(execute_spec(old(self)@, ins, rnd), old(self)@, final(self)@, r),
    {
        match ins {
            Instruction::LoadImm { .. }
            | Instruction::AddImm { .. }
            | Instruction::Move { .. }
            | Instruction::Or { .. }
            | Instruction::And { .. }
            | Instruction::Xor { .. }
            | Instruction::AddReg { .. }
            | Instruction::SubReg { .. }
            | Instruction::SubRev { .. }
            | Instruction::ShiftRight { .. }
            | Instruction::ShiftLeft { .. }
            | Instruction::Random { .. } => self.execute_register(ins, rnd),
            Instruction::ClearScreen
            | Instruction::SetIndex { .. }
            | Instruction::Draw { .. }
            | Instruction::ReadDelay { .. }
            | Instruction::SetDelay { .. }
            | Instruction::SetSound { .. }
            | Instruction::AddIndex { .. }
            | Instruction::FontChar { .. }
            | Instruction::StoreBcd { .. }
            | Instruction::StoreRegs { .. }
            | Instruction::LoadRegs { .. } => self.execute_memory(ins, rnd),
            _ => self.execute_control(ins, rnd),
        }
    }

    /// One fetch-decode-execute cycle, with `random_byte` as the byte that a
    /// `CXNN` instruction masks. On an error nothing changes.
    pub fn step_with(&mut self, random_byte: u8) -> (r: Result<(), EmuError>)
        requires
            old(self).wf(),
        ensures
            final(self).wf(),
            applied(step_spec(old(self)@, random_byte), old(self)@, final(self)@, r),
    {
        let op = match self.fetch() {
            Ok(op) => op,
            Err(e) => {
                return Err(e);
            },
        };
        match decode(op) {
            Some(ins) => self.execute(ins, random_byte),
            None => Err(EmuError::InvalidOpcode),
        }
    }

    /// One fetch-decode-execute cycle. `CXNN` masks a freshly drawn random
    /// byte; every other instruction behaves as `step_with` does for any byte.
    pub fn tick(&mut self) -> (r: Result<(), EmuError>)
        requires
            old(self).wf(),
        ensures
            final(self).wf(),
            exists|rnd: u8| applied(step_spec(old(self)@, rnd), old(self)@, final(self)@, r),
    {
        let rnd = random_byte();
        self.step_with(rnd)
    }

    /// Counts the delay timer down by one, unless it is already zero.
    pub fn tick_delay_timer(&mut self)
        requires
            old(self).wf(),
        ensures
            final(self).wf(),
            final(self)@ == (EmuState {
                delay_timer: if old(self)@.delay_timer > 0 {
                    (old(self)@.delay_timer - 1) as u8
                } else {
                    0
                },
                ..old(self)@
            }),
    {
        if self.delay_timer > 0 {
            self.delay_timer -= 1;
        }
    }

    /// Counts the sound timer down by one, unless it is already zero.
    pub fn tick_sound_timer(&mut self)
        requires
            old(self).wf(),
        ensures
            final(self).wf(),
            final(self)@ == (EmuState {
                sound_timer: if old(self)@.sound_timer > 0 {
                    (old(self)@.sound_timer - 1) as u8
                } else {
                    0
                },
                ..old(self)@
            }),
    {
        if self.sound_timer > 0 {
            self.sound_timer -= 1;
        }
    }
}

impl Emu {
    /// The program counter.
    pub fn pc(&self) -> (r: u16)
        ensures
            r == self@.pc,
    {
        self.pc
    }

    /// General register `x`.
    pub fn register(&self, x: usize) -> (r: u8)
        requires
            self.wf(),
            x < NUM_REGISTERS,
        ensures
            r == self@.v[x as int],
    {
        self.v_registers[x]
    }

    /// The index register `I`.
    pub fn index_register(&self) -> (r: u16)
        ensures
            r == self@.i,
    {
        self.i_register
    }

    /// The byte of memory at `addr`.
    pub fn memory(&self, addr: usize) -> (r: u8)
        requires
            self.wf(),
            addr < RAM_SIZE,
        ensures
            r == self@.ram[addr as int],
    {
        self.ram[addr]
    }

    /// How many return addresses the stack holds.
    pub fn stack_depth(&self) -> (r: usize)
        ensures
            r == self@.stack.len(),
    {
        self.stack.len()
    }

    /// The delay timer.
    pub fn delay_timer(&self) -> (r: u8)
        ensures
            r == self@.delay_timer,
    {
        self.delay_timer
    }

    /// The sound timer; a tone should sound while it is not zero.
    pub fn sound_timer(&self) -> (r: u8)
        ensures
            r == self@.sound_timer,
    {
        self.sound_timer
    }
}

} // verus!
