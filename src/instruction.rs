//! Decoding of 16-bit opcodes into instructions.

use vstd::prelude::*;

verus! {

/// One decoded instruction. `x` and `y` name registers, `n` is a 4-bit
/// immediate, `nn` an 8-bit immediate and `addr` a 12-bit address.
#[derive(Clone, Copy, Debug, PartialEq, Eq, Structural)]
pub enum Instruction {
    /// `0000`
    Nop,
    /// `00E0`
    ClearScreen,
    /// `00EE`
    Return,
    /// `1NNN`
    Jump { addr: u16 },
    /// `2NNN`
    Call { addr: u16 },
    /// `3XNN`
    SkipEqImm { x: u8, nn: u8 },
    /// `4XNN`
    SkipNeImm { x: u8, nn: u8 },
    /// `5XY0`
    SkipEqReg { x: u8, y: u8 },
    /// `6XNN`
    LoadImm { x: u8, nn: u8 },
    /// `7XNN`
    AddImm { x: u8, nn: u8 },
    /// `8XY0`
    Move { x: u8, y: u8 },
    /// `8XY1`
    Or { x: u8, y: u8 },
    /// `8XY2`
    And { x: u8, y: u8 },
    /// `8XY3`
    Xor { x: u8, y: u8 },
    /// `8XY4`
    AddReg { x: u8, y: u8 },
    /// `8XY5`
    SubReg { x: u8, y: u8 },
    /// `8XY6`
    ShiftRight { x: u8 },
    /// `8XY7`
    SubRev { x: u8, y: u8 },
    /// `8XYE`
    ShiftLeft { x: u8 },
    /// `9XY0`
    SkipNeReg { x: u8, y: u8 },
    /// `ANNN`
    SetIndex { addr: u16 },
    /// `BNNN`
    JumpOffset { addr: u16 },
    /// `CXNN`
    Random { x: u8, nn: u8 },
    /// `DXYN`
    Draw { x: u8, y: u8, n: u8 },
    /// `EX9E`
    SkipKeyPressed { x: u8 },
    /// `EXA1`
    SkipKeyReleased { x: u8 },
    /// `FX07`
    ReadDelay { x: u8 },
    /// `FX0A`
    WaitKey { x: u8 },
    /// `FX15`
    SetDelay { x: u8 },
    /// `FX18`
    SetSound { x: u8 },
    /// `FX1E`
    AddIndex { x: u8 },
    /// `FX29`
    FontChar { x: u8 },
    /// `FX33`
    StoreBcd { x: u8 },
    /// `FX55`
    StoreRegs { x: u8 },
    /// `FX65`
    LoadRegs { x: u8 },
}

/// Bits 8 to 11 of an opcode.
pub open spec fn op_x(op: u16) -> u8 {
    ((op / 256) % 16) as u8
}

/// Bits 4 to 7 of an opcode.
pub open spec fn op_y(op: u16) -> u8 {
    ((op / 16) % 16) as u8
}

/// Bits 0 to 3 of an opcode.
pub open spec fn op_n(op: u16) -> u8 {
    (op % 16) as u8
}

/// The low byte of an opcode.
pub open spec fn op_nn(op: u16) -> u8 {
    (op % 256) as u8
}

/// The low 12 bits of an opcode.
pub open spec fn op_nnn(op: u16) -> u16 {
    (op % 4096) as u16
}

/// The instruction that an opcode encodes, if any.
pub open spec fn decode_spec(op: u16) -> Option<Instruction> {
    let kind = op / 4096;
    let x = op_x(op);
    let y = op_y(op);
    let n = op_n(op);
    let nn = op_nn(op);
    let addr = op_nnn(op);
    if op == 0x0000 {
        Some(Instruction::Nop)
    } else if op == 0x00E0 {
        Some(Instruction::ClearScreen)
    } else if op == 0x00EE {
        Some(Instruction::Return)
    } else if kind == 0x1 {
        Some(Instruction::Jump { addr })
    } else if kind == 0x2 {
        Some(Instruction::Call { addr })
    } else if kind == 0x3 {
        Some(Instruction::SkipEqImm { x, nn })
    } else if kind == 0x4 {
        Some(Instruction::SkipNeImm { x, nn })
    } else if kind == 0x5 && n == 0 {
        Some(Instruction::SkipEqReg { x, y })
    } else if kind == 0x6 {
        Some(Instruction::LoadImm { x, nn })
    } else if kind == 0x7 {
        Some(Instruction::AddImm { x, nn })
    } else if kind == 0x8 {
        if n == 0x0 {
            Some(Instruction::Move { x, y })
        } else if n == 0x1 {
            Some(Instruction::Or { x, y })
        } else if n == 0x2 {
            Some(Instruction::And { x, y })
        } else if n == 0x3 {
            Some(Instruction::Xor { x, y })
        } else if n == 0x4 {
            Some(Instruction::AddReg { x, y })
        } else if n == 0x5 {
            Some(Instruction::SubReg { x, y })
        } else if n == 0x6 {
            Some(Instruction::ShiftRight { x })
        } else if n == 0x7 {
            Some(Instruction::SubRev { x, y })
        } else if n == 0xE {
            Some(Instruction::ShiftLeft { x })
        } else {
            None
        }
    } else if kind == 0x9 && n == 0 {
        Some(Instruction::SkipNeReg { x, y })
    } else if kind == 0xA {
        Some(Instruction::SetIndex { addr })
    } else if kind == 0xB {
        Some(Instruction::JumpOffset { addr })
    } else if kind == 0xC {
        Some(Instruction::Random { x, nn })
    } else if kind == 0xD {
        Some(Instruction::Draw { x, y, n })
    } else if kind == 0xE && nn == 0x9E {
        Some(Instruction::SkipKeyPressed { x })
    } else if kind == 0xE && nn == 0xA1 {
        Some(Instruction::SkipKeyReleased { x })
    } else if kind == 0xF {
        if nn == 0x07 {
            Some(Instruction::ReadDelay { x })
        } else if nn == 0x0A {
            Some(Instruction::WaitKey { x })
        } else if nn == 0x15 {
            Some(Instruction::SetDelay { x })
        } else if nn == 0x18 {
            Some(Instruction::SetSound { x })
        } else if nn == 0x1E {
            Some(Instruction::AddIndex { x })
        } else if nn == 0x29 {
            Some(Instruction::FontChar { x })
        } else if nn == 0x33 {
            Some(Instruction::StoreBcd { x })
        } else if nn == 0x55 {
            Some(Instruction::StoreRegs { x })
        } else if nn == 0x65 {
            Some(Instruction::LoadRegs { x })
        } else {
            None
        }
    } else {
        None
    }
}

impl Instruction {
    /// Register operands are below 16, `n` below 16 and addresses below 4096,
    /// as for every instruction that an opcode decodes to.
    pub open spec fn wf(self) -> bool {
        match self {
            Instruction::Jump { addr } | Instruction::Call { addr } | Instruction::SetIndex { addr }
            | Instruction::JumpOffset { addr } => addr < 4096,
            Instruction::SkipEqImm { x, .. } | Instruction::SkipNeImm { x, .. }
            | Instruction::LoadImm { x, .. } | Instruction::AddImm { x, .. }
            | Instruction::Random { x, .. } | Instruction::ShiftRight { x }
            | Instruction::ShiftLeft { x } | Instruction::SkipKeyPressed { x }
            | Instruction::SkipKeyReleased { x } | Instruction::ReadDelay { x }
            | Instruction::WaitKey { x } | Instruction::SetDelay { x }
            | Instruction::SetSound { x } | Instruction::AddIndex { x }
            | Instruction::FontChar { x } | Instruction::StoreBcd { x }
            | Instruction::StoreRegs { x } | Instruction::LoadRegs { x } => x < 16,
            Instruction::SkipEqReg { x, y } | Instruction::SkipNeReg { x, y }
            | Instruction::Move { x, y } | Instruction::Or { x, y } | Instruction::And { x, y }
            | Instruction::Xor { x, y } | Instruction::AddReg { x, y }
            | Instruction::SubReg { x, y } | Instruction::SubRev { x, y } => x < 16 && y < 16,
            Instruction::Draw { x, y, n } => x < 16 && y < 16 && n < 16,
            _ => true,
        }
    }
}

proof fn lemma_fields(op: u16)
    ensures
        op >> 12u16 == op / 4096,
        (op >> 8u16) & 0xFu16 == (op / 256) % 16,
        (op >> 4u16) & 0xFu16 == (op / 16) % 16,
        op & 0xFu16 == op % 16,
        op & 0xFFu16 == op % 256,
        op & 0xFFFu16 == op % 4096,
{
    assert(op >> 12u16 == op / 4096) by (bit_vector);
    assert((op >> 8u16) & 0xFu16 == (op / 256) % 16) by (bit_vector);
    assert((op >> 4u16) & 0xFu16 == (op / 16) % 16) by (bit_vector);
    assert(op & 0xFu16 == op % 16) by (bit_vector);
    assert(op & 0xFFu16 == op % 256) by (bit_vector);
    assert(op & 0xFFFu16 == op % 4096) by (bit_vector);
}

/// Decodes one opcode; `None` where it matches no instruction.
pub fn decode(op: u16) -> (r: Option<Instruction>)
    ensures
        r == decode_spec(op),
        r matches Some(ins) ==> ins.wf(),
{
    proof {
        lemma_fields(op);
    }
    let kind = op >> 12;
    let x = ((op >> 8) & 0xF) as u8;
    let y = ((op >> 4) & 0xF) as u8;
    let n = (op & 0xF) as u8;
    let nn = (op & 0xFF) as u8;
    let addr = op & 0xFFF;
    if op == 0x0000 {
        Some(Instruction::Nop)
    } else if op == 0x00E0 {
        Some(Instruction::ClearScreen)
    } else if op == 0x00EE {
        Some(Instruction::Return)
    } else if kind == 0x1 {
        Some(Instruction::Jump { addr })
    } else if kind == 0x2 {
        Some(Instruction::Call { addr })
    } else if kind == 0x3 {
        Some(Instruction::SkipEqImm { x, nn })
    } else if kind == 0x4 {
        Some(Instruction::SkipNeImm { x, nn })
    } else if kind == 0x5 && n == 0 {
        Some(Instruction::SkipEqReg { x, y })
    } else if kind == 0x6 {
        Some(Instruction::LoadImm { x, nn })
    } else if kind == 0x7 {
        Some(Instruction::AddImm { x, nn })
    } else if kind == 0x8 {
        match n {
            0x0 => Some(Instruction::Move { x, y }),
            0x1 => Some(Instruction::Or { x, y }),
            0x2 => Some(Instruction::And { x, y }),
            0x3 => Some(Instruction::Xor { x, y }),
            0x4 => Some(Instruction::AddReg { x, y }),
            0x5 => Some(Instruction::SubReg { x, y }),
            0x6 => Some(Instruction::ShiftRight { x }),
            0x7 => Some(Instruction::SubRev { x, y }),
            0xE => Some(Instruction::ShiftLeft { x }),
            _ => None,
        }
    } else if kind == 0x9 && n == 0 {
        Some(Instruction::SkipNeReg { x, y })
    } else if kind == 0xA {
        Some(Instruction::SetIndex { addr })
    } else if kind == 0xB {
        Some(Instruction::JumpOffset { addr })
    } else if kind == 0xC {
        Some(Instruction::Random { x, nn })
    } else if kind == 0xD {
        Some(Instruction::Draw { x, y, n })
    } else if kind == 0xE && nn == 0x9E {
        Some(Instruction::SkipKeyPressed { x })
    } else if kind == 0xE && nn == 0xA1 {
        Some(Instruction::SkipKeyReleased { x })
    } else if kind == 0xF {
        match nn {
            0x07 => Some(Instruction::ReadDelay { x }),
            0x0A => Some(Instruction::WaitKey { x }),
            0x15 => Some(Instruction::SetDelay { x }),
            0x18 => Some(Instruction::SetSound { x }),
            0x1E => Some(Instruction::AddIndex { x }),
            0x29 => Some(Instruction::FontChar { x }),
            0x33 => Some(Instruction::StoreBcd { x }),
            0x55 => Some(Instruction::StoreRegs { x }),
            0x65 => Some(Instruction::LoadRegs { x }),
            _ => None,
        }
    } else {
        None
    }
}

} // verus!
