use vstd::prelude::*;

verus! {

/// A decoded instruction. `x` and `y` name registers (below 16), `kk` is an
/// immediate byte, `nnn` an immediate 12-bit address and `n` a sprite height.
#[derive(Clone, Copy, Debug, PartialEq, Eq, Structural)]
pub enum Instruction {
    /// `00E0`
    ClearScreen,
    /// `00EE`
    Return,
    /// `1nnn`
    Jump { nnn: u16 },
    /// `2nnn`
    Call { nnn: u16 },
    /// `3xkk`
    SkipIfEqualImm { x: u8, kk: u8 },
    /// `4xkk`
    SkipIfNotEqualImm { x: u8, kk: u8 },
    /// `5xy0`
    SkipIfEqualReg { x: u8, y: u8 },
    /// `6xkk`
    LoadImm { x: u8, kk: u8 },
    /// `7xkk`
    AddImm { x: u8, kk: u8 },
    /// `8xy0`
    Assign { x: u8, y: u8 },
    /// `8xy1`
    Or { x: u8, y: u8 },
    /// `8xy2`
    And { x: u8, y: u8 },
    /// `8xy3`
    Xor { x: u8, y: u8 },
    /// `8xy4`
    AddReg { x: u8, y: u8 },
    /// `8xy5`
    SubReg { x: u8, y: u8 },
    /// `8xy6`
    ShiftRight { x: u8 },
    /// `8xy7`
    SubReverse { x: u8, y: u8 },
    /// `8xyE`
    ShiftLeft { x: u8 },
    /// `9xy0`
    SkipIfNotEqualReg { x: u8, y: u8 },
    /// `Annn`
    LoadIndex { nnn: u16 },
    /// `Bnnn`
    JumpOffset { nnn: u16 },
    /// `Cxkk`
    Random { x: u8, kk: u8 },
    /// `Dxyn`
    Draw { x: u8, y: u8, n: u8 },
    /// `Ex9E`
    SkipIfKey { x: u8 },
    /// `ExA1`
    SkipIfNotKey { x: u8 },
    /// `Fx07`
    ReadDelay { x: u8 },
    /// `Fx0A`
    WaitKey { x: u8 },
    /// `Fx15`
    SetDelay { x: u8 },
    /// `Fx18`
    SetSound { x: u8 },
    /// `Fx1E`
    AddIndex { x: u8 },
    /// `Fx29`
    FontGlyph { x: u8 },
    /// `Fx33`
    StoreBcd { x: u8 },
    /// `Fx55`
    StoreRegs { x: u8 },
    /// `Fx65`
    LoadRegs { x: u8 },
}

/// The most significant nibble of an opcode: its instruction group.
pub open spec fn nib_a(op: u16) -> u8 {
    (op / 4096) as u8
}

/// The second nibble: the register `x`.
pub open spec fn nib_x(op: u16) -> u8 {
    ((op / 256) % 16) as u8
}

/// The third nibble: the register `y`.
pub open spec fn nib_y(op: u16) -> u8 {
    ((op / 16) % 16) as u8
}

/// The last nibble: `n`.
pub open spec fn nib_n(op: u16) -> u8 {
    (op % 16) as u8
}

/// The low byte: `kk`.
pub open spec fn field_kk(op: u16) -> u8 {
    (op % 256) as u8
}

/// The low twelve bits: `nnn`.
pub open spec fn field_nnn(op: u16) -> u16 {
    op % 4096
}

/// The instruction an opcode encodes, or `None` where no pattern matches.
pub open spec fn decode_spec(op: u16) -> Option<Instruction> {
    let a = nib_a(op);
    let x = nib_x(op);
    let y = nib_y(op);
    let n = nib_n(op);
    let kk = field_kk(op);
    let nnn = field_nnn(op);
    if op == 0x00E0 {
        Some(Instruction::ClearScreen)
    } else if op == 0x00EE {
        Some(Instruction::Return)
    } else if a == 1 {
        Some(Instruction::Jump { nnn })
    } else if a == 2 {
        Some(Instruction::Call { nnn })
    } else if a == 3 {
        Some(Instruction::SkipIfEqualImm { x, kk })
    } else if a == 4 {
        Some(Instruction::SkipIfNotEqualImm { x, kk })
    } else if a == 5 && n == 0 {
        Some(Instruction::SkipIfEqualReg { x, y })
    } else if a == 6 {
        Some(Instruction::LoadImm { x, kk })
    } else if a == 7 {
        Some(Instruction::AddImm { x, kk })
    } else if a == 8 && n == 0 {
        Some(Instruction::Assign { x, y })
    } else if a == 8 && n == 1 {
        Some(Instruction::Or { x, y })
    } else if a == 8 && n == 2 {
        Some(Instruction::And { x, y })
    } else if a == 8 && n == 3 {
        Some(Instruction::Xor { x, y })
    } else if a == 8 && n == 4 {
        Some(Instruction::AddReg { x, y })
    } else if a == 8 && n == 5 {
        Some(Instruction::SubReg { x, y })
    } else if a == 8 && n == 6 {
        Some(Instruction::ShiftRight { x })
    } else if a == 8 && n == 7 {
        Some(Instruction::SubReverse { x, y })
    } else if a == 8 && n == 0xE {
        Some(Instruction::ShiftLeft { x })
    } else if a == 9 && n == 0 {
        Some(Instruction::SkipIfNotEqualReg { x, y })
    } else if a == 0xA {
        Some(Instruction::LoadIndex { nnn })
    } else if a == 0xB {
        Some(Instruction::JumpOffset { nnn })
    } else if a == 0xC {
        Some(Instruction::Random { x, kk })
    } else if a == 0xD {
        Some(Instruction::Draw { x, y, n })
    } else if a == 0xE && kk == 0x9E {
        Some(Instruction::SkipIfKey { x })
    } else if a == 0xE && kk == 0xA1 {
        Some(Instruction::SkipIfNotKey { x })
    } else if a == 0xF && kk == 0x07 {
        Some(Instruction::ReadDelay { x })
    } else if a == 0xF && kk == 0x0A {
        Some(Instruction::WaitKey { x })
    } else if a == 0xF && kk == 0x15 {
        Some(Instruction::SetDelay { x })
    } else if a == 0xF && kk == 0x18 {
        Some(Instruction::SetSound { x })
    } else if a == 0xF && kk == 0x1E {
        Some(Instruction::AddIndex { x })
    } else if a == 0xF && kk == 0x29 {
        Some(Instruction::FontGlyph { x })
    } else if a == 0xF && kk == 0x33 {
        Some(Instruction::StoreBcd { x })
    } else if a == 0xF && kk == 0x55 {
        Some(Instruction::StoreRegs { x })
    } else if a == 0xF && kk == 0x65 {
        Some(Instruction::LoadRegs { x })
    } else {
        None
    }
}

/// The register fields of an instruction are below 16 and its sprite
/// height below 16.
pub open spec fn well_formed(i: Instruction) -> bool {
    match i {
        Instruction::ClearScreen | Instruction::Return => true,
        Instruction::Jump { nnn } | Instruction::Call { nnn } | Instruction::LoadIndex { nnn }
        | Instruction::JumpOffset { nnn } => nnn < 4096,
        Instruction::SkipIfEqualImm { x, .. } | Instruction::SkipIfNotEqualImm { x, .. }
        | Instruction::LoadImm { x, .. } | Instruction::AddImm { x, .. } | Instruction::Random {
            x,
            ..
        } => x < 16,
        Instruction::SkipIfEqualReg { x, y } | Instruction::SkipIfNotEqualReg { x, y }
        | Instruction::Assign { x, y } | Instruction::Or { x, y } | Instruction::And { x, y }
        | Instruction::Xor { x, y } | Instruction::AddReg { x, y } | Instruction::SubReg { x, y }
        | Instruction::SubReverse { x, y } => x < 16 && y < 16,
        Instruction::Draw { x, y, n } => x < 16 && y < 16 && n < 16,
        Instruction::ShiftRight { x } | Instruction::ShiftLeft { x } | Instruction::SkipIfKey { x }
        | Instruction::SkipIfNotKey { x } | Instruction::ReadDelay { x } | Instruction::WaitKey {
            x,
        } | Instruction::SetDelay { x } | Instruction::SetSound { x } | Instruction::AddIndex { x }
        | Instruction::FontGlyph { x } | Instruction::StoreBcd { x } | Instruction::StoreRegs { x }
        | Instruction::LoadRegs { x } => x < 16,
    }
}

/// Decodes a 16-bit opcode.
pub fn decode(op: u16) -> (r: Option<Instruction>)
    ensures
        r == decode_spec(op),
        r is Some ==> well_formed(r.unwrap()),
{
    let a = (op / 4096) as u8;
    let x = ((op / 256) % 16) as u8;
    let y = ((op / 16) % 16) as u8;
    let n = (op % 16) as u8;
    let kk = (op % 256) as u8;
    let nnn = op % 4096;
    if op == 0x00E0 {
        Some(Instruction::ClearScreen)
    } else if op == 0x00EE {
        Some(Instruction::Return)
    } else if a == 1 {
        Some(Instruction::Jump { nnn })
    } else if a == 2 {
        Some(Instruction::Call { nnn })
    } else if a == 3 {
        Some(Instruction::SkipIfEqualImm { x, kk })
    } else if a == 4 {
        Some(Instruction::SkipIfNotEqualImm { x, kk })
    } else if a == 5 && n == 0 {
        Some(Instruction::SkipIfEqualReg { x, y })
    } else if a == 6 {
        Some(Instruction::LoadImm { x, kk })
    } else if a == 7 {
        Some(Instruction::AddImm { x, kk })
    } else if a == 8 {
        match n {
            0 => Some(Instruction::Assign { x, y }),
            1 => Some(Instruction::Or { x, y }),
            2 => Some(Instruction::And { x, y }),
            3 => Some(Instruction::Xor { x, y }),
            4 => Some(Instruction::AddReg { x, y }),
            5 => Some(Instruction::SubReg { x, y }),
            6 => Some(Instruction::ShiftRight { x }),
            7 => Some(Instruction::SubReverse { x, y }),
            0xE => Some(Instruction::ShiftLeft { x }),
            _ => None,
        }
    } else if a == 9 && n == 0 {
        Some(Instruction::SkipIfNotEqualReg { x, y })
    } else if a == 0xA {
        Some(Instruction::LoadIndex { nnn })
    } else if a == 0xB {
        Some(Instruction::JumpOffset { nnn })
    } else if a == 0xC {
        Some(Instruction::Random { x, kk })
    } else if a == 0xD {
        Some(Instruction::Draw { x, y, n })
    } else if a == 0xE {
        match kk {
            0x9E => Some(Instruction::SkipIfKey { x }),
            0xA1 => Some(Instruction::SkipIfNotKey { x }),
            _ => None,
        }
    } else if a == 0xF {
        match kk {
            0x07 => Some(Instruction::ReadDelay { x }),
            0x0A => Some(Instruction::WaitKey { x }),
            0x15 => Some(Instruction::SetDelay { x }),
            0x18 => Some(Instruction::SetSound { x }),
            0x1E => Some(Instruction::AddIndex { x }),
            0x29 => Some(Instruction::FontGlyph { x }),
            0x33 => Some(Instruction::StoreBcd { x }),
            0x55 => Some(Instruction::StoreRegs { x }),
            0x65 => Some(Instruction::LoadRegs { x }),
            _ => None,
        }
    } else {
        None
    }
}

} // verus!
