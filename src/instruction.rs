use vstd::prelude::*;

verus! {

/// One decoded instruction. `x` and `y` name registers (0 to 15), `nn` is an
/// 8-bit immediate, `nnn` a 12-bit address and `n` a 4-bit sprite height.
#[derive(Debug, Clone, Copy, PartialEq, Eq, Structural)]
pub enum Instruction {
    /// `0000`
    Nop,
    /// `00E0`
    ClearScreen,
    /// `00EE`
    Return,
    /// `1nnn`
    Jump { nnn: u16 },
    /// `2nnn`
    Call { nnn: u16 },
    /// `3xnn`
    SkipEqImm { x: u8, nn: u8 },
    /// `4xnn`
    SkipNeImm { x: u8, nn: u8 },
    /// `5xy0`
    SkipEqReg { x: u8, y: u8 },
    /// `6xnn`
    SetImm { x: u8, nn: u8 },
    /// `7xnn`
    AddImm { x: u8, nn: u8 },
    /// `8xy0`
    Copy { x: u8, y: u8 },
    /// `8xy1`
    Or { x: u8, y: u8 },
    /// `8xy2`
    And { x: u8, y: u8 },
    /// `8xy3`
    Xor { x: u8, y: u8 },
    /// `8xy4`
    AddReg { x: u8, y: u8 },
    /// `8xy5`
    SubReg { x: u8, y: u8 },
    /// `8xy6`
    ShiftRight { x: u8 },
    /// `8xy7`
    SubRev { x: u8, y: u8 },
    /// `8xyE`
    ShiftLeft { x: u8 },
    /// `9xy0`
    SkipNeReg { x: u8, y: u8 },
    /// `Annn`
    SetIndex { nnn: u16 },
    /// `Bnnn`
    JumpOffset { nnn: u16 },
    /// `Cxnn`
    Random { x: u8, nn: u8 },
    /// `Dxyn`
    Draw { x: u8, y: u8, n: u8 },
    /// `Ex9E`
    SkipKeyPressed { x: u8 },
    /// `ExA1`
    SkipKeyReleased { x: u8 },
    /// `Fx07`
    GetDelay { x: u8 },
    /// `Fx0A`
    WaitKey { x: u8 },
    /// `Fx15`
    SetDelay { x: u8 },
    /// `Fx18`
    SetSound { x: u8 },
    /// `Fx1E`
    AddIndex { x: u8 },
    /// `Fx29`
    FontGlyph { x: u8 },
    /// `Fx33`
    Bcd { x: u8 },
    /// `Fx55`
    StoreRegs { x: u8 },
    /// `Fx65`
    LoadRegs { x: u8 },
}

/// The four nibbles of an opcode, most significant first.
pub open spec fn nibble1(op: u16) -> u16 {
    (op & 0xF000) >> 12u16
}

pub open spec fn nibble2(op: u16) -> u16 {
    (op & 0x0F00) >> 8u16
}

pub open spec fn nibble3(op: u16) -> u16 {
    (op & 0x00F0) >> 4u16
}

pub open spec fn nibble4(op: u16) -> u16 {
    op & 0x000F
}

/// The low byte of an opcode.
pub open spec fn low_byte(op: u16) -> u8 {
    (op & 0xFF) as u8
}

/// The low twelve bits of an opcode.
pub open spec fn address_of(op: u16) -> u16 {
    op & 0xFFF
}

/// The instruction that `op` encodes, if any.
pub open spec fn decode_spec(op: u16) -> Option<Instruction> {
    let (n1, n2, n3, n4) = (nibble1(op), nibble2(op), nibble3(op), nibble4(op));
    let x = n2 as u8;
    let y = n3 as u8;
    let nn = low_byte(op);
    let nnn = address_of(op);
    if n1 == 0 {
        if op == 0x0000 {
            Some(Instruction::Nop)
        } else if op == 0x00E0 {
            Some(Instruction::ClearScreen)
        } else if op == 0x00EE {
            Some(Instruction::Return)
        } else {
            None
        }
    } else if n1 == 1 {
        Some(Instruction::Jump { nnn })
    } else if n1 == 2 {
        Some(Instruction::Call { nnn })
    } else if n1 == 3 {
        Some(Instruction::SkipEqImm { x, nn })
    } else if n1 == 4 {
        Some(Instruction::SkipNeImm { x, nn })
    } else if n1 == 5 {
        if n4 == 0 {
            Some(Instruction::SkipEqReg { x, y })
        } else {
            None
        }
    } else if n1 == 6 {
        Some(Instruction::SetImm { x, nn })
    } else if n1 == 7 {
        Some(Instruction::AddImm { x, nn })
    } else if n1 == 8 {
        if n4 == 0 {
            Some(Instruction::Copy { x, y })
        } else if n4 == 1 {
            Some(Instruction::Or { x, y })
        } else if n4 == 2 {
            Some(Instruction::And { x, y })
        } else if n4 == 3 {
            Some(Instruction::Xor { x, y })
        } else if n4 == 4 {
            Some(Instruction::AddReg { x, y })
        } else if n4 == 5 {
            Some(Instruction::SubReg { x, y })
        } else if n4 == 6 {
            Some(Instruction::ShiftRight { x })
        } else if n4 == 7 {
            Some(Instruction::SubRev { x, y })
        } else if n4 == 0xE {
            Some(Instruction::ShiftLeft { x })
        } else {
            None
        }
    } else if n1 == 9 {
        if n4 == 0 {
            Some(Instruction::SkipNeReg { x, y })
        } else {
            None
        }
    } else if n1 == 0xA {
        Some(Instruction::SetIndex { nnn })
    } else if n1 == 0xB {
        Some(Instruction::JumpOffset { nnn })
    } else if n1 == 0xC {
        Some(Instruction::Random { x, nn })
    } else if n1 == 0xD {
        Some(Instruction::Draw { x, y, n: n4 as u8 })
    } else if n1 == 0xE {
        if nn == 0x9E {
            Some(Instruction::SkipKeyPressed { x })
        } else if nn == 0xA1 {
            Some(Instruction::SkipKeyReleased { x })
        } else {
            None
        }
    } else {
        if nn == 0x07 {
            Some(Instruction::GetDelay { x })
        } else if nn == 0x0A {
            Some(Instruction::WaitKey { x })
        } else if nn == 0x15 {
            Some(Instruction::SetDelay { x })
        } else if nn == 0x18 {
            Some(Instruction::SetSound { x })
        } else if nn == 0x1E {
            Some(Instruction::AddIndex { x })
        } else if nn == 0x29 {
            Some(Instruction::FontGlyph { x })
        } else if nn == 0x33 {
            Some(Instruction::Bcd { x })
        } else if nn == 0x55 {
            Some(Instruction::StoreRegs { x })
        } else if nn == 0x65 {
            Some(Instruction::LoadRegs { x })
        } else {
            None
        }
    }
}

impl Instruction {
    /// Every field lies within the width of the opcode field it came from.
    pub open spec fn wf(self) -> bool {
        match self {
            Instruction::Jump { nnn } | Instruction::Call { nnn } | Instruction::SetIndex { nnn }
            | Instruction::JumpOffset { nnn } => nnn < 0x1000,
            Instruction::SkipEqImm { x, .. } | Instruction::SkipNeImm { x, .. }
            | Instruction::SetImm { x, .. } | Instruction::AddImm { x, .. }
            | Instruction::Random { x, .. } | Instruction::ShiftRight { x }
            | Instruction::ShiftLeft { x } | Instruction::SkipKeyPressed { x }
            | Instruction::SkipKeyReleased { x } | Instruction::GetDelay { x }
            | Instruction::WaitKey { x } | Instruction::SetDelay { x } | Instruction::SetSound { x }
            | Instruction::AddIndex { x } | Instruction::FontGlyph { x } | Instruction::Bcd { x }
            | Instruction::StoreRegs { x } | Instruction::LoadRegs { x } => x < 16,
            Instruction::SkipEqReg { x, y } | Instruction::Copy { x, y } | Instruction::Or { x, y }
            | Instruction::And { x, y } | Instruction::Xor { x, y } | Instruction::AddReg { x, y }
            | Instruction::SubReg { x, y } | Instruction::SubRev { x, y }
            | Instruction::SkipNeReg { x, y } => x < 16 && y < 16,
            Instruction::Draw { x, y, n } => x < 16 && y < 16 && n < 16,
            _ => true,
        }
    }
}

/// Bounds of the fields of an opcode.
pub proof fn lemma_fields_bounded(op: u16)
    ensures
        nibble1(op) < 16,
        nibble2(op) < 16,
        nibble3(op) < 16,
        nibble4(op) < 16,
        address_of(op) < 0x1000,
{
    assert(((op & 0xF000) >> 12u16) < 16) by (bit_vector);
    assert(((op & 0x0F00) >> 8u16) < 16) by (bit_vector);
    assert(((op & 0x00F0) >> 4u16) < 16) by (bit_vector);
    assert((op & 0x000F) < 16) by (bit_vector);
    assert((op & 0xFFF) < 0x1000) by (bit_vector);
}

/// Splits `op` into its fields and names the instruction it encodes, or
/// `None` where it encodes none.
pub fn decode(op: u16) -> (r: Option<Instruction>)
    ensures
        r == decode_spec(op),
        r matches Some(i) ==> i.wf(),
{
    proof {
        lemma_fields_bounded(op);
    }
    let n1 = (op & 0xF000) >> 12u16;
    let n2 = (op & 0x0F00) >> 8u16;
    let n3 = (op & 0x00F0) >> 4u16;
    let n4 = op & 0x000F;
    let x = n2 as u8;
    let y = n3 as u8;
    let nn = (op & 0xFF) as u8;
    let nnn = op & 0xFFF;
    if n1 == 0 {
        if op == 0x0000 {
            Some(Instruction::Nop)
        } else if op == 0x00E0 {
            Some(Instruction::ClearScreen)
        } else if op == 0x00EE {
            Some(Instruction::Return)
        } else {
            None
        }
    } else if n1 == 1 {
        Some(Instruction::Jump { nnn })
    } else if n1 == 2 {
        Some(Instruction::Call { nnn })
    } else if n1 == 3 {
        Some(Instruction::SkipEqImm { x, nn })
    } else if n1 == 4 {
        Some(Instruction::SkipNeImm { x, nn })
    } else if n1 == 5 {
        if n4 == 0 {
            Some(Instruction::SkipEqReg { x, y })
        } else {
            None
        }
    } else if n1 == 6 {
        Some(Instruction::SetImm { x, nn })
    } else if n1 == 7 {
        Some(Instruction::AddImm { x, nn })
    } else if n1 == 8 {
        if n4 == 0 {
            Some(Instruction::Copy { x, y })
        } else if n4 == 1 {
            Some(Instruction::Or { x, y })
        } else if n4 == 2 {
            Some(Instruction::And { x, y })
        } else if n4 == 3 {
            Some(Instruction::Xor { x, y })
        } else if n4 == 4 {
            Some(Instruction::AddReg { x, y })
        } else if n4 == 5 {
            Some(Instruction::SubReg { x, y })
        } else if n4 == 6 {
            Some(Instruction::ShiftRight { x })
        } else if n4 == 7 {
            Some(Instruction::SubRev { x, y })
        } else if n4 == 0xE {
            Some(Instruction::ShiftLeft { x })
        } else {
            None
        }
    } else if n1 == 9 {
        if n4 == 0 {
            Some(Instruction::SkipNeReg { x, y })
        } else {
            None
        }
    } else if n1 == 0xA {
        Some(Instruction::SetIndex { nnn })
    } else if n1 == 0xB {
        Some(Instruction::JumpOffset { nnn })
    } else if n1 == 0xC {
        Some(Instruction::Random { x, nn })
    } else if n1 == 0xD {
        Some(Instruction::Draw { x, y, n: n4 as u8 })
    } else if n1 == 0xE {
        if nn == 0x9E {
            Some(Instruction::SkipKeyPressed { x })
        } else if nn == 0xA1 {
            Some(Instruction::SkipKeyReleased { x })
        } else {
            None
        }
    } else {
        if nn == 0x07 {
            Some(Instruction::GetDelay { x })
        } else if nn == 0x0A {
            Some(Instruction::WaitKey { x })
        } else if nn == 0x15 {
            Some(Instruction::SetDelay { x })
        } else if nn == 0x18 {
            Some(Instruction::SetSound { x })
        } else if nn == 0x1E {
            Some(Instruction::AddIndex { x })
        } else if nn == 0x29 {
            Some(Instruction::FontGlyph { x })
        } else if nn == 0x33 {
            Some(Instruction::Bcd { x })
        } else if nn == 0x55 {
            Some(Instruction::StoreRegs { x })
        } else if nn == 0x65 {
            Some(Instruction::LoadRegs { x })
        } else {
            None
        }
    }
}

} // verus!
