use vstd::prelude::*;

verus! {

/// One decoded instruction. `x` and `y` name registers (always below 16), `nn` is a byte
/// operand, `addr` a 12-bit address and `n` a 4-bit sprite height.
#[derive(Clone, Copy, Debug, PartialEq, Eq, Structural)]
pub enum Instruction {
    /// `00E0`
    ClearScreen,
    /// `00EE`
    Return,
    /// `1NNN`
    Jump { addr: u16 },
    /// `2NNN`
    Call { addr: u16 },
    /// `3XNN`
    SkipIfEqual { x: u8, nn: u8 },
    /// `4XNN`
    SkipIfNotEqual { x: u8, nn: u8 },
    /// `5XY_`
    SkipIfRegistersEqual { x: u8, y: u8 },
    /// `6XNN`
    Load { x: u8, nn: u8 },
    /// `7XNN`
    AddImmediate { x: u8, nn: u8 },
    /// `8XY0`
    Move { x: u8, y: u8 },
    /// `8XY1`
    Or { x: u8, y: u8 },
    /// `8XY2`
    And { x: u8, y: u8 },
    /// `8XY3`
    Xor { x: u8, y: u8 },
    /// `8XY4`
    AddWithCarry { x: u8, y: u8 },
    /// `8XY5`
    SubWithBorrow { x: u8, y: u8 },
    /// `8XY6`
    ShiftRight { x: u8, y: u8 },
    /// `8XY7`
    ReverseSubWithBorrow { x: u8, y: u8 },
    /// `8XYE`
    ShiftLeft { x: u8, y: u8 },
    /// `9XY_`
    SkipIfRegistersNotEqual { x: u8, y: u8 },
    /// `ANNN`
    SetIndex { addr: u16 },
    /// `BNNN`
    JumpWithOffset { addr: u16 },
    /// `CXNN`
    Random { x: u8, nn: u8 },
    /// `DXYN`
    Draw { x: u8, y: u8, n: u8 },
    /// `EX9E`
    SkipIfKeyPressed { x: u8 },
    /// `EXA1`
    SkipIfKeyNotPressed { x: u8 },
    /// `FX07`
    ReadDelayTimer { x: u8 },
    /// `FX0A`: waiting for a key press is not implemented and executes as a no-op.
    WaitForKey { x: u8 },
    /// `FX15`
    SetDelayTimer { x: u8 },
    /// `FX18`: there is no audio device, so this executes as a no-op.
    SetSoundTimer { x: u8 },
    /// `FX1E`
    AddToIndex { x: u8 },
    /// `FX29`
    FontGlyph { x: u8 },
    /// `FX33`
    StoreBcd { x: u8 },
    /// `FX55`
    StoreRegisters { x: u8 },
    /// `FX65`
    LoadRegisters { x: u8 },
    /// Any word whose sub-operation is not recognised within its family: a no-op.
    Unknown { word: u16 },
}

/// The opcode family: the top nibble.
pub open spec fn family(w: u16) -> int {
    w as int / 4096
}

/// The second nibble (register `X`).
pub open spec fn nib_x(w: u16) -> u8 {
    ((w as int / 256) % 16) as u8
}

/// The third nibble (register `Y`).
pub open spec fn nib_y(w: u16) -> u8 {
    ((w as int / 16) % 16) as u8
}

/// The low nibble.
pub open spec fn nib_n(w: u16) -> u8 {
    (w as int % 16) as u8
}

/// The low byte.
pub open spec fn low_byte(w: u16) -> u8 {
    (w as int % 256) as u8
}

/// The low 12 bits.
pub open spec fn low_addr(w: u16) -> u16 {
    (w as int % 4096) as u16
}

/// The instruction a 16-bit word stands for.
pub open spec fn decode_spec(w: u16) -> Instruction {
    let (x, y, n, nn, addr) = (nib_x(w), nib_y(w), nib_n(w), low_byte(w), low_addr(w));
    let f = family(w);
    if f == 0x0 {
        if w == 0x00E0 {
            Instruction::ClearScreen
        } else if w == 0x00EE {
            Instruction::Return
        } else {
            Instruction::Unknown { word: w }
        }
    } else if f == 0x1 {
        Instruction::Jump { addr }
    } else if f == 0x2 {
        Instruction::Call { addr }
    } else if f == 0x3 {
        Instruction::SkipIfEqual { x, nn }
    } else if f == 0x4 {
        Instruction::SkipIfNotEqual { x, nn }
    } else if f == 0x5 {
        Instruction::SkipIfRegistersEqual { x, y }
    } else if f == 0x6 {
        Instruction::Load { x, nn }
    } else if f == 0x7 {
        Instruction::AddImmediate { x, nn }
    } else if f == 0x8 {
        if n == 0x0 {
            Instruction::Move { x, y }
        } else if n == 0x1 {
            Instruction::Or { x, y }
        } else if n == 0x2 {
            Instruction::And { x, y }
        } else if n == 0x3 {
            Instruction::Xor { x, y }
        } else if n == 0x4 {
            Instruction::AddWithCarry { x, y }
        } else if n == 0x5 {
            Instruction::SubWithBorrow { x, y }
        } else if n == 0x6 {
            Instruction::ShiftRight { x, y }
        } else if n == 0x7 {
            Instruction::ReverseSubWithBorrow { x, y }
        } else if n == 0xE {
            Instruction::ShiftLeft { x, y }
        } else {
            Instruction::Unknown { word: w }
        }
    } else if f == 0x9 {
        Instruction::SkipIfRegistersNotEqual { x, y }
    } else if f == 0xA {
        Instruction::SetIndex { addr }
    } else if f == 0xB {
        Instruction::JumpWithOffset { addr }
    } else if f == 0xC {
        Instruction::Random { x, nn }
    } else if f == 0xD {
        Instruction::Draw { x, y, n }
    } else if f == 0xE {
        if nn == 0x9E {
            Instruction::SkipIfKeyPressed { x }
        } else if nn == 0xA1 {
            Instruction::SkipIfKeyNotPressed { x }
        } else {
            Instruction::Unknown { word: w }
        }
    } else {
        if nn == 0x07 {
            Instruction::ReadDelayTimer { x }
        } else if nn == 0x0A {
            Instruction::WaitForKey { x }
        } else if nn == 0x15 {
            Instruction::SetDelayTimer { x }
        } else if nn == 0x18 {
            Instruction::SetSoundTimer { x }
        } else if nn == 0x1E {
            Instruction::AddToIndex { x }
        } else if nn == 0x29 {
            Instruction::FontGlyph { x }
        } else if nn == 0x33 {
            Instruction::StoreBcd { x }
        } else if nn == 0x55 {
            Instruction::StoreRegisters { x }
        } else if nn == 0x65 {
            Instruction::LoadRegisters { x }
        } else {
            Instruction::Unknown { word: w }
        }
    }
}

impl Instruction {
    /// Register operands below 16, sprite heights below 16, addresses below 4096.
    pub open spec fn wf(self) -> bool {
        match self {
            Instruction::Jump { addr } => addr < 4096,
            Instruction::Call { addr } => addr < 4096,
            Instruction::SetIndex { addr } => addr < 4096,
            Instruction::JumpWithOffset { addr } => addr < 4096,
            Instruction::SkipIfEqual { x, .. } => x < 16,
            Instruction::SkipIfNotEqual { x, .. } => x < 16,
            Instruction::Load { x, .. } => x < 16,
            Instruction::AddImmediate { x, .. } => x < 16,
            Instruction::Random { x, .. } => x < 16,
            Instruction::SkipIfRegistersEqual { x, y } => x < 16 && y < 16,
            Instruction::SkipIfRegistersNotEqual { x, y } => x < 16 && y < 16,
            Instruction::Move { x, y } => x < 16 && y < 16,
            Instruction::Or { x, y } => x < 16 && y < 16,
            Instruction::And { x, y } => x < 16 && y < 16,
            Instruction::Xor { x, y } => x < 16 && y < 16,
            Instruction::AddWithCarry { x, y } => x < 16 && y < 16,
            Instruction::SubWithBorrow { x, y } => x < 16 && y < 16,
            Instruction::ShiftRight { x, y } => x < 16 && y < 16,
            Instruction::ReverseSubWithBorrow { x, y } => x < 16 && y < 16,
            Instruction::ShiftLeft { x, y } => x < 16 && y < 16,
            Instruction::Draw { x, y, n } => x < 16 && y < 16 && n < 16,
            Instruction::SkipIfKeyPressed { x } => x < 16,
            Instruction::SkipIfKeyNotPressed { x } => x < 16,
            Instruction::ReadDelayTimer { x } => x < 16,
            Instruction::WaitForKey { x } => x < 16,
            Instruction::SetDelayTimer { x } => x < 16,
            Instruction::SetSoundTimer { x } => x < 16,
            Instruction::AddToIndex { x } => x < 16,
            Instruction::FontGlyph { x } => x < 16,
            Instruction::StoreBcd { x } => x < 16,
            Instruction::StoreRegisters { x } => x < 16,
            Instruction::LoadRegisters { x } => x < 16,
            _ => true,
        }
    }

    /// Decodes a big-endian instruction word: the top nibble selects the family, and within a
    /// family an unrecognised sub-operation decodes to `Unknown`.
    pub fn decode(w: u16) -> (r: Instruction)
        ensures
            r == decode_spec(w),
            r.wf(),
    {
        let x: u8 = ((w / 256) % 16) as u8;
        let y: u8 = ((w / 16) % 16) as u8;
        let n: u8 = (w % 16) as u8;
        let nn: u8 = (w % 256) as u8;
        let addr: u16 = w % 4096;
        let f: u16 = w / 4096;
        match f {
            0x0 => {
                if w == 0x00E0 {
                    Instruction::ClearScreen
                } else if w == 0x00EE {
                    Instruction::Return
                } else {
                    Instruction::Unknown { word: w }
                }
            },
            0x1 => Instruction::Jump { addr },
            0x2 => Instruction::Call { addr },
            0x3 => Instruction::SkipIfEqual { x, nn },
            0x4 => Instruction::SkipIfNotEqual { x, nn },
            0x5 => Instruction::SkipIfRegistersEqual { x, y },
            0x6 => Instruction::Load { x, nn },
            0x7 => Instruction::AddImmediate { x, nn },
            0x8 => match n {
                0x0 => Instruction::Move { x, y },
                0x1 => Instruction::Or { x, y },
                0x2 => Instruction::And { x, y },
                0x3 => Instruction::Xor { x, y },
                0x4 => Instruction::AddWithCarry { x, y },
                0x5 => Instruction::SubWithBorrow { x, y },
                0x6 => Instruction::ShiftRight { x, y },
                0x7 => Instruction::ReverseSubWithBorrow { x, y },
                0xE => Instruction::ShiftLeft { x, y },
                _ => Instruction::Unknown { word: w },
            },
            0x9 => Instruction::SkipIfRegistersNotEqual { x, y },
            0xA => Instruction::SetIndex { addr },
            0xB => Instruction::JumpWithOffset { addr },
            0xC => Instruction::Random { x, nn },
            0xD => Instruction::Draw { x, y, n },
            0xE => match nn {
                0x9E => Instruction::SkipIfKeyPressed { x },
                0xA1 => Instruction::SkipIfKeyNotPressed { x },
                _ => Instruction::Unknown { word: w },
            },
            _ => match nn {
                0x07 => Instruction::ReadDelayTimer { x },
                0x0A => Instruction::WaitForKey { x },
                0x15 => Instruction::SetDelayTimer { x },
                0x18 => Instruction::SetSoundTimer { x },
                0x1E => Instruction::AddToIndex { x },
                0x29 => Instruction::FontGlyph { x },
                0x33 => Instruction::StoreBcd { x },
                0x55 => Instruction::StoreRegisters { x },
                0x65 => Instruction::LoadRegisters { x },
                _ => Instruction::Unknown { word: w },
            },
        }
    }
}

} // verus!
