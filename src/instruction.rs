use vstd::prelude::*;

verus! {

/// One decoded CHIP-8 instruction with its operand fields already extracted.
///
/// Register fields (`x`, `y`) and the height `n` are nibbles (below 16),
/// `nn` is the low byte and `nnn` the low twelve bits of the instruction word.
#[derive(Clone, Copy, Debug, PartialEq, Eq, Structural)]
pub enum Instruction {
    /// `00E0`
    Clear,
    /// `00EE`
    Return,
    /// `1nnn`
    Jump { nnn: u16 },
    /// `2nnn`
    Call { nnn: u16 },
    /// `3xnn`
    SkipEqImm { x: u8, nn: u8 },
    /// `4xnn`
    SkipNeImm { x: u8, nn: u8 },
    /// `5xy0`
    SkipEqReg { x: u8, y: u8 },
    /// `6xnn`
    LoadImm { x: u8, nn: u8 },
    /// `7xnn`
    AddImm { x: u8, nn: u8 },
    /// `8xy0`
    Move { x: u8, y: u8 },
    /// `8xy1`
    Or { x: u8, y: u8 },
    /// `8xy2`
    And { x: u8, y: u8 },
    /// `8xy3`
    Xor { x: u8, y: u8 },
    /// `8xy4`
    AddReg { x: u8, y: u8 },
    /// `8xy5`
    SubReg { x: u8, y: u8 },
    /// `8xy6`. Shifts the source register `Vy` into `Vx`; interpreters that
    /// shift `Vx` in place differ here.
    ShiftRight { x: u8, y: u8 },
    /// `8xy7`
    SubRev { x: u8, y: u8 },
    /// `8xyE`. Shifts the source register `Vy` into `Vx`; interpreters that
    /// shift `Vx` in place differ here.
    ShiftLeft { x: u8, y: u8 },
    /// `9xy0`
    SkipNeReg { x: u8, y: u8 },
    /// `Annn`
    LoadIndex { nnn: u16 },
    /// `Bnnn`
    JumpOffset { nnn: u16 },
    /// `Cxnn`
    Random { x: u8, nn: u8 },
    /// `Dxyn`
    Draw { x: u8, y: u8, n: u8 },
    /// `Ex9E`
    SkipKeyEq { x: u8 },
    /// `ExA1`
    SkipKeyNe { x: u8 },
    /// `Fx07`
    GetDelay { x: u8 },
    /// `Fx0A`
    WaitKey { x: u8 },
    /// `Fx15`
    SetDelay { x: u8 },
    /// `Fx18`
    SetSound { x: u8 },
    /// `Fx1E`
    AddIndex { x: u8 },
    /// `Fx29`
    Glyph { x: u8 },
    /// `Fx33`
    Bcd { x: u8 },
    /// `Fx55`
    Store { x: u8 },
    /// `Fx65`
    Load { x: u8 },
    /// Any word that names no instruction, the all-zero word included.
    Unknown { word: u16 },
}

/// Top nibble of a word: the instruction family.
pub open spec fn family(w: u16) -> int {
    w as int / 4096
}

/// Bits 8 to 11: the first register field.
pub open spec fn field_x(w: u16) -> u8 {
    ((w as int / 256) % 16) as u8
}

/// Bits 4 to 7: the second register field.
pub open spec fn field_y(w: u16) -> u8 {
    ((w as int / 16) % 16) as u8
}

/// Bits 0 to 3.
pub open spec fn field_n(w: u16) -> u8 {
    (w as int % 16) as u8
}

/// Bits 0 to 7.
pub open spec fn field_nn(w: u16) -> u8 {
    (w as int % 256) as u8
}

/// Bits 0 to 11.
pub open spec fn field_nnn(w: u16) -> u16 {
    (w as int % 4096) as u16
}

/// What a word decodes to.
pub open spec fn decode_spec(w: u16) -> Instruction {
    let f = family(w);
    let x = field_x(w);
    let y = field_y(w);
    let n = field_n(w);
    let nn = field_nn(w);
    let nnn = field_nnn(w);
    if f == 0 {
        if w == 0x00E0 {
            Instruction::Clear
        } else if w == 0x00EE {
            Instruction::Return
        } else {
            Instruction::Unknown { word: w }
        }
    } else if f == 1 {
        Instruction::Jump { nnn }
    } else if f == 2 {
        Instruction::Call { nnn }
    } else if f == 3 {
        Instruction::SkipEqImm { x, nn }
    } else if f == 4 {
        Instruction::SkipNeImm { x, nn }
    } else if f == 5 && n == 0 {
        Instruction::SkipEqReg { x, y }
    } else if f == 6 {
        Instruction::LoadImm { x, nn }
    } else if f == 7 {
        Instruction::AddImm { x, nn }
    } else if f == 8 && n == 0 {
        Instruction::Move { x, y }
    } else if f == 8 && n == 1 {
        Instruction::Or { x, y }
    } else if f == 8 && n == 2 {
        Instruction::And { x, y }
    } else if f == 8 && n == 3 {
        Instruction::Xor { x, y }
    } else if f == 8 && n == 4 {
        Instruction::AddReg { x, y }
    } else if f == 8 && n == 5 {
        Instruction::SubReg { x, y }
    } else if f == 8 && n == 6 {
        Instruction::ShiftRight { x, y }
    } else if f == 8 && n == 7 {
        Instruction::SubRev { x, y }
    } else if f == 8 && n == 0xE {
        Instruction::ShiftLeft { x, y }
    } else if f == 9 && n == 0 {
        Instruction::SkipNeReg { x, y }
    } else if f == 0xA {
        Instruction::LoadIndex { nnn }
    } else if f == 0xB {
        Instruction::JumpOffset { nnn }
    } else if f == 0xC {
        Instruction::Random { x, nn }
    } else if f == 0xD {
        Instruction::Draw { x, y, n }
    } else if f == 0xE && nn == 0x9E {
        Instruction::SkipKeyEq { x }
    } else if f == 0xE && nn == 0xA1 {
        Instruction::SkipKeyNe { x }
    } else if f == 0xF && nn == 0x07 {
        Instruction::GetDelay { x }
    } else if f == 0xF && nn == 0x0A {
        Instruction::WaitKey { x }
    } else if f == 0xF && nn == 0x15 {
        Instruction::SetDelay { x }
    } else if f == 0xF && nn == 0x18 {
        Instruction::SetSound { x }
    } else if f == 0xF && nn == 0x1E {
        Instruction::AddIndex { x }
    } else if f == 0xF && nn == 0x29 {
        Instruction::Glyph { x }
    } else if f == 0xF && nn == 0x33 {
        Instruction::Bcd { x }
    } else if f == 0xF && nn == 0x55 {
        Instruction::Store { x }
    } else if f == 0xF && nn == 0x65 {
        Instruction::Load { x }
    } else {
        Instruction::Unknown { word: w }
    }
}

/// Operand fields of an instruction are in range: register indices and the
/// sprite height are nibbles, addresses fit in twelve bits.
pub open spec fn fields_in_range(i: Instruction) -> bool {
    match i {
        Instruction::Jump { nnn } | Instruction::Call { nnn } | Instruction::LoadIndex { nnn }
        | Instruction::JumpOffset { nnn } => nnn < 4096,
        Instruction::SkipEqImm { x, .. } | Instruction::SkipNeImm { x, .. }
        | Instruction::LoadImm { x, .. } | Instruction::AddImm { x, .. }
        | Instruction::Random { x, .. } | Instruction::SkipKeyEq { x }
        | Instruction::SkipKeyNe { x } | Instruction::GetDelay { x } | Instruction::WaitKey { x }
        | Instruction::SetDelay { x } | Instruction::SetSound { x } | Instruction::AddIndex { x }
        | Instruction::Glyph { x } | Instruction::Bcd { x } | Instruction::Store { x }
        | Instruction::Load { x } => x < 16,
        Instruction::SkipEqReg { x, y } | Instruction::SkipNeReg { x, y }
        | Instruction::Move { x, y } | Instruction::Or { x, y } | Instruction::And { x, y }
        | Instruction::Xor { x, y } | Instruction::AddReg { x, y } | Instruction::SubReg { x, y }
        | Instruction::ShiftRight { x, y } | Instruction::SubRev { x, y }
        | Instruction::ShiftLeft { x, y } => x < 16 && y < 16,
        Instruction::Draw { x, y, n } => x < 16 && y < 16 && n < 16,
        Instruction::Clear | Instruction::Return | Instruction::Unknown { .. } => true,
    }
}

/// Splits an instruction word into its operation and operand fields.
pub fn decode(word: u16) -> (r: Instruction)
    ensures
        r == decode_spec(word),
        fields_in_range(r),
{
    let f = word / 4096;
    let x = ((word / 256) % 16) as u8;
    let y = ((word / 16) % 16) as u8;
    let n = (word % 16) as u8;
    let nn = (word % 256) as u8;
    let nnn = word % 4096;
    match f {
        0x0 => {
            if word == 0x00E0 {
                Instruction::Clear
            } else if word == 0x00EE {
                Instruction::Return
            } else {
                Instruction::Unknown { word }
            }
        },
        0x1 => Instruction::Jump { nnn },
        0x2 => Instruction::Call { nnn },
        0x3 => Instruction::SkipEqImm { x, nn },
        0x4 => Instruction::SkipNeImm { x, nn },
        0x5 => {
            if n == 0 {
                Instruction::SkipEqReg { x, y }
            } else {
                Instruction::Unknown { word }
            }
        },
        0x6 => Instruction::LoadImm { x, nn },
        0x7 => Instruction::AddImm { x, nn },
        0x8 => match n {
            0x0 => Instruction::Move { x, y },
            0x1 => Instruction::Or { x, y },
            0x2 => Instruction::And { x, y },
            0x3 => Instruction::Xor { x, y },
            0x4 => Instruction::AddReg { x, y },
            0x5 => Instruction::SubReg { x, y },
            0x6 => Instruction::ShiftRight { x, y },
            0x7 => Instruction::SubRev { x, y },
            0xE => Instruction::ShiftLeft { x, y },
            _ => Instruction::Unknown { word },
        },
        0x9 => {
            if n == 0 {
                Instruction::SkipNeReg { x, y }
            } else {
                Instruction::Unknown { word }
            }
        },
        0xA => Instruction::LoadIndex { nnn },
        0xB => Instruction::JumpOffset { nnn },
        0xC => Instruction::Random { x, nn },
        0xD => Instruction::Draw { x, y, n },
        0xE => match nn {
            0x9E => Instruction::SkipKeyEq { x },
            0xA1 => Instruction::SkipKeyNe { x },
            _ => Instruction::Unknown { word },
        },
        _ => match nn {
            0x07 => Instruction::GetDelay { x },
            0x0A => Instruction::WaitKey { x },
            0x15 => Instruction::SetDelay { x },
            0x18 => Instruction::SetSound { x },
            0x1E => Instruction::AddIndex { x },
            0x29 => Instruction::Glyph { x },
            0x33 => Instruction::Bcd { x },
            0x55 => Instruction::Store { x },
            0x65 => Instruction::Load { x },
            _ => Instruction::Unknown { word },
        },
    }
}

} // verus!
