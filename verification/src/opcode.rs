//! Instruction words and their decoding.
//!
//! An instruction word is 16 bits. Its highest nibble selects the group; the
//! other nibbles are operands: `x` and `y` name registers, `n`, `nn` and `nnn`
//! are immediates of 4, 8 and 12 bits.

use vstd::prelude::*;

verus! {

/// A decoded instruction.
#[derive(Clone, Copy, Debug, PartialEq, Eq)]
pub enum Instruction {
    /// `00E0`: turn every pixel off.
    ClearScreen,
    /// `00EE`: return from a subroutine.
    Return,
    /// `1nnn`: jump to `addr`.
    Jump { addr: u16 },
    /// `2nnn`: call the subroutine at `addr`.
    Call { addr: u16 },
    /// `3xnn`: skip the next instruction if `Vx == value`.
    SkipIfEqual { x: u8, value: u8 },
    /// `4xnn`: skip the next instruction if `Vx != value`.
    SkipIfNotEqual { x: u8, value: u8 },
    /// `5xy_`: skip the next instruction if `Vx == Vy`.
    SkipIfRegistersEqual { x: u8, y: u8 },
    /// `6xnn`: `Vx = value`.
    Load { x: u8, value: u8 },
    /// `7xnn`: `Vx = Vx + value`, wrapping, flag untouched.
    AddImmediate { x: u8, value: u8 },
    /// `8xy0`: `Vx = Vy`.
    Copy { x: u8, y: u8 },
    /// `8xy1`: `Vx = Vx | Vy`.
    Or { x: u8, y: u8 },
    /// `8xy2`: `Vx = Vx & Vy`.
    And { x: u8, y: u8 },
    /// `8xy3`: `Vx = Vx ^ Vy`.
    Xor { x: u8, y: u8 },
    /// `8xy4`: `Vx = Vx + Vy`, carry into the flag register.
    Add { x: u8, y: u8 },
    /// `8xy5`: `Vx = Vx - Vy`, "no borrow" into the flag register.
    Subtract { x: u8, y: u8 },
    /// `8xy6`: `Vx = Vx >> 1`, the bit shifted out into the flag register.
    ShiftRight { x: u8 },
    /// `8xy7`: `Vx = Vy - Vx`, "no borrow" into the flag register.
    SubtractReversed { x: u8, y: u8 },
    /// `8xyE`: `Vx = Vx << 1`, the bit shifted out into the flag register.
    ShiftLeft { x: u8 },
    /// `9xy_`: skip the next instruction if `Vx != Vy`.
    SkipIfRegistersNotEqual { x: u8, y: u8 },
    /// `Annn`: `I = addr`.
    LoadIndex { addr: u16 },
    /// `Bnnn`: jump to `V0 + addr`.
    JumpOffset { addr: u16 },
    /// `Cxnn`: `Vx = random byte & mask`.
    Random { x: u8, mask: u8 },
    /// `Dxyn`: draw the `rows`-row sprite at `I` at position `(Vx, Vy)`.
    Draw { x: u8, y: u8, rows: u8 },
    /// `Ex9E`: skip the next instruction if key `Vx` is pressed.
    SkipIfKey { x: u8 },
    /// `ExA1`: skip the next instruction if key `Vx` is not pressed.
    SkipIfNotKey { x: u8 },
    /// `Fx07`: `Vx = delay timer`.
    ReadDelay { x: u8 },
    /// `Fx0A`: wait for a key press and store its index in `Vx`.
    WaitKey { x: u8 },
    /// `Fx15`: `delay timer = Vx`.
    SetDelay { x: u8 },
    /// `Fx18`: `sound timer = Vx`.
    SetSound { x: u8 },
    /// `Fx1E`: `I = I + Vx`, address-space overflow into the flag register.
    AddIndex { x: u8 },
    /// `Fx29`: `I` = address of the glyph of `Vx`.
    Glyph { x: u8 },
    /// `Fx33`: store the decimal digits of `Vx` at `I`, `I + 1`, `I + 2`.
    Decimal { x: u8 },
    /// `Fx55`: store `V0..=Vx` in memory from `I` on.
    Store { x: u8 },
    /// `Fx65`: load `V0..=Vx` from memory from `I` on.
    Restore { x: u8 },
}

/// Why an instruction word names no instruction.
#[derive(Clone, Copy, Debug, PartialEq, Eq)]
pub enum DecodeError {
    /// A machine-code call of group `0`, which this machine does not run.
    LegacyCall,
    /// No instruction has this word.
    Unsupported,
}

/// The group: the highest nibble.
#[verifier::opaque]
pub open spec fn op_group(op: u16) -> int {
    op as int / 4096
}

/// The 12-bit immediate `nnn`.
#[verifier::opaque]
pub open spec fn op_nnn(op: u16) -> u16 {
    (op as int % 4096) as u16
}

/// The 8-bit immediate `nn`.
#[verifier::opaque]
pub open spec fn op_nn(op: u16) -> u8 {
    (op as int % 256) as u8
}

/// The 4-bit immediate `n`: the lowest nibble.
#[verifier::opaque]
pub open spec fn op_n(op: u16) -> u8 {
    (op as int % 16) as u8
}

/// The register operand `x`: the second nibble.
#[verifier::opaque]
pub open spec fn op_x(op: u16) -> u8 {
    ((op as int / 256) % 16) as u8
}

/// The register operand `y`: the third nibble.
#[verifier::opaque]
pub open spec fn op_y(op: u16) -> u8 {
    ((op as int / 16) % 16) as u8
}

/// Decoding of the arithmetic group `8`.
pub open spec fn decode_alu(op: u16) -> Result<Instruction, DecodeError> {
    let x = op_x(op);
    let y = op_y(op);
    let n = op_n(op);
    if n == 0 {
        Ok(Instruction::Copy { x, y })
    } else if n == 1 {
        Ok(Instruction::Or { x, y })
    } else if n == 2 {
        Ok(Instruction::And { x, y })
    } else if n == 3 {
        Ok(Instruction::Xor { x, y })
    } else if n == 4 {
        Ok(Instruction::Add { x, y })
    } else if n == 5 {
        Ok(Instruction::Subtract { x, y })
    } else if n == 6 {
        Ok(Instruction::ShiftRight { x })
    } else if n == 7 {
        Ok(Instruction::SubtractReversed { x, y })
    } else if n == 0xE {
        Ok(Instruction::ShiftLeft { x })
    } else {
        Err(DecodeError::Unsupported)
    }
}

/// Decoding of the miscellaneous group `F`.
pub open spec fn decode_misc(op: u16) -> Result<Instruction, DecodeError> {
    let x = op_x(op);
    let nn = op_nn(op);
    if nn == 0x07 {
        Ok(Instruction::ReadDelay { x })
    } else if nn == 0x0A {
        Ok(Instruction::WaitKey { x })
    } else if nn == 0x15 {
        Ok(Instruction::SetDelay { x })
    } else if nn == 0x18 {
        Ok(Instruction::SetSound { x })
    } else if nn == 0x1E {
        Ok(Instruction::AddIndex { x })
    } else if nn == 0x29 {
        Ok(Instruction::Glyph { x })
    } else if nn == 0x33 {
        Ok(Instruction::Decimal { x })
    } else if nn == 0x55 {
        Ok(Instruction::Store { x })
    } else if nn == 0x65 {
        Ok(Instruction::Restore { x })
    } else {
        Err(DecodeError::Unsupported)
    }
}

/// The instruction that a word names. Groups `5` and `9` ignore their lowest
/// nibble; group `0` looks at the low byte only.
pub open spec fn decode_spec(op: u16) -> Result<Instruction, DecodeError> {
    let g = op_group(op);
    let x = op_x(op);
    let y = op_y(op);
    let n = op_n(op);
    let nn = op_nn(op);
    let nnn = op_nnn(op);
    if g == 0 {
        if nn == 0xE0 {
            Ok(Instruction::ClearScreen)
        } else if nn == 0xEE {
            Ok(Instruction::Return)
        } else {
            Err(DecodeError::LegacyCall)
        }
    } else if g == 1 {
        Ok(Instruction::Jump { addr: nnn })
    } else if g == 2 {
        Ok(Instruction::Call { addr: nnn })
    } else if g == 3 {
        Ok(Instruction::SkipIfEqual { x, value: nn })
    } else if g == 4 {
        Ok(Instruction::SkipIfNotEqual { x, value: nn })
    } else if g == 5 {
        Ok(Instruction::SkipIfRegistersEqual { x, y })
    } else if g == 6 {
        Ok(Instruction::Load { x, value: nn })
    } else if g == 7 {
        Ok(Instruction::AddImmediate { x, value: nn })
    } else if g == 8 {
        decode_alu(op)
    } else if g == 9 {
        Ok(Instruction::SkipIfRegistersNotEqual { x, y })
    } else if g == 0xA {
        Ok(Instruction::LoadIndex { addr: nnn })
    } else if g == 0xB {
        Ok(Instruction::JumpOffset { addr: nnn })
    } else if g == 0xC {
        Ok(Instruction::Random { x, mask: nn })
    } else if g == 0xD {
        Ok(Instruction::Draw { x, y, rows: n })
    } else if g == 0xE {
        if nn == 0x9E {
            Ok(Instruction::SkipIfKey { x })
        } else if nn == 0xA1 {
            Ok(Instruction::SkipIfNotKey { x })
        } else {
            Err(DecodeError::Unsupported)
        }
    } else {
        decode_misc(op)
    }
}

impl Instruction {
    /// Register operands name one of the sixteen registers, addresses have
    /// twelve bits and a sprite has at most fifteen rows.
    pub open spec fn wf(self) -> bool {
        match self {
            Instruction::ClearScreen | Instruction::Return => true,
            Instruction::Jump { addr }
            | Instruction::Call { addr }
            | Instruction::LoadIndex { addr }
            | Instruction::JumpOffset { addr } => addr < 4096,
            Instruction::SkipIfEqual { x, .. }
            | Instruction::SkipIfNotEqual { x, .. }
            | Instruction::Load { x, .. }
            | Instruction::AddImmediate { x, .. }
            | Instruction::Random { x, .. }
            | Instruction::ShiftRight { x }
            | Instruction::ShiftLeft { x }
            | Instruction::SkipIfKey { x }
            | Instruction::SkipIfNotKey { x }
            | Instruction::ReadDelay { x }
            | Instruction::WaitKey { x }
            | Instruction::SetDelay { x }
            | Instruction::SetSound { x }
            | Instruction::AddIndex { x }
            | Instruction::Glyph { x }
            | Instruction::Decimal { x }
            | Instruction::Store { x }
            | Instruction::Restore { x } => x < 16,
            Instruction::SkipIfRegistersEqual { x, y }
            | Instruction::Copy { x, y }
            | Instruction::Or { x, y }
            | Instruction::And { x, y }
            | Instruction::Xor { x, y }
            | Instruction::Add { x, y }
            | Instruction::Subtract { x, y }
            | Instruction::SubtractReversed { x, y }
            | Instruction::SkipIfRegistersNotEqual { x, y } => x < 16 && y < 16,
            Instruction::Draw { x, y, rows } => x < 16 && y < 16 && rows < 16,
        }
    }
}

/// Whatever a word decodes to has operands in range.
pub proof fn lemma_decode_wf(op: u16)
    ensures
        decode_spec(op) matches Ok(ins) ==> ins.wf(),
{
    lemma_operands_in_range(op);
}

/// The operands of a word are nibbles, a byte and a 12-bit address.
pub proof fn lemma_operands_in_range(op: u16)
    ensures
        0 <= op_group(op) < 16,
        op_x(op) < 16,
        op_y(op) < 16,
        op_n(op) < 16,
        op_nnn(op) < 4096,
{
    reveal(op_group);
    reveal(op_x);
    reveal(op_y);
    reveal(op_n);
    reveal(op_nnn);
}

/// The fields of an instruction word, read with masks and shifts, are its
/// nibbles.
proof fn lemma_fields(op: u16)
    ensures
        (op & 0xF000) >> 12 == op_group(op),
        op & 0x0FFF == op_nnn(op),
        (op & 0x00FF) as u8 == op_nn(op),
        (op & 0x000F) as u8 == op_n(op),
        ((op & 0x0F00) >> 8) as u8 == op_x(op),
        ((op & 0x00F0) >> 4) as u8 == op_y(op),
{
    reveal(op_group);
    reveal(op_nnn);
    reveal(op_nn);
    reveal(op_n);
    reveal(op_x);
    reveal(op_y);
    assert((op & 0xF000) >> 12 == op / 4096) by (bit_vector);
    assert(op & 0x0FFF == op % 4096) by (bit_vector);
    assert(op & 0x00FF == op % 256 && op & 0x00FF < 256) by (bit_vector);
    assert(op & 0x000F == op % 16 && op & 0x000F < 16) by (bit_vector);
    assert((op & 0x0F00) >> 8 == (op / 256) % 16 && (op & 0x0F00) >> 8 < 16) by (bit_vector);
    assert((op & 0x00F0) >> 4 == (op / 16) % 16 && (op & 0x00F0) >> 4 < 16) by (bit_vector);
}

/// Decodes an instruction word.
pub fn decode(op: u16) -> (r: Result<Instruction, DecodeError>)
    ensures
        r == decode_spec(op),
        r matches Ok(ins) ==> ins.wf(),
{
    proof {
        lemma_fields(op);
        lemma_operands_in_range(op);
    }
    let nnn = op & 0x0FFF;
    let nn = (op & 0x00FF) as u8;
    let n = (op & 0x000F) as u8;
    let x = ((op & 0x0F00) >> 8) as u8;
    let y = ((op & 0x00F0) >> 4) as u8;
    match (op & 0xF000) >> 12 {
        0x0 => {
            if nn == 0xE0 {
                Ok(Instruction::ClearScreen)
            } else if nn == 0xEE {
                Ok(Instruction::Return)
            } else {
                Err(DecodeError::LegacyCall)
            }
        },
        0x1 => Ok(Instruction::Jump { addr: nnn }),
        0x2 => Ok(Instruction::Call { addr: nnn }),
        0x3 => Ok(Instruction::SkipIfEqual { x, value: nn }),
        0x4 => Ok(Instruction::SkipIfNotEqual { x, value: nn }),
        0x5 => Ok(Instruction::SkipIfRegistersEqual { x, y }),
        0x6 => Ok(Instruction::Load { x, value: nn }),
        0x7 => Ok(Instruction::AddImmediate { x, value: nn }),
        0x8 => match n {
            0x0 => Ok(Instruction::Copy { x, y }),
            0x1 => Ok(Instruction::Or { x, y }),
            0x2 => Ok(Instruction::And { x, y }),
            0x3 => Ok(Instruction::Xor { x, y }),
            0x4 => Ok(Instruction::Add { x, y }),
            0x5 => Ok(Instruction::Subtract { x, y }),
            0x6 => Ok(Instruction::ShiftRight { x }),
            0x7 => Ok(Instruction::SubtractReversed { x, y }),
            0xE => Ok(Instruction::ShiftLeft { x }),
            _ => Err(DecodeError::Unsupported),
        },
        0x9 => Ok(Instruction::SkipIfRegistersNotEqual { x, y }),
        0xA => Ok(Instruction::LoadIndex { addr: nnn }),
        0xB => Ok(Instruction::JumpOffset { addr: nnn }),
        0xC => Ok(Instruction::Random { x, mask: nn }),
        0xD => Ok(Instruction::Draw { x, y, rows: n }),
        0xE => {
            if nn == 0x9E {
                Ok(Instruction::SkipIfKey { x })
            } else if nn == 0xA1 {
                Ok(Instruction::SkipIfNotKey { x })
            } else {
                Err(DecodeError::Unsupported)
            }
        },
        _ => match nn {
            0x07 => Ok(Instruction::ReadDelay { x }),
            0x0A => Ok(Instruction::WaitKey { x }),
            0x15 => Ok(Instruction::SetDelay { x }),
            0x18 => Ok(Instruction::SetSound { x }),
            0x1E => Ok(Instruction::AddIndex { x }),
            0x29 => Ok(Instruction::Glyph { x }),
            0x33 => Ok(Instruction::Decimal { x }),
            0x55 => Ok(Instruction::Store { x }),
            0x65 => Ok(Instruction::Restore { x }),
            _ => Err(DecodeError::Unsupported),
        },
    }
}

} // verus!
