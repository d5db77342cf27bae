use chip8::opcode::{decode, DecodeError, Instruction};

#[test]
fn every_group_decodes() {
    assert_eq!(decode(0x00E0), Ok(Instruction::ClearScreen));
    assert_eq!(decode(0x00EE), Ok(Instruction::Return));
    assert_eq!(decode(0x1ABC), Ok(Instruction::Jump { addr: 0xABC }));
    assert_eq!(decode(0x2ABC), Ok(Instruction::Call { addr: 0xABC }));
    assert_eq!(decode(0x3A12), Ok(Instruction::SkipIfEqual { x: 0xA, value: 0x12 }));
    assert_eq!(decode(0x4A12), Ok(Instruction::SkipIfNotEqual { x: 0xA, value: 0x12 }));
    assert_eq!(decode(0x5AB0), Ok(Instruction::SkipIfRegistersEqual { x: 0xA, y: 0xB }));
    assert_eq!(decode(0x6A12), Ok(Instruction::Load { x: 0xA, value: 0x12 }));
    assert_eq!(decode(0x7A12), Ok(Instruction::AddImmediate { x: 0xA, value: 0x12 }));
    assert_eq!(decode(0x9AB0), Ok(Instruction::SkipIfRegistersNotEqual { x: 0xA, y: 0xB }));
    assert_eq!(decode(0xAABC), Ok(Instruction::LoadIndex { addr: 0xABC }));
    assert_eq!(decode(0xBABC), Ok(Instruction::JumpOffset { addr: 0xABC }));
    assert_eq!(decode(0xCA12), Ok(Instruction::Random { x: 0xA, mask: 0x12 }));
    assert_eq!(decode(0xDAB7), Ok(Instruction::Draw { x: 0xA, y: 0xB, rows: 7 }));
    assert_eq!(decode(0xEA9E), Ok(Instruction::SkipIfKey { x: 0xA }));
    assert_eq!(decode(0xEAA1), Ok(Instruction::SkipIfNotKey { x: 0xA }));
}

#[test]
fn the_arithmetic_group_decodes_by_its_low_nibble() {
    assert_eq!(decode(0x8AB0), Ok(Instruction::Copy { x: 0xA, y: 0xB }));
    assert_eq!(decode(0x8AB1), Ok(Instruction::Or { x: 0xA, y: 0xB }));
    assert_eq!(decode(0x8AB2), Ok(Instruction::And { x: 0xA, y: 0xB }));
    assert_eq!(decode(0x8AB3), Ok(Instruction::Xor { x: 0xA, y: 0xB }));
    assert_eq!(decode(0x8AB4), Ok(Instruction::Add { x: 0xA, y: 0xB }));
    assert_eq!(decode(0x8AB5), Ok(Instruction::Subtract { x: 0xA, y: 0xB }));
    assert_eq!(decode(0x8AB6), Ok(Instruction::ShiftRight { x: 0xA }));
    assert_eq!(decode(0x8AB7), Ok(Instruction::SubtractReversed { x: 0xA, y: 0xB }));
    assert_eq!(decode(0x8ABE), Ok(Instruction::ShiftLeft { x: 0xA }));
    for n in [0x8u16, 0x9, 0xA, 0xB, 0xC, 0xD, 0xF] {
        assert_eq!(decode(0x8AB0 | n), Err(DecodeError::Unsupported));
    }
}

#[test]
fn the_miscellaneous_group_decodes_by_its_low_byte() {
    assert_eq!(decode(0xFA07), Ok(Instruction::ReadDelay { x: 0xA }));
    assert_eq!(decode(0xFA0A), Ok(Instruction::WaitKey { x: 0xA }));
    assert_eq!(decode(0xFA15), Ok(Instruction::SetDelay { x: 0xA }));
    assert_eq!(decode(0xFA18), Ok(Instruction::SetSound { x: 0xA }));
    assert_eq!(decode(0xFA1E), Ok(Instruction::AddIndex { x: 0xA }));
    assert_eq!(decode(0xFA29), Ok(Instruction::Glyph { x: 0xA }));
    assert_eq!(decode(0xFA33), Ok(Instruction::Decimal { x: 0xA }));
    assert_eq!(decode(0xFA55), Ok(Instruction::Store { x: 0xA }));
    assert_eq!(decode(0xFA65), Ok(Instruction::Restore { x: 0xA }));
    let known = [0x07u16, 0x0A, 0x15, 0x18, 0x1E, 0x29, 0x33, 0x55, 0x65];
    for nn in 0..=0xFFu16 {
        if !known.contains(&nn) {
            assert_eq!(decode(0xF000 | nn), Err(DecodeError::Unsupported));
        }
    }
}

#[test]
fn group_zero_knows_only_clear_and_return() {
    for word in 0x0000..=0x0FFFu16 {
        let expected = match word & 0xFF {
            0xE0 => Ok(Instruction::ClearScreen),
            0xEE => Ok(Instruction::Return),
            _ => Err(DecodeError::LegacyCall),
        };
        assert_eq!(decode(word), expected);
    }
}

#[test]
fn group_e_knows_only_the_two_key_skips() {
    for word in 0xE000..=0xEFFFu16 {
        let x = ((word >> 8) & 0xF) as u8;
        let expected = match word & 0xFF {
            0x9E => Ok(Instruction::SkipIfKey { x }),
            0xA1 => Ok(Instruction::SkipIfNotKey { x }),
            _ => Err(DecodeError::Unsupported),
        };
        assert_eq!(decode(word), expected);
    }
}

#[test]
fn operands_are_the_nibbles_of_the_word() {
    for word in 0x0000..=0xFFFFu16 {
        let x = ((word >> 8) & 0xF) as u8;
        let y = ((word >> 4) & 0xF) as u8;
        match decode(word) {
            Ok(Instruction::Draw { x: dx, y: dy, rows }) => {
                assert_eq!((dx, dy, rows), (x, y, (word & 0xF) as u8));
            }
            Ok(Instruction::Load { x: dx, value }) => {
                assert_eq!((dx, value), (x, (word & 0xFF) as u8));
            }
            Ok(Instruction::Jump { addr }) => assert_eq!(addr, word & 0xFFF),
            _ => {}
        }
    }
}
