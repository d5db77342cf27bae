use chip8::font::CHARACTER_SPRITES;
use chip8::machine::{Chip8, LoadError};

fn loaded(program: &[u8]) -> Chip8 {
    match Chip8::load(program) {
        Ok(machine) => machine,
        Err(error) => panic!("program does not load: {:?}", error),
    }
}

#[test]
fn a_program_of_exactly_the_free_memory_loads() {
    let program = vec![0xAB; 4096 - 512];
    let chip = loaded(&program);
    assert_eq!(chip.memory()[0x200], 0xAB);
    assert_eq!(chip.memory()[0xFFF], 0xAB);
    assert_eq!(chip.memory()[0x1FF], 0);
}

#[test]
fn a_program_one_byte_too_large_fails() {
    let program = vec![0xAB; 4096 - 512 + 1];
    match Chip8::load(&program) {
        Err(error) => assert_eq!(error, LoadError::ProgramTooLarge { size: 3585 }),
        Ok(_) => panic!("an oversized program was loaded"),
    }
}

#[test]
fn a_much_larger_program_fails() {
    let program = vec![0u8; 100_000];
    assert!(matches!(
        Chip8::load(&program),
        Err(LoadError::ProgramTooLarge { size: 100_000 })
    ));
}

#[test]
fn an_empty_program_loads() {
    let chip = loaded(&[]);
    for address in 0x200..0x1000 {
        assert_eq!(chip.memory()[address], 0);
    }
}

#[test]
fn the_glyphs_lie_at_the_bottom_of_memory() {
    let chip = loaded(&[1, 2, 3]);
    assert_eq!(&chip.memory()[0..80], &CHARACTER_SPRITES[..]);
    for address in 80..0x200 {
        assert_eq!(chip.memory()[address], 0);
    }
    // the glyph of 7
    assert_eq!(&chip.memory()[35..40], &[0xF0, 0x10, 0x20, 0x40, 0x40]);
}

#[test]
fn the_program_lies_at_the_start_address() {
    let chip = loaded(&[0x12, 0x34, 0x56]);
    assert_eq!(&chip.memory()[0x200..0x204], &[0x12, 0x34, 0x56, 0x00]);
}

#[test]
fn a_fresh_machine_is_at_rest() {
    let chip = loaded(&[0x12, 0x34]);
    assert_eq!(chip.pc(), 0x200);
    assert_eq!(chip.index(), 0);
    assert_eq!(*chip.registers(), [0u8; 16]);
    assert!(chip.stack().is_empty());
    assert_eq!(chip.delay_timer(), 0);
    assert_eq!(chip.sound_timer(), 0);
    assert_eq!(*chip.keys(), [false; 16]);
    assert!(chip.screen().lit_pixels().is_empty());
    assert!(!chip.is_running());
    assert!(!chip.is_audio_playing());
    assert!(!chip.should_play());
}

#[test]
fn start_and_stop_set_the_running_flag() {
    let mut chip = loaded(&[]);
    chip.start();
    assert!(chip.is_running());
    chip.stop();
    assert!(!chip.is_running());
}
