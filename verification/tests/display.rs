use chip8::display::Framebuffer;
use chip8::machine::Chip8;
use chip8::model::{Fault, FaultKind, Progress};

fn machine(program: &[u8]) -> Chip8 {
    match Chip8::load(program) {
        Ok(machine) => machine,
        Err(error) => panic!("program does not load: {:?}", error),
    }
}

fn run(program: &[u8], steps: usize) -> Chip8 {
    let mut chip = machine(program);
    for _ in 0..steps {
        assert_eq!(chip.step_with(0), Ok(Progress::Advanced));
    }
    chip
}

#[test]
fn a_new_framebuffer_is_dark() {
    let screen = Framebuffer::new();
    for y in 0..32 {
        for x in 0..64 {
            assert!(!screen.pixel(x, y));
        }
    }
    assert!(screen.lit_pixels().is_empty());
}

#[test]
fn draw_sets_the_bits_of_the_sprite_from_the_left() {
    let mut screen = Framebuffer::new();
    let collision = screen.draw(&[0b1010_0001], 0, 0);
    assert!(!collision);
    assert_eq!(screen.lit_pixels(), vec![(0, 0), (2, 0), (7, 0)]);
}

#[test]
fn draw_puts_each_row_one_line_lower() {
    let mut screen = Framebuffer::new();
    assert!(!screen.draw(&[0x80, 0x40, 0x20], 10, 5));
    assert_eq!(screen.lit_pixels(), vec![(10, 5), (11, 6), (12, 7)]);
}

#[test]
fn drawing_twice_restores_the_screen_and_reports_the_collision() {
    let mut screen = Framebuffer::new();
    screen.draw(&[0xFF, 0x81, 0xFF], 3, 4);
    let before = screen.lit_pixels();
    let sprite = [0xF0, 0x90, 0x90, 0x90, 0xF0];
    let first = screen.draw(&sprite, 5, 5);
    assert!(first);
    let second = screen.draw(&sprite, 5, 5);
    assert!(second);
    assert_eq!(screen.lit_pixels(), before);
}

#[test]
fn second_draw_collides_even_where_the_first_did_not() {
    let mut screen = Framebuffer::new();
    assert!(!screen.draw(&[0x3C], 20, 20));
    assert!(screen.draw(&[0x3C], 20, 20));
    assert!(screen.lit_pixels().is_empty());
}

#[test]
fn second_draw_does_not_collide_where_the_first_only_erased() {
    let mut screen = Framebuffer::new();
    screen.draw(&[0xFF], 0, 0);
    assert!(screen.draw(&[0xF0], 4, 0));
    assert_eq!(screen.lit_pixels().len(), 4);
    assert!(!screen.draw(&[0xF0], 4, 0));
    assert_eq!(screen.lit_pixels().len(), 8);
}

#[test]
fn an_empty_sprite_row_never_collides() {
    let mut screen = Framebuffer::new();
    screen.draw(&[0xFF], 0, 0);
    assert!(!screen.draw(&[0x00], 0, 0));
    assert_eq!(screen.lit_pixels().len(), 8);
}

#[test]
fn overlap_without_erasure_is_no_collision() {
    let mut screen = Framebuffer::new();
    screen.draw(&[0xF0], 0, 0);
    assert!(!screen.draw(&[0x0F], 0, 0));
    assert_eq!(screen.lit_pixels().len(), 8);
}

#[test]
fn draw_wraps_around_the_right_edge() {
    let mut screen = Framebuffer::new();
    screen.draw(&[0xFF], 60, 0);
    assert_eq!(
        screen.lit_pixels(),
        vec![(0, 0), (1, 0), (2, 0), (3, 0), (60, 0), (61, 0), (62, 0), (63, 0)]
    );
}

#[test]
fn draw_wraps_around_the_bottom_edge() {
    let mut screen = Framebuffer::new();
    screen.draw(&[0x80, 0x80, 0x80], 0, 30);
    assert_eq!(screen.lit_pixels(), vec![(0, 0), (0, 30), (0, 31)]);
}

#[test]
fn the_position_is_taken_modulo_the_screen_size() {
    let mut screen = Framebuffer::new();
    screen.draw(&[0x80], 64 + 6, 32 + 3);
    assert_eq!(screen.lit_pixels(), vec![(6, 3)]);
    let mut screen = Framebuffer::new();
    screen.draw(&[0x80], 255, 255);
    assert_eq!(screen.lit_pixels(), vec![(63, 31)]);
}

#[test]
fn pixel_wraps_its_coordinates() {
    let mut screen = Framebuffer::new();
    screen.draw(&[0x80], 6, 3);
    assert!(screen.pixel(6, 3));
    assert!(screen.pixel(64 + 6, 32 + 3));
    assert!(!screen.pixel(7, 3));
}

#[test]
fn a_sprite_of_thirty_two_rows_fills_a_column() {
    let mut screen = Framebuffer::new();
    assert!(!screen.draw(&[0x80; 32], 0, 7));
    assert_eq!(screen.lit_pixels().len(), 32);
    for y in 0..32 {
        assert!(screen.pixel(0, y));
    }
}

#[test]
fn clear_turns_every_pixel_off() {
    let mut screen = Framebuffer::new();
    screen.draw(&[0xFF, 0xFF], 10, 10);
    screen.clear();
    assert!(screen.lit_pixels().is_empty());
}

#[test]
fn lit_pixels_come_row_by_row() {
    let mut screen = Framebuffer::new();
    screen.draw(&[0x80], 5, 9);
    screen.draw(&[0x80], 50, 2);
    screen.draw(&[0x80], 1, 9);
    assert_eq!(screen.lit_pixels(), vec![(50, 2), (1, 9), (5, 9)]);
}

#[test]
fn draw_instruction_reads_the_sprite_at_i() {
    // V1 = 2, V2 = 3, I = glyph of 1, draw five rows at (V1, V2)
    let chip = run(&[0x61, 2, 0x62, 3, 0xA0, 0x05, 0xD1, 0x25], 4);
    // glyph of 1: 0x20 0x60 0x20 0x20 0x70
    assert_eq!(
        chip.screen().lit_pixels(),
        vec![(4, 3), (3, 4), (4, 4), (4, 5), (4, 6), (3, 7), (4, 7), (5, 7)]
    );
    assert_eq!(chip.registers()[0xF], 0);
    assert_eq!(chip.pc(), 0x208);
    assert_eq!(chip.index(), 5);
}

#[test]
fn draw_instruction_twice_restores_the_screen_and_sets_the_flag() {
    let mut chip = machine(&[0x61, 60, 0x62, 30, 0xA0, 0x00, 0xD1, 0x25, 0xD1, 0x25]);
    for _ in 0..4 {
        assert_eq!(chip.step_with(0), Ok(Progress::Advanced));
    }
    assert_eq!(chip.registers()[0xF], 0);
    assert_eq!(chip.screen().lit_pixels().len(), 14);
    assert_eq!(chip.step_with(0), Ok(Progress::Advanced));
    assert_eq!(chip.registers()[0xF], 1);
    assert!(chip.screen().lit_pixels().is_empty());
}

#[test]
fn draw_instruction_clears_a_stale_flag() {
    let chip = run(&[0x6F, 1, 0xA0, 0x00, 0xD1, 0x21], 3);
    assert_eq!(chip.registers()[0xF], 0);
}

#[test]
fn draw_instruction_with_no_rows_draws_nothing() {
    let chip = run(&[0x6F, 1, 0xAF, 0xFF, 0xD1, 0x20], 3);
    assert!(chip.screen().lit_pixels().is_empty());
    assert_eq!(chip.registers()[0xF], 0);
    assert_eq!(chip.pc(), 0x206);
}

#[test]
fn draw_instruction_up_to_the_last_byte_of_memory() {
    let chip = run(&[0xAF, 0xF1, 0xD1, 0x2F], 2);
    assert_eq!(chip.pc(), 0x204);
}

#[test]
fn draw_instruction_beyond_memory_is_a_fault() {
    let mut chip = machine(&[0xAF, 0xF2, 0xD1, 0x2F]);
    assert_eq!(chip.step_with(0), Ok(Progress::Advanced));
    assert_eq!(
        chip.step_with(0),
        Err(Fault { kind: FaultKind::AddressOutOfBounds, pc: 0x202, opcode: 0xD12F })
    );
    assert_eq!(chip.pc(), 0x202);
    assert!(chip.screen().lit_pixels().is_empty());
}

#[test]
fn clear_screen_instruction_turns_every_pixel_off() {
    let chip = run(&[0xA0, 0x00, 0xD1, 0x25, 0x00, 0xE0], 3);
    assert!(chip.screen().lit_pixels().is_empty());
    assert_eq!(chip.pc(), 0x206);
    assert_eq!(chip.index(), 0);
}

#[test]
fn clear_screen_method_changes_only_the_screen() {
    let mut chip = run(&[0x61, 9, 0xA0, 0x00, 0xD1, 0x25], 3);
    chip.clear_screen();
    assert!(chip.screen().lit_pixels().is_empty());
    assert_eq!(chip.registers()[1], 9);
    assert_eq!(chip.pc(), 0x206);
}
