use chip8::input::{
    match_keycode_to_key, InputEvent, KEYCODE_1, KEYCODE_2, KEYCODE_3, KEYCODE_4, KEYCODE_A,
    KEYCODE_C, KEYCODE_D, KEYCODE_E, KEYCODE_F, KEYCODE_Q, KEYCODE_R, KEYCODE_S, KEYCODE_V,
    KEYCODE_W, KEYCODE_X, KEYCODE_Z,
};
use chip8::machine::Chip8;
use chip8::model::Progress;

fn machine(program: &[u8]) -> Chip8 {
    match Chip8::load(program) {
        Ok(machine) => machine,
        Err(error) => panic!("program does not load: {:?}", error),
    }
}

#[test]
fn the_keyboard_block_maps_to_the_keypad() {
    assert_eq!(match_keycode_to_key(KEYCODE_1), Some(0x1));
    assert_eq!(match_keycode_to_key(KEYCODE_2), Some(0x2));
    assert_eq!(match_keycode_to_key(KEYCODE_3), Some(0x3));
    assert_eq!(match_keycode_to_key(KEYCODE_4), Some(0xC));
    assert_eq!(match_keycode_to_key(KEYCODE_Q), Some(0x4));
    assert_eq!(match_keycode_to_key(KEYCODE_W), Some(0x5));
    assert_eq!(match_keycode_to_key(KEYCODE_E), Some(0x6));
    assert_eq!(match_keycode_to_key(KEYCODE_R), Some(0xD));
    assert_eq!(match_keycode_to_key(KEYCODE_A), Some(0x7));
    assert_eq!(match_keycode_to_key(KEYCODE_S), Some(0x8));
    assert_eq!(match_keycode_to_key(KEYCODE_D), Some(0x9));
    assert_eq!(match_keycode_to_key(KEYCODE_F), Some(0xE));
    assert_eq!(match_keycode_to_key(KEYCODE_Z), Some(0xA));
    assert_eq!(match_keycode_to_key(KEYCODE_X), Some(0x0));
    assert_eq!(match_keycode_to_key(KEYCODE_C), Some(0xB));
    assert_eq!(match_keycode_to_key(KEYCODE_V), Some(0xF));
}

#[test]
fn key_codes_are_the_characters_of_the_keys() {
    assert_eq!(KEYCODE_1, '1' as i32);
    assert_eq!(KEYCODE_4, '4' as i32);
    assert_eq!(KEYCODE_Q, 'q' as i32);
    assert_eq!(KEYCODE_W, 'w' as i32);
    assert_eq!(KEYCODE_E, 'e' as i32);
    assert_eq!(KEYCODE_R, 'r' as i32);
    assert_eq!(KEYCODE_A, 'a' as i32);
    assert_eq!(KEYCODE_S, 's' as i32);
    assert_eq!(KEYCODE_D, 'd' as i32);
    assert_eq!(KEYCODE_F, 'f' as i32);
    assert_eq!(KEYCODE_Z, 'z' as i32);
    assert_eq!(KEYCODE_X, 'x' as i32);
    assert_eq!(KEYCODE_C, 'c' as i32);
    assert_eq!(KEYCODE_V, 'v' as i32);
    assert_eq!(KEYCODE_2, '2' as i32);
    assert_eq!(KEYCODE_3, '3' as i32);
}

#[test]
fn every_key_of_the_keypad_has_exactly_one_code() {
    let mut hits = [0usize; 16];
    for code in -1000..1000 {
        if let Some(key) = match_keycode_to_key(code) {
            hits[key] += 1;
        }
    }
    assert_eq!(hits, [1usize; 16]);
}

#[test]
fn other_codes_are_unmapped() {
    assert_eq!(match_keycode_to_key('5' as i32), None);
    assert_eq!(match_keycode_to_key('0' as i32), None);
    assert_eq!(match_keycode_to_key(' ' as i32), None);
    assert_eq!(match_keycode_to_key(0), None);
    assert_eq!(match_keycode_to_key(-1), None);
    assert_eq!(match_keycode_to_key(i32::MAX), None);
    assert_eq!(match_keycode_to_key('Q' as i32), None);
}

#[test]
fn key_down_and_key_up_set_and_clear_the_latch() {
    let mut chip = machine(&[]);
    chip.key_down(3);
    chip.key_down(15);
    assert!(chip.keys()[3]);
    assert!(chip.keys()[15]);
    assert_eq!(chip.keys().iter().filter(|held| **held).count(), 2);
    chip.key_up(3);
    assert!(!chip.keys()[3]);
    assert!(chip.keys()[15]);
}

#[test]
fn keys_beyond_the_keypad_are_dropped() {
    let mut chip = machine(&[]);
    chip.key_down(16);
    chip.key_down(usize::MAX);
    chip.key_up(16);
    assert_eq!(*chip.keys(), [false; 16]);
}

#[test]
fn events_drive_the_latch() {
    let mut chip = machine(&[]);
    chip.handle_event(InputEvent::KeyDown { keycode: KEYCODE_W });
    assert!(chip.keys()[5]);
    chip.handle_event(InputEvent::KeyDown { keycode: '9' as i32 });
    chip.handle_event(InputEvent::Other);
    assert_eq!(chip.keys().iter().filter(|held| **held).count(), 1);
    chip.handle_event(InputEvent::KeyUp { keycode: KEYCODE_W });
    assert_eq!(*chip.keys(), [false; 16]);
}

#[test]
fn a_quit_event_stops_the_run_loop() {
    let mut chip = machine(&[]);
    chip.start();
    chip.handle_event(InputEvent::KeyDown { keycode: KEYCODE_X });
    assert!(chip.is_running());
    chip.handle_event(InputEvent::Quit);
    assert!(!chip.is_running());
    assert!(chip.keys()[0]);
}

#[test]
fn polled_events_are_taken_in_order() {
    let mut chip = machine(&[]);
    chip.start();
    chip.poll_events(&[
        InputEvent::KeyDown { keycode: KEYCODE_A },
        InputEvent::KeyDown { keycode: KEYCODE_S },
        InputEvent::KeyUp { keycode: KEYCODE_A },
        InputEvent::Other,
        InputEvent::KeyUp { keycode: KEYCODE_D },
    ]);
    assert!(!chip.keys()[7]);
    assert!(chip.keys()[8]);
    assert!(!chip.keys()[9]);
    assert!(chip.is_running());
    chip.poll_events(&[InputEvent::KeyUp { keycode: KEYCODE_S }, InputEvent::Quit]);
    assert_eq!(*chip.keys(), [false; 16]);
    assert!(!chip.is_running());
    chip.poll_events(&[]);
    assert!(!chip.is_running());
}

#[test]
fn a_key_wait_holds_the_engine() {
    let mut chip = machine(&[0xF3, 0x0A, 0x61, 0x01]);
    for _ in 0..5 {
        assert_eq!(chip.step_with(0), Ok(Progress::AwaitingKey));
        assert_eq!(chip.pc(), 0x200);
        assert_eq!(chip.registers()[3], 0);
    }
    assert_eq!(chip.step(), Ok(Progress::AwaitingKey));
    assert_eq!(chip.awaited_register(), Some(3));
}

#[test]
fn a_key_down_event_ends_the_wait() {
    let mut chip = machine(&[0xF3, 0x0A, 0x61, 0x01]);
    assert_eq!(chip.step_with(0), Ok(Progress::AwaitingKey));
    assert_eq!(chip.wait_for_key(InputEvent::Other), None);
    assert_eq!(chip.wait_for_key(InputEvent::KeyUp { keycode: KEYCODE_W }), None);
    assert_eq!(chip.wait_for_key(InputEvent::KeyDown { keycode: '7' as i32 }), None);
    assert_eq!(chip.pc(), 0x200);
    assert_eq!(chip.wait_for_key(InputEvent::KeyDown { keycode: KEYCODE_W }), Some(5));
    assert_eq!(chip.registers()[3], 5);
    assert!(chip.keys()[5]);
    assert_eq!(chip.pc(), 0x202);
    assert_eq!(chip.step_with(0), Ok(Progress::Advanced));
    assert_eq!(chip.registers()[1], 1);
}

#[test]
fn the_latch_follows_events_during_a_wait() {
    let mut chip = machine(&[0xF3, 0x0A]);
    chip.key_down(2);
    assert_eq!(chip.wait_for_key(InputEvent::KeyUp { keycode: KEYCODE_2 }), None);
    assert!(!chip.keys()[2]);
    assert_eq!(chip.pc(), 0x200);
}

#[test]
fn a_key_that_is_already_held_does_not_end_the_wait_by_itself() {
    let mut chip = machine(&[0xF3, 0x0A]);
    chip.key_down(2);
    assert_eq!(chip.step_with(0), Ok(Progress::AwaitingKey));
    assert_eq!(chip.pc(), 0x200);
}

#[test]
fn a_quit_during_a_wait_stops_the_run_loop_and_leaves_the_wait_pending() {
    let mut chip = machine(&[0xF3, 0x0A]);
    chip.start();
    assert_eq!(chip.wait_for_key(InputEvent::Quit), None);
    assert!(!chip.is_running());
    assert_eq!(chip.pc(), 0x200);
}

#[test]
fn key_zero_ends_a_wait_too() {
    let mut chip = machine(&[0x6F, 0x09, 0xFF, 0x0A]);
    assert_eq!(chip.step_with(0), Ok(Progress::Advanced));
    assert_eq!(chip.wait_for_key(InputEvent::KeyDown { keycode: KEYCODE_X }), Some(0));
    assert_eq!(chip.registers()[0xF], 0);
    assert_eq!(chip.pc(), 0x204);
}

#[test]
fn without_a_pending_wait_no_wait_ends() {
    let mut chip = machine(&[0x61, 0x01]);
    assert_eq!(chip.awaited_register(), None);
    assert_eq!(chip.wait_for_key(InputEvent::KeyDown { keycode: KEYCODE_W }), None);
    assert!(chip.keys()[5]);
    assert_eq!(chip.pc(), 0x200);
    assert_eq!(*chip.registers(), [0u8; 16]);
}
