//! The keypad latch and the events that drive it.
//!
//! The keypad has sixteen keys, `0x0` to `0xF`. The host reports key presses
//! by key code; sixteen codes are mapped to the keypad, the rest are dropped.

use crate::model::{awaited_register, Machine};
use vstd::prelude::*;

verus! {

/// Number of keys on the keypad.
pub const KEY_COUNT: usize = 16;

pub const KEYCODE_1: i32 = 49;

pub const KEYCODE_2: i32 = 50;

pub const KEYCODE_3: i32 = 51;

pub const KEYCODE_4: i32 = 52;

pub const KEYCODE_A: i32 = 97;

pub const KEYCODE_C: i32 = 99;

pub const KEYCODE_D: i32 = 100;

pub const KEYCODE_E: i32 = 101;

pub const KEYCODE_F: i32 = 102;

pub const KEYCODE_Q: i32 = 113;

pub const KEYCODE_R: i32 = 114;

pub const KEYCODE_S: i32 = 115;

pub const KEYCODE_V: i32 = 118;

pub const KEYCODE_W: i32 = 119;

pub const KEYCODE_X: i32 = 120;

pub const KEYCODE_Z: i32 = 122;

/// Something the host has to report.
#[derive(Clone, Copy, Debug, PartialEq, Eq)]
pub enum InputEvent {
    /// The user asked to quit.
    Quit,
    /// The key with this code went down.
    KeyDown { keycode: i32 },
    /// The key with this code came up.
    KeyUp { keycode: i32 },
    /// Anything else.
    Other,
}

/// The keypad key that a key code stands for. The block `1234 / qwer / asdf /
/// zxcv` of the keyboard is laid out as the keypad `123C / 456D / 789E / A0BF`.
pub open spec fn keymap(keycode: i32) -> Option<usize> {
    if keycode == KEYCODE_1 {
        Some(0x1)
    } else if keycode == KEYCODE_2 {
        Some(0x2)
    } else if keycode == KEYCODE_3 {
        Some(0x3)
    } else if keycode == KEYCODE_4 {
        Some(0xC)
    } else if keycode == KEYCODE_Q {
        Some(0x4)
    } else if keycode == KEYCODE_W {
        Some(0x5)
    } else if keycode == KEYCODE_E {
        Some(0x6)
    } else if keycode == KEYCODE_R {
        Some(0xD)
    } else if keycode == KEYCODE_A {
        Some(0x7)
    } else if keycode == KEYCODE_S {
        Some(0x8)
    } else if keycode == KEYCODE_D {
        Some(0x9)
    } else if keycode == KEYCODE_F {
        Some(0xE)
    } else if keycode == KEYCODE_Z {
        Some(0xA)
    } else if keycode == KEYCODE_X {
        Some(0x0)
    } else if keycode == KEYCODE_C {
        Some(0xB)
    } else if keycode == KEYCODE_V {
        Some(0xF)
    } else {
        None
    }
}

/// Every mapped key is a key of the keypad.
pub proof fn lemma_keymap_in_range(keycode: i32)
    ensures
        keymap(keycode) matches Some(key) ==> key < KEY_COUNT,
{
}

/// Maps a key code to its keypad key.
pub fn match_keycode_to_key(keycode: i32) -> (key: Option<usize>)
    ensures
        key == keymap(keycode),
        key matches Some(k) ==> k < KEY_COUNT,
{
    match keycode {
        KEYCODE_1 => Some(1),
        KEYCODE_2 => Some(2),
        KEYCODE_3 => Some(3),
        KEYCODE_4 => Some(12),
        KEYCODE_Q => Some(4),
        KEYCODE_W => Some(5),
        KEYCODE_E => Some(6),
        KEYCODE_R => Some(13),
        KEYCODE_A => Some(7),
        KEYCODE_S => Some(8),
        KEYCODE_D => Some(9),
        KEYCODE_F => Some(14),
        KEYCODE_Z => Some(10),
        KEYCODE_X => Some(0),
        KEYCODE_C => Some(11),
        KEYCODE_V => Some(15),
        _ => None,
    }
}

/// The machine with key `key` held down or released; unchanged where `key`
/// is no key of the keypad.
pub open spec fn with_key(m: Machine, key: int, pressed: bool) -> Machine {
    if 0 <= key < 16 {
        Machine { keys: m.keys.update(key, pressed), ..m }
    } else {
        m
    }
}

/// The machine after one event: a quit request stops the run loop, a mapped
/// key sets or clears its latch, anything else is dropped.
pub open spec fn event_spec(m: Machine, event: InputEvent) -> Machine {
    match event {
        InputEvent::Quit => Machine { running: false, ..m },
        InputEvent::KeyDown { keycode } => match keymap(keycode) {
            Some(key) => with_key(m, key as int, true),
            None => m,
        },
        InputEvent::KeyUp { keycode } => match keymap(keycode) {
            Some(key) => with_key(m, key as int, false),
            None => m,
        },
        InputEvent::Other => m,
    }
}

/// The machine after a run of events, in order.
pub open spec fn events_spec(m: Machine, events: Seq<InputEvent>) -> Machine
    decreases events.len(),
{
    if events.len() == 0 {
        m
    } else {
        event_spec(events_spec(m, events.drop_last()), events.last())
    }
}

/// The key that ends a key wait: the one that a key-down event names, while
/// the instruction at the program counter is a key wait.
pub open spec fn wait_result(m: Machine, event: InputEvent) -> Option<u8> {
    match event {
        InputEvent::KeyDown { keycode } => match keymap(keycode) {
            Some(key) => if awaited_register(m) is Some {
                Some(key as u8)
            } else {
                None
            },
            None => None,
        },
        _ => None,
    }
}

/// The machine after one event during a key wait. The latch follows the event
/// as always; the key that ends the wait is stored in the awaited register and
/// the program counter moves past the wait.
pub open spec fn wait_spec(m: Machine, event: InputEvent) -> Machine {
    let latched = event_spec(m, event);
    match wait_result(m, event) {
        Some(key) => latched.with_register(awaited_register(m)->Some_0 as int, key).advance(),
        None => latched,
    }
}

} // verus!
