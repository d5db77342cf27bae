//! A CHIP-8 interpreter core: memory image, register file, call stack,
//! timers, keypad latch and framebuffer, with the instruction engine that
//! drives them. Every transition is specified over a mathematical model of
//! the machine and proved against it.

pub mod audio;
pub mod display;
pub mod engine;
pub mod font;
pub mod host;
pub mod input;
pub mod laws;
pub mod machine;
pub mod model;
pub mod opcode;
pub mod timer;
