//! The mathematical model of the machine and of its transitions.
//!
//! A `Machine` is the state of the interpreter as plain sequences and
//! integers. The functions here say, for each instruction, which state follows
//! from which; the executable engine is proved against them.

use crate::display::{blank_screen, draw_erases, draw_pixels, screen_wf};
use crate::font::{font_bytes, glyph_address};
use crate::opcode::{decode_spec, DecodeError, Instruction};
use vstd::prelude::*;

verus! {

/// Number of addressable bytes.
pub const MEMORY_SIZE: usize = 4096;

/// Address at which a program is loaded and starts.
pub const PROGRAM_START: u16 = 0x200;

/// Largest program that fits between the start address and the end of memory.
pub const MAX_PROGRAM_SIZE: usize = 4096 - 512;

/// Index of the register that doubles as carry, borrow and collision flag.
pub const FLAG: usize = 0xF;

/// The state of the machine.
#[verifier::ext_equal]
pub struct Machine {
    /// The 4096 bytes of memory.
    pub mem: Seq<u8>,
    /// The sixteen general registers `V0..VF`.
    pub v: Seq<u8>,
    /// The index register `I`.
    pub i: u16,
    /// The program counter.
    pub pc: u16,
    /// The return addresses, the most recent call last.
    pub stack: Seq<u16>,
    /// The delay timer.
    pub delay_timer: u8,
    /// The sound timer.
    pub sound_timer: u8,
    /// When the timers last counted down, in nanoseconds of wall-clock time.
    pub last_tick: u128,
    /// Which of the sixteen keys are held down.
    pub keys: Seq<bool>,
    /// The screen, 32 rows of 64 pixels.
    pub screen: Seq<Seq<bool>>,
    /// Whether the tone is currently being played.
    pub audio_playing: bool,
    /// Whether the run loop should go on.
    pub running: bool,
}

/// Ways in which an instruction can fail.
#[derive(Clone, Copy, Debug, PartialEq, Eq)]
pub enum FaultKind {
    /// The program counter leaves no room for a two-byte instruction.
    PcOutOfBounds,
    /// A machine-code call of group `0`.
    LegacyCall,
    /// A word that names no instruction.
    UnsupportedOpcode,
    /// A return with no call outstanding.
    StackUnderflow,
    /// A memory operand that reaches beyond the end of memory.
    AddressOutOfBounds,
    /// A key test on a register that holds no key index.
    KeyOutOfRange,
}

/// A failed instruction: what went wrong, at which address, on which word.
/// The word is 0 where the fetch itself failed.
#[derive(Clone, Copy, Debug, PartialEq, Eq)]
pub struct Fault {
    pub kind: FaultKind,
    pub pc: u16,
    pub opcode: u16,
}

/// What the engine did in one step.
#[derive(Clone, Copy, Debug, PartialEq, Eq)]
pub enum Progress {
    /// An instruction was executed.
    Advanced,
    /// The instruction at the program counter waits for a key; nothing changed.
    AwaitingKey,
}

impl Machine {
    /// The collections have their fixed sizes.
    pub open spec fn wf(self) -> bool {
        &&& self.mem.len() == 4096
        &&& self.v.len() == 16
        &&& self.keys.len() == 16
        &&& screen_wf(self.screen)
    }

    /// The machine with another program counter.
    pub open spec fn with_pc(self, pc: int) -> Machine {
        Machine { pc: pc as u16, ..self }
    }

    /// The machine with the program counter on the next instruction.
    pub open spec fn advance(self) -> Machine {
        self.with_pc(self.pc + 2)
    }

    /// The machine with the program counter past the next instruction if
    /// `condition` holds, on it otherwise.
    pub open spec fn skip_if(self, condition: bool) -> Machine {
        self.with_pc(
            if condition {
                self.pc + 4
            } else {
                self.pc + 2
            },
        )
    }

    /// The machine with `value` in register `x`.
    pub open spec fn with_register(self, x: int, value: u8) -> Machine {
        Machine { v: self.v.update(x, value), ..self }
    }

    /// The machine with the flag register written first and the result
    /// register second, so that the result wins where `x` is the flag register.
    pub open spec fn with_flag_then(self, flag: bool, x: int, value: u8) -> Machine {
        Machine { v: self.v.update(FLAG as int, flag_byte(flag)).update(x, value), ..self }
    }
}

/// The flag register's value for a condition.
pub open spec fn flag_byte(flag: bool) -> u8 {
    if flag {
        1
    } else {
        0
    }
}

/// Memory right after loading `program`: the glyphs at the bottom, the
/// program from the start address on, zero elsewhere.
pub open spec fn initial_memory(program: Seq<u8>) -> Seq<u8> {
    Seq::new(
        4096,
        |a: int|
            if a < 80 {
                font_bytes()[a]
            } else if 512 <= a < 512 + program.len() {
                program[a - 512]
            } else {
                0u8
            },
    )
}

/// The machine right after loading `program` at wall-clock time `now`.
pub open spec fn initial_machine(program: Seq<u8>, now: u128) -> Machine {
    Machine {
        mem: initial_memory(program),
        v: Seq::new(16, |k: int| 0u8),
        i: 0,
        pc: PROGRAM_START,
        stack: Seq::empty(),
        delay_timer: 0,
        sound_timer: 0,
        last_tick: now,
        keys: Seq::new(16, |k: int| false),
        screen: blank_screen(),
        audio_playing: false,
        running: false,
    }
}

/// The low eight bits of an integer.
pub open spec fn low_byte(value: int) -> u8 {
    (value % 256) as u8
}

/// The three decimal digits of a byte: hundreds, tens, ones.
pub open spec fn decimal_digits(value: u8) -> (u8, u8, u8) {
    (value / 100, (value % 100) / 10, value % 10)
}

/// Memory after storing `V0..=Vx` from address `i` on.
pub open spec fn store_registers(mem: Seq<u8>, v: Seq<u8>, i: int, x: int) -> Seq<u8> {
    Seq::new(
        mem.len(),
        |a: int|
            if i <= a <= i + x {
                v[a - i]
            } else {
                mem[a]
            },
    )
}

/// The registers after loading `V0..=Vx` from address `i` on.
pub open spec fn restore_registers(mem: Seq<u8>, v: Seq<u8>, i: int, x: int) -> Seq<u8> {
    Seq::new(
        v.len(),
        |k: int|
            if k <= x {
                mem[i + k]
            } else {
                v[k]
            },
    )
}

/// The instruction word at the program counter, if two bytes can be read
/// there: the byte at `pc` is the high one.
pub open spec fn fetch_spec(m: Machine) -> Option<u16> {
    if m.pc as int + 1 < 4096 {
        Some((m.mem[m.pc as int] * 256 + m.mem[m.pc + 1]) as u16)
    } else {
        None
    }
}

/// The effect of one instruction. `random` is the byte that the random
/// instruction masks; no other instruction looks at it.
pub open spec fn execute_spec(m: Machine, ins: Instruction, random: u8) -> Result<
    Machine,
    FaultKind,
> {
    match ins {
        Instruction::ClearScreen => Ok(Machine { screen: blank_screen(), ..m }.advance()),
        Instruction::Return => if m.stack.len() == 0 {
            Err(FaultKind::StackUnderflow)
        } else {
            Ok(Machine { pc: m.stack.last(), stack: m.stack.drop_last(), ..m })
        },
        Instruction::Jump { addr } => Ok(m.with_pc(addr as int)),
        Instruction::Call { addr } => Ok(
            Machine { stack: m.stack.push((m.pc + 2) as u16), ..m }.with_pc(addr as int),
        ),
        Instruction::SkipIfEqual { x, value } => Ok(m.skip_if(m.v[x as int] == value)),
        Instruction::SkipIfNotEqual { x, value } => Ok(m.skip_if(m.v[x as int] != value)),
        Instruction::SkipIfRegistersEqual { x, y } => Ok(
            m.skip_if(m.v[x as int] == m.v[y as int]),
        ),
        Instruction::SkipIfRegistersNotEqual { x, y } => Ok(
            m.skip_if(m.v[x as int] != m.v[y as int]),
        ),
        Instruction::Load { x, value } => Ok(m.with_register(x as int, value).advance()),
        Instruction::AddImmediate { x, value } => Ok(
            m.with_register(x as int, low_byte(m.v[x as int] + value)).advance(),
        ),
        Instruction::Copy { x, y } => Ok(m.with_register(x as int, m.v[y as int]).advance()),
        Instruction::Or { x, y } => Ok(
            m.with_register(x as int, m.v[x as int] | m.v[y as int]).advance(),
        ),
        Instruction::And { x, y } => Ok(
            m.with_register(x as int, m.v[x as int] & m.v[y as int]).advance(),
        ),
        Instruction::Xor { x, y } => Ok(
            m.with_register(x as int, m.v[x as int] ^ m.v[y as int]).advance(),
        ),
        Instruction::Add { x, y } => {
            let sum = m.v[x as int] + m.v[y as int];
            Ok(m.with_flag_then(sum > 255, x as int, low_byte(sum)).advance())
        },
        Instruction::Subtract { x, y } => {
            let diff = m.v[x as int] - m.v[y as int];
            Ok(m.with_flag_then(diff >= 0, x as int, low_byte(diff)).advance())
        },
        Instruction::SubtractReversed { x, y } => {
            let diff = m.v[y as int] - m.v[x as int];
            Ok(m.with_flag_then(diff >= 0, x as int, low_byte(diff)).advance())
        },
        Instruction::ShiftRight { x } => {
            let flagged = m.with_register(FLAG as int, m.v[x as int] % 2);
            Ok(flagged.with_register(x as int, flagged.v[x as int] / 2).advance())
        },
        Instruction::ShiftLeft { x } => {
            let flagged = m.with_register(FLAG as int, m.v[x as int] / 128);
            Ok(flagged.with_register(x as int, low_byte(flagged.v[x as int] * 2)).advance())
        },
        Instruction::LoadIndex { addr } => Ok(Machine { i: addr, ..m }.advance()),
        Instruction::JumpOffset { addr } => Ok(m.with_pc(m.v[0] + addr)),
        Instruction::Random { x, mask } => Ok(m.with_register(x as int, random & mask).advance()),
        Instruction::Draw { x, y, rows } => if rows > 0 && m.i + rows > 4096 {
            Err(FaultKind::AddressOutOfBounds)
        } else {
            let sprite = if rows == 0 {
                Seq::empty()
            } else {
                m.mem.subrange(m.i as int, m.i + rows)
            };
            let x0 = m.v[x as int] as int;
            let y0 = m.v[y as int] as int;
            Ok(
                Machine {
                    screen: draw_pixels(m.screen, sprite, x0, y0),
                    v: m.v.update(FLAG as int, flag_byte(draw_erases(m.screen, sprite, x0, y0))),
                    ..m
                }.advance(),
            )
        },
        Instruction::SkipIfKey { x } => if m.v[x as int] >= 16 {
            Err(FaultKind::KeyOutOfRange)
        } else {
            Ok(m.skip_if(m.keys[m.v[x as int] as int]))
        },
        Instruction::SkipIfNotKey { x } => if m.v[x as int] >= 16 {
            Err(FaultKind::KeyOutOfRange)
        } else {
            Ok(m.skip_if(!m.keys[m.v[x as int] as int]))
        },
        Instruction::ReadDelay { x } => Ok(m.with_register(x as int, m.delay_timer).advance()),
        Instruction::WaitKey { x } => Ok(m),
        Instruction::SetDelay { x } => Ok(Machine { delay_timer: m.v[x as int], ..m }.advance()),
        Instruction::SetSound { x } => Ok(Machine { sound_timer: m.v[x as int], ..m }.advance()),
        Instruction::AddIndex { x } => {
            let sum = ((m.i + m.v[x as int]) % 65536) as u16;
            Ok(
                Machine {
                    i: sum,
                    v: m.v.update(FLAG as int, flag_byte(sum > 0xFFF)),
                    ..m
                }.advance(),
            )
        },
        Instruction::Glyph { x } => Ok(
            Machine { i: glyph_address(m.v[x as int] as int) as u16, ..m }.advance(),
        ),
        Instruction::Decimal { x } => if m.i + 2 >= 4096 {
            Err(FaultKind::AddressOutOfBounds)
        } else {
            let (hundreds, tens, ones) = decimal_digits(m.v[x as int]);
            Ok(
                Machine {
                    mem: m.mem.update(m.i as int, hundreds).update(m.i + 1, tens).update(
                        m.i + 2,
                        ones,
                    ),
                    ..m
                }.advance(),
            )
        },
        Instruction::Store { x } => if m.i + x >= 4096 {
            Err(FaultKind::AddressOutOfBounds)
        } else {
            Ok(Machine { mem: store_registers(m.mem, m.v, m.i as int, x as int), ..m }.advance())
        },
        Instruction::Restore { x } => if m.i + x >= 4096 {
            Err(FaultKind::AddressOutOfBounds)
        } else {
            Ok(Machine { v: restore_registers(m.mem, m.v, m.i as int, x as int), ..m }.advance())
        },
    }
}

/// The fault for a word that does not decode.
pub open spec fn decode_fault(e: DecodeError) -> FaultKind {
    match e {
        DecodeError::LegacyCall => FaultKind::LegacyCall,
        DecodeError::Unsupported => FaultKind::UnsupportedOpcode,
    }
}

/// One step of the engine: fetch, decode, execute. A failing step yields the
/// fault and no new state.
pub open spec fn step_spec(m: Machine, random: u8) -> Result<Machine, Fault> {
    match fetch_spec(m) {
        None => Err(Fault { kind: FaultKind::PcOutOfBounds, pc: m.pc, opcode: 0 }),
        Some(op) => match decode_spec(op) {
            Err(e) => Err(Fault { kind: decode_fault(e), pc: m.pc, opcode: op }),
            Ok(ins) => match execute_spec(m, ins, random) {
                Err(kind) => Err(Fault { kind, pc: m.pc, opcode: op }),
                Ok(next) => Ok(next),
            },
        },
    }
}

/// The register that the instruction at the program counter wants a key in,
/// if that instruction is a key wait.
pub open spec fn awaited_register(m: Machine) -> Option<u8> {
    match fetch_spec(m) {
        Some(op) => match decode_spec(op) {
            Ok(Instruction::WaitKey { x }) => Some(x),
            _ => None,
        },
        None => None,
    }
}

/// Whether the instruction at the program counter masks a random byte: it is
/// the only one whose effect depends on the byte that a step is given.
pub open spec fn masks_random(m: Machine) -> bool {
    match fetch_spec(m) {
        Some(op) => decode_spec(op) matches Ok(Instruction::Random { .. }),
        None => false,
    }
}

/// What a successful step reports: whether the engine is held by a key wait.
pub open spec fn progress_spec(m: Machine) -> Progress {
    if awaited_register(m) is Some {
        Progress::AwaitingKey
    } else {
        Progress::Advanced
    }
}

} // verus!
