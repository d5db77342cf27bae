//! The instruction engine: fetch, decode, execute.
//!
//! A step either carries the machine to the state that the model gives, or
//! fails and leaves it exactly as it was.

use crate::host::random_byte;
use crate::machine::Chip8;
use crate::font::GLYPH_HEIGHT;
use crate::laws::lemma_step_ignores_random;
use crate::model::{
    execute_spec, low_byte, masks_random, progress_spec, restore_registers, step_spec,
    store_registers, Fault, FaultKind, Machine, Progress, FLAG, MEMORY_SIZE,
};
use crate::opcode::{decode, DecodeError, Instruction};
use vstd::prelude::*;

verus! {

/// What a step may do: on success the machine is in the state that the model
/// gives and the report says whether the engine is held by a key wait; on
/// failure the fault is the model's and the machine is unchanged.
pub open spec fn step_outcome(
    before: Machine,
    random: u8,
    result: Result<Progress, Fault>,
    after: Machine,
) -> bool {
    match step_spec(before, random) {
        Ok(next) => result == Ok::<Progress, Fault>(progress_spec(before)) && after == next,
        Err(fault) => result == Err::<Progress, Fault>(fault) && after == before,
    }
}

/// What executing one instruction may do.
pub open spec fn execute_outcome(
    before: Machine,
    ins: Instruction,
    random: u8,
    result: Result<(), FaultKind>,
    after: Machine,
) -> bool {
    match execute_spec(before, ins, random) {
        Ok(next) => result is Ok && after == next,
        Err(kind) => result == Err::<(), FaultKind>(kind) && after == before,
    }
}

/// Shifts and masks on a byte, as arithmetic.
proof fn lemma_shift_bits(a: u8)
    ensures
        a & 1 == a % 2,
        a >> 1 == a / 2,
        (a & 0x80) >> 7 == a / 128,
        a << 1 == low_byte(a * 2),
{
    assert(a & 1 == a % 2) by (bit_vector);
    assert(a >> 1 == a / 2) by (bit_vector);
    assert((a & 0x80) >> 7 == a / 128) by (bit_vector);
    assert(a << 1 == (a * 2) % 256) by (bit_vector);
}

impl Chip8 {
    /// Moves the program counter to the next instruction, or past it where
    /// `condition` holds.
    fn skip_if(&mut self, condition: bool)
        requires
            old(self)@.pc + 1 < 4096,
        ensures
            final(self)@ == old(self)@.skip_if(condition),
    {
        if condition {
            self.pc = self.pc + 4;
        } else {
            self.pc = self.pc + 2;
        }
    }

    /// Writes the flag register, then the result register.
    fn set_flag_then(&mut self, flag: bool, x: u8, value: u8)
        requires
            x < 16,
        ensures
            final(self)@ == old(self)@.with_flag_then(flag, x as int, value),
    {
        self.v[FLAG] = if flag {
            1
        } else {
            0
        };
        self.v[x as usize] = value;
    }

    /// Draws the sprite of `rows` rows at `I` at the position held by `Vx`
    /// and `Vy`, and writes the collision into the flag register.
    fn draw_sprite(&mut self, x: u8, y: u8, rows: u8) -> (r: Result<(), FaultKind>)
        requires
            x < 16,
            y < 16,
            rows < 16,
            old(self)@.pc + 1 < 4096,
        ensures
            execute_outcome(old(self)@, Instruction::Draw { x, y, rows }, 0, r, final(self)@),
    {
        let start = self.i as usize;
        let end = start + rows as usize;
        if rows > 0 && end > MEMORY_SIZE {
            return Err(FaultKind::AddressOutOfBounds);
        }
        let x0 = self.v[x as usize];
        let y0 = self.v[y as usize];
        let memory = self.mem.as_slice();
        let sprite: &[u8] = if rows == 0 {
            &memory[0..0]
        } else {
            &memory[start..end]
        };
        proof {
            if rows == 0 {
                assert(sprite@ =~= Seq::empty());
            }
        }
        let collision = self.screen.draw(sprite, x0, y0);
        self.v[FLAG] = if collision {
            1
        } else {
            0
        };
        self.pc = self.pc + 2;
        Ok(())
    }

    /// Stores the decimal digits of `Vx` at `I`, `I + 1` and `I + 2`.
    fn store_decimal(&mut self, x: u8) -> (r: Result<(), FaultKind>)
        requires
            x < 16,
            old(self)@.pc + 1 < 4096,
        ensures
            execute_outcome(old(self)@, Instruction::Decimal { x }, 0, r, final(self)@),
    {
        let at = self.i as usize;
        if at + 2 >= MEMORY_SIZE {
            return Err(FaultKind::AddressOutOfBounds);
        }
        let value = self.v[x as usize];
        self.mem[at] = value / 100;
        self.mem[at + 1] = (value % 100) / 10;
        self.mem[at + 2] = value % 10;
        self.pc = self.pc + 2;
        Ok(())
    }

    /// Stores `V0..=Vx` in memory from `I` on.
    fn store_registers(&mut self, x: u8) -> (r: Result<(), FaultKind>)
        requires
            x < 16,
            old(self)@.pc + 1 < 4096,
        ensures
            execute_outcome(old(self)@, Instruction::Store { x }, 0, r, final(self)@),
    {
        let at = self.i as usize;
        if at + x as usize >= MEMORY_SIZE {
            return Err(FaultKind::AddressOutOfBounds);
        }
        let mut k: usize = 0;
        while k <= x as usize
            invariant
                x < 16,
                k <= x + 1,
                at == old(self)@.i,
                at + x < 4096,
                self@ == (Machine {
                    mem: store_registers(old(self)@.mem, old(self)@.v, at as int, k - 1),
                    ..old(self)@
                }),
            decreases x + 1 - k,
        {
            self.mem[at + k] = self.v[k];
            k += 1;
        }
        self.pc = self.pc + 2;
        Ok(())
    }

    /// Loads `V0..=Vx` from memory from `I` on.
    fn restore_registers(&mut self, x: u8) -> (r: Result<(), FaultKind>)
        requires
            x < 16,
            old(self)@.pc + 1 < 4096,
        ensures
            execute_outcome(old(self)@, Instruction::Restore { x }, 0, r, final(self)@),
    {
        let at = self.i as usize;
        if at + x as usize >= MEMORY_SIZE {
            return Err(FaultKind::AddressOutOfBounds);
        }
        let mut k: usize = 0;
        while k <= x as usize
            invariant
                x < 16,
                k <= x + 1,
                at == old(self)@.i,
                at + x < 4096,
                self@ == (Machine {
                    v: restore_registers(old(self)@.mem, old(self)@.v, at as int, k - 1),
                    ..old(self)@
                }),
            decreases x + 1 - k,
        {
            self.v[k] = self.mem[at + k];
            k += 1;
        }
        self.pc = self.pc + 2;
        Ok(())
    }

    /// Executes an instruction of the arithmetic group.
    fn execute_alu(&mut self, ins: Instruction)
        requires
            ins.wf(),
            old(self)@.pc + 1 < 4096,
            ins is Copy || ins is Or || ins is And || ins is Xor || ins is Add || ins is Subtract
                || ins is ShiftRight || ins is SubtractReversed || ins is ShiftLeft
                || ins is AddImmediate || ins is Load,
        ensures
            execute_spec(old(self)@, ins, 0) == Ok::<Machine, FaultKind>(final(self)@),
    {
        match ins {
            Instruction::Load { x, value } => {
                self.v[x as usize] = value;
            },
            Instruction::AddImmediate { x, value } => {
                let sum = self.v[x as usize] as u16 + value as u16;
                self.v[x as usize] = (sum % 256) as u8;
            },
            Instruction::Copy { x, y } => {
                self.v[x as usize] = self.v[y as usize];
            },
            Instruction::Or { x, y } => {
                self.v[x as usize] = self.v[x as usize] | self.v[y as usize];
            },
            Instruction::And { x, y } => {
                self.v[x as usize] = self.v[x as usize] & self.v[y as usize];
            },
            Instruction::Xor { x, y } => {
                self.v[x as usize] = self.v[x as usize] ^ self.v[y as usize];
            },
            Instruction::Add { x, y } => {
                let sum = self.v[x as usize] as u16 + self.v[y as usize] as u16;
                self.set_flag_then(sum > 255, x, (sum % 256) as u8);
            },
            Instruction::Subtract { x, y } => {
                let diff = self.v[x as usize] as i16 - self.v[y as usize] as i16;
                self.set_flag_then(diff >= 0, x, ((diff + 256) % 256) as u8);
            },
            Instruction::SubtractReversed { x, y } => {
                let diff = self.v[y as usize] as i16 - self.v[x as usize] as i16;
                self.set_flag_then(diff >= 0, x, ((diff + 256) % 256) as u8);
            },
            Instruction::ShiftRight { x } => {
                let operand: u8 = self.v[x as usize];
                self.v[FLAG] = operand & 0x1;
                let flagged: u8 = self.v[x as usize];
                self.v[x as usize] = flagged >> 1;
                proof {
                    lemma_shift_bits(operand);
                    lemma_shift_bits(flagged);
                }
            },
            Instruction::ShiftLeft { x } => {
                let operand: u8 = self.v[x as usize];
                self.v[FLAG] = (operand & 0x80) >> 7;
                let flagged: u8 = self.v[x as usize];
                self.v[x as usize] = flagged << 1;
                proof {
                    lemma_shift_bits(operand);
                    lemma_shift_bits(flagged);
                }
            },
            _ => {},
        }
        self.pc = self.pc + 2;
    }

    /// Executes an instruction that only moves the program counter or the
    /// stack.
    fn execute_flow(&mut self, ins: Instruction) -> (r: Result<(), FaultKind>)
        requires
            ins.wf(),
            old(self)@.pc + 1 < 4096,
            ins is Return || ins is Jump || ins is Call || ins is SkipIfEqual
                || ins is SkipIfNotEqual || ins is SkipIfRegistersEqual
                || ins is SkipIfRegistersNotEqual || ins is JumpOffset || ins is SkipIfKey
                || ins is SkipIfNotKey,
        ensures
            execute_outcome(old(self)@, ins, 0, r, final(self)@),
    {
        match ins {
            Instruction::Return => {
                match self.stack.pop() {
                    Some(addr) => {
                        self.pc = addr;
                    },
                    None => {
                        return Err(FaultKind::StackUnderflow);
                    },
                }
            },
            Instruction::Jump { addr } => {
                self.pc = addr;
            },
            Instruction::Call { addr } => {
                self.stack.push(self.pc + 2);
                self.pc = addr;
            },
            Instruction::SkipIfEqual { x, value } => {
                self.skip_if(self.v[x as usize] == value);
            },
            Instruction::SkipIfNotEqual { x, value } => {
                self.skip_if(self.v[x as usize] != value);
            },
            Instruction::SkipIfRegistersEqual { x, y } => {
                self.skip_if(self.v[x as usize] == self.v[y as usize]);
            },
            Instruction::SkipIfRegistersNotEqual { x, y } => {
                self.skip_if(self.v[x as usize] != self.v[y as usize]);
            },
            Instruction::JumpOffset { addr } => {
                self.pc = self.v[0] as u16 + addr;
            },
            Instruction::SkipIfKey { x } => {
                let key = self.v[x as usize] as usize;
                if key >= 16 {
                    return Err(FaultKind::KeyOutOfRange);
                }
                self.skip_if(self.keys_pressed[key]);
            },
            Instruction::SkipIfNotKey { x } => {
                let key = self.v[x as usize] as usize;
                if key >= 16 {
                    return Err(FaultKind::KeyOutOfRange);
                }
                self.skip_if(!self.keys_pressed[key]);
            },
            _ => {},
        }
        Ok(())
    }

    /// Executes one decoded instruction. `random` is the byte that the random
    /// instruction masks.
    fn execute(&mut self, ins: Instruction, random: u8) -> (r: Result<(), FaultKind>)
        requires
            ins.wf(),
            old(self)@.pc + 1 < 4096,
        ensures
            execute_outcome(old(self)@, ins, random, r, final(self)@),
    {
        match ins {
            Instruction::ClearScreen => {
                self.screen.clear();
                self.pc = self.pc + 2;
                Ok(())
            },
            Instruction::Return
            | Instruction::Jump { .. }
            | Instruction::Call { .. }
            | Instruction::SkipIfEqual { .. }
            | Instruction::SkipIfNotEqual { .. }
            | Instruction::SkipIfRegistersEqual { .. }
            | Instruction::SkipIfRegistersNotEqual { .. }
            | Instruction::JumpOffset { .. }
            | Instruction::SkipIfKey { .. }
            | Instruction::SkipIfNotKey { .. } => self.execute_flow(ins),
            Instruction::Load { .. }
            | Instruction::AddImmediate { .. }
            | Instruction::Copy { .. }
            | Instruction::Or { .. }
            | Instruction::And { .. }
            | Instruction::Xor { .. }
            | Instruction::Add { .. }
            | Instruction::Subtract { .. }
            | Instruction::SubtractReversed { .. }
            | Instruction::ShiftRight { .. }
            | Instruction::ShiftLeft { .. } => {
                self.execute_alu(ins);
                Ok(())
            },
            Instruction::LoadIndex { addr } => {
                self.i = addr;
                self.pc = self.pc + 2;
                Ok(())
            },
            Instruction::Random { x, mask } => {
                self.v[x as usize] = random & mask;
                self.pc = self.pc + 2;
                Ok(())
            },
            Instruction::Draw { x, y, rows } => self.draw_sprite(x, y, rows),
            Instruction::ReadDelay { x } => {
                self.v[x as usize] = self.delay_timer;
                self.pc = self.pc + 2;
                Ok(())
            },
            Instruction::WaitKey { .. } => Ok(()),
            Instruction::SetDelay { x } => {
                self.delay_timer = self.v[x as usize];
                self.pc = self.pc + 2;
                Ok(())
            },
            Instruction::SetSound { x } => {
                self.sound_timer = self.v[x as usize];
                self.pc = self.pc + 2;
                Ok(())
            },
            Instruction::AddIndex { x } => {
                let sum = ((self.i as u32 + self.v[x as usize] as u32) % 65536) as u16;
                self.i = sum;
                self.v[FLAG] = if sum > 0xFFF {
                    1
                } else {
                    0
                };
                self.pc = self.pc + 2;
                Ok(())
            },
            Instruction::Glyph { x } => {
                assert(GLYPH_HEIGHT == 5);
                self.i = 5 * (self.v[x as usize] as u16);
                self.pc = self.pc + 2;
                Ok(())
            },
            Instruction::Decimal { x } => self.store_decimal(x),
            Instruction::Store { x } => self.store_registers(x),
            Instruction::Restore { x } => self.restore_registers(x),
        }
    }

    /// Runs one instruction: reads the word at the program counter, decodes it
    /// and applies its effect, with `random` as the byte that the random
    /// instruction masks. A word that cannot be fetched, decoded or executed
    /// is reported with its address, and the machine stays as it was. At a
    /// key wait nothing changes and the wait is reported.
    pub fn step_with(&mut self, random: u8) -> (r: Result<Progress, Fault>)
        ensures
            step_outcome(old(self)@, random, r, final(self)@),
    {
        let pc = self.pc;
        let op = match self.fetch() {
            Some(op) => op,
            None => {
                return Err(Fault { kind: FaultKind::PcOutOfBounds, pc, opcode: 0 });
            },
        };
        match decode(op) {
            Err(DecodeError::LegacyCall) => Err(Fault { kind: FaultKind::LegacyCall, pc, opcode: op }),
            Err(DecodeError::Unsupported) => Err(
                Fault { kind: FaultKind::UnsupportedOpcode, pc, opcode: op },
            ),
            Ok(ins) => {
                match self.execute(ins, random) {
                    Err(kind) => Err(Fault { kind, pc, opcode: op }),
                    Ok(()) => Ok(
                        if let Instruction::WaitKey { .. } = ins {
                            Progress::AwaitingKey
                        } else {
                            Progress::Advanced
                        },
                    ),
                }
            },
        }
    }

    /// Runs one instruction, drawing a fresh random byte where the
    /// instruction asks for one. The step is the one that `step_with` makes
    /// with some byte; where the instruction masks no random byte, no byte
    /// is drawn and the step is the one that `step_with` makes with any byte.
    pub fn step(&mut self) -> (r: Result<Progress, Fault>)
        ensures
            exists|random: u8| #[trigger] step_outcome(old(self)@, random, r, final(self)@),
            !masks_random(old(self)@) ==> forall|random: u8| #[trigger]
                step_outcome(old(self)@, random, r, final(self)@),
    {
        let random: u8 = if self.wants_random() {
            random_byte()
        } else {
            0
        };
        let r = self.step_with(random);
        proof {
            if !masks_random(old(self)@) {
                assert forall|other: u8| #[trigger]
                    step_outcome(old(self)@, other, r, self@) by {
                    lemma_step_ignores_random(old(self)@, random, other);
                }
            }
        }
        r
    }

    /// Whether the instruction at the program counter masks a random byte.
    fn wants_random(&self) -> (wanted: bool)
        ensures
            wanted == masks_random(self@),
    {
        match self.fetch() {
            Some(op) => match decode(op) {
                Ok(Instruction::Random { .. }) => true,
                _ => false,
            },
            None => false,
        }
    }
}

} // verus!
