//! Laws of the machine, proved over the model.
//!
//! Each law speaks of the instruction word that the machine is about to run,
//! given by its nibbles, and of the state that a step leads to.

use crate::display::{draw_erases, draw_lights, draw_pixels, screen_wf, sprite_covers};
use crate::font::{font_bytes, glyph_address};
use crate::model::{
    execute_spec, fetch_spec, flag_byte, initial_machine, masks_random, step_spec, Fault,
    FaultKind, Machine, FLAG,
};
use crate::opcode::{
    decode_spec, lemma_decode_wf, op_group, op_n, op_nn, op_nnn, op_x, op_y, DecodeError,
    Instruction,
};
use crate::timer::{tick_spec, ticks_spec};
use vstd::prelude::*;

verus! {

/// The instruction word with the given nibbles, from the highest down.
pub open spec fn word(group: int, x: int, y: int, n: int) -> int {
    group * 4096 + x * 256 + y * 16 + n
}

/// The instruction word with the given group, register and 8-bit immediate.
pub open spec fn word_xnn(group: int, x: int, nn: int) -> int {
    group * 4096 + x * 256 + nn
}

/// The instruction word with the given group and 12-bit immediate.
pub open spec fn word_nnn(group: int, nnn: int) -> int {
    group * 4096 + nnn
}

/// Whether the machine is about to run the instruction word `op`.
pub open spec fn about_to_run(m: Machine, op: int) -> bool {
    0 <= op < 65536 && fetch_spec(m) == Some(op as u16)
}

/// Whether `k` is one of the sixteen registers.
pub open spec fn is_register(k: int) -> bool {
    0 <= k < 16
}

/// The program counter and every return address are even.
pub open spec fn aligned(m: Machine) -> bool {
    &&& m.pc % 2 == 0
    &&& forall|k: int| 0 <= k < m.stack.len() ==> #[trigger] m.stack[k] % 2 == 0
}

/// The rows of the sprite that a draw of `rows` rows reads at `I`.
pub open spec fn sprite_at(m: Machine, rows: int) -> Seq<u8> {
    m.mem.subrange(m.i as int, m.i + rows)
}

/// The nibbles of a word are the ones it was made of.
pub proof fn lemma_word_nibbles(group: int, x: int, y: int, n: int)
    requires
        0 <= group < 16,
        0 <= x < 16,
        0 <= y < 16,
        0 <= n < 16,
    ensures
        0 <= word(group, x, y, n) < 65536,
        op_group(word(group, x, y, n) as u16) == group,
        op_x(word(group, x, y, n) as u16) == x,
        op_y(word(group, x, y, n) as u16) == y,
        op_n(word(group, x, y, n) as u16) == n,
        op_nn(word(group, x, y, n) as u16) == y * 16 + n,
        op_nnn(word(group, x, y, n) as u16) == x * 256 + y * 16 + n,
{
    reveal(op_group);
    reveal(op_x);
    reveal(op_y);
    reveal(op_n);
    reveal(op_nn);
    reveal(op_nnn);
    let g = group as u16;
    let a = x as u16;
    let b = y as u16;
    let c = n as u16;
    let w = (g * 4096 + a * 256 + b * 16 + c) as u16;
    assert(w == word(group, x, y, n));
    assert(w / 4096 == g && (w / 256) % 16 == a && (w / 16) % 16 == b && w % 16 == c && w % 256
        == b * 16 + c && w % 4096 == a * 256 + b * 16 + c) by (bit_vector)
        requires
            g < 16,
            a < 16,
            b < 16,
            c < 16,
            w == g * 4096 + a * 256 + b * 16 + c,
    ;
}

/// The group, register and byte of a word are the ones it was made of.
pub proof fn lemma_word_xnn(group: int, x: int, nn: int)
    requires
        0 <= group < 16,
        0 <= x < 16,
        0 <= nn < 256,
    ensures
        0 <= word_xnn(group, x, nn) < 65536,
        op_group(word_xnn(group, x, nn) as u16) == group,
        op_x(word_xnn(group, x, nn) as u16) == x,
        op_nn(word_xnn(group, x, nn) as u16) == nn,
{
    assert(word_xnn(group, x, nn) == word(group, x, nn / 16, nn % 16));
    lemma_word_nibbles(group, x, nn / 16, nn % 16);
}

/// The group and address of a word are the ones it was made of.
pub proof fn lemma_word_nnn(group: int, nnn: int)
    requires
        0 <= group < 16,
        0 <= nnn < 4096,
    ensures
        0 <= word_nnn(group, nnn) < 65536,
        op_group(word_nnn(group, nnn) as u16) == group,
        op_nnn(word_nnn(group, nnn) as u16) == nnn,
{
    assert(word_nnn(group, nnn) == word(group, nnn / 256, (nnn / 16) % 16, nnn % 16));
    lemma_word_nibbles(group, nnn / 256, (nnn / 16) % 16, nnn % 16);
}

/// A step of a machine that is about to run a word which decodes to `ins`
/// is the execution of `ins`; a fault carries the address and the word.
pub proof fn lemma_step_executes(m: Machine, op: int, ins: Instruction, random: u8)
    requires
        about_to_run(m, op),
        decode_spec(op as u16) == Ok::<Instruction, DecodeError>(ins),
    ensures
        step_spec(m, random) == match execute_spec(m, ins, random) {
            Ok(next) => Ok::<Machine, Fault>(next),
            Err(kind) => Err::<Machine, Fault>(Fault { kind, pc: m.pc, opcode: op as u16 }),
        },
{
}

/// The byte that a step is given matters to the random instruction alone:
/// on any other word, and on a failing fetch, every byte leads to the same
/// outcome.
pub proof fn lemma_step_ignores_random(m: Machine, first: u8, second: u8)
    requires
        !masks_random(m),
    ensures
        step_spec(m, first) == step_spec(m, second),
{
}

/// A step of a well-formed machine leads to a well-formed machine.
pub proof fn lemma_step_preserves_wf(m: Machine, random: u8)
    requires
        m.wf(),
    ensures
        step_spec(m, random) matches Ok(next) ==> next.wf(),
{
    if fetch_spec(m) is Some {
        lemma_decode_wf(fetch_spec(m)->Some_0);
    }
}

/// A step succeeds only where the program counter leaves room for a whole
/// instruction inside memory.
pub proof fn lemma_step_needs_room(m: Machine, random: u8)
    ensures
        step_spec(m, random) is Ok ==> m.pc + 1 < 4096,
        m.pc + 1 >= 4096 ==> step_spec(m, random) == Err::<Machine, Fault>(
            Fault { kind: FaultKind::PcOutOfBounds, pc: m.pc, opcode: 0 },
        ),
{
}

/// An aligned machine stays aligned, as long as no jump or call names an odd
/// address.
pub proof fn lemma_step_keeps_alignment(m: Machine, op: int, random: u8)
    requires
        m.wf(),
        aligned(m),
        about_to_run(m, op),
        decode_spec(op as u16) matches Ok(Instruction::Jump { addr }) ==> addr % 2 == 0,
        decode_spec(op as u16) matches Ok(Instruction::Call { addr }) ==> addr % 2 == 0,
        decode_spec(op as u16) matches Ok(Instruction::JumpOffset { addr }) ==> (m.v[0] + addr)
            % 2 == 0,
    ensures
        step_spec(m, random) matches Ok(next) ==> aligned(next),
{
    lemma_decode_wf(op as u16);
    if step_spec(m, random) is Ok {
        let next = step_spec(m, random)->Ok_0;
        let ins = decode_spec(op as u16)->Ok_0;
        lemma_step_executes(m, op, ins, random);
        match ins {
            Instruction::Call { addr } => {
                assert forall|k: int| 0 <= k < next.stack.len() implies #[trigger] next.stack[k]
                    % 2 == 0 by {
                    if k < m.stack.len() {
                        assert(next.stack[k] == m.stack[k]);
                    }
                }
            },
            Instruction::Return => {
                assert(m.stack.last() == m.stack[m.stack.len() - 1]);
                assert forall|k: int| 0 <= k < next.stack.len() implies #[trigger] next.stack[k]
                    % 2 == 0 by {
                    assert(next.stack[k] == m.stack[k]);
                }
            },
            _ => {
                assert(next.stack == m.stack);
            },
        }
    }
}

/// `6xnn` puts exactly `nn` into `Vx` and changes nothing else but the
/// program counter.
pub proof fn lemma_load_immediate(m: Machine, x: int, nn: u8, random: u8)
    requires
        m.wf(),
        is_register(x),
        about_to_run(m, word_xnn(6, x, nn as int)),
    ensures
        step_spec(m, random) == Ok::<Machine, Fault>(m.with_register(x, nn).advance()),
        step_spec(m, random)->Ok_0.v[x] == nn,
{
    lemma_word_xnn(6, x, nn as int);
    lemma_step_executes(
        m,
        word_xnn(6, x, nn as int),
        Instruction::Load { x: x as u8, value: nn },
        random,
    );
}

/// `7xnn` puts `(Vx + nn) mod 256` into `Vx` and changes no other register:
/// the flag register stays as it is unless it is `Vx` itself.
pub proof fn lemma_add_immediate(m: Machine, x: int, nn: u8, random: u8)
    requires
        m.wf(),
        is_register(x),
        about_to_run(m, word_xnn(7, x, nn as int)),
    ensures
        step_spec(m, random) is Ok,
        step_spec(m, random)->Ok_0.v[x] == (m.v[x] + nn) % 256,
        forall|k: int|
            is_register(k) && k != x ==> step_spec(m, random)->Ok_0.v[k] == #[trigger] m.v[k],
{
    lemma_word_xnn(7, x, nn as int);
    lemma_step_executes(
        m,
        word_xnn(7, x, nn as int),
        Instruction::AddImmediate { x: x as u8, value: nn },
        random,
    );
}

/// `8xy4` puts the low eight bits of `Vx + Vy` into `Vx`, and 1 into the flag
/// register if and only if the sum exceeds 255, 0 otherwise. Where `Vx` is
/// the flag register itself it ends up holding the sum.
pub proof fn lemma_add_with_carry(m: Machine, x: int, y: int, random: u8)
    requires
        m.wf(),
        is_register(x),
        is_register(y),
        about_to_run(m, word(8, x, y, 4)),
    ensures
        step_spec(m, random) is Ok,
        step_spec(m, random)->Ok_0.v[x] == (m.v[x] + m.v[y]) % 256,
        x != FLAG ==> (step_spec(m, random)->Ok_0.v[FLAG as int] == 1 <==> m.v[x] + m.v[y] > 255),
        x != FLAG ==> (step_spec(m, random)->Ok_0.v[FLAG as int] == 0 <==> m.v[x] + m.v[y] <= 255),
{
    lemma_word_nibbles(8, x, y, 4);
    lemma_step_executes(m, word(8, x, y, 4), Instruction::Add { x: x as u8, y: y as u8 }, random);
}

/// `8xy5` puts `(Vx - Vy) mod 256` into `Vx`, and 1 into the flag register
/// if and only if `Vx >= Vy`, 0 otherwise. Where `Vx` is the flag register
/// itself it ends up holding the difference.
pub proof fn lemma_subtract_with_borrow(m: Machine, x: int, y: int, random: u8)
    requires
        m.wf(),
        is_register(x),
        is_register(y),
        about_to_run(m, word(8, x, y, 5)),
    ensures
        step_spec(m, random) is Ok,
        step_spec(m, random)->Ok_0.v[x] == (m.v[x] - m.v[y]) % 256,
        x != FLAG ==> (step_spec(m, random)->Ok_0.v[FLAG as int] == 1 <==> m.v[x] >= m.v[y]),
        x != FLAG ==> (step_spec(m, random)->Ok_0.v[FLAG as int] == 0 <==> m.v[x] < m.v[y]),
{
    lemma_word_nibbles(8, x, y, 5);
    lemma_step_executes(
        m,
        word(8, x, y, 5),
        Instruction::Subtract { x: x as u8, y: y as u8 },
        random,
    );
}

/// `8xy6`, on a register other than the flag register, puts bit 0 of `Vx`
/// into the flag register and `Vx >> 1` into `Vx`, whatever `y` is.
pub proof fn lemma_shift_right(m: Machine, x: int, y: int, random: u8)
    requires
        m.wf(),
        is_register(x),
        is_register(y),
        x != FLAG,
        about_to_run(m, word(8, x, y, 6)),
    ensures
        step_spec(m, random) is Ok,
        step_spec(m, random)->Ok_0.v[FLAG as int] == m.v[x] & 1,
        step_spec(m, random)->Ok_0.v[x] == m.v[x] >> 1,
{
    lemma_word_nibbles(8, x, y, 6);
    lemma_step_executes(m, word(8, x, y, 6), Instruction::ShiftRight { x: x as u8 }, random);
    let a = m.v[x];
    assert(a & 1 == a % 2) by (bit_vector);
    assert(a >> 1 == a / 2) by (bit_vector);
}

/// `3xnn` moves the program counter by 4 if `Vx == nn`, by 2 otherwise, and
/// changes nothing else.
pub proof fn lemma_skip_if_equal(m: Machine, x: int, nn: u8, random: u8)
    requires
        m.wf(),
        is_register(x),
        about_to_run(m, word_xnn(3, x, nn as int)),
    ensures
        step_spec(m, random) == Ok::<Machine, Fault>(
            m.with_pc(
                if m.v[x] == nn {
                    m.pc + 4
                } else {
                    m.pc + 2
                },
            ),
        ),
{
    lemma_word_xnn(3, x, nn as int);
    lemma_step_executes(
        m,
        word_xnn(3, x, nn as int),
        Instruction::SkipIfEqual { x: x as u8, value: nn },
        random,
    );
}

/// `4xnn` moves the program counter by 4 if `Vx != nn`, by 2 otherwise, and
/// changes nothing else.
pub proof fn lemma_skip_if_not_equal(m: Machine, x: int, nn: u8, random: u8)
    requires
        m.wf(),
        is_register(x),
        about_to_run(m, word_xnn(4, x, nn as int)),
    ensures
        step_spec(m, random) == Ok::<Machine, Fault>(
            m.with_pc(
                if m.v[x] != nn {
                    m.pc + 4
                } else {
                    m.pc + 2
                },
            ),
        ),
{
    lemma_word_xnn(4, x, nn as int);
    lemma_step_executes(
        m,
        word_xnn(4, x, nn as int),
        Instruction::SkipIfNotEqual { x: x as u8, value: nn },
        random,
    );
}

/// `5xy0` moves the program counter by 4 if `Vx == Vy`, by 2 otherwise, and
/// changes nothing else.
pub proof fn lemma_skip_if_registers_equal(m: Machine, x: int, y: int, random: u8)
    requires
        m.wf(),
        is_register(x),
        is_register(y),
        about_to_run(m, word(5, x, y, 0)),
    ensures
        step_spec(m, random) == Ok::<Machine, Fault>(
            m.with_pc(
                if m.v[x] == m.v[y] {
                    m.pc + 4
                } else {
                    m.pc + 2
                },
            ),
        ),
{
    lemma_word_nibbles(5, x, y, 0);
    lemma_step_executes(
        m,
        word(5, x, y, 0),
        Instruction::SkipIfRegistersEqual { x: x as u8, y: y as u8 },
        random,
    );
}

/// `9xy0` moves the program counter by 4 if `Vx != Vy`, by 2 otherwise, and
/// changes nothing else.
pub proof fn lemma_skip_if_registers_not_equal(m: Machine, x: int, y: int, random: u8)
    requires
        m.wf(),
        is_register(x),
        is_register(y),
        about_to_run(m, word(9, x, y, 0)),
    ensures
        step_spec(m, random) == Ok::<Machine, Fault>(
            m.with_pc(
                if m.v[x] != m.v[y] {
                    m.pc + 4
                } else {
                    m.pc + 2
                },
            ),
        ),
{
    lemma_word_nibbles(9, x, y, 0);
    lemma_step_executes(
        m,
        word(9, x, y, 0),
        Instruction::SkipIfRegistersNotEqual { x: x as u8, y: y as u8 },
        random,
    );
}

/// A call followed, after whatever leaves the stack as the call left it, by
/// a return brings the program counter to the instruction after the call and
/// the stack to what it was before the call.
pub proof fn lemma_call_return(caller: Machine, callee: Machine, nnn: int, random: u8)
    requires
        caller.wf(),
        callee.wf(),
        0 <= nnn < 4096,
        about_to_run(caller, word_nnn(2, nnn)),
        about_to_run(callee, 0x00EE),
        callee.stack == step_spec(caller, random)->Ok_0.stack,
    ensures
        step_spec(caller, random) is Ok,
        step_spec(caller, random)->Ok_0.pc == nnn,
        step_spec(callee, random) is Ok,
        step_spec(callee, random)->Ok_0.pc == caller.pc + 2,
        step_spec(callee, random)->Ok_0.stack == caller.stack,
{
    lemma_word_nnn(2, nnn);
    lemma_step_executes(caller, word_nnn(2, nnn), Instruction::Call { addr: nnn as u16 }, random);
    assert(0x00EE == word(0, 0, 0xE, 0xE));
    lemma_word_nibbles(0, 0, 0xE, 0xE);
    lemma_step_executes(callee, 0x00EE, Instruction::Return, random);
    let called = step_spec(caller, random)->Ok_0;
    assert(called.stack == caller.stack.push((caller.pc + 2) as u16));
    assert(callee.stack.drop_last() =~= caller.stack);
}

/// Looking at the clock never raises a timer, whatever the clock reads.
pub proof fn lemma_tick_never_raises(m: Machine, now: u128)
    ensures
        0 <= tick_spec(m, now).delay_timer <= m.delay_timer,
        0 <= tick_spec(m, now).sound_timer <= m.sound_timer,
{
}

/// Over any run of looks at the clock the timers never rise.
pub proof fn lemma_ticks_never_raise(m: Machine, times: Seq<u128>)
    ensures
        0 <= ticks_spec(m, times).delay_timer <= m.delay_timer,
        0 <= ticks_spec(m, times).sound_timer <= m.sound_timer,
    decreases times.len(),
{
    if times.len() > 0 {
        lemma_ticks_never_raise(m, times.drop_last());
    }
}

/// A timer goes down by at most one per look at the clock, and the time of
/// the last tick never goes back.
pub proof fn lemma_tick_by_one(m: Machine, now: u128)
    ensures
        m.delay_timer - tick_spec(m, now).delay_timer <= 1,
        m.sound_timer - tick_spec(m, now).sound_timer <= 1,
        tick_spec(m, now).last_tick >= m.last_tick,
{
}

/// Only the two timer-setting instructions, `Fx15` and `Fx18`, change a
/// timer: a step on any other word leaves both as they are, and no step
/// touches the time of the last tick.
pub proof fn lemma_step_keeps_timers(m: Machine, op: int, random: u8)
    requires
        m.wf(),
        about_to_run(m, op),
        decode_spec(op as u16) matches Ok(ins) ==> !(ins is SetDelay) && !(ins is SetSound),
    ensures
        step_spec(m, random) matches Ok(next) ==> next.delay_timer == m.delay_timer
            && next.sound_timer == m.sound_timer && next.last_tick == m.last_tick,
{
}

/// `Fx33` stores three decimal digits whose value is `Vx`: hundreds at `I`,
/// tens at `I + 1`, ones at `I + 2`.
pub proof fn lemma_decimal_digits(m: Machine, x: int, random: u8)
    requires
        m.wf(),
        is_register(x),
        about_to_run(m, word_xnn(0xF, x, 0x33)),
        m.i + 2 < 4096,
    ensures
        step_spec(m, random) matches Ok(next) && next.mem[m.i as int] < 10 && next.mem[m.i + 1]
            < 10 && next.mem[m.i + 2] < 10 && next.mem[m.i as int] * 100 + next.mem[m.i + 1] * 10
            + next.mem[m.i + 2] == m.v[x],
{
    lemma_word_xnn(0xF, x, 0x33);
    lemma_step_executes(m, word_xnn(0xF, x, 0x33), Instruction::Decimal { x: x as u8 }, random);
}

/// The store succeeds exactly where `V0..=Vx` fit between `I` and the end of
/// memory.
pub proof fn lemma_store_fits(m: Machine, x: int, random: u8)
    requires
        m.wf(),
        is_register(x),
        about_to_run(m, word_xnn(0xF, x, 0x55)),
    ensures
        step_spec(m, random) is Ok <==> m.i + x < 4096,
{
    lemma_word_xnn(0xF, x, 0x55);
    lemma_step_executes(m, word_xnn(0xF, x, 0x55), Instruction::Store { x: x as u8 }, random);
}

/// Storing `V0..=Vx` at `I` and loading them back from the same address,
/// whatever happened to the registers in between, gives the registers their
/// values from before the store.
pub proof fn lemma_store_restore(m: Machine, later: Machine, x: int, random: u8)
    requires
        m.wf(),
        later.wf(),
        is_register(x),
        about_to_run(m, word_xnn(0xF, x, 0x55)),
        about_to_run(later, word_xnn(0xF, x, 0x65)),
        step_spec(m, random) is Ok,
        later.i == m.i,
        forall|a: int|
            m.i <= a <= m.i + x ==> later.mem[a] == (#[trigger] step_spec(m, random)->Ok_0.mem[a]),
    ensures
        step_spec(later, random) is Ok,
        forall|k: int| 0 <= k <= x ==> #[trigger] step_spec(later, random)->Ok_0.v[k] == m.v[k],
{
    lemma_word_xnn(0xF, x, 0x55);
    lemma_step_executes(m, word_xnn(0xF, x, 0x55), Instruction::Store { x: x as u8 }, random);
    lemma_word_xnn(0xF, x, 0x65);
    lemma_step_executes(
        later,
        word_xnn(0xF, x, 0x65),
        Instruction::Restore { x: x as u8 },
        random,
    );
    let stored = step_spec(m, random)->Ok_0;
    let restored = step_spec(later, random)->Ok_0;
    assert forall|k: int| 0 <= k <= x implies #[trigger] restored.v[k] == m.v[k] by {
        assert(later.mem[m.i + k] == stored.mem[m.i + k]);
    }
}

/// Drawing a sprite twice at the same position gives back the screen from
/// before the first draw, and the second draw reports a collision if and only
/// if the first one lit a pixel.
pub proof fn lemma_draw_twice(screen: Seq<Seq<bool>>, sprite: Seq<u8>, x0: int, y0: int)
    requires
        screen_wf(screen),
    ensures
        draw_pixels(draw_pixels(screen, sprite, x0, y0), sprite, x0, y0) == screen,
        draw_erases(draw_pixels(screen, sprite, x0, y0), sprite, x0, y0) == draw_lights(
            screen,
            sprite,
            x0,
            y0,
        ),
{
    let once = draw_pixels(screen, sprite, x0, y0);
    let twice = draw_pixels(once, sprite, x0, y0);
    assert(twice =~~= screen);
    if draw_erases(once, sprite, x0, y0) {
        let (r, c) = choose|r: int, c: int|
            0 <= r < 32 && 0 <= c < 64 && once[r][c] && #[trigger] sprite_covers(
                sprite,
                x0,
                y0,
                r,
                c,
            );
        assert(!screen[r][c]);
    }
    if draw_lights(screen, sprite, x0, y0) {
        let (r, c) = choose|r: int, c: int|
            0 <= r < 32 && 0 <= c < 64 && !screen[r][c] && #[trigger] sprite_covers(
                sprite,
                x0,
                y0,
                r,
                c,
            );
        assert(once[r][c]);
    }
}

/// A draw of `rows` rows that fit in memory XORs the sprite at `I` into the
/// screen at the position held by `Vx` and `Vy`, puts the collision into the
/// flag register and changes nothing else but the program counter.
pub proof fn lemma_draw_instruction(m: Machine, x: int, y: int, rows: int, random: u8)
    requires
        m.wf(),
        is_register(x),
        is_register(y),
        0 < rows < 16,
        m.i + rows <= 4096,
        about_to_run(m, word(0xD, x, y, rows)),
    ensures
        step_spec(m, random) == Ok::<Machine, Fault>(
            Machine {
                screen: draw_pixels(m.screen, sprite_at(m, rows), m.v[x] as int, m.v[y] as int),
                v: m.v.update(
                    FLAG as int,
                    flag_byte(
                        draw_erases(m.screen, sprite_at(m, rows), m.v[x] as int, m.v[y] as int),
                    ),
                ),
                ..m
            }.advance(),
        ),
{
    lemma_word_nibbles(0xD, x, y, rows);
    lemma_step_executes(
        m,
        word(0xD, x, y, rows),
        Instruction::Draw { x: x as u8, y: y as u8, rows: rows as u8 },
        random,
    );
}

/// Two draw instructions in a row, of the same sprite at the same position
/// and through registers other than the flag register, give back the screen
/// from before the first; the flag register then holds 1 if and only if the
/// first draw lit a pixel.
pub proof fn lemma_draw_instruction_twice(m: Machine, x: int, y: int, rows: int, random: u8)
    requires
        m.wf(),
        is_register(x),
        is_register(y),
        x != FLAG,
        y != FLAG,
        0 < rows < 16,
        m.i + rows <= 4096,
        about_to_run(m, word(0xD, x, y, rows)),
        step_spec(m, random) matches Ok(once) && about_to_run(once, word(0xD, x, y, rows)),
    ensures
        step_spec(step_spec(m, random)->Ok_0, random) matches Ok(twice) && twice.screen
            == m.screen && twice.v[FLAG as int] == flag_byte(
            draw_lights(m.screen, sprite_at(m, rows), m.v[x] as int, m.v[y] as int),
        ),
{
    let sprite = sprite_at(m, rows);
    let x0 = m.v[x] as int;
    let y0 = m.v[y] as int;
    let once = step_spec(m, random)->Ok_0;
    lemma_draw_instruction(m, x, y, rows, random);
    lemma_step_preserves_wf(m, random);
    assert(sprite_at(once, rows) == sprite);
    assert(once.v[x] == x0 && once.v[y] == y0);
    lemma_draw_instruction(once, x, y, rows, random);
    lemma_draw_twice(m.screen, sprite, x0, y0);
}

/// `Fx29` points `I` at the glyph of `Vx`.
pub proof fn lemma_glyph(m: Machine, x: int, random: u8)
    requires
        m.wf(),
        is_register(x),
        about_to_run(m, word_xnn(0xF, x, 0x29)),
    ensures
        step_spec(m, random) matches Ok(next) && next.i == glyph_address(m.v[x] as int),
{
    lemma_word_xnn(0xF, x, 0x29);
    lemma_step_executes(m, word_xnn(0xF, x, 0x29), Instruction::Glyph { x: x as u8 }, random);
}

/// On a freshly loaded machine the five bytes at the glyph address of a
/// digit are the sprite of that digit.
pub proof fn lemma_glyph_in_memory(program: Seq<u8>, now: u128, digit: int, row: int)
    requires
        0 <= digit < 16,
        0 <= row < 5,
    ensures
        initial_machine(program, now).mem[glyph_address(digit) + row] == font_bytes()[5 * digit
            + row],
{
}

} // verus!
