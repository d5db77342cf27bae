//! The machine itself: one aggregate that owns memory, registers, stack,
//! timers, keypad latch and framebuffer.
//!
//! Its view is the `Machine` of the model. This file holds what surrounds the
//! instruction engine: loading a program, reading the state, the timers, the
//! tone and the input events.

use crate::audio::{audio_command, should_play, sound_spec, AudioCommand};
use crate::display::{blank_screen, Framebuffer};
use crate::font::{CHARACTER_SPRITES, FONT_SIZE};
use crate::host::now_nanos;
use crate::input::{
    event_spec, events_spec, match_keycode_to_key, wait_result, wait_spec, with_key, InputEvent,
    KEY_COUNT,
};
use crate::model::{
    awaited_register, fetch_spec, initial_machine, initial_memory, Machine, MAX_PROGRAM_SIZE,
    MEMORY_SIZE, PROGRAM_START,
};
use crate::opcode::{decode, Instruction};
use crate::timer::{tick_due, tick_spec, ClockWentBackwards, NANOS_PER_MILLI, TICK_MILLIS};
use vstd::prelude::*;

verus! {

/// Why a program could not be loaded.
#[derive(Clone, Copy, Debug, PartialEq, Eq)]
pub enum LoadError {
    /// The program does not fit between the start address and the end of
    /// memory.
    ProgramTooLarge { size: usize },
}

/// The interpreter's state.
pub struct Chip8 {
    pub(crate) mem: [u8; 4096],
    pub(crate) v: [u8; 16],
    pub(crate) i: u16,
    pub(crate) pc: u16,
    pub(crate) stack: Vec<u16>,
    pub(crate) delay_timer: u8,
    pub(crate) sound_timer: u8,
    pub(crate) last_timer_update: u128,
    pub(crate) keys_pressed: [bool; 16],
    pub(crate) screen: Framebuffer,
    pub(crate) audio_playing: bool,
    pub(crate) running: bool,
}

impl View for Chip8 {
    type V = Machine;

    open(crate) spec fn view(&self) -> Machine {
        Machine {
            mem: self.mem@,
            v: self.v@,
            i: self.i,
            pc: self.pc,
            stack: self.stack@,
            delay_timer: self.delay_timer,
            sound_timer: self.sound_timer,
            last_tick: self.last_timer_update,
            keys: self.keys_pressed@,
            screen: self.screen@,
            audio_playing: self.audio_playing,
            running: self.running,
        }
    }
}

impl Chip8 {
    /// The view of every machine is well formed.
    pub proof fn lemma_view_wf(&self)
        ensures
            self@.wf(),
    {
        self.screen.lemma_shape();
    }

    /// Builds a machine with `program` in memory from the start address on,
    /// the glyphs at the bottom of memory and everything else at rest, the
    /// timers counting from wall-clock time `now`. Fails, before anything is
    /// built, where the program is too large.
    pub fn load_at(program: &[u8], now: u128) -> (r: Result<Chip8, LoadError>)
        ensures
            program@.len() <= MAX_PROGRAM_SIZE ==> r is Ok && r->Ok_0@ == initial_machine(
                program@,
                now,
            ),
            program@.len() > MAX_PROGRAM_SIZE ==> r is Err && r->Err_0 == (
            LoadError::ProgramTooLarge { size: program@.len() as usize }),
    {
        if program.len() > MAX_PROGRAM_SIZE {
            return Err(LoadError::ProgramTooLarge { size: program.len() });
        }
        let mut mem = [0u8;4096];
        let mut k: usize = 0;
        while k < FONT_SIZE
            invariant
                k <= FONT_SIZE,
                forall|a: int| 0 <= a < k ==> mem@[a] == initial_memory(program@)[a],
                forall|a: int| k <= a < 4096 ==> mem@[a] == 0,
            decreases FONT_SIZE - k,
        {
            mem[k] = CHARACTER_SPRITES[k];
            k += 1;
        }
        let mut k: usize = 0;
        while k < program.len()
            invariant
                k <= program@.len() <= MAX_PROGRAM_SIZE,
                forall|a: int| 0 <= a < 512 + k ==> mem@[a] == initial_memory(program@)[a],
                forall|a: int| 512 + k <= a < 4096 ==> mem@[a] == 0,
            decreases program@.len() - k,
        {
            mem[PROGRAM_START as usize + k] = program[k];
            k += 1;
        }
        let machine = Chip8 {
            mem,
            v: [0u8;16],
            i: 0,
            pc: PROGRAM_START,
            stack: Vec::new(),
            delay_timer: 0,
            sound_timer: 0,
            last_timer_update: now,
            keys_pressed: [false;16],
            screen: Framebuffer::new(),
            audio_playing: false,
            running: false,
        };
        assert(machine@ =~= initial_machine(program@, now));
        Ok(machine)
    }

    /// Builds a machine as `load_at` does, the timers counting from the
    /// present wall-clock time, or from the epoch where the clock reads a
    /// time before it.
    pub fn load(program: &[u8]) -> (r: Result<Chip8, LoadError>)
        ensures
            program@.len() <= MAX_PROGRAM_SIZE ==> r is Ok && exists|now: u128|
                r->Ok_0@ == #[trigger] initial_machine(program@, now),
            program@.len() > MAX_PROGRAM_SIZE ==> r is Err && r->Err_0 == (
            LoadError::ProgramTooLarge { size: program@.len() as usize }),
    {
        if program.len() > MAX_PROGRAM_SIZE {
            return Err(LoadError::ProgramTooLarge { size: program.len() });
        }
        let now = match now_nanos() {
            Some(now) => now,
            None => 0,
        };
        Chip8::load_at(program, now)
    }

    /// The program counter.
    pub fn pc(&self) -> (pc: u16)
        ensures
            pc == self@.pc,
    {
        self.pc
    }

    /// The index register `I`.
    pub fn index(&self) -> (i: u16)
        ensures
            i == self@.i,
    {
        self.i
    }

    /// The sixteen general registers.
    pub fn registers(&self) -> (v: &[u8; 16])
        ensures
            v@ == self@.v,
    {
        &self.v
    }

    /// The whole of memory.
    pub fn memory(&self) -> (mem: &[u8; 4096])
        ensures
            mem@ == self@.mem,
    {
        &self.mem
    }

    /// The return addresses, the most recent call last.
    pub fn stack(&self) -> (stack: &Vec<u16>)
        ensures
            stack@ == self@.stack,
    {
        &self.stack
    }

    /// The keypad latch.
    pub fn keys(&self) -> (keys: &[bool; 16])
        ensures
            keys@ == self@.keys,
    {
        &self.keys_pressed
    }

    /// The framebuffer.
    pub fn screen(&self) -> (screen: &Framebuffer)
        ensures
            screen@ == self@.screen,
    {
        &self.screen
    }

    /// The delay timer.
    pub fn delay_timer(&self) -> (t: u8)
        ensures
            t == self@.delay_timer,
    {
        self.delay_timer
    }

    /// The sound timer.
    pub fn sound_timer(&self) -> (t: u8)
        ensures
            t == self@.sound_timer,
    {
        self.sound_timer
    }

    /// Whether the run loop should go on.
    pub fn is_running(&self) -> (running: bool)
        ensures
            running == self@.running,
    {
        self.running
    }

    /// Whether the tone is being played.
    pub fn is_audio_playing(&self) -> (playing: bool)
        ensures
            playing == self@.audio_playing,
    {
        self.audio_playing
    }

    /// Whether the tone should sound: the sound timer is above zero.
    pub fn should_play(&self) -> (play: bool)
        ensures
            play == should_play(self@),
    {
        self.sound_timer > 0
    }

    /// Lets the run loop go on.
    pub fn start(&mut self)
        ensures
            final(self)@ == (Machine { running: true, ..old(self)@ }),
    {
        self.running = true;
    }

    /// Asks the run loop to end.
    pub fn stop(&mut self)
        ensures
            final(self)@ == (Machine { running: false, ..old(self)@ }),
    {
        self.running = false;
    }

    /// Turns every pixel off; nothing else changes.
    pub fn clear_screen(&mut self)
        ensures
            final(self)@ == (Machine { screen: blank_screen(), ..old(self)@ }),
    {
        self.screen.clear();
    }

    /// Reads the instruction word at the program counter, the byte there
    /// being the high one. `None` where the word would reach beyond memory.
    pub fn fetch(&self) -> (op: Option<u16>)
        ensures
            op == fetch_spec(self@),
    {
        if self.pc as usize + 1 < MEMORY_SIZE {
            let high = self.mem[self.pc as usize];
            let low = self.mem[self.pc as usize + 1];
            assert(((high as u16) << 8) | (low as u16) == high * 256 + low) by (bit_vector);
            Some(((high as u16) << 8) | (low as u16))
        } else {
            None
        }
    }

    /// Looks at the clock, which reads `now`, in nanoseconds since the epoch.
    /// If at least a sixtieth of a second, in whole milliseconds, has passed
    /// since the last tick, both timers count down by one, not below zero,
    /// and `now` becomes the time of the last tick. Says whether a tick took
    /// place. Fails, changing nothing, where `now` lies before the last tick.
    pub fn update_timers_at(&mut self, now: u128) -> (r: Result<bool, ClockWentBackwards>)
        ensures
            now < old(self)@.last_tick ==> r is Err && final(self)@ == old(self)@,
            now >= old(self)@.last_tick ==> r == Ok::<bool, ClockWentBackwards>(
                tick_due(old(self)@, now),
            ) && final(self)@ == tick_spec(old(self)@, now),
            final(self)@.delay_timer <= old(self)@.delay_timer,
            final(self)@.sound_timer <= old(self)@.sound_timer,
    {
        if now < self.last_timer_update {
            return Err(ClockWentBackwards);
        }
        let elapsed_ms = (now - self.last_timer_update) / NANOS_PER_MILLI;
        if elapsed_ms >= TICK_MILLIS {
            if self.delay_timer > 0 {
                self.delay_timer -= 1;
            }
            if self.sound_timer > 0 {
                self.sound_timer -= 1;
            }
            self.last_timer_update = now;
            Ok(true)
        } else {
            Ok(false)
        }
    }

    /// Looks at the wall clock and does what `update_timers_at` does with
    /// the time it reads. Whatever the clock says, no timer ever goes up.
    /// Fails, changing nothing, where the clock reads a time before the last
    /// tick or before the epoch.
    pub fn update_timers(&mut self) -> (r: Result<bool, ClockWentBackwards>)
        ensures
            r is Err ==> final(self)@ == old(self)@,
            r matches Ok(ticked) ==> exists|now: u128|
                now >= old(self)@.last_tick && ticked == tick_due(old(self)@, now)
                    && final(self)@ == #[trigger] tick_spec(old(self)@, now),
            final(self)@.delay_timer <= old(self)@.delay_timer,
            final(self)@.sound_timer <= old(self)@.sound_timer,
    {
        match now_nanos() {
            None => Err(ClockWentBackwards),
            Some(now) => self.update_timers_at(now),
        }
    }

    /// When the timers last counted down, in nanoseconds since the epoch.
    pub fn last_tick(&self) -> (at: u128)
        ensures
            at == self@.last_tick,
    {
        self.last_timer_update
    }

    /// Tells the audio device what to do so that the tone sounds exactly while
    /// the sound timer is above zero, and remembers that it was told.
    pub fn play_sound(&mut self) -> (command: AudioCommand)
        ensures
            command == audio_command(old(self)@),
            final(self)@ == sound_spec(old(self)@),
    {
        if self.sound_timer > 0 && !self.audio_playing {
            self.audio_playing = true;
            AudioCommand::Resume
        } else if self.sound_timer == 0 && self.audio_playing {
            self.audio_playing = false;
            AudioCommand::Pause
        } else {
            AudioCommand::Keep
        }
    }

    /// Latches key `key` as held down. A `key` beyond the keypad is dropped.
    pub fn key_down(&mut self, key: usize)
        ensures
            final(self)@ == with_key(old(self)@, key as int, true),
    {
        if key < KEY_COUNT {
            self.keys_pressed[key] = true;
        }
    }

    /// Latches key `key` as released. A `key` beyond the keypad is dropped.
    pub fn key_up(&mut self, key: usize)
        ensures
            final(self)@ == with_key(old(self)@, key as int, false),
    {
        if key < KEY_COUNT {
            self.keys_pressed[key] = false;
        }
    }

    /// Takes one event from the host: a quit request stops the run loop, a
    /// mapped key sets or clears its latch, anything else is dropped.
    pub fn handle_event(&mut self, event: InputEvent)
        ensures
            final(self)@ == event_spec(old(self)@, event),
    {
        match event {
            InputEvent::Quit => {
                self.running = false;
            },
            InputEvent::KeyDown { keycode } => {
                if let Some(key) = match_keycode_to_key(keycode) {
                    self.key_down(key);
                }
            },
            InputEvent::KeyUp { keycode } => {
                if let Some(key) = match_keycode_to_key(keycode) {
                    self.key_up(key);
                }
            },
            InputEvent::Other => {},
        }
    }

    /// Takes the events that the host has gathered, in order.
    pub fn poll_events(&mut self, events: &[InputEvent])
        ensures
            final(self)@ == events_spec(old(self)@, events@),
    {
        let mut k: usize = 0;
        while k < events.len()
            invariant
                k <= events@.len(),
                self@ == events_spec(old(self)@, events@.take(k as int)),
            decreases events@.len() - k,
        {
            self.handle_event(events[k]);
            proof {
                assert(events@.take(k + 1).drop_last() =~= events@.take(k as int));
            }
            k += 1;
        }
        proof {
            assert(events@.take(k as int) =~= events@);
        }
    }

    /// Takes one event while the engine is held by a key wait. The latch
    /// follows the event as in `handle_event`. A key-down event of a mapped
    /// key ends the wait: the key goes into the awaited register, the program
    /// counter moves past the wait, and the key is returned. Where the
    /// instruction at the program counter is no key wait, no wait ends.
    pub fn wait_for_key(&mut self, event: InputEvent) -> (key: Option<u8>)
        ensures
            key == wait_result(old(self)@, event),
            final(self)@ == wait_spec(old(self)@, event),
    {
        let awaited = self.awaited_register();
        self.handle_event(event);
        if let InputEvent::KeyDown { keycode } = event {
            if let Some(key) = match_keycode_to_key(keycode) {
                if let Some(x) = awaited {
                    self.v[x as usize] = key as u8;
                    self.pc = self.pc + 2;
                    return Some(key as u8);
                }
            }
        }
        None
    }

    /// The register that the instruction at the program counter wants a key
    /// in, if that instruction is a key wait.
    pub fn awaited_register(&self) -> (x: Option<u8>)
        ensures
            x == awaited_register(self@),
            x matches Some(index) ==> index < 16 && self@.pc + 1 < 4096,
    {
        match self.fetch() {
            Some(op) => match decode(op) {
                Ok(Instruction::WaitKey { x }) => Some(x),
                _ => None,
            },
            None => None,
        }
    }
}

} // verus!
