//! The tone: when it sounds, and the waveform that is queued for it.

use crate::model::Machine;
use vstd::prelude::*;

verus! {

/// Amplitude of the square wave.
pub const TONE_VOLUME: i16 = 1000;

/// Samples in half a cycle of the square wave: 48000 samples a second
/// divided by 256, rounded down.
pub const TONE_PERIOD: i32 = 187;

/// What the audio device has to do.
#[derive(Clone, Copy, Debug, PartialEq, Eq)]
pub enum AudioCommand {
    /// Start playing the tone.
    Resume,
    /// Stop playing the tone.
    Pause,
    /// Go on as before.
    Keep,
}

/// The tone sounds while the sound timer is above zero.
pub open spec fn should_play(m: Machine) -> bool {
    m.sound_timer > 0
}

/// The command that brings the audio device in line with the sound timer.
pub open spec fn audio_command(m: Machine) -> AudioCommand {
    if should_play(m) && !m.audio_playing {
        AudioCommand::Resume
    } else if !should_play(m) && m.audio_playing {
        AudioCommand::Pause
    } else {
        AudioCommand::Keep
    }
}

/// The machine once the command has been given.
pub open spec fn sound_spec(m: Machine) -> Machine {
    Machine { audio_playing: should_play(m), ..m }
}

/// Sample `k` of the square wave: high for one period, low for the next.
pub open spec fn square_wave_sample(k: int) -> i16 {
    if (k / (TONE_PERIOD as int)) % 2 == 0 {
        TONE_VOLUME
    } else {
        (-TONE_VOLUME) as i16
    }
}

/// The first `sample_count` samples of the square wave; none where the count
/// is not positive.
pub fn gen_square_wave(sample_count: i32) -> (wave: Vec<i16>)
    ensures
        wave@.len() == if sample_count > 0 {
            sample_count as int
        } else {
            0
        },
        forall|k: int| 0 <= k < wave@.len() ==> wave@[k] == square_wave_sample(k),
{
    let mut wave: Vec<i16> = Vec::new();
    let mut x: i32 = 0;
    while x < sample_count
        invariant
            0 <= x,
            x <= sample_count || x == 0,
            wave@.len() == x,
            forall|k: int| 0 <= k < wave@.len() ==> wave@[k] == square_wave_sample(k),
        decreases sample_count - x,
    {
        wave.push(
            if (x / TONE_PERIOD) % 2 == 0 {
                TONE_VOLUME
            } else {
                -TONE_VOLUME
            },
        );
        x += 1;
    }
    wave
}

} // verus!
