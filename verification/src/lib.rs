/*! Looping background songs on a single-channel square-wave speaker.

A [`Song`] is a sequence of [`Note`]s, each a MIDI key number, a discrete
volume level and a duration in milliseconds. A [`GameAudio`] engine holds an
optional current song together with a model of the speaker hardware (a PWM
channel driving the speaker pin, and a one-shot timer). Each time the timer
expires, [`GameAudio::handle_interrupt`] plays the note under the song's
cursor, advances the cursor (wrapping, so songs loop forever) and re-arms the
timer for that note's duration. A platform layer owning the real peripherals
mirrors the engine's hardware model onto the registers after every call. */

mod engine;
mod note;
mod song;
mod tuning;

pub use crate::engine::GameAudio;
pub use crate::engine::SpeakerState;
pub use crate::engine::TimerState;
pub use crate::engine::prev_index;
pub use crate::note::Note;
pub use crate::song::Song;
pub use crate::song::cursor_after;
pub use crate::song::lemma_cursor_cycles;
pub use crate::tuning::duty_for;
pub use crate::tuning::duty_level;
pub use crate::tuning::duty_numer;
pub use crate::tuning::frequency;
pub use crate::tuning::lemma_duty_strictly_increasing;
pub use crate::tuning::lemma_frequency_monotone;
pub use crate::tuning::octave_div;
pub use crate::tuning::semitone_scaled;
pub use crate::tuning::spec_frequency;
