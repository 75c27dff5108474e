//! The interrupt-driven playback engine and its model of the speaker
//! hardware.
//!
//! The engine owns a model of the two peripherals it drives — a PWM channel
//! bound to the speaker pin, and a one-shot timer — together with the song
//! being played, if any. The platform layer that owns the real registers
//! mirrors the model onto them after every call; the engine's contracts pin
//! down exactly what the model holds after each transition, so everything the
//! hardware is told follows from verified code.

use vstd::prelude::*;

verus! {

use vstd::arithmetic::div_mod::lemma_mod_add_multiples_vanish;
use vstd::arithmetic::div_mod::lemma_mod_self_0;
use vstd::arithmetic::div_mod::lemma_small_mod;
use crate::note::Note;
use crate::song::Song;
use crate::tuning::duty_level;
use crate::tuning::duty_numer;
use crate::tuning::frequency;
use crate::tuning::spec_frequency;

/// Model of the PWM channel and the speaker pin it drives.
#[derive(Clone, Copy, Debug, PartialEq, Eq, Structural)]
pub struct SpeakerState {
    /// Whether the PWM peripheral is enabled and toggling the speaker pin.
    pub pwm_enabled: bool,
    /// Whether the speaker pin is held at a fixed high logic level; this is
    /// how silence is produced, and it is meaningful only while the PWM is
    /// disabled.
    pub pin_high: bool,
    /// The programmed PWM period, as a frequency in Hz.
    pub period_hz: u32,
    /// The programmed PWM duty numerator, out of 256.
    pub duty: u16,
}

impl SpeakerState {
    /// Capacitor-safe silence: the PWM is disabled (the pin stops toggling)
    /// and the pin is held high, keeping the speaker's coupling capacitor
    /// near its discharged steady state so the next tone's duty-based volume
    /// behaves predictably.
    pub open spec fn is_silent(self) -> bool {
        &&& !self.pwm_enabled
        &&& self.pin_high
    }

    /// This state after the capacitor-safe silence procedure: output
    /// disabled, pin held high, and the period and duty registers keeping
    /// their last values.
    pub open spec fn silenced(self) -> SpeakerState {
        SpeakerState { pwm_enabled: false, pin_high: true, ..self }
    }

    /// The state sounding a tone of `hz` Hz at duty `duty`/256.
    pub open spec fn tone(hz: u32, duty: u16) -> SpeakerState {
        SpeakerState { pwm_enabled: true, pin_high: false, period_hz: hz, duty: duty }
    }

    /// The state a note calls for: the note's tone, or silence for a rest.
    pub open spec fn for_note(self, note: Note) -> SpeakerState {
        if note.spec_volume() > 0 {
            SpeakerState::tone(
                spec_frequency(note.spec_key() as int) as u32,
                duty_numer(note.spec_volume() as int) as u16,
            )
        } else {
            self.silenced()
        }
    }
}

/// Model of the hardware timer whose expiry drives playback.
#[derive(Clone, Copy, Debug, PartialEq, Eq, Structural)]
pub struct TimerState {
    /// Whether the timer's expiry interrupt is enabled.
    pub interrupt_enabled: bool,
    /// Whether the timer is armed to fire after its interval.
    pub armed: bool,
    /// The armed countdown interval, in microseconds.
    pub interval_us: u32,
    /// Whether an expiry event awaits acknowledgement.
    pub event_pending: bool,
}

impl TimerState {
    /// This timer re-armed for `ms` milliseconds, with the interrupt enabled
    /// and the previous expiry event acknowledged.
    pub open spec fn armed_for_ms(self, ms: u16) -> TimerState {
        TimerState {
            interrupt_enabled: true,
            armed: true,
            interval_us: (ms * 1000) as u32,
            event_pending: false,
        }
    }

    /// This timer disarmed, with the previous expiry event acknowledged.
    pub open spec fn disarmed(self) -> TimerState {
        TimerState { armed: false, event_pending: false, ..self }
    }
}

/// The index of the note before `pos` in a song of length `len`, wrapping
/// before the beginning: the note the advance step read last when the cursor
/// now stands at `pos`.
pub open spec fn prev_index(pos: int, len: int) -> int {
    (pos + len - 1) % len
}

/// The playback engine: the hardware model for the speaker and the timer,
/// together with the song being played, if any.
#[derive(Debug)]
pub struct GameAudio {
    timer: TimerState,
    speaker: SpeakerState,
    song: Option<Song>,
}

impl GameAudio {
    /// The timer model.
    pub closed spec fn spec_timer(self) -> TimerState {
        self.timer
    }

    /// The speaker model.
    pub closed spec fn spec_speaker(self) -> SpeakerState {
        self.speaker
    }

    /// The current song, if one is playing.
    pub closed spec fn spec_song(self) -> Option<Song> {
        self.song
    }

    /// The current song, if any, is valid.
    pub open spec fn song_wf(self) -> bool {
        self.spec_song() matches Some(s) ==> s.wf()
    }

    /// Engine invariant, one clause per state of the two-state machine.
    /// Idle: no current song, the speaker silent, the timer disarmed.
    /// Playing: a valid current song whose note before the cursor — the note
    /// the advance step last read — is reflected by the speaker model, with
    /// the timer armed for exactly that note's duration.
    pub open spec fn inv(self) -> bool {
        match self.spec_song() {
            Option::None => {
                &&& self.spec_speaker().is_silent()
                &&& !self.spec_timer().armed
            },
            Option::Some(s) => {
                let played = s.spec_notes()[prev_index(
                    s.spec_position(),
                    s.spec_notes().len() as int,
                )];
                &&& s.wf()
                &&& self.spec_speaker() == self.spec_speaker().for_note(played)
                &&& self.spec_timer().armed
                &&& self.spec_timer().interrupt_enabled
                &&& self.spec_timer().interval_us == played.spec_duration() * 1000
            },
        }
    }

    /// A fresh engine in the Idle state: no song, speaker silent with the pin
    /// held high, timer disarmed with its interrupt enabled. The platform
    /// layer performs the one-time hardware setup that realizes this state.
    pub fn new() -> (r: GameAudio)
        ensures
            r.spec_song() is None,
            r.spec_speaker().is_silent(),
            r.spec_timer() == (TimerState {
                interrupt_enabled: true,
                armed: false,
                interval_us: 0,
                event_pending: false,
            }),
            r.inv(),
    {
        GameAudio {
            timer: TimerState {
                interrupt_enabled: true,
                armed: false,
                interval_us: 0,
                event_pending: false,
            },
            speaker: SpeakerState { pwm_enabled: false, pin_high: true, period_hz: 0, duty: 0 },
            song: None,
        }
    }

    /// The advance step, the sole state transition, invoked by the timer's
    /// expiry and run once synchronously by `play` and `stop`.
    ///
    /// With a song current: read the note under the cursor, move the cursor
    /// one forward (wrapping, so the song loops forever), program the speaker
    /// model — the note's frequency and duty for a tone, the capacitor-safe
    /// silence for a rest — and only then re-arm the timer for the note's
    /// duration, so the note sounds from the instant its predecessor expired.
    /// With no song current: apply the capacitor-safe silence procedure and
    /// leave the timer disarmed. Either way the pending expiry event is
    /// acknowledged last.
    pub fn handle_interrupt(&mut self)
        requires
            old(self).song_wf(),
        ensures
            old(self).spec_song() is None ==> {
                &&& final(self).spec_song() is None
                &&& final(self).spec_speaker() == old(self).spec_speaker().silenced()
                &&& final(self).spec_timer() == old(self).spec_timer().disarmed()
            },
            old(self).spec_song() matches Some(s) ==> {
                let note = s.spec_current();
                &&& final(self).spec_song() matches Some(s2) && s2.spec_notes()
                    == s.spec_notes() && s2.spec_position() == (s.spec_position() + 1) % (
                s.spec_notes().len() as int)
                &&& final(self).spec_speaker() == old(self).spec_speaker().for_note(note)
                &&& final(self).spec_timer() == old(self).spec_timer().armed_for_ms(
                    note.spec_duration(),
                )
            },
            !final(self).spec_timer().event_pending,
            final(self).song_wf(),
            final(self).inv(),
    {
        let mut silent = true;
        match &mut self.song {
            Some(song) => {
                let note = song.current();
                song.advance();
                if note.volume() > 0 {
                    let hz: u32 = frequency(note.key());
                    let level: u16 = duty_level(note.volume());
                    self.speaker = SpeakerState {
                        pwm_enabled: true,
                        pin_high: false,
                        period_hz: hz,
                        duty: level,
                    };
                    silent = false;
                }
                self.timer = TimerState {
                    interrupt_enabled: true,
                    armed: true,
                    interval_us: note.duration() as u32 * 1000,
                    event_pending: false,
                };
                proof {
                    lemma_prev_of_next(
                        old(self).spec_song()->Some_0.spec_position(),
                        old(self).spec_song()->Some_0.spec_notes().len() as int,
                    );
                }
            },
            None => {
                self.timer = TimerState { armed: false, event_pending: false, ..self.timer };
            },
        }
        if silent {
            self.speaker = SpeakerState { pwm_enabled: false, pin_high: true, ..self.speaker };
        }
    }

    /// Start the given song playing, and return whatever song was previously
    /// current, its cursor exactly where it was left. The advance step runs
    /// once immediately, so the new song's note under its cursor starts
    /// sounding without waiting for a stale timer expiry; the installed
    /// song's cursor is not reset.
    pub fn play(&mut self, song: Song) -> (r: Option<Song>)
        requires
            old(self).inv(),
            song.wf(),
        ensures
            r == old(self).spec_song(),
            final(self).spec_song() matches Some(s2) && s2.spec_notes() == song.spec_notes()
                && s2.spec_position() == (song.spec_position() + 1) % (
            song.spec_notes().len() as int),
            final(self).spec_speaker() == old(self).spec_speaker().for_note(song.spec_current()),
            final(self).spec_timer() == old(self).spec_timer().armed_for_ms(
                song.spec_current().spec_duration(),
            ),
            final(self).inv(),
    {
        let result = self.song.take();
        self.song = Some(song);
        self.handle_interrupt();
        result
    }

    /// Stop playback, and return the song that was current, if any, its
    /// cursor exactly where it was left. The advance step runs once
    /// immediately, so the speaker is silent before the call returns; on an
    /// Idle engine the call returns `None` and changes nothing but the
    /// acknowledged timer event.
    pub fn stop(&mut self) -> (r: Option<Song>)
        requires
            old(self).inv(),
        ensures
            r == old(self).spec_song(),
            final(self).spec_song() is None,
            final(self).spec_speaker() == old(self).spec_speaker().silenced(),
            final(self).spec_speaker().is_silent(),
            final(self).spec_timer() == old(self).spec_timer().disarmed(),
            old(self).spec_song() is None ==> final(self).spec_speaker() == old(
                self,
            ).spec_speaker(),
            final(self).inv(),
    {
        let result = self.song.take();
        self.handle_interrupt();
        result
    }

    /// Whether a song is currently playing.
    pub fn is_playing(&self) -> (r: bool)
        ensures
            r == (self.spec_song() is Some),
    {
        self.song.is_some()
    }

    /// The playing song's cursor position, if one is playing.
    pub fn playing_position(&self) -> (r: Option<usize>)
        ensures
            match self.spec_song() {
                Option::Some(s) => r matches Some(p) && p == s.spec_position(),
                Option::None => r is None,
            },
    {
        match &self.song {
            Some(song) => Some(song.position()),
            None => None,
        }
    }

    /// The tone the speaker model is sounding, as the programmed frequency in
    /// Hz and duty numerator out of 256, or `None` while the PWM output is
    /// disabled.
    pub fn speaker_tone(&self) -> (r: Option<(u32, u16)>)
        ensures
            self.spec_speaker().pwm_enabled ==> (r matches Some(t) && t.0
                == self.spec_speaker().period_hz && t.1 == self.spec_speaker().duty),
            !self.spec_speaker().pwm_enabled ==> r is None,
    {
        if self.speaker.pwm_enabled {
            Some((self.speaker.period_hz, self.speaker.duty))
        } else {
            None
        }
    }

    /// Whether the speaker model is in the capacitor-safe silent state.
    pub fn speaker_silent(&self) -> (r: bool)
        ensures
            r == self.spec_speaker().is_silent(),
    {
        !self.speaker.pwm_enabled && self.speaker.pin_high
    }

    /// The timer model's armed countdown interval in microseconds, or `None`
    /// while the timer is disarmed.
    pub fn timer_armed_us(&self) -> (r: Option<u32>)
        ensures
            self.spec_timer().armed ==> (r matches Some(us) && us
                == self.spec_timer().interval_us),
            !self.spec_timer().armed ==> r is None,
    {
        if self.timer.armed {
            Some(self.timer.interval_us)
        } else {
            None
        }
    }
}

/// Stepping the cursor forward and then looking one note back lands on the
/// note just read: `prev_index((p + 1) % len, len) == p`.
proof fn lemma_prev_of_next(p: int, len: int)
    requires
        0 <= p < len,
    ensures
        prev_index((p + 1) % len, len) == p,
{
    if p + 1 < len {
        lemma_small_mod((p + 1) as nat, len as nat);
        lemma_mod_add_multiples_vanish(p, len);
        lemma_small_mod(p as nat, len as nat);
    } else {
        lemma_mod_self_0(len);
        lemma_small_mod((len - 1) as nat, len as nat);
    }
}

} // verus!
