//! One musical event: a pitch/volume pair or a rest, with a duration.

use vstd::prelude::*;

verus! {

/// A note in a song: a MIDI key number, a discrete volume level and a
/// duration in milliseconds. Volume 0 means a rest (silence); the key is
/// ignored while the volume is 0. Immutable once constructed, and validated
/// at construction.
#[derive(Clone, Copy, Debug, PartialEq, Eq, Structural)]
pub struct Note {
    key: u8,
    volume: u8,
    duration: u16,
}

impl Note {
    /// The MIDI key number, in `0..=127`.
    pub closed spec fn spec_key(self) -> u8 {
        self.key
    }

    /// The volume level, in `0..=6`; 0 means a rest.
    pub closed spec fn spec_volume(self) -> u8 {
        self.volume
    }

    /// The duration in milliseconds, at least 1.
    pub closed spec fn spec_duration(self) -> u16 {
        self.duration
    }

    /// Validity: the key lies in the MIDI range, the volume is one of the
    /// seven discrete levels, and the duration is a positive number of
    /// milliseconds.
    pub open spec fn wf(self) -> bool {
        &&& self.spec_key() < 128
        &&& self.spec_volume() <= 6
        &&& self.spec_duration() >= 1
    }

    /// Whether this note denotes silence rather than a tone.
    pub open spec fn spec_is_rest(self) -> bool {
        self.spec_volume() == 0
    }

    /// A note with the given MIDI key number in the range 0 through 127,
    /// given duration in milliseconds (at least 1), and given volume in the
    /// range 0 through 6.
    pub fn note(key: u8, duration: u16, volume: u8) -> (r: Note)
        requires
            key < 128,
            volume <= 6,
            duration >= 1,
        ensures
            r.spec_key() == key,
            r.spec_volume() == volume,
            r.spec_duration() == duration,
            r.wf(),
    {
        Note { key, volume, duration }
    }

    /// A silence of the given duration in milliseconds (at least 1).
    pub fn rest(duration: u16) -> (r: Note)
        requires
            duration >= 1,
        ensures
            r.spec_is_rest(),
            r.spec_duration() == duration,
            r.wf(),
    {
        Note { key: 0, volume: 0, duration }
    }

    /// The MIDI key number.
    pub fn key(&self) -> (r: u8)
        ensures
            r == self.spec_key(),
    {
        self.key
    }

    /// The volume level; 0 means a rest.
    pub fn volume(&self) -> (r: u8)
        ensures
            r == self.spec_volume(),
    {
        self.volume
    }

    /// The duration in milliseconds.
    pub fn duration(&self) -> (r: u16)
        ensures
            r == self.spec_duration(),
    {
        self.duration
    }

    /// Whether this note denotes silence rather than a tone.
    pub fn is_rest(&self) -> (r: bool)
        ensures
            r == self.spec_is_rest(),
    {
        self.volume == 0
    }
}

} // verus!
