//! A looping, ordered sequence of notes with a playback cursor.

use vstd::prelude::*;

verus! {

use vstd::arithmetic::div_mod::lemma_add_mod_noop;
use vstd::arithmetic::div_mod::lemma_mod_self_0;
use vstd::arithmetic::div_mod::lemma_small_mod;
use crate::note::Note;

/// A sequence of notes (non-empty) together with the current playback
/// position. Playback moves forward through the notes one at a time and wraps
/// past the end, so a song loops forever; only the engine's advance step
/// moves the cursor.
#[derive(Clone, Debug, PartialEq)]
pub struct Song {
    notes: Vec<Note>,
    position: usize,
}

impl Song {
    /// The notes of the song, in playback order.
    pub closed spec fn spec_notes(self) -> Seq<Note> {
        self.notes@
    }

    /// The current playback position, an index into the notes.
    pub closed spec fn spec_position(self) -> int {
        self.position as int
    }

    /// Validity: the song is non-empty, the cursor is an index into the
    /// notes, and every note is itself valid.
    pub open spec fn wf(self) -> bool {
        &&& self.spec_notes().len() > 0
        &&& 0 <= self.spec_position() < self.spec_notes().len()
        &&& forall|i: int|
            0 <= i < self.spec_notes().len() ==> (#[trigger] self.spec_notes()[i]).wf()
    }

    /// The note under the cursor: the next note the engine will play.
    pub open spec fn spec_current(self) -> Note {
        self.spec_notes()[self.spec_position()]
    }

    /// Make a new song from a non-empty note sequence, with the cursor at the
    /// beginning.
    pub fn new(notes: Vec<Note>) -> (r: Song)
        requires
            notes@.len() > 0,
            forall|i: int| 0 <= i < notes@.len() ==> (#[trigger] notes@[i]).wf(),
        ensures
            r.spec_notes() == notes@,
            r.spec_position() == 0,
            r.wf(),
    {
        Song { notes, position: 0 }
    }

    /// Reset playback to the beginning of the song.
    pub fn restart(&mut self)
        ensures
            final(self).spec_notes() == old(self).spec_notes(),
            final(self).spec_position() == 0,
            old(self).wf() ==> final(self).wf(),
    {
        self.position = 0;
    }

    /// The current playback position.
    pub fn position(&self) -> (r: usize)
        ensures
            r == self.spec_position(),
    {
        self.position
    }

    /// The number of notes in the song.
    pub fn len(&self) -> (r: usize)
        ensures
            r == self.spec_notes().len(),
    {
        self.notes.len()
    }

    /// The note under the cursor.
    pub fn current(&self) -> (r: Note)
        requires
            self.wf(),
        ensures
            r == self.spec_current(),
            r.wf(),
    {
        self.notes[self.position]
    }

    /// Move the cursor one note forward, wrapping to the beginning past the
    /// end.
    pub(crate) fn advance(&mut self)
        requires
            old(self).wf(),
        ensures
            final(self).spec_notes() == old(self).spec_notes(),
            final(self).spec_position() == (old(self).spec_position() + 1)
                % (old(self).spec_notes().len() as int),
            final(self).spec_position() == cursor_after(
                old(self).spec_position(),
                old(self).spec_notes().len() as int,
                1,
            ),
            final(self).wf(),
    {
        proof {
            reveal_with_fuel(cursor_after, 2);
        }
        let n: usize = self.notes.len();
        self.position = (self.position + 1) % n;
    }
}

/// The cursor position reached from `start` after `steps` single advances
/// through a song of length `len`: each advance moves one forward, wrapping
/// to zero past the end.
pub open spec fn cursor_after(start: int, len: int, steps: nat) -> int
    decreases steps,
{
    if steps == 0 {
        start
    } else {
        (cursor_after(start, len, (steps - 1) as nat) + 1) % len
    }
}

/// Looping law: starting from any valid cursor position, repeated advances
/// visit the positions in exact cyclic order, indefinitely — after `steps`
/// advances the cursor stands at `(start + steps) % len`, so the cursor runs
/// `0, 1, …, len - 1, 0, 1, …` when started at 0.
pub proof fn lemma_cursor_cycles(start: int, len: int, steps: nat)
    requires
        0 <= start < len,
    ensures
        cursor_after(start, len, steps) == (start + steps) % len,
    decreases steps,
{
    if steps == 0 {
        lemma_small_mod(start as nat, len as nat);
    } else {
        lemma_cursor_cycles(start, len, (steps - 1) as nat);
        let a = start + steps - 1;
        if len == 1 {
            lemma_mod_self_0(1);
            lemma_small_mod(0, 1);
        } else {
            lemma_small_mod(1, len as nat);
        }
        lemma_add_mod_noop(a, 1, len);
    }
}

} // verus!
