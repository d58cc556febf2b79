//! The keyboard of a session: the octave cursor, the settings that the
//! arrow keys change, and what each key event does.
//!
//! The keyboard decides and the caller acts: `process_key` says which note
//! a key plays, `play_note` says what to append to the record, and sounding
//! the note, painting its mark and writing the file are the caller's part.

pub mod notes;
pub mod notes_file;
pub mod screen;

pub use crate::game::notes::Note;
pub use crate::game::notes_file::{FileNote, NoteReader, NoteRecorder};

use vstd::prelude::*;
use crate::color::Color;
use crate::game::notes::{
    key_base_note, key_to_base_note, lemma_key_text_describes_its_slot,
    lemma_octave_beyond_a_note, note_of, parsed_note, NoteView,
};
use crate::game::notes_file::record_text;
use crate::keys::{decode, KeyEvent};
use crate::pitch::slot;

verus! {

/// The lowest octave cursor that the Left key moves to.
pub const MIN_SEQUENCE: i8 = 0;

/// The highest octave cursor that the Right key moves to.
pub const MAX_SEQUENCE: i8 = 6;

/// The sound duration, in milliseconds, from which the Up key adds nothing:
/// no sample is longer.
pub const MAX_SOUND_DURATION: u64 = 8000;

/// The milliseconds by which the Up and Down keys change the sound
/// duration.
pub const SOUND_DURATION_STEP: u64 = 50;

/// What a key event asks of the session.
#[derive(Debug, Clone)]
pub enum GameEvent {
    /// Play this note.
    Note(Note),
    /// End the session.
    Quit,
}

/// What a game event holds, as plain values.
pub enum GameEventView {
    Note(NoteView),
    Quit,
}

impl View for GameEvent {
    type V = GameEventView;

    open spec fn view(&self) -> GameEventView {
        match self {
            GameEvent::Note(note) => GameEventView::Note(note@),
            GameEvent::Quit => GameEventView::Quit,
        }
    }
}

/// The state of the keyboard of one session.
#[derive(Debug)]
pub struct PianoKeyboard {
    /// The octave cursor.
    pub sequence: i8,
    /// How long a note sounds, in milliseconds; zero lets the sample run to
    /// its end.
    pub sound_duration: u64,
    /// How long the mark of a note stays, in milliseconds.
    pub mark_duration: u64,
    /// The colour of the marks of this player.
    pub color: Color,
    /// The recorder of the session.
    pub recorder: NoteRecorder,
}

/// The octave cursor after a key event: Right moves it up and Left moves it
/// down, by one octave and not beyond the highest and the lowest cursor; no
/// other event moves it.
pub open spec fn sequence_after(sequence: i8, key: KeyEvent) -> i8 {
    match key {
        KeyEvent::Right => if sequence < MAX_SEQUENCE {
            (sequence + 1) as i8
        } else {
            sequence
        },
        KeyEvent::Left => if sequence > MIN_SEQUENCE {
            (sequence - 1) as i8
        } else {
            sequence
        },
        _ => sequence,
    }
}

/// The sound duration after a key event: Up adds one step while the
/// duration is below the longest, Down takes one step off and stops at
/// zero; no other event changes it.
pub open spec fn sound_duration_after(duration: u64, key: KeyEvent) -> u64 {
    match key {
        KeyEvent::Up => if duration < MAX_SOUND_DURATION {
            (duration + SOUND_DURATION_STEP) as u64
        } else {
            duration
        },
        KeyEvent::Down => if duration >= SOUND_DURATION_STEP {
            (duration - SOUND_DURATION_STEP) as u64
        } else {
            0
        },
        _ => duration,
    }
}

/// What a key event asks of a session whose octave cursor, colour and sound
/// duration are the given ones: Esc ends the session, the arrow keys ask
/// nothing, and any other event asks for the note that it plays, if it plays
/// one that a note can hold.
pub open spec fn event_of(key: KeyEvent, sequence: i8, color: Color, sound_duration: u64) -> Option<
    GameEventView,
> {
    match key {
        KeyEvent::Esc => Some(GameEventView::Quit),
        KeyEvent::Right | KeyEvent::Left | KeyEvent::Up | KeyEvent::Down => None,
        _ => match key_base_note(key, sequence as int) {
            Some(text) => match parsed_note(text, color, sound_duration) {
                Some(note) => Some(GameEventView::Note(note)),
                None => None,
            },
            None => None,
        },
    }
}

/// The steps by which a key event changes the volume: `+` is one step up,
/// `-` one step down, and no other event changes it. How much a step is, is
/// the caller's matter.
pub open spec fn volume_change(key: KeyEvent) -> int {
    match key {
        KeyEvent::Char(c) => if c == '+' {
            1
        } else if c == '-' {
            -1
        } else {
            0
        },
        _ => 0,
    }
}

/// Reads a key event as a change of the volume, in steps.
pub fn volume_steps(key: KeyEvent) -> (r: i8)
    ensures
        r == volume_change(key),
{
    match key {
        KeyEvent::Char('+') => 1,
        KeyEvent::Char('-') => -1,
        _ => 0,
    }
}

impl PianoKeyboard {
    /// The keyboard of a new session, with an unarmed recorder.
    pub fn new(sequence: i8, sound_duration: u64, mark_duration: u64, color: Color) -> (r:
        PianoKeyboard)
        ensures
            r.sequence == sequence,
            r.sound_duration == sound_duration,
            r.mark_duration == mark_duration,
            r.color == color,
            r.recorder.record_file is None,
            r.recorder.note_number == 1,
    {
        PianoKeyboard {
            sequence,
            sound_duration,
            mark_duration,
            color,
            recorder: NoteRecorder::new(),
        }
    }

    /// Arms the recorder with a file.
    pub fn set_record_file(&mut self, record_file: String)
        ensures
            final(self).recorder.record_file == Some(record_file),
            final(self).recorder.note_number == old(self).recorder.note_number,
            final(self).sequence == old(self).sequence,
            final(self).sound_duration == old(self).sound_duration,
            final(self).mark_duration == old(self).mark_duration,
            final(self).color == old(self).color,
    {
        self.recorder.set_file(record_file);
    }

    /// Takes note of a note that is played, `delay_gap` milliseconds after
    /// the one before it: an armed recorder writes its record, which is
    /// returned for the caller to append to the file, and an unarmed one
    /// does nothing.
    pub fn play_note(&mut self, note: &Note, delay_gap: u64) -> (r: Option<String>)
        requires
            old(self).recorder.record_file is Some ==> old(self).recorder.note_number < usize::MAX,
        ensures
            final(self).sequence == old(self).sequence,
            final(self).sound_duration == old(self).sound_duration,
            final(self).mark_duration == old(self).mark_duration,
            final(self).color == old(self).color,
            final(self).recorder.record_file == old(self).recorder.record_file,
            match r {
                Some(text) => {
                    &&& old(self).recorder.record_file is Some
                    &&& text@ == record_text(
                        old(self).recorder.note_number as nat,
                        delay_gap as nat,
                        note.sound@,
                        note.duration as nat,
                    )
                    &&& final(self).recorder.note_number == old(self).recorder.note_number + 1
                },
                None => {
                    &&& old(self).recorder.record_file is None
                    &&& final(self).recorder.note_number == old(self).recorder.note_number
                },
            },
    {
        if self.recorder.record_file.is_some() {
            Some(self.recorder.write_note(delay_gap, note))
        } else {
            None
        }
    }

    /// Sets the colour of the marks of this player.
    pub fn set_note_color(&mut self, color: Color)
        ensures
            final(self).color == color,
            final(self).sequence == old(self).sequence,
            final(self).sound_duration == old(self).sound_duration,
            final(self).mark_duration == old(self).mark_duration,
            final(self).recorder == old(self).recorder,
    {
        self.color = color;
    }

    /// Handles one key event.
    ///
    /// Right and Left move the octave cursor, Up and Down change the sound
    /// duration, Esc asks to end the session, and every other event asks for
    /// the note it plays at the octave cursor, in the colour and with the
    /// sound duration of the keyboard. The keys that set the volume play no
    /// note: they ask nothing and change nothing here.
    pub fn process_key(&mut self, key: KeyEvent) -> (r: Option<GameEvent>)
        ensures
            final(self).sequence == sequence_after(old(self).sequence, key),
            final(self).sound_duration == sound_duration_after(old(self).sound_duration, key),
            final(self).mark_duration == old(self).mark_duration,
            final(self).color == old(self).color,
            final(self).recorder == old(self).recorder,
            match r {
                Some(event) => event_of(
                    key,
                    old(self).sequence,
                    old(self).color,
                    old(self).sound_duration,
                ) == Some(event@) && (event matches GameEvent::Note(note) ==> note.wf()),
                None => event_of(key, old(self).sequence, old(self).color, old(self).sound_duration)
                    is None,
            },
    {
        match key {
            KeyEvent::Right => {
                if self.sequence < MAX_SEQUENCE {
                    self.sequence = self.sequence + 1;
                }
                None
            },
            KeyEvent::Left => {
                if self.sequence > MIN_SEQUENCE {
                    self.sequence = self.sequence - 1;
                }
                None
            },
            KeyEvent::Up => {
                if self.sound_duration < MAX_SOUND_DURATION {
                    self.sound_duration = self.sound_duration + SOUND_DURATION_STEP;
                }
                None
            },
            KeyEvent::Down => {
                if self.sound_duration >= SOUND_DURATION_STEP {
                    self.sound_duration = self.sound_duration - SOUND_DURATION_STEP;
                } else {
                    self.sound_duration = 0;
                }
                None
            },
            KeyEvent::Esc => Some(GameEvent::Quit),
            _ => match key_to_base_note(key, self.sequence) {
                Some(text) => match Note::from(text.as_str(), self.color, self.sound_duration) {
                    Some(note) => Some(GameEvent::Note(note)),
                    None => None,
                },
                None => None,
            },
        }
    }
}

/// What a key event asks, said by the slot it plays: a key event that plays
/// a slot, and is none of Esc and the arrow keys, asks for the note of the
/// slot's pitch class in the octave it plays, where a note can hold that
/// octave, and asks nothing where none can. A key event that plays no slot
/// asks for no note.
pub proof fn lemma_event_of_a_key(key: KeyEvent, sequence: i8, color: Color, sound_duration: u64)
    ensures
        match decode(key, sequence as int) {
            Some((i, octave)) => event_of(key, sequence, color, sound_duration) == if -128
                <= octave <= 127 {
                Some(
                    GameEventView::Note(
                        note_of(slot(i).pitch_class, octave as i8, color, sound_duration),
                    ),
                )
            } else {
                None::<GameEventView>
            },
            None => !(event_of(key, sequence, color, sound_duration) matches Some(
                GameEventView::Note(_),
            )),
        },
{
    match decode(key, sequence as int) {
        Some((i, octave)) => {
            if -128 <= octave <= 127 {
                lemma_key_text_describes_its_slot(key, sequence as int, color, sound_duration);
            } else {
                lemma_octave_beyond_a_note(slot(i).pitch_class, octave, color, sound_duration);
            }
        },
        None => {},
    }
}

/// A key that changes the volume asks nothing else of the session and
/// changes nothing of the keyboard.
pub proof fn lemma_volume_keys_play_nothing(
    key: KeyEvent,
    sequence: i8,
    color: Color,
    sound_duration: u64,
)
    requires
        volume_change(key) != 0,
    ensures
        event_of(key, sequence, color, sound_duration) is None,
        sequence_after(sequence, key) == sequence,
        sound_duration_after(sound_duration, key) == sound_duration,
{
}

/// The octave cursor stays where the arrow keys can take it: from a cursor
/// between the lowest and the highest, no key event leads out of that range.
/// Left at or below the lowest cursor and Right at or above the highest leave
/// the cursor as it is.
pub proof fn lemma_cursor_is_clamped(sequence: i8, key: KeyEvent)
    ensures
        MIN_SEQUENCE <= sequence <= MAX_SEQUENCE ==> MIN_SEQUENCE <= sequence_after(sequence, key)
            <= MAX_SEQUENCE,
        sequence <= MIN_SEQUENCE ==> sequence_after(sequence, KeyEvent::Left) == sequence,
        sequence >= MAX_SEQUENCE ==> sequence_after(sequence, KeyEvent::Right) == sequence,
        MIN_SEQUENCE < sequence ==> sequence_after(sequence, KeyEvent::Left) == sequence - 1,
        sequence < MAX_SEQUENCE ==> sequence_after(sequence, KeyEvent::Right) == sequence + 1,
{
}

} // verus!
