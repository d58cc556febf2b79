//! Notes read straight off the slot table: what a key sounds and where its
//! mark goes, with no sound id in between.

use vstd::prelude::*;
use vstd::string::*;
use crate::keys::{decode, strike, struck, KeyEvent};
use crate::pitch::{find_slot, slot, slot_at, OCTAVE_WIDTH};

verus! {

/// A note as a key plays it.
#[derive(Debug, PartialEq)]
pub struct Note {
    /// The name of the pitch class; empty where the key plays no note.
    pub sound: String,
    /// The octave.
    pub sequence: i16,
    /// The column of the mark on the drawn keyboard.
    pub position: i16,
    /// Whether the note lies on a white key.
    pub white: bool,
}

/// What such a note holds, as plain values.
pub struct NoteView {
    pub sound: Seq<char>,
    pub sequence: i16,
    pub position: i16,
    pub white: bool,
}

impl View for Note {
    type V = NoteView;

    open spec fn view(&self) -> NoteView {
        NoteView {
            sound: self.sound@,
            sequence: self.sequence,
            position: self.position,
            white: self.white,
        }
    }
}

/// The column that stands for no key. It lies left of the keyboard, so a
/// note there is never played.
pub const NO_KEY_OFFSET: i16 = -106;

/// The first column right of the keyboard.
pub const KEYBOARD_WIDTH: i16 = 155;

/// The octaves by which the modifiers of a key event move the note,
/// whether the event plays one or not.
pub open spec fn moved_by(key: KeyEvent) -> int {
    match struck(key) {
        Some((c, moved)) => moved,
        None => 0,
    }
}

/// The octave of the note that a key event plays while the octave cursor is
/// at `raw_seq`: the cursor moved by the modifiers and by the slot's own
/// distance. An event that plays no note counts as one octave down.
pub open spec fn matched_octave(key: KeyEvent, raw_seq: int) -> int {
    match decode(key, raw_seq) {
        Some((i, octave)) => octave,
        None => raw_seq + moved_by(key) - 1,
    }
}

/// The column of the mark of that note: the slot's column, moved by one
/// octave's width for each octave of the cursor and the modifiers. An event
/// that plays no note has its mark in the column that stands for no key,
/// wherever the cursor is.
pub open spec fn matched_column(key: KeyEvent, raw_seq: int) -> int {
    match decode(key, raw_seq) {
        Some((i, octave)) => slot(i).screen_offset + OCTAVE_WIDTH * (raw_seq + moved_by(key)),
        None => NO_KEY_OFFSET as int,
    }
}

/// Whether a column lies on the keyboard.
pub open spec fn on_keyboard(position: int) -> bool {
    0 < position < KEYBOARD_WIDTH
}

/// Whether octave and column of that note are numbers that a note can
/// hold.
pub open spec fn note_fits(key: KeyEvent, raw_seq: int) -> bool {
    &&& i16::MIN <= matched_octave(key, raw_seq) <= i16::MAX
    &&& i16::MIN <= matched_column(key, raw_seq) <= i16::MAX
}

/// The note that a key event plays while the octave cursor is at `raw_seq`.
///
/// A key of the slot table plays the pitch class of its slot, on a key of
/// the slot's colour. Any other event gives a note without a sound, on a
/// white key.
pub open spec fn matched_note(key: KeyEvent, raw_seq: int) -> NoteView {
    NoteView {
        sound: match decode(key, raw_seq) {
            Some((i, octave)) => slot(i).pitch_class.name(),
            None => Seq::empty(),
        },
        sequence: matched_octave(key, raw_seq) as i16,
        position: matched_column(key, raw_seq) as i16,
        white: match decode(key, raw_seq) {
            Some((i, octave)) => slot(i).is_white,
            None => true,
        },
    }
}

/// Reads a key event, at an octave cursor, as the note it plays.
pub fn match_note(key: KeyEvent, raw_seq: i16) -> (r: Note)
    requires
        note_fits(key, raw_seq as int),
    ensures
        r@ == matched_note(key, raw_seq as int),
        r.sequence == matched_octave(key, raw_seq as int),
        r.position == matched_column(key, raw_seq as int),
        decode(key, raw_seq as int) is None ==> r.position < 1 && r.sound@.len() == 0,
        decode(key, raw_seq as int) is None ==> !on_keyboard(r.position as int),
{
    let struck_key = strike(key);
    let moved: i32 = match struck_key {
        Some((_, moved)) => moved as i32,
        None => 0,
    };
    let octave: i32 = raw_seq as i32 + moved;
    let found: Option<usize> = match struck_key {
        Some((c, _)) => find_slot(c),
        None => None,
    };
    match found {
        Some(i) => {
            let played = slot_at(i);
            let sequence: i32 = octave + (played.octave_delta as i32);
            let position: i32 = played.screen_offset as i32 + OCTAVE_WIDTH as i32 * octave;
            Note {
                sound: String::from_str(played.pitch_class.as_str()),
                sequence: sequence as i16,
                position: position as i16,
                white: played.is_white,
            }
        },
        None => {
            let sequence: i32 = octave - 1;
            Note {
                sound: String::new(),
                sequence: sequence as i16,
                position: NO_KEY_OFFSET,
                white: true,
            }
        },
    }
}

/// Whether a note lies on the keyboard: only such a note is played, marked
/// and recorded.
pub fn lies_on_keyboard(note: &Note) -> (r: bool)
    ensures
        r == (0 < note.position && note.position < 155),
        r == on_keyboard(note.position as int),
{
    0 < note.position && note.position < KEYBOARD_WIDTH
}

/// At every octave cursor that fits in eight bits with a sign, and so at
/// every cursor of a session, every key event plays a note that fits.
pub proof fn lemma_notes_of_a_session_fit(key: KeyEvent, raw_seq: i8)
    ensures
        note_fits(key, raw_seq as int),
{
}

} // verus!
