//! Notes and sound ids.
//!
//! A sound id is the name of a pitch class followed by the decimal text of an
//! octave, such as `gs1` or `a-1`. It names the sample that sounds and it is
//! what a record and a peer are told, so reading a sound id must undo
//! writing it. A note adds to its sound id where its mark stands on the
//! drawn keyboard and how it is painted.

use vstd::prelude::*;
use vstd::string::*;
use vstd::utf8::is_ascii_chars;
use crate::color::Color;
use crate::keys::{
    decode, decode_key, lemma_ctrl_plays_an_octave_below, lemma_shift_plays_an_octave_above, struck,
    with_shift, KeyEvent,
};
use crate::pitch::{
    lemma_pitch_named, lemma_slot_agrees_with_home, lemma_slot_of_key, pitch_named, slot, slot_at,
    PitchClass, OCTAVE_WIDTH, SLOT_COUNT,
};
use crate::text::{
    ascii_bytes, bytes_as_chars, decimal, has_sign, i64_to_string, is_digit,
    lemma_decimal_reads_back, lemma_parse_signed_decimal, lemma_parsed_text_is_ascii, parse_i8,
    parse_i8_from, parse_int, signed_decimal, unsigned_part,
};

verus! {

/// A note that is played: what sounds, where its mark stands and how long
/// and in which colour.
#[derive(Debug, Clone, PartialEq)]
pub struct Note {
    /// The sound id: `base` followed by `frequency`.
    pub sound: String,
    /// The name of the pitch class.
    pub base: String,
    /// The octave.
    pub frequency: i8,
    /// The column of the mark on the drawn keyboard.
    pub position: i16,
    /// Whether the note lies on a white key.
    pub white: bool,
    /// The colour of the mark.
    pub color: Color,
    /// How long the note sounds, in milliseconds; zero lets the sample run
    /// to its end.
    pub duration: u64,
}

/// What a note holds, as plain values.
pub struct NoteView {
    pub sound: Seq<char>,
    pub base: Seq<char>,
    pub frequency: i8,
    pub position: i16,
    pub white: bool,
    pub color: Color,
    pub duration: u64,
}

/// Why a note could not be made.
#[derive(Clone, Copy, Debug, PartialEq, Eq, Structural)]
pub enum NoteError {
    /// The name is not the name of a pitch class.
    UnknownPitchClass,
}

impl View for Note {
    type V = NoteView;

    open spec fn view(&self) -> NoteView {
        NoteView {
            sound: self.sound@,
            base: self.base@,
            frequency: self.frequency,
            position: self.position,
            white: self.white,
            color: self.color,
            duration: self.duration,
        }
    }
}

/// The sound id of a pitch class in an octave.
pub open spec fn sound_id(pitch: PitchClass, octave: int) -> Seq<char> {
    pitch.name() + signed_decimal(octave)
}

/// The column of the mark of a pitch class in an octave: the column of the
/// home slot, moved by one octave's width for each octave between the note
/// and the home slot.
pub open spec fn screen_position(pitch: PitchClass, octave: int) -> int {
    slot(pitch.home()).screen_offset + OCTAVE_WIDTH * (octave - slot(pitch.home()).octave_delta)
}

/// The note of a pitch class in an octave, painted in `color` and sounding
/// for `duration`.
pub open spec fn note_of(pitch: PitchClass, octave: i8, color: Color, duration: u64) -> NoteView {
    NoteView {
        sound: sound_id(pitch, octave as int),
        base: pitch.name(),
        frequency: octave,
        position: screen_position(pitch, octave as int) as i16,
        white: pitch.spec_is_white(),
        color,
        duration,
    }
}

/// The first place at or after `from` at which the rest of `s` denotes an
/// octave.
pub open spec fn split_point(s: Seq<char>, from: int) -> Option<int>
    decreases s.len() - from,
{
    if from >= s.len() {
        None
    } else if parse_i8(s.subrange(from, s.len() as int)) is Some {
        Some(from)
    } else {
        split_point(s, from + 1)
    }
}

/// The name and the octave of a sound id. The text divides at the first
/// place, after its first character, from which the rest denotes an octave;
/// a text with no such place, or with a character outside ASCII, has no
/// parts.
pub open spec fn sound_parts(s: Seq<char>) -> Option<(Seq<char>, i8)> {
    if !is_ascii_chars(s) {
        None
    } else {
        match split_point(s, 1) {
            Some(at) => Some((s.subrange(0, at), parse_i8(s.subrange(at, s.len() as int))->0)),
            None => None,
        }
    }
}

/// The note that a name and an octave describe, if the name is that of a
/// pitch class.
pub open spec fn named_note(base: Seq<char>, octave: i8, color: Color, duration: u64) -> Option<
    NoteView,
> {
    match pitch_named(base) {
        Some(pitch) => Some(note_of(pitch, octave, color, duration)),
        None => None,
    }
}

/// The note that a sound id describes, if it describes one.
pub open spec fn parsed_note(sound: Seq<char>, color: Color, duration: u64) -> Option<NoteView> {
    match sound_parts(sound) {
        Some((base, octave)) => named_note(base, octave, color, duration),
        None => None,
    }
}

/// The text that a key event plays: the sound id of its slot's pitch class
/// in the octave it plays.
pub open spec fn key_base_note(key: KeyEvent, cursor: int) -> Option<Seq<char>> {
    match decode(key, cursor) {
        Some((i, octave)) => Some(sound_id(slot(i).pitch_class, octave)),
        None => None,
    }
}

/// The pitch class that a name names.
pub fn pitch_from_name(name: &str) -> (r: Option<PitchClass>)
    ensures
        r == pitch_named(name@),
{
    match ascii_bytes(name) {
        Some(bytes) => {
            let n: usize = bytes.len();
            if n == 1 {
                let letter: char = bytes[0] as char;
                assert(name@[0] == letter);
                match letter {
                    'a' => Some(PitchClass::A),
                    'b' => Some(PitchClass::B),
                    'c' => Some(PitchClass::C),
                    'd' => Some(PitchClass::D),
                    'e' => Some(PitchClass::E),
                    'f' => Some(PitchClass::F),
                    'g' => Some(PitchClass::G),
                    _ => None,
                }
            } else if n == 2 {
                let letter: char = bytes[0] as char;
                let sharp: char = bytes[1] as char;
                assert(name@[0] == letter);
                assert(name@[1] == sharp);
                if sharp != 's' {
                    None
                } else {
                    match letter {
                        'a' => Some(PitchClass::As),
                        'c' => Some(PitchClass::Cs),
                        'd' => Some(PitchClass::Ds),
                        'f' => Some(PitchClass::Fs),
                        'g' => Some(PitchClass::Gs),
                        _ => None,
                    }
                }
            } else {
                None
            }
        },
        None => {
            proof {
                if pitch_named(name@) is Some {
                    assert forall|i: int| 0 <= i < name@.len() implies '\0' <= #[trigger] name@[i]
                        <= '\u{7f}' by {}
                }
            }
            None
        },
    }
}

impl Note {
    /// Whether the note is consistent: its name is that of a pitch class,
    /// and its sound id, its column and its key colour are those of that
    /// pitch class in the note's octave.
    pub open spec fn wf(&self) -> bool {
        match pitch_named(self.base@) {
            Some(pitch) => self@ == note_of(pitch, self.frequency, self.color, self.duration),
            None => false,
        }
    }

    /// Tests whether the note is consistent. A note that comes from
    /// outside, such as one that a peer sent, is to be tested before it is
    /// played.
    pub fn is_consistent(&self) -> (r: bool)
        ensures
            r == self.wf(),
    {
        match pitch_from_name(self.base.as_str()) {
            Some(pitch) => {
                let expected = Note::of(pitch, self.frequency, self.color, self.duration);
                proof {
                    lemma_pitch_named(self.base@, pitch);
                }
                let same: bool = self.sound == expected.sound && self.position
                    == expected.position && self.white == expected.white;
                same
            },
            None => false,
        }
    }

    /// The note of a pitch class in an octave.
    pub fn of(pitch: PitchClass, frequency: i8, color: Color, duration: u64) -> (r: Note)
        ensures
            r@ == note_of(pitch, frequency, color, duration),
            r.position == screen_position(pitch, frequency as int),
            r.wf(),
    {
        proof {
            lemma_pitch_named(pitch.name(), pitch);
        }
        let home = slot_at(pitch.home_slot());
        let octaves: i16 = (frequency as i16) - (home.octave_delta as i16);
        let mut sound = String::from_str(pitch.as_str());
        let digits = i64_to_string(frequency as i64);
        sound.append(digits.as_str());
        Note {
            sound,
            base: String::from_str(pitch.as_str()),
            frequency,
            position: home.screen_offset + OCTAVE_WIDTH * octaves,
            white: pitch.is_white(),
            color,
            duration,
        }
    }

    /// Divides a sound id into its name and its octave.
    pub fn extract_base_sound_and_frequency(note: &str) -> (r: Option<(String, i8)>)
        ensures
            match r {
                Some((base, octave)) => sound_parts(note@) == Some((base@, octave)),
                None => sound_parts(note@) is None,
            },
    {
        match ascii_bytes(note) {
            Some(bytes) => {
                let n: usize = bytes.len();
                let mut at: usize = 1;
                while at < n
                    invariant
                        1 <= at,
                        n == bytes@.len(),
                        n == note@.len(),
                        bytes_as_chars(bytes@) == note@,
                        is_ascii_chars(note@),
                        split_point(note@, 1) == split_point(note@, at as int),
                    decreases n - at,
                {
                    match parse_i8_from(bytes, at) {
                        Some(octave) => {
                            let base = note.substring_ascii(0, at);
                            return Some((String::from_str(base), octave));
                        },
                        None => {},
                    }
                    at += 1;
                }
                None
            },
            None => None,
        }
    }

    /// Makes the note that a name and an octave describe.
    ///
    /// A name that names no pitch class is refused: no other note stands in
    /// for it.
    pub fn parse_note(base_sound: &str, frequency: i8, color: Color, duration: u64) -> (r: Result<
        Note,
        NoteError,
    >)
        ensures
            match r {
                Ok(note) => named_note(base_sound@, frequency, color, duration) == Some(note@)
                    && note.wf(),
                Err(e) => named_note(base_sound@, frequency, color, duration) is None && e
                    == NoteError::UnknownPitchClass,
            },
    {
        match pitch_from_name(base_sound) {
            Some(pitch) => Ok(Note::of(pitch, frequency, color, duration)),
            None => Err(NoteError::UnknownPitchClass),
        }
    }

    /// Makes the note that a sound id describes.
    ///
    /// The result is the note of the id's pitch class and octave, and there
    /// is none where the text is no sound id.
    pub fn from(sound: &str, color: Color, duration: u64) -> (r: Option<Note>)
        ensures
            match r {
                Some(note) => parsed_note(sound@, color, duration) == Some(note@) && note.wf(),
                None => parsed_note(sound@, color, duration) is None,
            },
    {
        match Note::extract_base_sound_and_frequency(sound) {
            Some((base, frequency)) => {
                match Note::parse_note(base.as_str(), frequency, color, duration) {
                    Ok(note) => Some(note),
                    Err(_) => None,
                }
            },
            None => None,
        }
    }

    /// Writes the sound id of the note's name and octave. For a consistent
    /// note that is the sound id it holds.
    pub fn to_sound_id(&self) -> (r: String)
        ensures
            r@ == self.base@ + signed_decimal(self.frequency as int),
            self.wf() ==> r@ == self.sound@,
    {
        proof {
            if self.wf() {
                lemma_pitch_named(self.base@, pitch_named(self.base@)->0);
            }
        }
        let mut id = self.base.clone();
        let digits = i64_to_string(self.frequency as i64);
        id.append(digits.as_str());
        id
    }
}

/// Reads a key event, at an octave cursor, as the sound id it plays.
///
/// The result is `key_base_note` of the two arguments: keys that play no
/// note give nothing, and the same key at the same cursor always gives the
/// same text.
pub fn key_to_base_note(key: KeyEvent, sequence: i8) -> (r: Option<String>)
    ensures
        match r {
            Some(text) => key_base_note(key, sequence as int) == Some(text@),
            None => key_base_note(key, sequence as int) is None,
        },
{
    match decode_key(key, sequence) {
        Some((i, octave)) => {
            let mut text = String::from_str(slot_at(i).pitch_class.as_str());
            let digits = i64_to_string(octave as i64);
            text.append(digits.as_str());
            Some(text)
        },
        None => None,
    }
}

/// The lowest octave that has samples.
pub const LOWEST_SAMPLE_OCTAVE: i8 = -1;

/// The number of octaves that have samples.
pub const SAMPLE_OCTAVES: usize = 9;

/// The number of samples: one for each pitch class in each octave that has
/// samples.
pub const SAMPLE_COUNT: usize = 108;

/// The sound id of the sample at place `i`: the samples are ordered by
/// pitch class, as the home slots are, and within a pitch class by octave.
pub open spec fn sample_id(i: int) -> Seq<char> {
    sound_id(slot(i / 9).pitch_class, i % 9 + LOWEST_SAMPLE_OCTAVE)
}

/// The sound ids of all samples, in order.
pub fn sample_ids() -> (r: Vec<String>)
    ensures
        r@.len() == SAMPLE_COUNT,
        forall|i: int| 0 <= i < SAMPLE_COUNT ==> (#[trigger] r@[i])@ == sample_id(i),
{
    let mut ids: Vec<String> = Vec::new();
    let mut home: usize = 0;
    while home < 12
        invariant
            home <= 12,
            ids@.len() == 9 * home,
            forall|i: int| 0 <= i < ids@.len() ==> (#[trigger] ids@[i])@ == sample_id(i),
        decreases 12 - home,
    {
        let pitch = slot_at(home).pitch_class;
        let mut step: usize = 0;
        while step < SAMPLE_OCTAVES
            invariant
                home < 12,
                step <= SAMPLE_OCTAVES,
                pitch == slot(home as int).pitch_class,
                ids@.len() == 9 * home + step,
                forall|i: int| 0 <= i < ids@.len() ==> (#[trigger] ids@[i])@ == sample_id(i),
            decreases SAMPLE_OCTAVES - step,
        {
            let octave: i64 = step as i64 + LOWEST_SAMPLE_OCTAVE as i64;
            let mut id = String::from_str(pitch.as_str());
            let digits = i64_to_string(octave);
            id.append(digits.as_str());
            let ghost place = ids@.len() as int;
            assert(place / 9 == home && place % 9 == step);
            ids.push(id);
            step += 1;
        }
        home += 1;
    }
    ids
}

/// Reading a sound id undoes writing it: the id of a pitch class in an
/// octave divides into the name of that pitch class and that octave, and
/// describes the note of that pitch class in that octave.
pub proof fn lemma_sound_id_round_trip(pitch: PitchClass, octave: i8, color: Color, duration: u64)
    ensures
        sound_parts(sound_id(pitch, octave as int)) == Some((pitch.name(), octave)),
        parsed_note(sound_id(pitch, octave as int), color, duration) == Some(
            note_of(pitch, octave, color, duration),
        ),
{
    let name = pitch.name();
    let digits = signed_decimal(octave as int);
    let s = sound_id(pitch, octave as int);
    let n = s.len() as int;
    lemma_parse_signed_decimal(octave as int);
    lemma_parsed_text_is_ascii(digits);
    assert(is_ascii_chars(s)) by {
        assert forall|i: int| 0 <= i < s.len() implies '\0' <= #[trigger] s[i] <= '\u{7f}' by {
            if i >= name.len() {
                assert(s[i] == digits[i - name.len()]);
            }
        }
    }
    assert(s.subrange(name.len() as int, n) =~= digits);
    assert(s.subrange(0, name.len() as int) =~= name);
    assert(parse_i8(digits) == Some(octave));
    if name.len() == 2 {
        let rest = s.subrange(1, n);
        assert(rest[0] == 's');
        assert(!has_sign(rest));
        assert(unsigned_part(rest) == rest);
        assert(!is_digit(rest[0]));
        assert(parse_int(rest) is None);
        assert(split_point(s, 1) == split_point(s, 2));
    }
    assert(split_point(s, name.len() as int) == Some(name.len() as int));
    lemma_pitch_named(name, pitch);
}

/// `split_point` finds the first place, from `from` on, at which the rest
/// of the text denotes an octave: the rest denotes one there and at no
/// place before, and where it finds none there is none.
pub proof fn lemma_split_point(s: Seq<char>, from: int)
    requires
        0 <= from,
    ensures
        match split_point(s, from) {
            Some(at) => {
                &&& from <= at < s.len()
                &&& parse_i8(s.subrange(at, s.len() as int)) is Some
                &&& forall|j: int|
                    from <= j < at ==> parse_i8(#[trigger] s.subrange(j, s.len() as int)) is None
            },
            None => forall|j: int|
                from <= j < s.len() ==> parse_i8(#[trigger] s.subrange(j, s.len() as int))
                    is None,
        },
    decreases s.len() - from,
{
    if from < s.len() && parse_i8(s.subrange(from, s.len() as int)) is None {
        lemma_split_point(s, from + 1);
    }
}

/// An octave that no note can hold gives a text that is no sound id: what
/// is written for a pitch class in an octave below the lowest or above the
/// highest describes no note.
pub proof fn lemma_octave_beyond_a_note(
    pitch: PitchClass,
    octave: int,
    color: Color,
    duration: u64,
)
    requires
        octave < -128 || octave > 127,
    ensures
        parsed_note(sound_id(pitch, octave), color, duration) is None,
{
    let name = pitch.name();
    let digits = signed_decimal(octave);
    let s = sound_id(pitch, octave);
    let n = s.len() as int;
    lemma_parse_signed_decimal(octave);
    lemma_split_point(s, 1);
    assert(s.subrange(name.len() as int, n) =~= digits);
    assert(parse_i8(digits) is None);
    if name.len() == 2 {
        let rest = s.subrange(1, n);
        assert(rest[0] == 's');
        assert(unsigned_part(rest) == rest);
        assert(!is_digit(rest[0]));
        assert(parse_int(rest) is None);
    }
    if sound_parts(s) is Some {
        let at = split_point(s, 1)->0;
        assert(at > name.len());
        let base = s.subrange(0, at);
        assert(base[name.len() as int] == digits[0]);
        assert(digits[0] == '-' || is_digit(digits[0])) by {
            if octave >= 0 {
                lemma_decimal_reads_back(octave as nat);
                assert(is_digit(decimal(octave as nat)[0]));
            }
        }
        assert(pitch_named(base) is None);
    }
}

/// A consistent note reads back from its own sound id: the id describes
/// the note itself.
pub proof fn lemma_note_reads_back(note: Note)
    requires
        note.wf(),
    ensures
        parsed_note(note.sound@, note.color, note.duration) == Some(note@),
        sound_parts(note.sound@) == Some((note.base@, note.frequency)),
{
    let pitch = pitch_named(note.base@)->0;
    lemma_pitch_named(note.base@, pitch);
    lemma_sound_id_round_trip(pitch, note.frequency, note.color, note.duration);
}

/// Two keys whose slots hold the same pitch class at the same distance from
/// the cursor play alike: the same text, and so the same note.
pub proof fn lemma_alias_keys_play_alike(
    i: int,
    j: int,
    cursor: int,
    color: Color,
    duration: u64,
)
    requires
        0 <= i < SLOT_COUNT,
        0 <= j < SLOT_COUNT,
        slot(i).pitch_class == slot(j).pitch_class,
        slot(i).octave_delta == slot(j).octave_delta,
    ensures
        key_base_note(KeyEvent::Char(slot(i).key_char), cursor) is Some,
        key_base_note(KeyEvent::Char(slot(i).key_char), cursor) == key_base_note(
            KeyEvent::Char(slot(j).key_char),
            cursor,
        ),
        key_base_note(KeyEvent::Ctrl(slot(i).key_char), cursor) == key_base_note(
            KeyEvent::Ctrl(slot(j).key_char),
            cursor,
        ),
        key_base_note(KeyEvent::Char(with_shift(slot(i).key_char)), cursor) == key_base_note(
            KeyEvent::Char(with_shift(slot(j).key_char)),
            cursor,
        ),
        parsed_note(
            key_base_note(KeyEvent::Char(slot(i).key_char), cursor)->0,
            color,
            duration,
        ) == parsed_note(
            key_base_note(KeyEvent::Char(slot(j).key_char), cursor)->0,
            color,
            duration,
        ),
{
    lemma_shift_plays_an_octave_above(i, cursor);
    lemma_shift_plays_an_octave_above(j, cursor);
    lemma_ctrl_plays_an_octave_below(slot(i).key_char, cursor);
    lemma_ctrl_plays_an_octave_below(slot(j).key_char, cursor);
}

/// A control combination plays the text that its plain key plays with the
/// cursor one octave lower, and a shifted key the text that its plain key
/// plays with the cursor one octave higher.
pub proof fn lemma_modifiers_move_the_octave(i: int, cursor: int)
    requires
        0 <= i < SLOT_COUNT,
    ensures
        key_base_note(KeyEvent::Char(slot(i).key_char), cursor) == Some(
            sound_id(slot(i).pitch_class, cursor + slot(i).octave_delta),
        ),
        key_base_note(KeyEvent::Ctrl(slot(i).key_char), cursor) == Some(
            sound_id(slot(i).pitch_class, cursor + slot(i).octave_delta - 1),
        ),
        key_base_note(KeyEvent::Char(with_shift(slot(i).key_char)), cursor) == Some(
            sound_id(slot(i).pitch_class, cursor + slot(i).octave_delta + 1),
        ),
{
    lemma_shift_plays_an_octave_above(i, cursor);
    lemma_ctrl_plays_an_octave_below(slot(i).key_char, cursor);
}

/// What a key plays live is what its text plays back: where a key event
/// plays slot `i` in an octave that a note can hold, the text it gives
/// describes the note of that slot's pitch class in that octave, of the
/// slot's colour, with its mark in the slot's column moved by one octave's
/// width for each octave that the cursor and the modifiers add.
pub proof fn lemma_key_text_describes_its_slot(
    key: KeyEvent,
    cursor: int,
    color: Color,
    duration: u64,
)
    requires
        decode(key, cursor) matches Some((i, octave)) && -128 <= octave <= 127,
    ensures
        ({
            let (i, octave) = decode(key, cursor)->0;
            let note = note_of(slot(i).pitch_class, octave as i8, color, duration);
            &&& parsed_note(key_base_note(key, cursor)->0, color, duration) == Some(note)
            &&& note.white == slot(i).is_white
            &&& note.position == slot(i).screen_offset + OCTAVE_WIDTH * (octave - slot(
                i,
            ).octave_delta)
        }),
{
    let (i, octave) = decode(key, cursor)->0;
    let (c, moved) = struck(key)->0;
    lemma_slot_of_key(c, i);
    lemma_slot_agrees_with_home(i);
    lemma_sound_id_round_trip(slot(i).pitch_class, octave as i8, color, duration);
}

} // verus!
