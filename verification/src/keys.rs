//! Key events, and how a key event is read as a slot of the pitch table and
//! an octave.
//!
//! A terminal delivers Enter for Ctrl+m and Tab for Ctrl+i, so those two are
//! read as the control combinations they stand for. A control combination
//! plays one octave below its plain key, a shifted key one octave above.

use vstd::prelude::*;
use crate::pitch::{find_slot, slot, slot_at, slot_of_key, SLOT_COUNT};

verus! {

/// One event of the keyboard, as a terminal reports it.
#[derive(Clone, Copy, Debug, PartialEq, Eq, Structural)]
pub enum KeyEvent {
    Backspace,
    Enter,
    Left,
    Right,
    Up,
    Down,
    Home,
    End,
    PageUp,
    PageDown,
    Tab,
    BackTab,
    Delete,
    Insert,
    F(u8),
    Char(char),
    Alt(char),
    Ctrl(char),
    Null,
    Esc,
    CtrlUp,
    CtrlDown,
    CtrlRight,
    CtrlLeft,
    ShiftUp,
    ShiftDown,
    ShiftRight,
    ShiftLeft,
}

/// The character that a key event carries once a control modifier is taken
/// off, and the octaves by which the modifier moves the note. Events that
/// carry no character give nothing.
pub open spec fn without_ctrl(key: KeyEvent) -> Option<(char, int)> {
    match key {
        KeyEvent::Enter => Some(('m', -1)),
        KeyEvent::Tab => Some(('i', -1)),
        KeyEvent::Ctrl(c) => Some((c, -1)),
        KeyEvent::Char(c) => Some((c, 0)),
        _ => None,
    }
}

/// Whether `c` is a capital letter of the basic alphabet.
pub open spec fn is_capital(c: char) -> bool {
    'A' <= c && c <= 'Z'
}

/// The small letter of a capital letter.
pub open spec fn small_letter(c: char) -> char
    recommends
        is_capital(c),
{
    ((c as int) + 32) as char
}

/// The key under a shifted symbol: the character that the same key types
/// without Shift.
pub open spec fn symbol_key(c: char) -> Option<char> {
    if c == '!' {
        Some('1')
    } else if c == '@' {
        Some('2')
    } else if c == '$' {
        Some('4')
    } else if c == '%' {
        Some('5')
    } else if c == '&' {
        Some('7')
    } else if c == '*' {
        Some('8')
    } else if c == '(' {
        Some('9')
    } else if c == '"' {
        Some('\'')
    } else if c == '<' {
        Some(',')
    } else if c == '>' {
        Some('.')
    } else if c == '?' {
        Some('/')
    } else if c == '{' {
        Some('[')
    } else if c == '}' {
        Some(']')
    } else {
        None
    }
}

/// The character that a typed character stands for once Shift is taken off,
/// and the octaves by which Shift moves the note.
pub open spec fn without_shift(c: char) -> (char, int) {
    if is_capital(c) {
        (small_letter(c), 1)
    } else if symbol_key(c) is Some {
        (symbol_key(c)->0, 1)
    } else {
        (c, 0)
    }
}

/// The plain character of a key event and the octaves by which its
/// modifiers move the note.
pub open spec fn struck(key: KeyEvent) -> Option<(char, int)> {
    match without_ctrl(key) {
        Some((c, by_ctrl)) => Some((without_shift(c).0, by_ctrl + without_shift(c).1)),
        None => None,
    }
}

/// The slot that a key event plays and the octave it plays it in, while the
/// octave cursor is at `cursor`. Events that play no note give nothing.
pub open spec fn decode(key: KeyEvent, cursor: int) -> Option<(int, int)> {
    match struck(key) {
        Some((c, moved)) => match slot_of_key(c) {
            Some(i) => Some((i, cursor + moved + slot(i).octave_delta)),
            None => None,
        },
        None => None,
    }
}

/// The character that the key of `c` types with Shift held: the capital of a
/// small letter, the symbol above a digit or a punctuation mark.
pub open spec fn with_shift(c: char) -> char {
    if 'a' <= c && c <= 'z' {
        ((c as int) - 32) as char
    } else if c == '1' {
        '!'
    } else if c == '2' {
        '@'
    } else if c == '4' {
        '$'
    } else if c == '5' {
        '%'
    } else if c == '7' {
        '&'
    } else if c == '8' {
        '*'
    } else if c == '9' {
        '('
    } else if c == '\'' {
        '"'
    } else if c == ',' {
        '<'
    } else if c == '.' {
        '>'
    } else if c == '/' {
        '?'
    } else if c == '[' {
        '{'
    } else if c == ']' {
        '}'
    } else {
        c
    }
}

/// Takes Shift off a typed character.
fn unshift(c: char) -> (r: (char, i16))
    ensures
        r.0 == without_shift(c).0,
        r.1 == without_shift(c).1,
        0 <= r.1 <= 1,
{
    if c >= 'A' && c <= 'Z' {
        let code: u8 = c as u8;
        ((code + 32) as char, 1)
    } else {
        match c {
            '!' => ('1', 1),
            '@' => ('2', 1),
            '$' => ('4', 1),
            '%' => ('5', 1),
            '&' => ('7', 1),
            '*' => ('8', 1),
            '(' => ('9', 1),
            '"' => ('\'', 1),
            '<' => (',', 1),
            '>' => ('.', 1),
            '?' => ('/', 1),
            '{' => ('[', 1),
            '}' => (']', 1),
            _ => (c, 0),
        }
    }
}

/// Reads a key event as the plain character it stands for and the octaves
/// by which its modifiers move the note.
pub fn strike(key: KeyEvent) -> (r: Option<(char, i16)>)
    ensures
        match r {
            Some((c, moved)) => struck(key) == Some((c, moved as int)),
            None => struck(key) is None,
        },
{
    let plain: Option<(char, i16)> = match key {
        KeyEvent::Enter => Some(('m', -1)),
        KeyEvent::Tab => Some(('i', -1)),
        KeyEvent::Ctrl(c) => Some((c, -1)),
        KeyEvent::Char(c) => Some((c, 0)),
        _ => None,
    };
    match plain {
        Some((typed, by_ctrl)) => {
            let (c, by_shift) = unshift(typed);
            Some((c, by_ctrl + by_shift))
        },
        None => None,
    }
}

/// Reads a key event as a slot and an octave.
///
/// The result is `decode` of the two arguments and of nothing else: the
/// same event at the same cursor always plays the same note.
pub fn decode_key(key: KeyEvent, sequence: i8) -> (r: Option<(usize, i16)>)
    ensures
        match r {
            Some((i, octave)) => i < SLOT_COUNT && decode(key, sequence as int) == Some(
                (i as int, octave as int),
            ),
            None => decode(key, sequence as int) is None,
        },
{
    match strike(key) {
        Some((c, moved)) => match find_slot(c) {
            Some(i) => {
                let delta: i16 = slot_at(i).octave_delta as i16;
                let cursor: i16 = sequence as i16;
                Some((i, cursor + moved + delta))
            },
            None => None,
        },
        None => None,
    }
}

/// Enter plays what Ctrl+m plays, and Tab what Ctrl+i plays.
pub proof fn lemma_terminal_aliases(cursor: int)
    ensures
        decode(KeyEvent::Enter, cursor) == decode(KeyEvent::Ctrl('m'), cursor),
        decode(KeyEvent::Tab, cursor) == decode(KeyEvent::Ctrl('i'), cursor),
{
}

/// A control combination plays the slot of its plain key, one octave lower;
/// and it plays nothing where the plain key plays nothing.
pub proof fn lemma_ctrl_plays_an_octave_below(c: char, cursor: int)
    ensures
        decode(KeyEvent::Ctrl(c), cursor) == match decode(KeyEvent::Char(c), cursor) {
            Some((i, octave)) => Some((i, octave - 1)),
            None => None,
        },
{
}

/// The key of a slot plays that slot at the cursor's octave moved by the
/// slot's own distance, and with Shift held it plays the same slot one
/// octave higher.
pub proof fn lemma_shift_plays_an_octave_above(i: int, cursor: int)
    requires
        0 <= i < SLOT_COUNT,
    ensures
        decode(KeyEvent::Char(slot(i).key_char), cursor) == Some(
            (i, cursor + slot(i).octave_delta),
        ),
        with_shift(slot(i).key_char) != slot(i).key_char,
        decode(KeyEvent::Char(with_shift(slot(i).key_char)), cursor) == Some(
            (i, cursor + slot(i).octave_delta + 1),
        ),
{
}

} // verus!
