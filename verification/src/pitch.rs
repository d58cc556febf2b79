//! The pitch table: twelve pitch classes, and the fixed slots that map the
//! keys of a computer keyboard to them.
//!
//! Every part of the engine reads this one table, so a key sounds, shows and
//! records as the same note.

use vstd::prelude::*;
use vstd::string::*;

verus! {

/// One of the twelve note names of an octave. A trailing `s` marks a sharp.
#[derive(Clone, Copy, Debug, PartialEq, Eq, Structural)]
pub enum PitchClass {
    A,
    As,
    B,
    C,
    Cs,
    D,
    Ds,
    E,
    F,
    Fs,
    G,
    Gs,
}

impl PitchClass {
    /// The name as it stands in a sound id.
    pub open spec fn name(self) -> Seq<char> {
        match self {
            PitchClass::A => seq!['a'],
            PitchClass::As => seq!['a', 's'],
            PitchClass::B => seq!['b'],
            PitchClass::C => seq!['c'],
            PitchClass::Cs => seq!['c', 's'],
            PitchClass::D => seq!['d'],
            PitchClass::Ds => seq!['d', 's'],
            PitchClass::E => seq!['e'],
            PitchClass::F => seq!['f'],
            PitchClass::Fs => seq!['f', 's'],
            PitchClass::G => seq!['g'],
            PitchClass::Gs => seq!['g', 's'],
        }
    }

    /// Whether the pitch class sits on a white key of a piano.
    pub open spec fn spec_is_white(self) -> bool {
        match self {
            PitchClass::A => true,
            PitchClass::As => false,
            PitchClass::B => true,
            PitchClass::C => true,
            PitchClass::Cs => false,
            PitchClass::D => true,
            PitchClass::Ds => false,
            PitchClass::E => true,
            PitchClass::F => true,
            PitchClass::Fs => false,
            PitchClass::G => true,
            PitchClass::Gs => false,
        }
    }

    /// The slot that places the pitch class on the screen: the first of the
    /// table that plays it.
    pub open spec fn home(self) -> int {
        match self {
            PitchClass::A => 0,
            PitchClass::As => 1,
            PitchClass::B => 2,
            PitchClass::C => 3,
            PitchClass::Cs => 4,
            PitchClass::D => 5,
            PitchClass::Ds => 6,
            PitchClass::E => 7,
            PitchClass::F => 8,
            PitchClass::Fs => 9,
            PitchClass::G => 10,
            PitchClass::Gs => 11,
        }
    }

    /// The name as it stands in a sound id.
    pub fn as_str(self) -> (r: &'static str)
        ensures
            r@ == self.name(),
    {
        proof {
            reveal_strlit("a");
            reveal_strlit("as");
            reveal_strlit("b");
            reveal_strlit("c");
            reveal_strlit("cs");
            reveal_strlit("d");
            reveal_strlit("ds");
            reveal_strlit("e");
            reveal_strlit("f");
            reveal_strlit("fs");
            reveal_strlit("g");
            reveal_strlit("gs");
        }
        let r: &'static str = match self {
            PitchClass::A => "a",
            PitchClass::As => "as",
            PitchClass::B => "b",
            PitchClass::C => "c",
            PitchClass::Cs => "cs",
            PitchClass::D => "d",
            PitchClass::Ds => "ds",
            PitchClass::E => "e",
            PitchClass::F => "f",
            PitchClass::Fs => "fs",
            PitchClass::G => "g",
            PitchClass::Gs => "gs",
        };
        assert(r@ =~= self.name());
        r
    }

    /// Whether the pitch class sits on a white key of a piano.
    #[verifier::when_used_as_spec(spec_is_white)]
    pub fn is_white(self) -> (r: bool)
        ensures
            r == self.spec_is_white(),
    {
        match self {
            PitchClass::A => true,
            PitchClass::As => false,
            PitchClass::B => true,
            PitchClass::C => true,
            PitchClass::Cs => false,
            PitchClass::D => true,
            PitchClass::Ds => false,
            PitchClass::E => true,
            PitchClass::F => true,
            PitchClass::Fs => false,
            PitchClass::G => true,
            PitchClass::Gs => false,
        }
    }

    /// The slot that places the pitch class on the screen.
    pub fn home_slot(self) -> (r: usize)
        ensures
            r == self.home(),
            r < SLOT_COUNT,
    {
        match self {
            PitchClass::A => 0,
            PitchClass::As => 1,
            PitchClass::B => 2,
            PitchClass::C => 3,
            PitchClass::Cs => 4,
            PitchClass::D => 5,
            PitchClass::Ds => 6,
            PitchClass::E => 7,
            PitchClass::F => 8,
            PitchClass::Fs => 9,
            PitchClass::G => 10,
            PitchClass::Gs => 11,
        }
    }
}

/// The pitch class that `name` names, if it names one.
pub open spec fn pitch_named(name: Seq<char>) -> Option<PitchClass> {
    if name.len() == 1 {
        if name[0] == 'a' {
            Some(PitchClass::A)
        } else if name[0] == 'b' {
            Some(PitchClass::B)
        } else if name[0] == 'c' {
            Some(PitchClass::C)
        } else if name[0] == 'd' {
            Some(PitchClass::D)
        } else if name[0] == 'e' {
            Some(PitchClass::E)
        } else if name[0] == 'f' {
            Some(PitchClass::F)
        } else if name[0] == 'g' {
            Some(PitchClass::G)
        } else {
            None
        }
    } else if name.len() == 2 && name[1] == 's' {
        if name[0] == 'a' {
            Some(PitchClass::As)
        } else if name[0] == 'c' {
            Some(PitchClass::Cs)
        } else if name[0] == 'd' {
            Some(PitchClass::Ds)
        } else if name[0] == 'f' {
            Some(PitchClass::Fs)
        } else if name[0] == 'g' {
            Some(PitchClass::Gs)
        } else {
            None
        }
    } else {
        None
    }
}

/// `pitch_named` finds a pitch class exactly under its own name.
pub proof fn lemma_pitch_named(name: Seq<char>, pitch: PitchClass)
    ensures
        pitch_named(name) == Some(pitch) <==> name == pitch.name(),
        pitch_named(pitch.name()) == Some(pitch),
{
    if pitch_named(name) == Some(pitch) {
        assert(name =~= pitch.name());
    }
}

/// One key of the keyboard and the note it plays.
#[derive(Clone, Copy, Debug, PartialEq, Eq, Structural)]
pub struct Slot {
    /// The character the key types without a modifier.
    pub key_char: char,
    /// The pitch class the key plays.
    pub pitch_class: PitchClass,
    /// The column of the key's mark while the octave cursor is at zero.
    pub screen_offset: i16,
    /// Whether the key plays a white key of the piano.
    pub is_white: bool,
    /// How far the key's octave lies from the octave cursor.
    pub octave_delta: i8,
}

/// The number of slots.
pub const SLOT_COUNT: usize = 37;

/// The columns by which the marks of one pitch class lie apart from one
/// octave to the next.
pub const OCTAVE_WIDTH: i16 = 21;

/// The slot table.
pub open spec fn slot(i: int) -> Slot
    recommends
        0 <= i < SLOT_COUNT,
{
    if i == 0 {
        (Slot { key_char: 'z', pitch_class: PitchClass::A, screen_offset: 1, is_white: true, octave_delta: -1i8 })
    } else if i == 1 {
        (Slot { key_char: 's', pitch_class: PitchClass::As, screen_offset: 3, is_white: false, octave_delta: -1i8 })
    } else if i == 2 {
        (Slot { key_char: 'x', pitch_class: PitchClass::B, screen_offset: 4, is_white: true, octave_delta: -1i8 })
    } else if i == 3 {
        (Slot { key_char: 'c', pitch_class: PitchClass::C, screen_offset: 7, is_white: true, octave_delta: 0i8 })
    } else if i == 4 {
        (Slot { key_char: 'f', pitch_class: PitchClass::Cs, screen_offset: 9, is_white: false, octave_delta: 0i8 })
    } else if i == 5 {
        (Slot { key_char: 'v', pitch_class: PitchClass::D, screen_offset: 10, is_white: true, octave_delta: 0i8 })
    } else if i == 6 {
        (Slot { key_char: 'g', pitch_class: PitchClass::Ds, screen_offset: 12, is_white: false, octave_delta: 0i8 })
    } else if i == 7 {
        (Slot { key_char: 'b', pitch_class: PitchClass::E, screen_offset: 13, is_white: true, octave_delta: 0i8 })
    } else if i == 8 {
        (Slot { key_char: 'n', pitch_class: PitchClass::F, screen_offset: 16, is_white: true, octave_delta: 0i8 })
    } else if i == 9 {
        (Slot { key_char: 'j', pitch_class: PitchClass::Fs, screen_offset: 18, is_white: false, octave_delta: 0i8 })
    } else if i == 10 {
        (Slot { key_char: 'm', pitch_class: PitchClass::G, screen_offset: 19, is_white: true, octave_delta: 0i8 })
    } else if i == 11 {
        (Slot { key_char: 'k', pitch_class: PitchClass::Gs, screen_offset: 21, is_white: false, octave_delta: 0i8 })
    } else if i == 12 {
        (Slot { key_char: '1', pitch_class: PitchClass::Gs, screen_offset: 21, is_white: false, octave_delta: 0i8 })
    } else if i == 13 {
        (Slot { key_char: ',', pitch_class: PitchClass::A, screen_offset: 22, is_white: true, octave_delta: 0i8 })
    } else if i == 14 {
        (Slot { key_char: 'q', pitch_class: PitchClass::A, screen_offset: 22, is_white: true, octave_delta: 0i8 })
    } else if i == 15 {
        (Slot { key_char: 'l', pitch_class: PitchClass::As, screen_offset: 24, is_white: false, octave_delta: 0i8 })
    } else if i == 16 {
        (Slot { key_char: '2', pitch_class: PitchClass::As, screen_offset: 24, is_white: false, octave_delta: 0i8 })
    } else if i == 17 {
        (Slot { key_char: '.', pitch_class: PitchClass::B, screen_offset: 25, is_white: true, octave_delta: 0i8 })
    } else if i == 18 {
        (Slot { key_char: 'w', pitch_class: PitchClass::B, screen_offset: 25, is_white: true, octave_delta: 0i8 })
    } else if i == 19 {
        (Slot { key_char: '/', pitch_class: PitchClass::C, screen_offset: 28, is_white: true, octave_delta: 1i8 })
    } else if i == 20 {
        (Slot { key_char: 'e', pitch_class: PitchClass::C, screen_offset: 28, is_white: true, octave_delta: 1i8 })
    } else if i == 21 {
        (Slot { key_char: '\'', pitch_class: PitchClass::Cs, screen_offset: 30, is_white: false, octave_delta: 1i8 })
    } else if i == 22 {
        (Slot { key_char: '4', pitch_class: PitchClass::Cs, screen_offset: 30, is_white: false, octave_delta: 1i8 })
    } else if i == 23 {
        (Slot { key_char: 'r', pitch_class: PitchClass::D, screen_offset: 31, is_white: true, octave_delta: 1i8 })
    } else if i == 24 {
        (Slot { key_char: '5', pitch_class: PitchClass::Ds, screen_offset: 33, is_white: false, octave_delta: 1i8 })
    } else if i == 25 {
        (Slot { key_char: 't', pitch_class: PitchClass::E, screen_offset: 34, is_white: true, octave_delta: 1i8 })
    } else if i == 26 {
        (Slot { key_char: 'y', pitch_class: PitchClass::F, screen_offset: 37, is_white: true, octave_delta: 1i8 })
    } else if i == 27 {
        (Slot { key_char: '7', pitch_class: PitchClass::Fs, screen_offset: 39, is_white: false, octave_delta: 1i8 })
    } else if i == 28 {
        (Slot { key_char: 'u', pitch_class: PitchClass::G, screen_offset: 40, is_white: true, octave_delta: 1i8 })
    } else if i == 29 {
        (Slot { key_char: '8', pitch_class: PitchClass::Gs, screen_offset: 42, is_white: false, octave_delta: 1i8 })
    } else if i == 30 {
        (Slot { key_char: 'i', pitch_class: PitchClass::A, screen_offset: 43, is_white: true, octave_delta: 1i8 })
    } else if i == 31 {
        (Slot { key_char: '9', pitch_class: PitchClass::As, screen_offset: 45, is_white: false, octave_delta: 1i8 })
    } else if i == 32 {
        (Slot { key_char: 'o', pitch_class: PitchClass::B, screen_offset: 46, is_white: true, octave_delta: 1i8 })
    } else if i == 33 {
        (Slot { key_char: 'p', pitch_class: PitchClass::C, screen_offset: 49, is_white: true, octave_delta: 2i8 })
    } else if i == 34 {
        (Slot { key_char: '[', pitch_class: PitchClass::D, screen_offset: 52, is_white: true, octave_delta: 2i8 })
    } else if i == 35 {
        (Slot { key_char: ']', pitch_class: PitchClass::E, screen_offset: 55, is_white: true, octave_delta: 2i8 })
    } else {
        (Slot { key_char: 'a', pitch_class: PitchClass::Gs, screen_offset: 0, is_white: false, octave_delta: -1i8 })
    }
}

/// The slot whose key types `c`, if there is one.
pub open spec fn slot_of_key(c: char) -> Option<int> {
    if c == 'z' {
        Some(0)
    } else if c == 's' {
        Some(1)
    } else if c == 'x' {
        Some(2)
    } else if c == 'c' {
        Some(3)
    } else if c == 'f' {
        Some(4)
    } else if c == 'v' {
        Some(5)
    } else if c == 'g' {
        Some(6)
    } else if c == 'b' {
        Some(7)
    } else if c == 'n' {
        Some(8)
    } else if c == 'j' {
        Some(9)
    } else if c == 'm' {
        Some(10)
    } else if c == 'k' {
        Some(11)
    } else if c == '1' {
        Some(12)
    } else if c == ',' {
        Some(13)
    } else if c == 'q' {
        Some(14)
    } else if c == 'l' {
        Some(15)
    } else if c == '2' {
        Some(16)
    } else if c == '.' {
        Some(17)
    } else if c == 'w' {
        Some(18)
    } else if c == '/' {
        Some(19)
    } else if c == 'e' {
        Some(20)
    } else if c == '\'' {
        Some(21)
    } else if c == '4' {
        Some(22)
    } else if c == 'r' {
        Some(23)
    } else if c == '5' {
        Some(24)
    } else if c == 't' {
        Some(25)
    } else if c == 'y' {
        Some(26)
    } else if c == '7' {
        Some(27)
    } else if c == 'u' {
        Some(28)
    } else if c == '8' {
        Some(29)
    } else if c == 'i' {
        Some(30)
    } else if c == '9' {
        Some(31)
    } else if c == 'o' {
        Some(32)
    } else if c == 'p' {
        Some(33)
    } else if c == '[' {
        Some(34)
    } else if c == ']' {
        Some(35)
    } else if c == 'a' {
        Some(36)
    } else {
        None
    }
}

/// Reads one slot of the table.
pub fn slot_at(i: usize) -> (r: Slot)
    requires
        i < SLOT_COUNT,
    ensures
        r == slot(i as int),
{
    match i {
        0 => Slot { key_char: 'z', pitch_class: PitchClass::A, screen_offset: 1, is_white: true, octave_delta: -1i8 },
        1 => Slot { key_char: 's', pitch_class: PitchClass::As, screen_offset: 3, is_white: false, octave_delta: -1i8 },
        2 => Slot { key_char: 'x', pitch_class: PitchClass::B, screen_offset: 4, is_white: true, octave_delta: -1i8 },
        3 => Slot { key_char: 'c', pitch_class: PitchClass::C, screen_offset: 7, is_white: true, octave_delta: 0i8 },
        4 => Slot { key_char: 'f', pitch_class: PitchClass::Cs, screen_offset: 9, is_white: false, octave_delta: 0i8 },
        5 => Slot { key_char: 'v', pitch_class: PitchClass::D, screen_offset: 10, is_white: true, octave_delta: 0i8 },
        6 => Slot { key_char: 'g', pitch_class: PitchClass::Ds, screen_offset: 12, is_white: false, octave_delta: 0i8 },
        7 => Slot { key_char: 'b', pitch_class: PitchClass::E, screen_offset: 13, is_white: true, octave_delta: 0i8 },
        8 => Slot { key_char: 'n', pitch_class: PitchClass::F, screen_offset: 16, is_white: true, octave_delta: 0i8 },
        9 => Slot { key_char: 'j', pitch_class: PitchClass::Fs, screen_offset: 18, is_white: false, octave_delta: 0i8 },
        10 => Slot { key_char: 'm', pitch_class: PitchClass::G, screen_offset: 19, is_white: true, octave_delta: 0i8 },
        11 => Slot { key_char: 'k', pitch_class: PitchClass::Gs, screen_offset: 21, is_white: false, octave_delta: 0i8 },
        12 => Slot { key_char: '1', pitch_class: PitchClass::Gs, screen_offset: 21, is_white: false, octave_delta: 0i8 },
        13 => Slot { key_char: ',', pitch_class: PitchClass::A, screen_offset: 22, is_white: true, octave_delta: 0i8 },
        14 => Slot { key_char: 'q', pitch_class: PitchClass::A, screen_offset: 22, is_white: true, octave_delta: 0i8 },
        15 => Slot { key_char: 'l', pitch_class: PitchClass::As, screen_offset: 24, is_white: false, octave_delta: 0i8 },
        16 => Slot { key_char: '2', pitch_class: PitchClass::As, screen_offset: 24, is_white: false, octave_delta: 0i8 },
        17 => Slot { key_char: '.', pitch_class: PitchClass::B, screen_offset: 25, is_white: true, octave_delta: 0i8 },
        18 => Slot { key_char: 'w', pitch_class: PitchClass::B, screen_offset: 25, is_white: true, octave_delta: 0i8 },
        19 => Slot { key_char: '/', pitch_class: PitchClass::C, screen_offset: 28, is_white: true, octave_delta: 1i8 },
        20 => Slot { key_char: 'e', pitch_class: PitchClass::C, screen_offset: 28, is_white: true, octave_delta: 1i8 },
        21 => Slot { key_char: '\'', pitch_class: PitchClass::Cs, screen_offset: 30, is_white: false, octave_delta: 1i8 },
        22 => Slot { key_char: '4', pitch_class: PitchClass::Cs, screen_offset: 30, is_white: false, octave_delta: 1i8 },
        23 => Slot { key_char: 'r', pitch_class: PitchClass::D, screen_offset: 31, is_white: true, octave_delta: 1i8 },
        24 => Slot { key_char: '5', pitch_class: PitchClass::Ds, screen_offset: 33, is_white: false, octave_delta: 1i8 },
        25 => Slot { key_char: 't', pitch_class: PitchClass::E, screen_offset: 34, is_white: true, octave_delta: 1i8 },
        26 => Slot { key_char: 'y', pitch_class: PitchClass::F, screen_offset: 37, is_white: true, octave_delta: 1i8 },
        27 => Slot { key_char: '7', pitch_class: PitchClass::Fs, screen_offset: 39, is_white: false, octave_delta: 1i8 },
        28 => Slot { key_char: 'u', pitch_class: PitchClass::G, screen_offset: 40, is_white: true, octave_delta: 1i8 },
        29 => Slot { key_char: '8', pitch_class: PitchClass::Gs, screen_offset: 42, is_white: false, octave_delta: 1i8 },
        30 => Slot { key_char: 'i', pitch_class: PitchClass::A, screen_offset: 43, is_white: true, octave_delta: 1i8 },
        31 => Slot { key_char: '9', pitch_class: PitchClass::As, screen_offset: 45, is_white: false, octave_delta: 1i8 },
        32 => Slot { key_char: 'o', pitch_class: PitchClass::B, screen_offset: 46, is_white: true, octave_delta: 1i8 },
        33 => Slot { key_char: 'p', pitch_class: PitchClass::C, screen_offset: 49, is_white: true, octave_delta: 2i8 },
        34 => Slot { key_char: '[', pitch_class: PitchClass::D, screen_offset: 52, is_white: true, octave_delta: 2i8 },
        35 => Slot { key_char: ']', pitch_class: PitchClass::E, screen_offset: 55, is_white: true, octave_delta: 2i8 },
        _ => Slot { key_char: 'a', pitch_class: PitchClass::Gs, screen_offset: 0, is_white: false, octave_delta: -1i8 },
    }
}

/// Finds the slot whose key types `c`.
pub fn find_slot(c: char) -> (r: Option<usize>)
    ensures
        r is Some <==> slot_of_key(c) is Some,
        r matches Some(i) ==> slot_of_key(c) == Some(i as int) && i < SLOT_COUNT,
{
    match c {
        'z' => Some(0),
        's' => Some(1),
        'x' => Some(2),
        'c' => Some(3),
        'f' => Some(4),
        'v' => Some(5),
        'g' => Some(6),
        'b' => Some(7),
        'n' => Some(8),
        'j' => Some(9),
        'm' => Some(10),
        'k' => Some(11),
        '1' => Some(12),
        ',' => Some(13),
        'q' => Some(14),
        'l' => Some(15),
        '2' => Some(16),
        '.' => Some(17),
        'w' => Some(18),
        '/' => Some(19),
        'e' => Some(20),
        '\'' => Some(21),
        '4' => Some(22),
        'r' => Some(23),
        '5' => Some(24),
        't' => Some(25),
        'y' => Some(26),
        '7' => Some(27),
        'u' => Some(28),
        '8' => Some(29),
        'i' => Some(30),
        '9' => Some(31),
        'o' => Some(32),
        'p' => Some(33),
        '[' => Some(34),
        ']' => Some(35),
        'a' => Some(36),
        _ => None,
    }
}

/// `slot_of_key` is the table read backwards: it finds slot `i` under the
/// character of slot `i`, and nothing under any other character.
pub proof fn lemma_slot_of_key(c: char, i: int)
    ensures
        slot_of_key(c) == Some(i) <==> 0 <= i < SLOT_COUNT && slot(i).key_char == c,
{
}

/// No two slots share a key.
pub proof fn lemma_slot_keys_differ(i: int, j: int)
    requires
        0 <= i < SLOT_COUNT,
        0 <= j < SLOT_COUNT,
        slot(i).key_char == slot(j).key_char,
    ensures
        i == j,
{
    lemma_slot_of_key(slot(i).key_char, i);
    lemma_slot_of_key(slot(i).key_char, j);
}

/// Every slot agrees with the home slot of its pitch class: it has the same
/// colour, and its column lies whole octaves from the home slot's column, as
/// many as its octave lies from the home slot's octave.
pub proof fn lemma_slot_agrees_with_home(i: int)
    requires
        0 <= i < SLOT_COUNT,
    ensures
        slot(i).is_white == slot(i).pitch_class.spec_is_white(),
        slot(slot(i).pitch_class.home()).pitch_class == slot(i).pitch_class,
        slot(i).screen_offset - OCTAVE_WIDTH * slot(i).octave_delta == slot(
            slot(i).pitch_class.home(),
        ).screen_offset - OCTAVE_WIDTH * slot(slot(i).pitch_class.home()).octave_delta,
{
}

} // verus!
