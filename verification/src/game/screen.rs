//! The drawn keyboard: where its keys stand on the screen, and where the
//! mark of a note goes.
//!
//! The white keys stand side by side, three columns each. The black keys
//! stand on the borders between them: one alone at the left, then five for
//! each octave drawn. Painting is the caller's part; this module says where.

use vstd::prelude::*;
use crate::game::notes::screen_position;
use crate::pitch::PitchClass;

verus! {

/// The number of white keys drawn.
pub const WHITE_KEYS: u16 = 58;

/// The columns that a white key takes.
pub const WHITE_KEY_WIDTH: u16 = 3;

/// The rows that a white key takes.
pub const WHITE_KEY_HEIGHT: u16 = 16;

/// The rows that a black key takes.
pub const BLACK_KEY_HEIGHT: u16 = 9;

/// The number of octaves of black keys drawn.
pub const BLACK_KEY_GROUPS: u16 = 8;

/// The number of black keys drawn.
pub const BLACK_KEYS: usize = 41;

/// A cell of the screen.
#[derive(Clone, Copy, Debug, PartialEq, Eq, Structural)]
pub struct Point {
    /// The column, from the left.
    pub x: u16,
    /// The row, from the top.
    pub y: u16,
}

/// The column of the black key at place `j` of its octave, counted from the
/// left edge of the octave.
pub open spec fn black_key_offset(j: int) -> int {
    if j == 0 {
        9
    } else if j == 1 {
        12
    } else if j == 2 {
        18
    } else if j == 3 {
        21
    } else {
        24
    }
}

/// The column of the black key at place `i` of the keyboard.
pub open spec fn black_key_column(i: int) -> int {
    if i == 0 {
        3
    } else {
        21 * ((i - 1) / 5) + black_key_offset((i - 1) % 5)
    }
}

/// The column at which the white key at place `key` begins.
pub open spec fn white_key_column(key: int) -> int {
    WHITE_KEY_WIDTH * key
}

/// The top left cell of the white key at place `key`.
pub fn white_key_point(key: u16) -> (r: Point)
    requires
        key < WHITE_KEYS,
    ensures
        r.x == white_key_column(key as int),
        r.y == 0,
{
    Point { x: key * WHITE_KEY_WIDTH, y: 0 }
}

/// The top cells of the black keys, from left to right.
pub fn black_key_points() -> (r: Vec<Point>)
    ensures
        r@.len() == BLACK_KEYS,
        forall|i: int| 0 <= i < BLACK_KEYS ==> (#[trigger] r@[i]).x == black_key_column(i) && r@[i].y == 0,
{
    let mut points: Vec<Point> = Vec::new();
    points.push(Point { x: 3, y: 0 });
    let mut group: u16 = 0;
    while group < BLACK_KEY_GROUPS
        invariant
            group <= BLACK_KEY_GROUPS,
            points@.len() == 1 + 5 * group,
            forall|i: int|
                0 <= i < points@.len() ==> (#[trigger] points@[i]).x == black_key_column(i)
                    && points@[i].y == 0,
        decreases BLACK_KEY_GROUPS - group,
    {
        let left: u16 = group * 21;
        points.push(Point { x: left + 9, y: 0 });
        points.push(Point { x: left + 12, y: 0 });
        points.push(Point { x: left + 18, y: 0 });
        points.push(Point { x: left + 21, y: 0 });
        points.push(Point { x: left + 24, y: 0 });
        group += 1;
    }
    points
}

/// The cell at which the mark of a note begins: the lowest row of the key,
/// in the column of the note. A note left of the screen has no cell.
pub open spec fn mark_cell(position: i16, white: bool) -> Option<Point> {
    if position < 0 {
        None
    } else {
        Some(
            Point {
                x: position as u16,
                y: if white {
                    (WHITE_KEY_HEIGHT - 1) as u16
                } else {
                    (BLACK_KEY_HEIGHT - 1) as u16
                },
            },
        )
    }
}

/// Finds the cell at which the mark of a note begins.
pub fn mark_point(position: i16, white: bool) -> (r: Option<Point>)
    ensures
        r == mark_cell(position, white),
{
    if position < 0 {
        None
    } else {
        let row: u16 = if white {
            WHITE_KEY_HEIGHT - 1
        } else {
            BLACK_KEY_HEIGHT - 1
        };
        Some(Point { x: position as u16, y: row })
    }
}

/// Every mark lands on a key of its colour. The mark of a white note within
/// the white keys covers the two inner columns of one of them, and the mark
/// of a black note within the black keys stands in the column of one of
/// them.
pub proof fn lemma_mark_lands_on_a_key(pitch: PitchClass, octave: int)
    ensures
        pitch.spec_is_white() && 0 <= screen_position(pitch, octave) < white_key_column(
            WHITE_KEYS as int,
        ) ==> exists|key: int|
            0 <= key < WHITE_KEYS && screen_position(pitch, octave) == #[trigger] white_key_column(
                key,
            ) + 1,
        !pitch.spec_is_white() && 3 <= screen_position(pitch, octave) <= black_key_column(
            BLACK_KEYS - 1,
        ) ==> exists|i: int|
            0 <= i < BLACK_KEYS && screen_position(pitch, octave) == #[trigger] black_key_column(i),
{
    let x = screen_position(pitch, octave);
    if pitch.spec_is_white() && 0 <= x < white_key_column(WHITE_KEYS as int) {
        let key = (x - 1) / 3;
        assert(x == white_key_column(key) + 1);
    }
    if !pitch.spec_is_white() && 3 <= x <= black_key_column(BLACK_KEYS - 1) {
        if x == 3 {
            assert(black_key_column(0) == 3);
        } else {
            let group = (x - 9) / 21;
            let j: int = match pitch {
                PitchClass::Cs => 0,
                PitchClass::Ds => 1,
                PitchClass::Fs => 2,
                PitchClass::Gs => 3,
                _ => 4,
            };
            let i = 1 + 5 * group + j;
            assert((i - 1) / 5 == group && (i - 1) % 5 == j);
            assert(x == black_key_column(i));
        }
    }
}

} // verus!
