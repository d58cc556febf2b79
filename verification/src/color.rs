//! Display colours: what a mark on the keyboard can be painted in, and the
//! palette that gives each player of a shared session a colour.

use vstd::prelude::*;

verus! {

/// A colour of the terminal.
#[derive(Clone, Copy, Debug, PartialEq, Eq, Structural)]
pub enum Color {
    Reset,
    Black,
    DarkGrey,
    Red,
    DarkRed,
    Green,
    DarkGreen,
    Yellow,
    DarkYellow,
    Blue,
    DarkBlue,
    Magenta,
    DarkMagenta,
    Cyan,
    DarkCyan,
    White,
    Grey,
    Rgb { r: u8, g: u8, b: u8 },
    AnsiValue(u8),
}

/// The colour of the player in seat `id`: six seats have a colour of their
/// own, every further one plays in black.
pub open spec fn seat_color(id: int) -> Color {
    if id == 0 {
        Color::Blue
    } else if id == 1 {
        Color::Red
    } else if id == 2 {
        Color::Green
    } else if id == 3 {
        Color::Yellow
    } else if id == 4 {
        Color::Cyan
    } else if id == 5 {
        Color::Magenta
    } else {
        Color::Black
    }
}

/// Picks the colour of the player in seat `id`.
pub fn color_of_seat(id: usize) -> (r: Color)
    ensures
        r == seat_color(id as int),
{
    match id {
        0 => Color::Blue,
        1 => Color::Red,
        2 => Color::Green,
        3 => Color::Yellow,
        4 => Color::Cyan,
        5 => Color::Magenta,
        _ => Color::Black,
    }
}

} // verus!
