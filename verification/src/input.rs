//! Keys as the grid understands them, and the input modes they select.

use vstd::prelude::*;

verus! {

/// Which kind of entry the digit keys make.
#[derive(Clone, Copy, Debug, PartialEq, Eq, Structural)]
pub enum InputMode {
    /// A digit becomes the cell's main number.
    Normal,
    /// A digit is toggled among the cell's corner marks.
    Corner,
    /// A digit is toggled among the cell's centre marks.
    Centre,
}

/// One key press.
#[derive(Clone, Copy, Debug, PartialEq, Eq, Structural)]
pub enum Key {
    Left,
    Right,
    Up,
    Down,
    /// A key that produces a character.
    Char(char),
    /// Any other key.
    Other,
}

/// The value of a decimal digit character, `'0'` to `'9'`; nothing for any
/// other character.
pub open spec fn digit_value(c: char) -> Option<u8> {
    if 0x30 <= c as u32 <= 0x39 {
        Some((c as u32 - 0x30) as u8)
    } else {
        None
    }
}

/// The digit from 1 to 9 that a character enters into a cell; nothing for
/// `'0'` and for every character that is no decimal digit.
pub open spec fn entered_digit(c: char) -> Option<u8> {
    match digit_value(c) {
        Some(d) => if d >= 1 {
            Some(d)
        } else {
            None
        },
        None => None,
    }
}

/// Reads a character as a digit from 1 to 9.
pub fn to_entered_digit(c: char) -> (digit: Option<u8>)
    ensures
        digit == entered_digit(c),
        digit matches Some(d) ==> 1 <= d <= 9,
{
    let code: u32 = c as u32;
    if 0x31 <= code && code <= 0x39 {
        Some((code - 0x30) as u8)
    } else {
        None
    }
}

} // verus!
