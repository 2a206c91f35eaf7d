//! The terminal as keyboard and display: what goes to the screen library and
//! what is made of the keys that come from it. The calls into the screen
//! library are the program's.

use vstd::prelude::*;

verus! {

/// Lines of the terminal window.
pub const SCREEN_LINES: i32 = 60;

/// Columns of the terminal window.
pub const SCREEN_COLUMNS: i32 = 40;

/// The keyboard of a terminal.
pub struct NcursesKeyboard {}

impl NcursesKeyboard {
    pub fn new() -> NcursesKeyboard {
        NcursesKeyboard {  }
    }

    /// The byte to send for a key code that the terminal delivered: its low
    /// eight bits.
    pub fn key_byte(&self, code: i32) -> (byte: u8)
        ensures
            byte == code % 256,
    {
        let low: i32 = code & 0xFF;
        assert(0 <= low < 256 && low == code % 256) by (bit_vector)
            requires
                low == code & 0xFF,
        ;
        low as u8
    }
}

/// The screen of a terminal.
pub struct NcursesDisplay {}

impl NcursesDisplay {
    pub fn new() -> NcursesDisplay {
        NcursesDisplay {  }
    }

    /// The cell to put on the screen for `c`: its code point, with no
    /// attribute set.
    pub fn cell(&self, c: char) -> (cell: u32)
        ensures
            cell == c as u32,
    {
        c as u32
    }
}

} // verus!
