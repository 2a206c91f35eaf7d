//! Character codes: what the host types and shows, and what the machine
//! reads and writes.
//!
//! The Apple-1 knows upper-case ASCII only, ends a line with a carriage
//! return, and keeps bit 7 of every character set.

use vstd::prelude::*;

verus! {

/// Carriage return, the machine's end of line.
pub const CR: u8 = 0x0D;

/// Line feed, the host's end of line.
pub const LF: u8 = 0x0A;

/// Bit 7, which the machine sets on every character.
pub const BIT7: u8 = 0x80;

/// The upper-case form of an ASCII letter; any other byte is itself.
pub open spec fn ascii_upper(c: u8) -> u8 {
    if 0x61 <= c && c <= 0x7A {
        (c - 0x20) as u8
    } else {
        c
    }
}

/// `u8::to_ascii_uppercase` of std: the letters `a` to `z` become `A` to `Z`,
/// every other byte comes back unchanged.
pub assume_specification[ u8::to_ascii_uppercase ](c: &u8) -> (upper: u8)
    ensures
        upper == ascii_upper(*c),
;

/// The machine's code for a byte typed on the host: folded to upper case, a
/// line feed turned into a carriage return, bit 7 set.
pub open spec fn apple1_char(c: u8) -> u8 {
    let upper = ascii_upper(c);
    if upper == LF {
        CR | BIT7
    } else {
        upper | BIT7
    }
}

/// Converts a byte typed on the host to the code the machine reads.
pub fn char_to_apple1(c: u8) -> (code: u8)
    ensures
        code == apple1_char(c),
        code & BIT7 == BIT7,
        code >= 0x80,
{
    let mut c: u8 = c.to_ascii_uppercase();
    if c == LF {
        c = CR;
    }
    let code: u8 = c | BIT7;
    assert(code & 0x80 == 0x80 && code >= 0x80) by (bit_vector)
        requires
            code == c | 0x80,
    ;
    code
}

/// The host character for a 7-bit machine code: a newline for the carriage
/// return, else the character with that code.
pub open spec fn host_char(code: u8) -> char {
    if code == CR {
        '\n'
    } else {
        code as char
    }
}

/// Converts a 7-bit code written by the machine to the character the host
/// shows.
pub fn apple1_to_char(code: u8) -> (c: char)
    ensures
        c == host_char(code),
{
    if code == CR {
        '\n'
    } else {
        code as char
    }
}

} // verus!
