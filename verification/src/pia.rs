//! The 6821 peripheral interface adapter, as the 6502 sees it: three
//! addresses that answer a read or a write with one more write.
//!
//! * `KBD` holds the last key. Reading it clears `KBDCR`.
//! * `KBDCR` has bit 7 set while a key waits in `KBD`.
//! * `DSP` has bit 7 set while a character waits to be shown.

use vstd::prelude::*;

verus! {

/// Keyboard data register.
pub const KBD: u16 = 0xD010;

/// Keyboard control register.
pub const KBDCR: u16 = 0xD011;

/// Display data register.
pub const DSP: u16 = 0xD012;

/// The "ready" flag of a register: bit 7.
pub const READY: u8 = 0x80;

/// The write that follows a read of `addr`, if any: reading `KBD` clears
/// `KBDCR`.
pub open spec fn read_effect(addr: u16) -> Option<(u16, u8)> {
    if addr == KBD {
        Some((KBDCR, 0u8))
    } else {
        None
    }
}

/// The write that follows a write of `value` to `addr`, if any.
///
/// A write to `KBD` raises the flag in `KBDCR`. A write to `DSP` raises the
/// flag in `DSP` itself, unless the value is zero: zero is what clears the
/// register once its character has been shown.
pub open spec fn write_effect(addr: u16, value: u8) -> Option<(u16, u8)> {
    if addr == KBD {
        Some((KBDCR, READY))
    } else if addr == DSP && value != 0 {
        Some((DSP, value | READY))
    } else {
        None
    }
}

/// Whether `addr` is one of the adapter's three registers.
pub open spec fn is_register(addr: u16) -> bool {
    addr == KBD || addr == KBDCR || addr == DSP
}

/// Called for every read of memory, with the address read. Returns the
/// write to make after it.
pub fn read_callback(addr: u16) -> (effect: Option<(u16, u8)>)
    ensures
        effect == read_effect(addr),
        addr == KBD ==> effect == Some((KBDCR, 0u8)),
        !is_register(addr) ==> effect is None,
{
    match addr {
        KBD => Some((KBDCR, 0)),
        _ => None,
    }
}

/// Called for every write to memory, with the address and the value written.
/// Returns the write to make after it.
pub fn write_callback(addr: u16, value: u8) -> (effect: Option<(u16, u8)>)
    ensures
        effect == write_effect(addr, value),
        addr == DSP && value == 0 ==> effect is None,
        addr == DSP && value != 0 ==> effect == Some((DSP, value | READY)),
        !is_register(addr) ==> effect is None,
{
    match (addr, value) {
        (KBD, _) => Some((KBDCR, 0x80)),
        (DSP, 0) => None,
        (DSP, v) => Some((DSP, v | 0b1000_0000)),
        _ => None,
    }
}

} // verus!
