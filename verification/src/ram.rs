//! The 64 KiB of plain memory behind the bus: `Memory` of the `mos6502`
//! crate, and what this library takes on trust about it.
//!
//! Nothing here is proved. Each contract says what the crate's source shows
//! of one function.

use mos6502::memory::Bus;
use mos6502::memory::Memory;
use vstd::prelude::*;

verus! {

/// Number of bytes a 6502 can address.
pub const MEMORY_SIZE: usize = 0x1_0000;

/// `mos6502::memory::Memory`: an array of `MEMORY_SIZE` bytes.
#[verifier::external_type_specification]
#[verifier::external_body]
pub struct ExMemory(Memory);

/// The bytes a `Memory` holds, by address.
pub uninterp spec fn memory_bytes(memory: Memory) -> Seq<u8>;

/// `ram` with `bytes` laid over it from address `start` on.
pub open spec fn overlay(ram: Seq<u8>, start: int, bytes: Seq<u8>) -> Seq<u8> {
    Seq::new(
        ram.len(),
        |i: int|
            if start <= i < start + bytes.len() {
                bytes[i - start]
            } else {
                ram[i]
            },
    )
}

/// `Memory::new`: every byte is zero.
#[verifier::external_body]
pub(crate) fn memory_new() -> (memory: Memory)
    ensures
        memory_bytes(memory) == Seq::new(MEMORY_SIZE as nat, |i: int| 0u8),
{
    Memory::new()
}

/// `Memory`'s `Bus::get_byte`: the byte at `address`; the memory stays as it
/// was. A `Memory` always holds `MEMORY_SIZE` bytes.
#[verifier::external_body]
pub(crate) fn memory_get(memory: &mut Memory, address: u16) -> (value: u8)
    ensures
        memory_bytes(*old(memory)).len() == MEMORY_SIZE,
        value == memory_bytes(*old(memory))[address as int],
        memory_bytes(*final(memory)) == memory_bytes(*old(memory)),
{
    memory.get_byte(address)
}

/// `Memory`'s `Bus::set_byte`: the byte at `address` becomes `value`, the
/// others stay. A `Memory` always holds `MEMORY_SIZE` bytes.
#[verifier::external_body]
pub(crate) fn memory_set(memory: &mut Memory, address: u16, value: u8)
    ensures
        memory_bytes(*old(memory)).len() == MEMORY_SIZE,
        memory_bytes(*final(memory)) == memory_bytes(*old(memory)).update(address as int, value),
{
    memory.set_byte(address, value)
}

/// `Memory`'s `Bus::set_bytes`: `values` are copied in from `start` on. It
/// panics where they would run past the last address.
#[verifier::external_body]
pub(crate) fn memory_set_bytes(memory: &mut Memory, start: u16, values: &[u8])
    requires
        start + values@.len() <= MEMORY_SIZE,
    ensures
        memory_bytes(*old(memory)).len() == MEMORY_SIZE,
        memory_bytes(*final(memory)) == overlay(memory_bytes(*old(memory)), start as int, values@),
{
    memory.set_bytes(start, values)
}

} // verus!
