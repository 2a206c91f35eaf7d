//! The bus of the machine: 64 KiB of memory in which three addresses are the
//! registers of the peripheral interface adapter.

use crate::pia::is_register;
use crate::pia::read_callback;
use crate::pia::read_effect;
use crate::pia::write_callback;
use crate::pia::write_effect;
use crate::pia::KBD;
use crate::pia::KBDCR;
use crate::ram::memory_bytes;
use crate::ram::memory_get;
use crate::ram::memory_new;
use crate::ram::memory_set;
use crate::ram::memory_set_bytes;
use crate::ram::overlay;
use crate::ram::MEMORY_SIZE;
use mos6502::memory::Bus;
use mos6502::memory::Memory;
use vstd::prelude::*;

verus! {

/// Memory after the write that an intercept asked for, if it asked for one.
pub open spec fn apply_effect(ram: Seq<u8>, effect: Option<(u16, u8)>) -> Seq<u8> {
    match effect {
        Some((addr, value)) => ram.update(addr as int, value),
        None => ram,
    }
}

/// Memory after a read of `addr` over the bus.
pub open spec fn after_read(ram: Seq<u8>, addr: u16) -> Seq<u8> {
    apply_effect(ram, read_effect(addr))
}

/// Memory after a write of `value` to `addr` over the bus: the byte is
/// stored, then the intercept's write is made.
pub open spec fn after_write(ram: Seq<u8>, addr: u16, value: u8) -> Seq<u8> {
    apply_effect(ram.update(addr as int, value), write_effect(addr, value))
}

/// Outside the three registers the bus is plain memory: a read changes
/// nothing, a write changes the byte that is written and no other.
pub proof fn lemma_plain_outside_registers(ram: Seq<u8>, addr: u16, value: u8)
    requires
        !is_register(addr),
    ensures
        after_read(ram, addr) == ram,
        after_write(ram, addr, value) == ram.update(addr as int, value),
{
}

/// A read of the keyboard register leaves the key and clears the flag,
/// whatever the key is.
pub proof fn lemma_read_of_kbd_clears_flag(ram: Seq<u8>)
    requires
        ram.len() == MEMORY_SIZE,
    ensures
        after_read(ram, KBD)[KBD as int] == ram[KBD as int],
        after_read(ram, KBD)[KBDCR as int] == 0,
        after_read(ram, KBD) == ram.update(KBDCR as int, 0u8),
{
}

/// Memory in which no byte is set.
pub open spec fn blank() -> Seq<u8> {
    Seq::new(MEMORY_SIZE as nat, |i: int| 0u8)
}

/// The memory of the machine with the adapter's registers in it.
///
/// Its view is the `MEMORY_SIZE` bytes by address.
pub struct PiaBus {
    ram: Memory,
}

impl View for PiaBus {
    type V = Seq<u8>;

    closed spec fn view(&self) -> Seq<u8> {
        memory_bytes(self.ram)
    }
}

impl PiaBus {
    /// A bus whose memory is all zero.
    pub fn new() -> (bus: PiaBus)
        ensures
            bus@ == blank(),
    {
        PiaBus { ram: memory_new() }
    }

    /// Reads the byte at `addr` and leaves everything as it is.
    pub fn peek(&mut self, addr: u16) -> (value: u8)
        ensures
            old(self)@.len() == MEMORY_SIZE,
            value == old(self)@[addr as int],
            final(self)@ == old(self)@,
    {
        memory_get(&mut self.ram, addr)
    }

    /// Stores `value` at `addr` and nothing else.
    pub fn poke(&mut self, addr: u16, value: u8)
        ensures
            old(self)@.len() == MEMORY_SIZE,
            final(self)@ == old(self)@.update(addr as int, value),
    {
        memory_set(&mut self.ram, addr, value)
    }

    /// Reads the byte at `addr` as the processor does: the read intercept
    /// sees the access, and its write is made after the byte was taken.
    pub fn get(&mut self, addr: u16) -> (value: u8)
        ensures
            old(self)@.len() == MEMORY_SIZE,
            value == old(self)@[addr as int],
            final(self)@ == after_read(old(self)@, addr),
    {
        let value: u8 = self.peek(addr);
        match read_callback(addr) {
            Some((to, byte)) => self.poke(to, byte),
            None => {},
        }
        value
    }

    /// Writes `value` to `addr` as the processor does: the byte is stored,
    /// then the write intercept's own write is made.
    pub fn set(&mut self, addr: u16, value: u8)
        ensures
            old(self)@.len() == MEMORY_SIZE,
            final(self)@ == after_write(old(self)@, addr, value),
    {
        self.poke(addr, value);
        match write_callback(addr, value) {
            Some((to, byte)) => self.poke(to, byte),
            None => {},
        }
    }

    /// Copies `program` into memory from `addr` on. No intercept sees it.
    pub fn load(&mut self, program: &[u8], addr: u16)
        requires
            addr + program@.len() <= MEMORY_SIZE,
        ensures
            old(self)@.len() == MEMORY_SIZE,
            final(self)@ == overlay(old(self)@, addr as int, program@),
    {
        memory_set_bytes(&mut self.ram, addr, program)
    }
}

/// The processor's way to memory.
impl Bus for PiaBus {
    fn get_byte(&mut self, address: u16) -> (value: u8)
        ensures
            value == old(self)@[address as int],
            final(self)@ == after_read(old(self)@, address),
    {
        self.get(address)
    }

    fn set_byte(&mut self, address: u16, value: u8)
        ensures
            final(self)@ == after_write(old(self)@, address, value),
    {
        self.set(address, value)
    }
}

} // verus!
