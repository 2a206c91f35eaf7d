//! The processor: `CPU` of the `mos6502` crate with a `PiaBus` as its memory,
//! and what this library takes on trust about it.
//!
//! Nothing here is proved. The processor is opaque: the library sees its
//! memory and its registers through the two functions `cpu_ram` and
//! `cpu_registers`, and knows of one instruction only that it leads from one
//! processor to the next, `cpu_stepped`.

use crate::bus::PiaBus;
use mos6502::cpu::CPU;
use mos6502::instruction::Nmos6502;
use vstd::prelude::*;

verus! {

/// The registers of a 6502.
#[derive(Clone, Copy, Debug, PartialEq, Eq, Structural)]
pub struct Registers {
    /// Program counter.
    pub pc: u16,
    /// Accumulator.
    pub a: u8,
    /// Index register X.
    pub x: u8,
    /// Index register Y.
    pub y: u8,
    /// Stack pointer.
    pub sp: u8,
    /// Processor status, one flag per bit.
    pub p: u8,
}

/// The registers of a processor that was just made: all zero, but for the
/// status, in which "interrupts disabled" and the unused bit 5 are set.
pub open spec fn power_on_registers() -> Registers {
    Registers { pc: 0, a: 0, x: 0, y: 0, sp: 0, p: 0x24 }
}

/// An NMOS 6502 on the machine's bus.
///
/// It holds a `mos6502::cpu::CPU<PiaBus, Nmos6502>`. That type's bounds name
/// the crate's traits `Bus` and `Variant`, and with them Verus does not take
/// a declaration of the type itself: so the processor is kept in here, and
/// the whole struct is hidden from Verus.
#[verifier::external_body]
pub struct Cpu {
    inner: CPU<PiaBus, Nmos6502>,
}

/// The memory of a processor: the view of its bus.
pub uninterp spec fn cpu_ram(cpu: Cpu) -> Seq<u8>;

/// The registers of a processor.
pub uninterp spec fn cpu_registers(cpu: Cpu) -> Registers;

/// The processor after its next instruction: what `CPU::single_step` makes
/// of it. An instruction reads and writes memory over the bus, so that the
/// intercepts see each access.
pub uninterp spec fn cpu_stepped(cpu: Cpu) -> Cpu;

/// `CPU::new` with the variant `Nmos6502`: the processor owns `bus` as its
/// memory, and its registers are those of `Registers::new`.
#[verifier::external_body]
pub(crate) fn cpu_new(bus: PiaBus) -> (cpu: Cpu)
    ensures
        cpu_ram(cpu) == bus@,
        cpu_registers(cpu) == power_on_registers(),
{
    Cpu { inner: CPU::new(bus, Nmos6502) }
}

/// The field `memory` of `CPU`, lent out: what is done to the bus is done to
/// the processor's memory, and the registers stay. A processor whose memory
/// ends up as it was is the processor it was.
#[verifier::external_body]
pub(crate) fn cpu_bus(cpu: &mut Cpu) -> (bus: &mut PiaBus)
    ensures
        bus@ == cpu_ram(*old(cpu)),
        cpu_ram(*final(cpu)) == final(bus)@,
        cpu_registers(*final(cpu)) == cpu_registers(*old(cpu)),
        final(bus)@ == cpu_ram(*old(cpu)) ==> *final(cpu) == *old(cpu),
{
    &mut cpu.inner.memory
}

/// `CPU::single_step`: the processor takes its next instruction. What the
/// call returns (whether an instruction ran) is dropped.
#[verifier::external_body]
pub(crate) fn cpu_step(cpu: &mut Cpu)
    ensures
        *final(cpu) == cpu_stepped(*old(cpu)),
{
    cpu.inner.single_step();
}

/// The field `registers` of `CPU`, copied out as plain values.
#[verifier::external_body]
pub(crate) fn cpu_read_registers(cpu: &Cpu) -> (registers: Registers)
    ensures
        registers == cpu_registers(*cpu),
{
    Registers {
        pc: cpu.inner.registers.program_counter,
        a: cpu.inner.registers.accumulator,
        x: cpu.inner.registers.index_x,
        y: cpu.inner.registers.index_y,
        sp: cpu.inner.registers.stack_pointer.0,
        p: cpu.inner.registers.status.bits(),
    }
}

/// The field `registers.program_counter` of `CPU`, set to `pc`: the other
/// registers and the memory stay.
#[verifier::external_body]
pub(crate) fn cpu_set_pc(cpu: &mut Cpu, pc: u16)
    ensures
        cpu_registers(*final(cpu)) == (Registers { pc, ..cpu_registers(*old(cpu)) }),
        cpu_ram(*final(cpu)) == cpu_ram(*old(cpu)),
{
    cpu.inner.registers.program_counter = pc;
}

} // verus!
