//! The machine: a processor on the bus, a display and a keyboard.

use crate::bus::after_write;
use crate::bus::blank;
use crate::bus::PiaBus;
use crate::codec::apple1_char;
use crate::codec::apple1_to_char;
use crate::codec::char_to_apple1;
use crate::codec::host_char;
use crate::cpu::cpu_bus;
use crate::cpu::cpu_new;
use crate::cpu::cpu_ram;
use crate::cpu::cpu_read_registers;
use crate::cpu::cpu_registers;
use crate::cpu::cpu_set_pc;
use crate::cpu::cpu_step;
use crate::cpu::cpu_stepped;
use crate::cpu::power_on_registers;
use crate::cpu::Cpu;
use crate::cpu::Registers;
use crate::device::Display;
use crate::device::Keyboard;
use crate::pia::DSP;
use crate::pia::KBD;
use crate::pia::KBDCR;
use crate::pia::READY;
use crate::ram::overlay;
use crate::ram::MEMORY_SIZE;
use crate::run::turn_on;
use crate::run::typed;
use crate::run::Input;
use crate::run::Turn;
use crate::run::STOP_KEY;
use vstd::prelude::*;

verus! {

/// The low seven bits of a register: the character without its flag.
pub const CODE_MASK: u8 = 0x7F;

/// The processor's state with two of the registers of the adapter, for a
/// line of diagnostics.
#[derive(Clone, Copy, Debug, PartialEq, Eq, Structural)]
pub struct Snapshot {
    /// The processor's registers.
    pub registers: Registers,
    /// The byte in the display register.
    pub video: u8,
    /// The byte in the keyboard data register.
    pub kbd: u8,
}

/// Whether the display register holds a character that was not shown yet.
pub open spec fn output_pending(ram: Seq<u8>) -> bool {
    ram[DSP as int] & READY != 0
}

/// The character that waits in the display register, if one does.
pub open spec fn pending_char(ram: Seq<u8>) -> Option<char> {
    if output_pending(ram) {
        Some(host_char(ram[DSP as int] & CODE_MASK))
    } else {
        None
    }
}

/// Memory after the waiting character was taken: the display register is
/// zero. Where none waits, memory is as it was.
pub open spec fn drained(ram: Seq<u8>) -> Seq<u8> {
    if output_pending(ram) {
        ram.update(DSP as int, 0u8)
    } else {
        ram
    }
}

/// Memory after the run loop has dealt with `input`.
pub open spec fn after_input(ram: Seq<u8>, input: Input) -> Seq<u8> {
    match typed(input) {
        Some(code) => after_write(ram, KBD, code),
        None => ram,
    }
}

/// Once the output was taken, none waits: taking it again gives no character
/// and changes nothing. Where none waited in the first place, taking it
/// changed nothing either.
pub proof fn lemma_drained_stays_drained(ram: Seq<u8>)
    requires
        ram.len() == MEMORY_SIZE,
    ensures
        !output_pending(drained(ram)),
        pending_char(drained(ram)) is None,
        drained(drained(ram)) == drained(ram),
        !output_pending(ram) ==> pending_char(ram) is None && drained(ram) == ram,
{
    assert(0u8 & 0x80 == 0) by (bit_vector);
}

/// An Apple-1.
pub struct Apple1 {
    /// The processor, with the memory and the adapter's registers.
    pub cpu: Cpu,
    /// Where the machine's output goes.
    pub display: Box<dyn Display>,
    /// Where the machine's input comes from.
    pub keyboard: Box<dyn Keyboard>,
}

impl Apple1 {
    /// Whether this machine has the display and the keyboard of `other`.
    pub open spec fn same_devices(&self, other: &Apple1) -> bool {
        self.display == other.display && self.keyboard == other.keyboard
    }

    /// The machine's memory, by address.
    pub open spec fn ram(&self) -> Seq<u8> {
        cpu_ram(self.cpu)
    }

    /// The processor's registers.
    pub open spec fn registers(&self) -> Registers {
        cpu_registers(self.cpu)
    }

    /// The processor after its next instruction.
    pub open spec fn stepped(&self) -> Cpu {
        cpu_stepped(self.cpu)
    }

    /// Builds a machine around `display` and `keyboard` and prepares the
    /// display. The memory is blank, the registers are as after power-on.
    pub fn new(display: Box<dyn Display>, keyboard: Box<dyn Keyboard>) -> (apple1: Apple1)
        ensures
            apple1.ram() == blank(),
            apple1.registers() == power_on_registers(),
    {
        let apple1 = Apple1 { cpu: cpu_new(PiaBus::new()), display, keyboard };
        apple1.display.init();
        apple1
    }

    /// Loads a binary program to memory.
    ///
    /// * `program`: the bytes of the program
    /// * `addr`: the address of its first byte
    pub fn load(&mut self, program: &[u8], addr: u16)
        requires
            addr + program@.len() <= MEMORY_SIZE,
        ensures
            final(self).ram() == overlay(old(self).ram(), addr as int, program@),
            final(self).ram().len() == MEMORY_SIZE,
            final(self).registers() == old(self).registers(),
            final(self).same_devices(old(self)),
    {
        let bus = cpu_bus(&mut self.cpu);
        bus.load(program, addr);
    }

    /// Runs one instruction, then shows the character that waits in the
    /// display register, if one does.
    pub fn step(&mut self)
        ensures
            final(self).ram() == drained(cpu_ram(old(self).stepped())),
            final(self).ram().len() == MEMORY_SIZE,
            final(self).registers() == cpu_registers(old(self).stepped()),
            final(self).same_devices(old(self)),
    {
        cpu_step(&mut self.cpu);
        self.print_output_to_display();
    }

    /// Writes a key to the keyboard register, as the code the machine reads.
    /// The write raises the flag in the keyboard control register.
    pub fn write_kbd_input(&mut self, c: u8)
        ensures
            final(self).ram() == after_write(old(self).ram(), KBD, apple1_char(c)),
            final(self).ram().len() == MEMORY_SIZE,
            final(self).ram()[KBD as int] == apple1_char(c),
            final(self).ram()[KBDCR as int] == READY,
            final(self).registers() == old(self).registers(),
            final(self).same_devices(old(self)),
    {
        let code: u8 = char_to_apple1(c);
        let bus = cpu_bus(&mut self.cpu);
        bus.set(KBD, code);
    }

    /// Takes the character that waits in the display register, if one does,
    /// and clears the register.
    ///
    /// Bit 7 of the register says that a character waits in bits 6 to 0.
    pub fn take_output(&mut self) -> (output: Option<char>)
        ensures
            output == pending_char(old(self).ram()),
            final(self).ram() == drained(old(self).ram()),
            final(self).ram().len() == MEMORY_SIZE,
            !output_pending(old(self).ram()) ==> output is None && *final(self) == *old(self),
            !output_pending(final(self).ram()),
            final(self).registers() == old(self).registers(),
            final(self).same_devices(old(self)),
    {
        let bus = cpu_bus(&mut self.cpu);
        let value: u8 = bus.get(DSP);
        if value & 0b1000_0000 != 0 {
            bus.set(DSP, 0);
            let code: u8 = value & 0b0111_1111;
            assert(0u8 & 0x80 == 0) by (bit_vector);
            Some(apple1_to_char(code))
        } else {
            None
        }
    }

    /// Prints the machine's output to the display: at most one character, a
    /// newline where the machine wrote a carriage return.
    pub fn print_output_to_display(&mut self)
        ensures
            final(self).ram() == drained(old(self).ram()),
            final(self).ram().len() == MEMORY_SIZE,
            !output_pending(old(self).ram()) ==> *final(self) == *old(self),
            !output_pending(final(self).ram()),
            final(self).registers() == old(self).registers(),
            final(self).same_devices(old(self)),
    {
        match self.take_output() {
            Some(c) => self.display.print(c),
            None => {},
        }
    }

    /// Deals with what the run loop found when it looked for a key, after
    /// its step.
    ///
    /// The stop key ends the run and is not written to memory; nor is
    /// anything else once the run has ended. Any other key goes to the
    /// keyboard register as the code the machine reads. Without a keyboard
    /// the run cannot go on.
    pub fn handle_input(&mut self, input: Input) -> (turn: Turn)
        ensures
            turn == turn_on(input),
            final(self).ram() == after_input(old(self).ram(), input),
            typed(input) is None ==> *final(self) == *old(self),
            turn != Turn::Continue ==> *final(self) == *old(self),
            final(self).registers() == old(self).registers(),
            final(self).same_devices(old(self)),
    {
        match input {
            Input::Empty => Turn::Continue,
            Input::Byte(key) => {
                if key == STOP_KEY {
                    Turn::Stop
                } else {
                    self.write_kbd_input(key);
                    Turn::Continue
                }
            },
            Input::Disconnected => Turn::Abort,
        }
    }

    /// The address of the next instruction.
    pub fn program_counter(&self) -> (pc: u16)
        ensures
            pc == self.registers().pc,
    {
        cpu_read_registers(&self.cpu).pc
    }

    /// Makes `pc` the address of the next instruction.
    pub fn set_program_counter(&mut self, pc: u16)
        ensures
            final(self).registers() == (Registers { pc, ..old(self).registers() }),
            final(self).ram() == old(self).ram(),
            final(self).same_devices(old(self)),
    {
        cpu_set_pc(&mut self.cpu, pc);
    }

    /// Reads the byte at `addr` without the processor noticing: no intercept
    /// sees the read.
    pub fn peek(&mut self, addr: u16) -> (value: u8)
        ensures
            value == old(self).ram()[addr as int],
            old(self).ram().len() == MEMORY_SIZE,
            *final(self) == *old(self),
    {
        let bus = cpu_bus(&mut self.cpu);
        bus.peek(addr)
    }

    /// The registers, the display register and the keyboard register as they
    /// are now. Nothing changes: the keyboard's flag stays as it is.
    pub fn snapshot(&mut self) -> (snapshot: Snapshot)
        ensures
            snapshot.registers == old(self).registers(),
            snapshot.video == old(self).ram()[DSP as int],
            snapshot.kbd == old(self).ram()[KBD as int],
            *final(self) == *old(self),
    {
        let registers = cpu_read_registers(&self.cpu);
        let video: u8 = self.peek(DSP);
        let kbd: u8 = self.peek(KBD);
        Snapshot { registers, video, kbd }
    }
}

} // verus!
