//! The I/O side of an Apple-1: a 6502 core wired to a keyboard and a display
//! through the three registers of its 6821 peripheral interface adapter.

pub mod bus;
pub mod codec;
pub mod cpu;
pub mod device;
pub mod machine;
pub mod pia;
pub mod ram;
pub mod run;
pub mod terminal;

pub use bus::PiaBus;
pub use codec::apple1_to_char;
pub use codec::char_to_apple1;
pub use cpu::Registers;
pub use device::Display;
pub use device::Keyboard;
pub use machine::Apple1;
pub use machine::Snapshot;
pub use pia::read_callback;
pub use pia::write_callback;
pub use pia::DSP;
pub use pia::KBD;
pub use pia::KBDCR;
pub use run::Input;
pub use run::Turn;
pub use run::STOP_KEY;
pub use terminal::NcursesDisplay;
pub use terminal::NcursesKeyboard;
