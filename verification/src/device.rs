//! What the machine asks of a keyboard and of a display. Whoever builds a
//! machine brings one of each: a terminal, a buffer in memory, nothing at
//! all.

use std::sync::mpsc::Sender;
use vstd::prelude::*;

verus! {

/// `std::sync::mpsc::Sender`: the sending end of a channel. A keyboard is
/// handed one and keeps it; the library never looks inside.
#[verifier::external_type_specification]
#[verifier::external_body]
#[verifier::reject_recursive_types(T)]
pub struct ExSender<T>(Sender<T>);

/// A source of keys.
pub trait Keyboard {
    /// Starts the keyboard. From now on it sends each key that is pressed to
    /// `tx`, one byte per key, in the order in which they were pressed, and
    /// drops none.
    fn init(&mut self, tx: Sender<u8>);

    /// Echoes a character. A keyboard that does not echo does nothing here.
    fn write(&self, c: char);
}

/// A surface that shows characters.
pub trait Display {
    /// Prepares the surface. Called once, before anything is printed.
    fn init(&self);

    /// Releases the surface. Called once, when the machine has stopped.
    fn stop(&self);

    /// Shows one character.
    fn print(&self, c: char);
}

} // verus!
