//! The failures that end an emulation run.
use vstd::prelude::*;

verus! {

/// Why the interpreter could not go on.
#[derive(Debug, Clone, Copy, PartialEq, Eq, Structural)]
pub enum Chip8Error {
    /// The word that was fetched is no CHIP-8 instruction.
    UnknownOpcode(u16),
    /// A read or write would have passed the end of memory.
    OutOfBounds,
    /// An address register would have left the 16-bit range.
    AddressOverflow,
    /// The display could not draw the frame it was given.
    Display,
    /// The keypad could not be read.
    Input,
    /// The tone generator could not be driven.
    Sound,
}

/// The words for an error.
pub open spec fn description(error: Chip8Error) -> Seq<char> {
    match error {
        Chip8Error::UnknownOpcode(_) => "failed to decode instruction"@,
        Chip8Error::OutOfBounds => "memory access out of bounds"@,
        Chip8Error::AddressOverflow => "address register overflow"@,
        Chip8Error::Display => "display failure"@,
        Chip8Error::Input => "input failure"@,
        Chip8Error::Sound => "sound failure"@,
    }
}

impl Chip8Error {
    /// A short description for logs and messages.
    pub fn describe(&self) -> (s: &'static str)
        ensures
            s@ == description(*self),
    {
        match self {
            Chip8Error::UnknownOpcode(_) => "failed to decode instruction",
            Chip8Error::OutOfBounds => "memory access out of bounds",
            Chip8Error::AddressOverflow => "address register overflow",
            Chip8Error::Display => "display failure",
            Chip8Error::Input => "input failure",
            Chip8Error::Sound => "sound failure",
        }
    }
}

} // verus!
