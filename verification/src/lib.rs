//! A CHIP-8 interpreter that keeps the machine-cycle timing of the COSMAC VIP.
//!
//! The interpreter is a small state machine: it fetches and decodes an
//! instruction, executes it, and for sprite drawing waits for the display
//! interrupt before it finishes.  Every step reports the number of machine
//! cycles that the VIP would have spent on it, so that a scheduler can pace
//! the emulation against wall-clock time.
pub mod bits;
pub mod display;
pub mod error;
pub mod input;
pub mod interpreter;
pub mod laws;
pub mod machine;
pub mod memory;
pub mod scheduler;
pub mod sound;
pub mod sprite;
