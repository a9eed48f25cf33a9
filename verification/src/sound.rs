//! The tone generator of the machine.
use crate::error::Chip8Error;
use vstd::prelude::*;

verus! {

/// Makes the one tone that the machine knows.
pub trait Sound {
    /// Starts the tone.
    fn beep(&mut self) -> Result<(), Chip8Error>;

    /// Stops the tone.
    fn stop(&mut self) -> Result<(), Chip8Error>;
}

/// The pitch of the tone in hertz: a C.
pub const SIMPLEBEEP_PITCH: u16 = 2093;

/// The books of a tone generator that plays one pitch until it is told to
/// play another; pitch 0 is silence.  Whoever owns the generator sends it the
/// pitch and reports how that went.
pub struct SimpleBeep {
    pub is_beeping: bool,
}

impl SimpleBeep {
    pub fn new() -> (beep: Self)
        ensures
            !beep.is_beeping,
    {
        SimpleBeep { is_beeping: false }
    }

    /// The pitch to send to the generator to start the tone (`on`) or to
    /// stop it.
    pub fn pitch(on: bool) -> (hertz: u16)
        ensures
            hertz == if on { SIMPLEBEEP_PITCH } else { 0 },
    {
        if on {
            SIMPLEBEEP_PITCH
        } else {
            0
        }
    }

    /// Takes note of how sending the pitch for `on` went.  Only a pitch that
    /// the generator accepted changes what is playing; a failure is handed
    /// on as it is.
    pub fn settle(&mut self, on: bool, sent: Result<(), Chip8Error>) -> (r: Result<(), Chip8Error>)
        ensures
            r == sent,
            final(self).is_beeping == if sent is Ok { on } else { old(self).is_beeping },
    {
        if sent.is_ok() {
            self.is_beeping = on;
        }
        sent
    }
}

/// A tone generator that stays silent.
pub struct Mute {}

impl Mute {
    pub fn new() -> Self {
        Mute {  }
    }
}

impl Sound for Mute {
    fn beep(&mut self) -> (r: Result<(), Chip8Error>)
        ensures
            r is Ok,
    {
        Ok(())
    }

    fn stop(&mut self) -> (r: Result<(), Chip8Error>)
        ensures
            r is Ok,
    {
        Ok(())
    }
}

} // verus!
