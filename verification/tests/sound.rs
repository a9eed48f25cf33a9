use chip8::error::Chip8Error;
use chip8::sound::{Mute, SimpleBeep, Sound, SIMPLEBEEP_PITCH};

#[test]
fn beep_is_a_c() {
    assert_eq!(SIMPLEBEEP_PITCH, 2093);
    assert_eq!(SimpleBeep::pitch(true), 2093);
    assert_eq!(SimpleBeep::pitch(false), 0);
}

#[test]
fn beep_follows_the_generator() {
    let mut beep = SimpleBeep::new();
    assert!(!beep.is_beeping);
    assert_eq!(beep.settle(true, Ok(())), Ok(()));
    assert!(beep.is_beeping);
    // a generator that fails changes nothing
    assert_eq!(beep.settle(false, Err(Chip8Error::Sound)), Err(Chip8Error::Sound));
    assert!(beep.is_beeping);
    assert_eq!(beep.settle(false, Ok(())), Ok(()));
    assert!(!beep.is_beeping);
    assert_eq!(beep.settle(true, Err(Chip8Error::Sound)), Err(Chip8Error::Sound));
    assert!(!beep.is_beeping);
}

#[test]
fn mute_never_fails() {
    let mut mute = Mute::new();
    assert_eq!(mute.beep(), Ok(()));
    assert_eq!(mute.stop(), Ok(()));
}
