//! The keypad of the machine, and the bookkeeping of a keyboard that stands
//! in for it.
use crate::error::Chip8Error;
use vstd::prelude::*;

verus! {

/// Reads keypresses.
pub trait Input {
    /// Forgets the latched key.
    fn flush_keys(&mut self) -> Result<(), Chip8Error>;

    /// Reads the latched key, without waiting for one: `None` where no key
    /// is down.
    fn read_key(&mut self) -> Result<Option<u8>, Chip8Error>;

    /// Tells the input that a frame has passed.
    fn tick(&mut self) -> Result<(), Chip8Error>;
}

/// The key of the hexadecimal keypad that a character names directly:
/// `'1'` is key 1 and `'a'` is key A.
pub open spec fn literal_key(c: char) -> Option<u8> {
    if '0' <= c <= '9' {
        Some((c as u8 - '0' as u8) as u8)
    } else if 'a' <= c <= 'f' {
        Some((c as u8 - 'a' as u8 + 10) as u8)
    } else {
        None
    }
}

/// The key of the hexadecimal keypad for a character of the left-hand block
/// of a QWERTY keyboard:
///
/// ```text
///   1 2 3 4        1 2 3 C
///   q w e r   =>   4 5 6 D
///   a s d f        7 8 9 E
///   z x c v        A 0 B F
/// ```
pub open spec fn conventional_key(c: char) -> Option<u8> {
    if c == 'x' {
        Some(0x00u8)
    } else if c == '1' {
        Some(0x01u8)
    } else if c == '2' {
        Some(0x02u8)
    } else if c == '3' {
        Some(0x03u8)
    } else if c == 'q' {
        Some(0x04u8)
    } else if c == 'w' {
        Some(0x05u8)
    } else if c == 'e' {
        Some(0x06u8)
    } else if c == 'a' {
        Some(0x07u8)
    } else if c == 's' {
        Some(0x08u8)
    } else if c == 'd' {
        Some(0x09u8)
    } else if c == 'z' {
        Some(0x0au8)
    } else if c == 'c' {
        Some(0x0bu8)
    } else if c == '4' {
        Some(0x0cu8)
    } else if c == 'r' {
        Some(0x0du8)
    } else if c == 'f' {
        Some(0x0eu8)
    } else if c == 'v' {
        Some(0x0fu8)
    } else {
        None
    }
}

/// The characters of the conventional keymap, indexed by the key that each
/// stands for.
pub const CHIP8_CONVENTIONAL_KEYMAP: [char; 16] = [
    'x', '1', '2', '3', 'q', 'w', 'e', 'a', 's', 'd', 'z', 'c', '4', 'r', 'f', 'v',
];

/// Every key of the keypad has its character in the conventional keymap,
/// and no two keys share one.
pub proof fn lemma_keymap_covers_the_keypad()
    ensures
        forall|key: int|
            0 <= key < 16 ==> conventional_key(#[trigger] CHIP8_CONVENTIONAL_KEYMAP@[key]) == Some(
                key as u8,
            ),
        forall|c: char| #[trigger]
            conventional_key(c) matches Some(key) ==> key < 16 && CHIP8_CONVENTIONAL_KEYMAP@[key as int]
                == c,
{
    assert(CHIP8_CONVENTIONAL_KEYMAP@[0] == 'x');
    assert(CHIP8_CONVENTIONAL_KEYMAP@[1] == '1');
    assert(CHIP8_CONVENTIONAL_KEYMAP@[2] == '2');
    assert(CHIP8_CONVENTIONAL_KEYMAP@[3] == '3');
    assert(CHIP8_CONVENTIONAL_KEYMAP@[4] == 'q');
    assert(CHIP8_CONVENTIONAL_KEYMAP@[5] == 'w');
    assert(CHIP8_CONVENTIONAL_KEYMAP@[6] == 'e');
    assert(CHIP8_CONVENTIONAL_KEYMAP@[7] == 'a');
    assert(CHIP8_CONVENTIONAL_KEYMAP@[8] == 's');
    assert(CHIP8_CONVENTIONAL_KEYMAP@[9] == 'd');
    assert(CHIP8_CONVENTIONAL_KEYMAP@[10] == 'z');
    assert(CHIP8_CONVENTIONAL_KEYMAP@[11] == 'c');
    assert(CHIP8_CONVENTIONAL_KEYMAP@[12] == '4');
    assert(CHIP8_CONVENTIONAL_KEYMAP@[13] == 'r');
    assert(CHIP8_CONVENTIONAL_KEYMAP@[14] == 'f');
    assert(CHIP8_CONVENTIONAL_KEYMAP@[15] == 'v');
}

/// Looks `c` up in the conventional keymap.
pub fn map_conventional_key(c: char) -> (key: Option<u8>)
    ensures
        key == conventional_key(c),
        key matches Some(k) ==> k < 16 && CHIP8_CONVENTIONAL_KEYMAP@[k as int] == c,
{
    let mut k: u8 = 0;
    while k < 16
        invariant
            k <= 16,
            forall|j: int| 0 <= j < k ==> CHIP8_CONVENTIONAL_KEYMAP@[j] != c,
        decreases 16 - k,
    {
        if CHIP8_CONVENTIONAL_KEYMAP[k as usize] == c {
            return Some(k);
        }
        k += 1;
    }
    None
}

/// Looks `c` up in the literal keymap.
pub fn map_literal_key(c: char) -> (key: Option<u8>)
    ensures
        key == literal_key(c),
        key matches Some(k) ==> k < 16,
{
    if '0' <= c && c <= '9' {
        Some(c as u8 - '0' as u8)
    } else if 'a' <= c && c <= 'f' {
        Some(c as u8 - 'a' as u8 + 10)
    } else {
        None
    }
}

/// What a terminal event amounts to for the keypad.
#[derive(Debug, Clone, Copy, PartialEq, Eq, Structural)]
pub enum KeyPress {
    /// A key that produces a character.
    Char(char),
    /// The escape key.
    Esc,
    /// Any other key.
    OtherKey,
    /// An event that is no key at all.
    OtherEvent,
}

/// What became of a terminal event.
#[derive(Debug, Clone, Copy, PartialEq, Eq, Structural)]
pub enum KeyOutcome {
    /// The event named this key of the keypad, which is now latched.
    Latched(u8),
    /// The character stands for no key of the keypad.
    Unmapped(char),
    /// The escape key asks for the emulator's menu.
    Menu,
    /// A key event that the keypad does not know.
    UnknownKey,
    /// An event that the keypad does not know.
    UnknownEvent,
}

/// How long a keypress is remembered, in frames: half a second.
pub const STDIN_DEBOUNCE_FRAMES: usize = 30;

/// The keypad as played on a terminal's keyboard.  A terminal reports key
/// presses but no releases, so the last key that was pressed stays latched
/// until the debounce time has passed.
///
/// This type only keeps the books; whoever owns the terminal reads its
/// events and hands them over.
pub struct StdinInput {
    pub latched_key: Option<u8>,
    pub timer: usize,
}

impl StdinInput {
    /// The timer always has between one frame and the whole debounce time
    /// left to run.
    pub open spec fn wf(&self) -> bool {
        1 <= self.timer <= STDIN_DEBOUNCE_FRAMES
    }

    pub fn new() -> (input: Self)
        ensures
            input.wf(),
            input.latched_key is None,
            input.timer == STDIN_DEBOUNCE_FRAMES,
    {
        StdinInput { latched_key: None, timer: STDIN_DEBOUNCE_FRAMES }
    }

    /// Takes one event from the terminal: a character of the conventional
    /// keymap latches its key, anything else leaves the latch alone.
    pub fn accept(&mut self, press: KeyPress) -> (outcome: KeyOutcome)
        ensures
            final(self).timer == old(self).timer,
            outcome == match press {
                KeyPress::Char(c) => match conventional_key(c) {
                    Some(key) => KeyOutcome::Latched(key),
                    None => KeyOutcome::Unmapped(c),
                },
                KeyPress::Esc => KeyOutcome::Menu,
                KeyPress::OtherKey => KeyOutcome::UnknownKey,
                KeyPress::OtherEvent => KeyOutcome::UnknownEvent,
            },
            final(self).latched_key == match outcome {
                KeyOutcome::Latched(key) => Some(key),
                _ => old(self).latched_key,
            },
    {
        match press {
            KeyPress::Char(c) => match map_conventional_key(c) {
                Some(key) => {
                    self.latched_key = Some(key);
                    KeyOutcome::Latched(key)
                },
                None => KeyOutcome::Unmapped(c),
            },
            KeyPress::Esc => KeyOutcome::Menu,
            KeyPress::OtherKey => KeyOutcome::UnknownKey,
            KeyPress::OtherEvent => KeyOutcome::UnknownEvent,
        }
    }

    /// Forgets the latched key.
    pub fn flush_keys(&mut self)
        ensures
            final(self).latched_key is None,
            final(self).timer == old(self).timer,
    {
        self.latched_key = None;
    }

    /// Whether the terminal has to be asked for events before the latched
    /// key is read: it has, where no key is latched.
    pub fn wants_events(&self) -> (wanted: bool)
        ensures
            wanted == (self.latched_key is None),
    {
        self.latched_key.is_none()
    }

    /// The latched key.
    pub fn read_key(&self) -> (key: Option<u8>)
        ensures
            key == self.latched_key,
    {
        self.latched_key
    }

    /// Counts one frame.  When the debounce time has passed, the latched key
    /// is forgotten, the timer starts again, and the result is `true`: the
    /// terminal has to be asked for events.
    pub fn tick(&mut self) -> (expired: bool)
        requires
            old(self).wf(),
        ensures
            final(self).wf(),
            expired == (old(self).timer == 1),
            expired ==> final(self).latched_key is None && final(self).timer
                == STDIN_DEBOUNCE_FRAMES,
            !expired ==> final(self).latched_key == old(self).latched_key && final(self).timer
                == old(self).timer - 1,
    {
        self.timer -= 1;
        if self.timer == 0 {
            self.flush_keys();
            self.timer = STDIN_DEBOUNCE_FRAMES;
            true
        } else {
            false
        }
    }
}

/// An input that plays back a fixed list of keys, the last one first.
pub struct DummyInput {
    pub bytes: Vec<u8>,
}

impl View for DummyInput {
    type V = Seq<u8>;

    open spec fn view(&self) -> Seq<u8> {
        self.bytes@
    }
}

impl DummyInput {
    pub fn new(keys: &[u8]) -> (input: Self)
        ensures
            input@ == keys@,
    {
        DummyInput { bytes: vstd::slice::slice_to_vec(keys) }
    }
}

impl Input for DummyInput {
    fn flush_keys(&mut self) -> (r: Result<(), Chip8Error>)
        ensures
            r is Ok,
            final(self)@ == Seq::<u8>::empty(),
    {
        self.bytes.clear();
        Ok(())
    }

    fn read_key(&mut self) -> (r: Result<Option<u8>, Chip8Error>)
        ensures
            r is Ok,
            old(self)@.len() == 0 ==> r == Ok::<Option<u8>, Chip8Error>(None) && final(self)@
                == old(self)@,
            old(self)@.len() > 0 ==> r == Ok::<Option<u8>, Chip8Error>(Some(old(self)@.last()))
                && final(self)@ == old(self)@.drop_last(),
    {
        Ok(self.bytes.pop())
    }

    fn tick(&mut self) -> (r: Result<(), Chip8Error>)
        ensures
            r is Ok,
            final(self)@ == old(self)@,
    {
        Ok(())
    }
}

} // verus!
