//! The sixteen-key input latch and the host keys that drive it.
//!
//! The interpreter only reads the latch. A host fills it from whatever
//! device it has: the functions here decide what a host key does to the
//! latch, so that the host is left with reading the device.

use vstd::prelude::*;

verus! {

/// Keys on the hexadecimal keypad.
pub const KEY_NUM: usize = 16;

/// The input latch: one byte per keypad key, nonzero while the key is held,
/// and a flag that the host raises to end the session.
pub struct KeyBoard {
    /// Raised by the host to end the session.
    pub fin_flag: bool,
    /// One byte per key, nonzero while the key is held.
    pub key: [u8; KEY_NUM],
}

/// Whether key `k` is held in `keys`. A number that names no key is never held.
pub open spec fn pressed(keys: Seq<u8>, k: int) -> bool {
    0 <= k < keys.len() && keys[k] != 0
}

/// The lowest key number at or above `from` that is held, or `keys.len()`
/// where there is none.
pub open spec fn lowest_pressed_from(keys: Seq<u8>, from: int) -> int
    decreases keys.len() - from,
{
    if from < 0 || from >= keys.len() {
        keys.len() as int
    } else if keys[from] != 0 {
        from
    } else {
        lowest_pressed_from(keys, from + 1)
    }
}

/// The lowest key number that is held, if any key is.
pub open spec fn lowest_pressed(keys: Seq<u8>) -> Option<int> {
    let k = lowest_pressed_from(keys, 0);
    if k < keys.len() {
        Some(k)
    } else {
        None
    }
}

/// `lowest_pressed_from` returns a held key with no held key between
/// `from` and it, or the length where no key from `from` on is held.
pub proof fn lemma_lowest_pressed_from(keys: Seq<u8>, from: int)
    requires
        0 <= from <= keys.len(),
    ensures
        from <= lowest_pressed_from(keys, from) <= keys.len(),
        lowest_pressed_from(keys, from) < keys.len() ==> pressed(
            keys,
            lowest_pressed_from(keys, from),
        ),
        forall|j: int| from <= j < lowest_pressed_from(keys, from) ==> !pressed(keys, j),
    decreases keys.len() - from,
{
    if from < keys.len() && keys[from] == 0 {
        lemma_lowest_pressed_from(keys, from + 1);
    }
}

/// The keypad key that a host character stands for.
///
/// The left-hand block of a QWERTY keyboard mirrors the keypad:
///
/// ```text
/// 1 2 3 4        1 2 3 C
/// q w e r   ->   4 5 6 D
/// a s d f        7 8 9 E
/// z x c v        A 0 B F
/// ```
pub open spec fn keypad_of(c: char) -> Option<usize> {
    if c == 'x' {
        Some(0x0usize)
    } else if c == '1' {
        Some(0x1usize)
    } else if c == '2' {
        Some(0x2usize)
    } else if c == '3' {
        Some(0x3usize)
    } else if c == 'q' {
        Some(0x4usize)
    } else if c == 'w' {
        Some(0x5usize)
    } else if c == 'e' {
        Some(0x6usize)
    } else if c == 'a' {
        Some(0x7usize)
    } else if c == 's' {
        Some(0x8usize)
    } else if c == 'd' {
        Some(0x9usize)
    } else if c == 'z' {
        Some(0xAusize)
    } else if c == 'c' {
        Some(0xBusize)
    } else if c == '4' {
        Some(0xCusize)
    } else if c == 'r' {
        Some(0xDusize)
    } else if c == 'f' {
        Some(0xEusize)
    } else if c == 'v' {
        Some(0xFusize)
    } else {
        None
    }
}

/// The character that a terminal host reads as the request to stop.
pub const STOP_CHAR: char = ' ';

/// The character that a windowed host sends for the escape key.
pub const ESCAPE_CHAR: char = '\u{1b}';

/// An input event of a windowed host, with keys given as characters.
#[derive(Clone, Copy, Debug, PartialEq, Eq, Structural)]
pub enum HostEvent {
    /// The window was closed.
    Quit,
    /// A key went down.
    KeyDown(char),
    /// A key came up.
    KeyUp(char),
}

/// A latch with every key released.
pub open spec fn released() -> Seq<u8> {
    Seq::new(16, |k: int| 0u8)
}

/// Maps a host character to its keypad key.
pub fn keypad_index(c: char) -> (r: Option<usize>)
    ensures
        r == keypad_of(c),
        r matches Some(k) ==> k < 16,
{
    if c == 'x' {
        Some(0x0)
    } else if c == '1' {
        Some(0x1)
    } else if c == '2' {
        Some(0x2)
    } else if c == '3' {
        Some(0x3)
    } else if c == 'q' {
        Some(0x4)
    } else if c == 'w' {
        Some(0x5)
    } else if c == 'e' {
        Some(0x6)
    } else if c == 'a' {
        Some(0x7)
    } else if c == 's' {
        Some(0x8)
    } else if c == 'd' {
        Some(0x9)
    } else if c == 'z' {
        Some(0xA)
    } else if c == 'c' {
        Some(0xB)
    } else if c == '4' {
        Some(0xC)
    } else if c == 'r' {
        Some(0xD)
    } else if c == 'f' {
        Some(0xE)
    } else if c == 'v' {
        Some(0xF)
    } else {
        None
    }
}

impl KeyBoard {
    /// A latch with every key released and the session running.
    pub fn new() -> (kb: KeyBoard)
        ensures
            !kb.fin_flag,
            kb.key@ == released(),
    {
        KeyBoard { fin_flag: false, key: [0;KEY_NUM] }
    }

    /// Takes one keystroke of a terminal host, which reports keys one at a
    /// time and never their release: the stroke replaces the whole latch.
    ///
    /// Every key is released first. A character that stands for a keypad key
    /// then presses that key. The stop character raises `fin_flag`, and the
    /// result tells the host to stop reading. `None` is a keystroke that is
    /// no character, or a failed read.
    pub fn set_stroke(&mut self, stroke: Option<char>) -> (stop: bool)
        ensures
            stop == (stroke == Some(STOP_CHAR)),
            final(self).fin_flag == (old(self).fin_flag || stop),
            final(self).key@ == match stroke {
                Some(c) => match keypad_of(c) {
                    Some(k) => released().update(k as int, 1u8),
                    None => released(),
                },
                None => released(),
            },
    {
        self.key = [0;KEY_NUM];
        match stroke {
            Some(c) => {
                if c == STOP_CHAR {
                    self.fin_flag = true;
                    true
                } else {
                    match keypad_index(c) {
                        Some(k) => {
                            self.key[k] = 1;
                        },
                        None => {},
                    }
                    false
                }
            },
            None => false,
        }
    }

    /// Applies one event of a windowed host, which reports both edges of a key.
    ///
    /// Closing the window or pressing escape raises `fin_flag`. Any other
    /// key that stands for a keypad key presses or releases that key; the
    /// rest of the latch stays as it is.
    pub fn apply(&mut self, event: HostEvent)
        ensures
            final(self).fin_flag == (old(self).fin_flag || event == HostEvent::Quit || event
                == HostEvent::KeyDown(ESCAPE_CHAR)),
            final(self).key@ == match event {
                HostEvent::Quit => old(self).key@,
                HostEvent::KeyDown(c) => match keypad_of(c) {
                    Some(k) => old(self).key@.update(k as int, 1u8),
                    None => old(self).key@,
                },
                HostEvent::KeyUp(c) => match keypad_of(c) {
                    Some(k) => old(self).key@.update(k as int, 0u8),
                    None => old(self).key@,
                },
            },
    {
        match event {
            HostEvent::Quit => {
                self.fin_flag = true;
            },
            HostEvent::KeyDown(c) => {
                if c == ESCAPE_CHAR {
                    self.fin_flag = true;
                } else {
                    match keypad_index(c) {
                        Some(k) => {
                            self.key[k] = 1;
                        },
                        None => {},
                    }
                }
            },
            HostEvent::KeyUp(c) => {
                match keypad_index(c) {
                    Some(k) => {
                        self.key[k] = 0;
                    },
                    None => {},
                }
            },
        }
    }
}

} // verus!
