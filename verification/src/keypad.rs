//! The sixteen-key hexadecimal keypad, and the keys of a host keyboard that
//! stand for it.

use vstd::prelude::*;
use crate::error::Chip8Error;

verus! {

/// The number of keys on the keypad.
pub const KEY_COUNT: usize = 16;

/// A keypad on which no key is down.
pub open spec fn all_up() -> Seq<bool> {
    Seq::new(KEY_COUNT as nat, |i: int| false)
}

/// The lowest key code from `from` upward whose key is down, if there is one.
pub open spec fn lowest_down_from(keys: Seq<bool>, from: int) -> Option<u8>
    decreases keys.len() - from,
{
    if from < 0 || from >= keys.len() || from > u8::MAX {
        None
    } else if keys[from] {
        Some(from as u8)
    } else {
        lowest_down_from(keys, from + 1)
    }
}

/// The lowest key code whose key is down, if any key is.
pub open spec fn lowest_down(keys: Seq<bool>) -> Option<u8> {
    lowest_down_from(keys, 0)
}

/// What `lowest_down_from` picks: a key that is down, with no key down
/// between `from` and it; and nothing only where no key is down from `from`
/// upward.
pub proof fn lowest_down_from_is_lowest(keys: Seq<bool>, from: int)
    requires
        0 <= from,
        keys.len() <= KEY_COUNT,
    ensures
        match lowest_down_from(keys, from) {
            Some(k) => from <= k < keys.len() && keys[k as int] && forall|j: int|
                from <= j < k ==> !keys[j],
            None => forall|j: int| from <= j < keys.len() ==> !keys[j],
        },
    decreases keys.len() - from,
{
    if from < keys.len() && !keys[from] {
        lowest_down_from_is_lowest(keys, from + 1);
    }
}

/// The state of the keypad as the host last reported it: for each key code,
/// whether that key is down. Its view lists the sixteen keys by code.
pub struct Keypad {
    down: [bool; 16],
}

impl View for Keypad {
    type V = Seq<bool>;

    closed spec fn view(&self) -> Seq<bool> {
        self.down@
    }
}

impl Keypad {
    /// The view always has one entry per key.
    pub proof fn view_len(&self)
        ensures
            self@.len() == KEY_COUNT,
    {
    }

    /// A keypad with every key up.
    pub fn new() -> (r: Self)
        ensures
            r@ == all_up(),
    {
        let r = Keypad { down: [false; 16] };
        assert(r@ =~= all_up());
        r
    }

    /// Records that a key went down or came up. A code above `0xF` names no
    /// key and changes nothing.
    pub fn set_key(&mut self, code: u8, down: bool) -> (r: Result<(), Chip8Error>)
        ensures
            code < KEY_COUNT ==> r is Ok && final(self)@ == old(self)@.update(code as int, down),
            code >= KEY_COUNT ==> r == Err::<(), Chip8Error>(Chip8Error::UnmappedInputKey)
                && final(self)@ == old(self)@,
    {
        if code as usize >= KEY_COUNT {
            return Err(Chip8Error::UnmappedInputKey);
        }
        self.down[code as usize] = down;
        Ok(())
    }

    /// Whether the key with this code is down. A code above `0xF` names no
    /// key.
    pub fn is_down(&self, code: u8) -> (r: Result<bool, Chip8Error>)
        ensures
            code < KEY_COUNT ==> r == Ok::<bool, Chip8Error>(self@[code as int]),
            code >= KEY_COUNT ==> r == Err::<bool, Chip8Error>(Chip8Error::UnmappedInputKey),
    {
        if code as usize >= KEY_COUNT {
            return Err(Chip8Error::UnmappedInputKey);
        }
        Ok(self.down[code as usize])
    }

    /// The lowest code whose key is down, if any key is.
    pub fn first_down(&self) -> (r: Option<u8>)
        ensures
            r == lowest_down(self@),
    {
        let mut code: u8 = 0;
        while (code as usize) < KEY_COUNT
            invariant
                code <= KEY_COUNT,
                lowest_down(self@) == lowest_down_from(self@, code as int),
            decreases KEY_COUNT - code,
        {
            if self.down[code as usize] {
                return Some(code);
            }
            code = code + 1;
        }
        None
    }
}

/// A key of the host keyboard, as far as the keypad is concerned: the
/// sixteen keys that stand for keypad keys, and one value for all the others.
#[derive(Clone, Copy, Debug, PartialEq, Eq, Structural)]
pub enum HostKey {
    Key1,
    Key2,
    Key3,
    Key4,
    Q,
    W,
    E,
    R,
    A,
    S,
    D,
    F,
    Z,
    X,
    C,
    V,
    /// Any key that stands for no keypad key.
    Other,
}

/// The host key that stands for a key code: the keypad's 4x4 block laid over
/// the keys `1234`, `QWER`, `ASDF`, `ZXCV`.
pub open spec fn host_key_of(code: u8) -> Option<HostKey> {
    if code == 0x1 {
        Some(HostKey::Key1)
    } else if code == 0x2 {
        Some(HostKey::Key2)
    } else if code == 0x3 {
        Some(HostKey::Key3)
    } else if code == 0xC {
        Some(HostKey::Key4)
    } else if code == 0x4 {
        Some(HostKey::Q)
    } else if code == 0x5 {
        Some(HostKey::W)
    } else if code == 0x6 {
        Some(HostKey::E)
    } else if code == 0xD {
        Some(HostKey::R)
    } else if code == 0x7 {
        Some(HostKey::A)
    } else if code == 0x8 {
        Some(HostKey::S)
    } else if code == 0x9 {
        Some(HostKey::D)
    } else if code == 0xE {
        Some(HostKey::F)
    } else if code == 0xA {
        Some(HostKey::Z)
    } else if code == 0x0 {
        Some(HostKey::X)
    } else if code == 0xB {
        Some(HostKey::C)
    } else if code == 0xF {
        Some(HostKey::V)
    } else {
        None
    }
}

/// The key code that a host key stands for.
pub open spec fn key_code_of(key: HostKey) -> Option<u8> {
    match key {
        HostKey::Key1 => Some(0x1u8),
        HostKey::Key2 => Some(0x2u8),
        HostKey::Key3 => Some(0x3u8),
        HostKey::Key4 => Some(0xCu8),
        HostKey::Q => Some(0x4u8),
        HostKey::W => Some(0x5u8),
        HostKey::E => Some(0x6u8),
        HostKey::R => Some(0xDu8),
        HostKey::A => Some(0x7u8),
        HostKey::S => Some(0x8u8),
        HostKey::D => Some(0x9u8),
        HostKey::F => Some(0xEu8),
        HostKey::Z => Some(0xAu8),
        HostKey::X => Some(0x0u8),
        HostKey::C => Some(0xBu8),
        HostKey::V => Some(0xFu8),
        HostKey::Other => None,
    }
}

} // verus!
