//! Where the colour of each key lies in the colour packet.
//!
//! The keys are numbered row by row, from the top left key on; a key's number
//! is its slot. Every slot takes three consecutive bytes of one step, for red,
//! green and blue. A step holds as many whole slots as fit behind its header.

use vstd::prelude::*;
use crate::keyboards::rk68::{COLOR_LEN, COLOR_STEP_COUNT};
use crate::keyboards::steps::{same_step_indexes, Indexes};

verus! {

/// The number of keys on the keyboard.
pub const KEY_COUNT: usize = 68;

/// The bytes that one key takes: red, green, blue.
pub const CHANNELS: usize = 3;

/// The header of the first step: two marker bytes, the step's number, two
/// fixed bytes and the sleep setting.
pub const FIRST_HEADER_LEN: usize = 6;

/// The header of every later step: two marker bytes and the step's number.
pub const HEADER_LEN: usize = 3;

/// The whole slots that fit behind the header of the first step.
pub const FIRST_STEP_KEYS: usize = 19;

/// The whole slots that fit behind the header of a later step.
pub const STEP_KEYS: usize = 20;

/// The keys of the keyboard.
#[derive(Clone, Copy, Debug, PartialEq, Eq, Structural)]
pub enum Keys {
    Escape,
    One,
    Two,
    Three,
    Four,
    Five,
    Six,
    Seven,
    Eight,
    Nine,
    Zero,
    Minus,
    Equals,
    Backspace,
    Grave,
    Tab,
    Q,
    W,
    E,
    R,
    T,
    Y,
    U,
    I,
    O,
    P,
    LeftBracket,
    RightBracket,
    Backslash,
    Delete,
    CapsLock,
    A,
    S,
    D,
    F,
    G,
    H,
    J,
    K,
    L,
    Semicolon,
    Apostrophe,
    Enter,
    PageUp,
    LeftShift,
    Z,
    X,
    C,
    V,
    B,
    N,
    M,
    Comma,
    Period,
    Slash,
    RightShift,
    Up,
    PageDown,
    LeftControl,
    Super,
    LeftAlt,
    Space,
    RightAlt,
    Function,
    RightControl,
    Left,
    Down,
    Right,
}

/// The step in which slot `slot` lies.
pub open spec fn slot_step(slot: int) -> int {
    if slot < FIRST_STEP_KEYS {
        0
    } else {
        (slot - FIRST_STEP_KEYS) / (STEP_KEYS as int) + 1
    }
}

/// The offset in its step of the first byte of slot `slot`.
pub open spec fn slot_first(slot: int) -> int {
    if slot < FIRST_STEP_KEYS {
        FIRST_HEADER_LEN + CHANNELS * slot
    } else {
        HEADER_LEN + CHANNELS * ((slot - FIRST_STEP_KEYS) % (STEP_KEYS as int))
    }
}

/// The length of the header of step `step`.
pub open spec fn header_len(step: int) -> int {
    if step == 0 {
        FIRST_HEADER_LEN as int
    } else {
        HEADER_LEN as int
    }
}

/// The slot and the channel that the byte at `index` of step `step` belongs
/// to, if it belongs to a key at all.
pub open spec fn slot_at(step: int, index: int) -> Option<(int, int)> {
    let behind = index - header_len(step);
    let before = if step == 0 {
        0
    } else {
        FIRST_STEP_KEYS + STEP_KEYS * (step - 1)
    };
    let held = if step == 0 {
        FIRST_STEP_KEYS as int
    } else {
        STEP_KEYS as int
    };
    let slot = before + behind / (CHANNELS as int);
    if 0 <= step && 0 <= behind && behind / (CHANNELS as int) < held && slot < KEY_COUNT {
        Some((slot, behind % (CHANNELS as int)))
    } else {
        None
    }
}

impl Keys {
    /// The key's slot.
    pub open spec fn spec_slot(self) -> int {
        match self {
            Keys::Escape => 0,
            Keys::One => 1,
            Keys::Two => 2,
            Keys::Three => 3,
            Keys::Four => 4,
            Keys::Five => 5,
            Keys::Six => 6,
            Keys::Seven => 7,
            Keys::Eight => 8,
            Keys::Nine => 9,
            Keys::Zero => 10,
            Keys::Minus => 11,
            Keys::Equals => 12,
            Keys::Backspace => 13,
            Keys::Grave => 14,
            Keys::Tab => 15,
            Keys::Q => 16,
            Keys::W => 17,
            Keys::E => 18,
            Keys::R => 19,
            Keys::T => 20,
            Keys::Y => 21,
            Keys::U => 22,
            Keys::I => 23,
            Keys::O => 24,
            Keys::P => 25,
            Keys::LeftBracket => 26,
            Keys::RightBracket => 27,
            Keys::Backslash => 28,
            Keys::Delete => 29,
            Keys::CapsLock => 30,
            Keys::A => 31,
            Keys::S => 32,
            Keys::D => 33,
            Keys::F => 34,
            Keys::G => 35,
            Keys::H => 36,
            Keys::J => 37,
            Keys::K => 38,
            Keys::L => 39,
            Keys::Semicolon => 40,
            Keys::Apostrophe => 41,
            Keys::Enter => 42,
            Keys::PageUp => 43,
            Keys::LeftShift => 44,
            Keys::Z => 45,
            Keys::X => 46,
            Keys::C => 47,
            Keys::V => 48,
            Keys::B => 49,
            Keys::N => 50,
            Keys::M => 51,
            Keys::Comma => 52,
            Keys::Period => 53,
            Keys::Slash => 54,
            Keys::RightShift => 55,
            Keys::Up => 56,
            Keys::PageDown => 57,
            Keys::LeftControl => 58,
            Keys::Super => 59,
            Keys::LeftAlt => 60,
            Keys::Space => 61,
            Keys::RightAlt => 62,
            Keys::Function => 63,
            Keys::RightControl => 64,
            Keys::Left => 65,
            Keys::Down => 66,
            Keys::Right => 67,
        }
    }

    /// The place of the key's byte for channel `channel`: 0 is red, 1 green, 2 blue.
    pub open spec fn address(self, channel: int) -> Indexes {
        Indexes {
            step: slot_step(self.spec_slot()) as usize,
            index: (slot_first(self.spec_slot()) + channel) as usize,
        }
    }

    /// The key's slot.
    pub fn slot(&self) -> (out: usize)
        ensures
            out == self.spec_slot(),
            out < KEY_COUNT,
    {
        match self {
            Keys::Escape => 0,
            Keys::One => 1,
            Keys::Two => 2,
            Keys::Three => 3,
            Keys::Four => 4,
            Keys::Five => 5,
            Keys::Six => 6,
            Keys::Seven => 7,
            Keys::Eight => 8,
            Keys::Nine => 9,
            Keys::Zero => 10,
            Keys::Minus => 11,
            Keys::Equals => 12,
            Keys::Backspace => 13,
            Keys::Grave => 14,
            Keys::Tab => 15,
            Keys::Q => 16,
            Keys::W => 17,
            Keys::E => 18,
            Keys::R => 19,
            Keys::T => 20,
            Keys::Y => 21,
            Keys::U => 22,
            Keys::I => 23,
            Keys::O => 24,
            Keys::P => 25,
            Keys::LeftBracket => 26,
            Keys::RightBracket => 27,
            Keys::Backslash => 28,
            Keys::Delete => 29,
            Keys::CapsLock => 30,
            Keys::A => 31,
            Keys::S => 32,
            Keys::D => 33,
            Keys::F => 34,
            Keys::G => 35,
            Keys::H => 36,
            Keys::J => 37,
            Keys::K => 38,
            Keys::L => 39,
            Keys::Semicolon => 40,
            Keys::Apostrophe => 41,
            Keys::Enter => 42,
            Keys::PageUp => 43,
            Keys::LeftShift => 44,
            Keys::Z => 45,
            Keys::X => 46,
            Keys::C => 47,
            Keys::V => 48,
            Keys::B => 49,
            Keys::N => 50,
            Keys::M => 51,
            Keys::Comma => 52,
            Keys::Period => 53,
            Keys::Slash => 54,
            Keys::RightShift => 55,
            Keys::Up => 56,
            Keys::PageDown => 57,
            Keys::LeftControl => 58,
            Keys::Super => 59,
            Keys::LeftAlt => 60,
            Keys::Space => 61,
            Keys::RightAlt => 62,
            Keys::Function => 63,
            Keys::RightControl => 64,
            Keys::Left => 65,
            Keys::Down => 66,
            Keys::Right => 67,
        }
    }

    /// The key in slot `slot`, if `slot` is a slot of the keyboard.
    pub open spec fn of_slot(slot: int) -> Option<Keys> {
        if slot == 0 {
            Some(Keys::Escape)
        } else if slot == 1 {
            Some(Keys::One)
        } else if slot == 2 {
            Some(Keys::Two)
        } else if slot == 3 {
            Some(Keys::Three)
        } else if slot == 4 {
            Some(Keys::Four)
        } else if slot == 5 {
            Some(Keys::Five)
        } else if slot == 6 {
            Some(Keys::Six)
        } else if slot == 7 {
            Some(Keys::Seven)
        } else if slot == 8 {
            Some(Keys::Eight)
        } else if slot == 9 {
            Some(Keys::Nine)
        } else if slot == 10 {
            Some(Keys::Zero)
        } else if slot == 11 {
            Some(Keys::Minus)
        } else if slot == 12 {
            Some(Keys::Equals)
        } else if slot == 13 {
            Some(Keys::Backspace)
        } else if slot == 14 {
            Some(Keys::Grave)
        } else if slot == 15 {
            Some(Keys::Tab)
        } else if slot == 16 {
            Some(Keys::Q)
        } else if slot == 17 {
            Some(Keys::W)
        } else if slot == 18 {
            Some(Keys::E)
        } else if slot == 19 {
            Some(Keys::R)
        } else if slot == 20 {
            Some(Keys::T)
        } else if slot == 21 {
            Some(Keys::Y)
        } else if slot == 22 {
            Some(Keys::U)
        } else if slot == 23 {
            Some(Keys::I)
        } else if slot == 24 {
            Some(Keys::O)
        } else if slot == 25 {
            Some(Keys::P)
        } else if slot == 26 {
            Some(Keys::LeftBracket)
        } else if slot == 27 {
            Some(Keys::RightBracket)
        } else if slot == 28 {
            Some(Keys::Backslash)
        } else if slot == 29 {
            Some(Keys::Delete)
        } else if slot == 30 {
            Some(Keys::CapsLock)
        } else if slot == 31 {
            Some(Keys::A)
        } else if slot == 32 {
            Some(Keys::S)
        } else if slot == 33 {
            Some(Keys::D)
        } else if slot == 34 {
            Some(Keys::F)
        } else if slot == 35 {
            Some(Keys::G)
        } else if slot == 36 {
            Some(Keys::H)
        } else if slot == 37 {
            Some(Keys::J)
        } else if slot == 38 {
            Some(Keys::K)
        } else if slot == 39 {
            Some(Keys::L)
        } else if slot == 40 {
            Some(Keys::Semicolon)
        } else if slot == 41 {
            Some(Keys::Apostrophe)
        } else if slot == 42 {
            Some(Keys::Enter)
        } else if slot == 43 {
            Some(Keys::PageUp)
        } else if slot == 44 {
            Some(Keys::LeftShift)
        } else if slot == 45 {
            Some(Keys::Z)
        } else if slot == 46 {
            Some(Keys::X)
        } else if slot == 47 {
            Some(Keys::C)
        } else if slot == 48 {
            Some(Keys::V)
        } else if slot == 49 {
            Some(Keys::B)
        } else if slot == 50 {
            Some(Keys::N)
        } else if slot == 51 {
            Some(Keys::M)
        } else if slot == 52 {
            Some(Keys::Comma)
        } else if slot == 53 {
            Some(Keys::Period)
        } else if slot == 54 {
            Some(Keys::Slash)
        } else if slot == 55 {
            Some(Keys::RightShift)
        } else if slot == 56 {
            Some(Keys::Up)
        } else if slot == 57 {
            Some(Keys::PageDown)
        } else if slot == 58 {
            Some(Keys::LeftControl)
        } else if slot == 59 {
            Some(Keys::Super)
        } else if slot == 60 {
            Some(Keys::LeftAlt)
        } else if slot == 61 {
            Some(Keys::Space)
        } else if slot == 62 {
            Some(Keys::RightAlt)
        } else if slot == 63 {
            Some(Keys::Function)
        } else if slot == 64 {
            Some(Keys::RightControl)
        } else if slot == 65 {
            Some(Keys::Left)
        } else if slot == 66 {
            Some(Keys::Down)
        } else if slot == 67 {
            Some(Keys::Right)
        } else {
            None
        }
    }

    /// The key in slot `slot`, if `slot` is a slot of the keyboard.
    pub fn from_slot(slot: usize) -> (out: Option<Keys>)
        ensures
            out == Keys::of_slot(slot as int),
    {
        match slot {
            0 => Some(Keys::Escape),
            1 => Some(Keys::One),
            2 => Some(Keys::Two),
            3 => Some(Keys::Three),
            4 => Some(Keys::Four),
            5 => Some(Keys::Five),
            6 => Some(Keys::Six),
            7 => Some(Keys::Seven),
            8 => Some(Keys::Eight),
            9 => Some(Keys::Nine),
            10 => Some(Keys::Zero),
            11 => Some(Keys::Minus),
            12 => Some(Keys::Equals),
            13 => Some(Keys::Backspace),
            14 => Some(Keys::Grave),
            15 => Some(Keys::Tab),
            16 => Some(Keys::Q),
            17 => Some(Keys::W),
            18 => Some(Keys::E),
            19 => Some(Keys::R),
            20 => Some(Keys::T),
            21 => Some(Keys::Y),
            22 => Some(Keys::U),
            23 => Some(Keys::I),
            24 => Some(Keys::O),
            25 => Some(Keys::P),
            26 => Some(Keys::LeftBracket),
            27 => Some(Keys::RightBracket),
            28 => Some(Keys::Backslash),
            29 => Some(Keys::Delete),
            30 => Some(Keys::CapsLock),
            31 => Some(Keys::A),
            32 => Some(Keys::S),
            33 => Some(Keys::D),
            34 => Some(Keys::F),
            35 => Some(Keys::G),
            36 => Some(Keys::H),
            37 => Some(Keys::J),
            38 => Some(Keys::K),
            39 => Some(Keys::L),
            40 => Some(Keys::Semicolon),
            41 => Some(Keys::Apostrophe),
            42 => Some(Keys::Enter),
            43 => Some(Keys::PageUp),
            44 => Some(Keys::LeftShift),
            45 => Some(Keys::Z),
            46 => Some(Keys::X),
            47 => Some(Keys::C),
            48 => Some(Keys::V),
            49 => Some(Keys::B),
            50 => Some(Keys::N),
            51 => Some(Keys::M),
            52 => Some(Keys::Comma),
            53 => Some(Keys::Period),
            54 => Some(Keys::Slash),
            55 => Some(Keys::RightShift),
            56 => Some(Keys::Up),
            57 => Some(Keys::PageDown),
            58 => Some(Keys::LeftControl),
            59 => Some(Keys::Super),
            60 => Some(Keys::LeftAlt),
            61 => Some(Keys::Space),
            62 => Some(Keys::RightAlt),
            63 => Some(Keys::Function),
            64 => Some(Keys::RightControl),
            65 => Some(Keys::Left),
            66 => Some(Keys::Down),
            67 => Some(Keys::Right),
            _ => None,
        }
    }

    /// The places of the key's three bytes: red, green, blue.
    pub fn indexes(&self) -> (out: [Indexes; 3])
        ensures
            forall|channel: int|
                0 <= channel < CHANNELS ==> #[trigger] out[channel] == self.address(channel),
    {
        let slot = self.slot();
        if slot < FIRST_STEP_KEYS {
            same_step_indexes(0, FIRST_HEADER_LEN + CHANNELS * slot)
        } else {
            let rest = slot - FIRST_STEP_KEYS;
            same_step_indexes(rest / STEP_KEYS + 1, HEADER_LEN + CHANNELS * (rest % STEP_KEYS))
        }
    }

    /// Every key has a slot of its own, where it is found again.
    pub proof fn lemma_slot(self, other: Keys)
        ensures
            0 <= self.spec_slot() < KEY_COUNT,
            self.spec_slot() == other.spec_slot() ==> self == other,
            Keys::of_slot(self.spec_slot()) == Some(self),
    {
    }

    /// Every slot of the keyboard has its key, and no other number has one.
    pub proof fn lemma_of_slot(slot: int)
        ensures
            0 <= slot < KEY_COUNT <==> Keys::of_slot(slot) is Some,
            Keys::of_slot(slot) matches Some(key) ==> key.spec_slot() == slot,
    {
    }

    /// A key's bytes lie inside the colour packet, behind the header of their step.
    pub proof fn lemma_address_in_bounds(self, channel: int)
        requires
            0 <= channel < CHANNELS,
        ensures
            self.address(channel).step < COLOR_STEP_COUNT,
            header_len(self.address(channel).step as int) <= self.address(channel).index < COLOR_LEN,
    {
    }

    /// No byte belongs to two keys, or to two channels of one key.
    pub proof fn lemma_address_distinct(self, channel: int, other: Keys, other_channel: int)
        requires
            0 <= channel < CHANNELS,
            0 <= other_channel < CHANNELS,
            self.address(channel) == other.address(other_channel),
        ensures
            self == other,
            channel == other_channel,
    {
        self.lemma_slot(other);
    }

    /// The byte at a key's address belongs to that key and that channel.
    pub proof fn lemma_slot_at_address(self, channel: int)
        requires
            0 <= channel < CHANNELS,
        ensures
            slot_at(self.address(channel).step as int, self.address(channel).index as int) == Some(
                (self.spec_slot(), channel),
            ),
    {
    }
}

/// A byte that belongs to a slot and a channel is the byte of the key in that
/// slot for that channel: the bytes of the keys are all the bytes that belong
/// to a slot.
pub proof fn lemma_slot_at_is_key(step: int, index: int)
    requires
        slot_at(step, index) is Some,
    ensures
        ({
            let (slot, channel) = slot_at(step, index).unwrap();
            &&& 0 <= channel < CHANNELS
            &&& 0 <= step < COLOR_STEP_COUNT
            &&& 0 <= index < COLOR_LEN
            &&& Keys::of_slot(slot) is Some
            &&& Keys::of_slot(slot).unwrap().address(channel) == Indexes {
                step: step as usize,
                index: index as usize,
            }
        }),
{
    let (slot, channel) = slot_at(step, index).unwrap();
    Keys::lemma_of_slot(slot);
}

} // verus!
