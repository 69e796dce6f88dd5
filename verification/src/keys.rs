//! The key, modifier and scroll-direction enumerations a step can carry.
//!
//! These values originate in the OS automation backend, whose own types
//! cannot be stored in a file. The library owns an explicitly enumerated
//! mirror of each, and every value has a stable, explicit wire tag: a new
//! backend value gets a new tag, and no tag is ever reused or inferred.

use vstd::prelude::*;

verus! {

/// A key a `PressKey` step taps.
#[derive(Clone, Copy, Debug, PartialEq, Eq, Structural)]
pub enum KeyCode {
    F1,
    F2,
    F3,
    F4,
    F5,
    F6,
    F7,
    F8,
    F9,
    F10,
    F11,
    F12,
    F13,
    F14,
    F15,
    F16,
    F17,
    F18,
    F19,
    F20,
    F21,
    F22,
    F23,
    F24,
    LeftArrow,
    Control,
    RightArrow,
    DownArrow,
    End,
    UpArrow,
    PageUp,
    Alt,
    Return,
    PageDown,
    Delete,
    Home,
    Escape,
    Backspace,
    Meta,
    CapsLock,
    Shift,
    Tab,
    Space,
}

/// A modifier held while text is typed or a key is tapped.
#[derive(Clone, Copy, Debug, PartialEq, Eq, Structural)]
pub enum Flag {
    Shift,
    Control,
    Alt,
    Meta,
    Help,
}

/// The direction a `Scroll` step turns the wheel.
#[derive(Clone, Copy, Debug, PartialEq, Eq, Structural)]
pub enum ScrollDirection {
    Up,
    Down,
}

impl View for KeyCode {
    type V = KeyCode;

    open spec fn view(&self) -> KeyCode {
        *self
    }
}

impl KeyCode {
    /// The stable wire tag of this key.
    pub open spec fn tag_spec(self) -> u64 {
        match self {
            KeyCode::F1 => 0,
            KeyCode::F2 => 1,
            KeyCode::F3 => 2,
            KeyCode::F4 => 3,
            KeyCode::F5 => 4,
            KeyCode::F6 => 5,
            KeyCode::F7 => 6,
            KeyCode::F8 => 7,
            KeyCode::F9 => 8,
            KeyCode::F10 => 9,
            KeyCode::F11 => 10,
            KeyCode::F12 => 11,
            KeyCode::F13 => 12,
            KeyCode::F14 => 13,
            KeyCode::F15 => 14,
            KeyCode::F16 => 15,
            KeyCode::F17 => 16,
            KeyCode::F18 => 17,
            KeyCode::F19 => 18,
            KeyCode::F20 => 19,
            KeyCode::F21 => 20,
            KeyCode::F22 => 21,
            KeyCode::F23 => 22,
            KeyCode::F24 => 23,
            KeyCode::LeftArrow => 24,
            KeyCode::Control => 25,
            KeyCode::RightArrow => 26,
            KeyCode::DownArrow => 27,
            KeyCode::End => 28,
            KeyCode::UpArrow => 29,
            KeyCode::PageUp => 30,
            KeyCode::Alt => 31,
            KeyCode::Return => 32,
            KeyCode::PageDown => 33,
            KeyCode::Delete => 34,
            KeyCode::Home => 35,
            KeyCode::Escape => 36,
            KeyCode::Backspace => 37,
            KeyCode::Meta => 38,
            KeyCode::CapsLock => 39,
            KeyCode::Shift => 40,
            KeyCode::Tab => 41,
            KeyCode::Space => 42,
        }
    }

    /// The key a wire tag names, if any.
    pub open spec fn from_tag_spec(t: u64) -> Option<KeyCode> {
        if t == 0 {
            Some(KeyCode::F1)
        } else if t == 1 {
            Some(KeyCode::F2)
        } else if t == 2 {
            Some(KeyCode::F3)
        } else if t == 3 {
            Some(KeyCode::F4)
        } else if t == 4 {
            Some(KeyCode::F5)
        } else if t == 5 {
            Some(KeyCode::F6)
        } else if t == 6 {
            Some(KeyCode::F7)
        } else if t == 7 {
            Some(KeyCode::F8)
        } else if t == 8 {
            Some(KeyCode::F9)
        } else if t == 9 {
            Some(KeyCode::F10)
        } else if t == 10 {
            Some(KeyCode::F11)
        } else if t == 11 {
            Some(KeyCode::F12)
        } else if t == 12 {
            Some(KeyCode::F13)
        } else if t == 13 {
            Some(KeyCode::F14)
        } else if t == 14 {
            Some(KeyCode::F15)
        } else if t == 15 {
            Some(KeyCode::F16)
        } else if t == 16 {
            Some(KeyCode::F17)
        } else if t == 17 {
            Some(KeyCode::F18)
        } else if t == 18 {
            Some(KeyCode::F19)
        } else if t == 19 {
            Some(KeyCode::F20)
        } else if t == 20 {
            Some(KeyCode::F21)
        } else if t == 21 {
            Some(KeyCode::F22)
        } else if t == 22 {
            Some(KeyCode::F23)
        } else if t == 23 {
            Some(KeyCode::F24)
        } else if t == 24 {
            Some(KeyCode::LeftArrow)
        } else if t == 25 {
            Some(KeyCode::Control)
        } else if t == 26 {
            Some(KeyCode::RightArrow)
        } else if t == 27 {
            Some(KeyCode::DownArrow)
        } else if t == 28 {
            Some(KeyCode::End)
        } else if t == 29 {
            Some(KeyCode::UpArrow)
        } else if t == 30 {
            Some(KeyCode::PageUp)
        } else if t == 31 {
            Some(KeyCode::Alt)
        } else if t == 32 {
            Some(KeyCode::Return)
        } else if t == 33 {
            Some(KeyCode::PageDown)
        } else if t == 34 {
            Some(KeyCode::Delete)
        } else if t == 35 {
            Some(KeyCode::Home)
        } else if t == 36 {
            Some(KeyCode::Escape)
        } else if t == 37 {
            Some(KeyCode::Backspace)
        } else if t == 38 {
            Some(KeyCode::Meta)
        } else if t == 39 {
            Some(KeyCode::CapsLock)
        } else if t == 40 {
            Some(KeyCode::Shift)
        } else if t == 41 {
            Some(KeyCode::Tab)
        } else if t == 42 {
            Some(KeyCode::Space)
        } else {
            None
        }
    }

    pub fn tag(&self) -> (r: u64)
        ensures
            r == self.tag_spec(),
            r <= 42,
    {
        match self {
            KeyCode::F1 => 0,
            KeyCode::F2 => 1,
            KeyCode::F3 => 2,
            KeyCode::F4 => 3,
            KeyCode::F5 => 4,
            KeyCode::F6 => 5,
            KeyCode::F7 => 6,
            KeyCode::F8 => 7,
            KeyCode::F9 => 8,
            KeyCode::F10 => 9,
            KeyCode::F11 => 10,
            KeyCode::F12 => 11,
            KeyCode::F13 => 12,
            KeyCode::F14 => 13,
            KeyCode::F15 => 14,
            KeyCode::F16 => 15,
            KeyCode::F17 => 16,
            KeyCode::F18 => 17,
            KeyCode::F19 => 18,
            KeyCode::F20 => 19,
            KeyCode::F21 => 20,
            KeyCode::F22 => 21,
            KeyCode::F23 => 22,
            KeyCode::F24 => 23,
            KeyCode::LeftArrow => 24,
            KeyCode::Control => 25,
            KeyCode::RightArrow => 26,
            KeyCode::DownArrow => 27,
            KeyCode::End => 28,
            KeyCode::UpArrow => 29,
            KeyCode::PageUp => 30,
            KeyCode::Alt => 31,
            KeyCode::Return => 32,
            KeyCode::PageDown => 33,
            KeyCode::Delete => 34,
            KeyCode::Home => 35,
            KeyCode::Escape => 36,
            KeyCode::Backspace => 37,
            KeyCode::Meta => 38,
            KeyCode::CapsLock => 39,
            KeyCode::Shift => 40,
            KeyCode::Tab => 41,
            KeyCode::Space => 42,
        }
    }

    pub fn from_tag(t: u64) -> (r: Option<KeyCode>)
        ensures
            r == Self::from_tag_spec(t),
    {
        match t {
            0 => Some(KeyCode::F1),
            1 => Some(KeyCode::F2),
            2 => Some(KeyCode::F3),
            3 => Some(KeyCode::F4),
            4 => Some(KeyCode::F5),
            5 => Some(KeyCode::F6),
            6 => Some(KeyCode::F7),
            7 => Some(KeyCode::F8),
            8 => Some(KeyCode::F9),
            9 => Some(KeyCode::F10),
            10 => Some(KeyCode::F11),
            11 => Some(KeyCode::F12),
            12 => Some(KeyCode::F13),
            13 => Some(KeyCode::F14),
            14 => Some(KeyCode::F15),
            15 => Some(KeyCode::F16),
            16 => Some(KeyCode::F17),
            17 => Some(KeyCode::F18),
            18 => Some(KeyCode::F19),
            19 => Some(KeyCode::F20),
            20 => Some(KeyCode::F21),
            21 => Some(KeyCode::F22),
            22 => Some(KeyCode::F23),
            23 => Some(KeyCode::F24),
            24 => Some(KeyCode::LeftArrow),
            25 => Some(KeyCode::Control),
            26 => Some(KeyCode::RightArrow),
            27 => Some(KeyCode::DownArrow),
            28 => Some(KeyCode::End),
            29 => Some(KeyCode::UpArrow),
            30 => Some(KeyCode::PageUp),
            31 => Some(KeyCode::Alt),
            32 => Some(KeyCode::Return),
            33 => Some(KeyCode::PageDown),
            34 => Some(KeyCode::Delete),
            35 => Some(KeyCode::Home),
            36 => Some(KeyCode::Escape),
            37 => Some(KeyCode::Backspace),
            38 => Some(KeyCode::Meta),
            39 => Some(KeyCode::CapsLock),
            40 => Some(KeyCode::Shift),
            41 => Some(KeyCode::Tab),
            42 => Some(KeyCode::Space),
            _ => None,
        }
    }
}

impl Flag {
    pub open spec fn tag_spec(self) -> u64 {
        match self {
            Flag::Shift => 0,
            Flag::Control => 1,
            Flag::Alt => 2,
            Flag::Meta => 3,
            Flag::Help => 4,
        }
    }

    pub open spec fn from_tag_spec(t: u64) -> Option<Flag> {
        if t == 0 {
            Some(Flag::Shift)
        } else if t == 1 {
            Some(Flag::Control)
        } else if t == 2 {
            Some(Flag::Alt)
        } else if t == 3 {
            Some(Flag::Meta)
        } else if t == 4 {
            Some(Flag::Help)
        } else {
            None
        }
    }

    pub fn tag(&self) -> (r: u64)
        ensures
            r == self.tag_spec(),
            r <= 4,
    {
        match self {
            Flag::Shift => 0,
            Flag::Control => 1,
            Flag::Alt => 2,
            Flag::Meta => 3,
            Flag::Help => 4,
        }
    }

    pub fn from_tag(t: u64) -> (r: Option<Flag>)
        ensures
            r == Self::from_tag_spec(t),
    {
        match t {
            0 => Some(Flag::Shift),
            1 => Some(Flag::Control),
            2 => Some(Flag::Alt),
            3 => Some(Flag::Meta),
            4 => Some(Flag::Help),
            _ => None,
        }
    }
}

impl ScrollDirection {
    pub open spec fn tag_spec(self) -> u64 {
        match self {
            ScrollDirection::Up => 0,
            ScrollDirection::Down => 1,
        }
    }

    pub open spec fn from_tag_spec(t: u64) -> Option<ScrollDirection> {
        if t == 0 {
            Some(ScrollDirection::Up)
        } else if t == 1 {
            Some(ScrollDirection::Down)
        } else {
            None
        }
    }

    pub fn tag(&self) -> (r: u64)
        ensures
            r == self.tag_spec(),
            r <= 1,
    {
        match self {
            ScrollDirection::Up => 0,
            ScrollDirection::Down => 1,
        }
    }

    pub fn from_tag(t: u64) -> (r: Option<ScrollDirection>)
        ensures
            r == Self::from_tag_spec(t),
    {
        match t {
            0 => Some(ScrollDirection::Up),
            1 => Some(ScrollDirection::Down),
            _ => None,
        }
    }
}

/// Every key tag reads back as the key it was written for.
pub broadcast proof fn lemma_key_tag_round_trip(k: KeyCode)
    ensures
        KeyCode::from_tag_spec(#[trigger] k.tag_spec()) == Some(k),
{
}

/// Every modifier tag reads back as the modifier it was written for.
pub broadcast proof fn lemma_flag_tag_round_trip(f: Flag)
    ensures
        Flag::from_tag_spec(#[trigger] f.tag_spec()) == Some(f),
{
}

/// Every scroll-direction tag reads back as the direction it was written for.
pub broadcast proof fn lemma_scroll_tag_round_trip(d: ScrollDirection)
    ensures
        ScrollDirection::from_tag_spec(#[trigger] d.tag_spec()) == Some(d),
{
}

} // verus!
