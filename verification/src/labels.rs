//! Human-readable labels for enumerations the editor offers in lists: each
//! step kind and each key. Every label parses back, and everything the
//! option lists offer is a label, so the mapping is a total bijection
//! between the variant set and the label list.

use vstd::prelude::*;
use crate::error::Error;
use crate::keys::KeyCode;
use crate::step::{MacroStep, StepV};
use crate::strutil::str_eq;

verus! {

/// A bidirectional mapping between an enumeration and short label strings.
///
/// `all_string_options` lists every label, `to_string` names a value, and
/// `from_str` parses a label back to the value it names — for step kinds,
/// back to the default instance of that kind.
pub trait EnumInterString: View + Sized {
    /// The full label list, in the order the editor offers it.
    spec fn options_spec() -> Seq<Seq<char>>;

    /// The label of a value, at the view level.
    spec fn label_of(v: Self::V) -> Seq<char>;

    /// What a label parses to, at the view level.
    spec fn parse_view(s: Seq<char>) -> Option<Self::V>;

    fn all_string_options() -> (r: Vec<String>)
        ensures
            r@.map_values(|s: String| s@) == Self::options_spec(),
    ;

    fn to_string(&self) -> (r: String)
        ensures
            r@ == Self::label_of(self@),
    ;

    fn from_str(s: &str) -> (r: Result<Self, Error>)
        ensures
            (match r {
                Ok(v) => Self::parse_view(s@) == Some(v@),
                Err(e) => Self::parse_view(s@) is None && e == Error::UnknownLabel,
            }),
    ;
}

impl EnumInterString for MacroStep {
    open spec fn options_spec() -> Seq<Seq<char>> {
        seq![
            "Launch program"@,
            "Click an image"@,
            "Move to image"@,
            "Type text"@,
            "Press key"@,
            "Scroll"@,
            "Wait"@,
        ]
    }

    open spec fn label_of(v: StepV) -> Seq<char> {
        match v {
            StepV::Launch(_) => "Launch program"@,
            StepV::ClickImage(_, _, _) => "Click an image"@,
            StepV::MoveToImage(_, _, _) => "Move to image"@,
            StepV::TypeText(_, _) => "Type text"@,
            StepV::PressKey(_, _) => "Press key"@,
            StepV::Scroll(_, _) => "Scroll"@,
            StepV::WaitTime(_) => "Wait"@,
        }
    }

    open spec fn parse_view(s: Seq<char>) -> Option<StepV> {
        if s == "Launch program"@ {
            Some(StepV::Launch(Seq::<char>::empty()))
        } else if s == "Click an image"@ {
            Some(StepV::ClickImage(None, crate::anchor::ClickPoint::CenterMiddle, 0u8))
        } else if s == "Move to image"@ {
            Some(StepV::MoveToImage(None, crate::anchor::ClickPoint::CenterMiddle, 0u8))
        } else if s == "Type text"@ {
            Some(StepV::TypeText(Seq::<char>::empty(), Seq::empty()))
        } else if s == "Press key"@ {
            Some(StepV::PressKey(KeyCode::LeftArrow, Seq::empty()))
        } else if s == "Scroll"@ {
            Some(StepV::Scroll(crate::keys::ScrollDirection::Down, 0u32))
        } else if s == "Wait"@ {
            Some(StepV::WaitTime(0u64))
        } else {
            None
        }
    }

    fn all_string_options() -> (r: Vec<String>)
        ensures
            r@.map_values(|s: String| s@) == Self::options_spec(),
    {
        let mut r: Vec<String> = Vec::new();
        r.push("Launch program".to_owned());
        r.push("Click an image".to_owned());
        r.push("Move to image".to_owned());
        r.push("Type text".to_owned());
        r.push("Press key".to_owned());
        r.push("Scroll".to_owned());
        r.push("Wait".to_owned());
        proof {
            assert(r@.map_values(|s: String| s@) =~= Self::options_spec());
        }
        r
    }

    fn to_string(&self) -> (r: String)
        ensures
            r@ == Self::label_of(self@),
    {
        match self {
            MacroStep::Launch(_) => "Launch program".to_owned(),
            MacroStep::ClickImage(_, _, _) => "Click an image".to_owned(),
            MacroStep::MoveToImage(_, _, _) => "Move to image".to_owned(),
            MacroStep::TypeText(_, _) => "Type text".to_owned(),
            MacroStep::PressKey(_, _) => "Press key".to_owned(),
            MacroStep::Scroll(_, _) => "Scroll".to_owned(),
            MacroStep::WaitTime(_) => "Wait".to_owned(),
        }
    }

    fn from_str(s: &str) -> (r: Result<Self, Error>)
        ensures
            (match r {
                Ok(v) => Self::parse_view(s@) == Some(v@),
                Err(e) => Self::parse_view(s@) is None && e == Error::UnknownLabel,
            }),
    {
        if str_eq(s, "Launch program") {
            Ok(MacroStep::default_launch())
        } else if str_eq(s, "Click an image") {
            Ok(MacroStep::default_click_image())
        } else if str_eq(s, "Move to image") {
            Ok(MacroStep::default_await_image())
        } else if str_eq(s, "Type text") {
            Ok(MacroStep::default_type_text())
        } else if str_eq(s, "Press key") {
            Ok(MacroStep::default_press_key())
        } else if str_eq(s, "Scroll") {
            Ok(MacroStep::default_scroll())
        } else if str_eq(s, "Wait") {
            Ok(MacroStep::default_wait())
        } else {
            Err(Error::UnknownLabel)
        }
    }
}

/// The default instance of a step's own kind, at the view level: what the
/// kind's label parses back to.
pub open spec fn default_of_kind(v: StepV) -> StepV {
    match v {
        StepV::Launch(_) => StepV::Launch(Seq::<char>::empty()),
        StepV::ClickImage(_, _, _) => StepV::ClickImage(
            None,
            crate::anchor::ClickPoint::CenterMiddle,
            0u8,
        ),
        StepV::MoveToImage(_, _, _) => StepV::MoveToImage(
            None,
            crate::anchor::ClickPoint::CenterMiddle,
            0u8,
        ),
        StepV::TypeText(_, _) => StepV::TypeText(Seq::<char>::empty(), Seq::empty()),
        StepV::PressKey(_, _) => StepV::PressKey(KeyCode::LeftArrow, Seq::empty()),
        StepV::Scroll(_, _) => StepV::Scroll(crate::keys::ScrollDirection::Down, 0u32),
        StepV::WaitTime(_) => StepV::WaitTime(0u64),
    }
}

/// Every step kind's label parses back to the default instance of that very
/// kind: the label mapping is a bijection over the variant set.
pub proof fn lemma_step_label_round_trip(v: StepV)
    ensures
        MacroStep::parse_view(MacroStep::label_of(v)) == Some(default_of_kind(v)),
{
    reveal_strlit("Launch program");
    reveal_strlit("Click an image");
    reveal_strlit("Move to image");
    reveal_strlit("Type text");
    reveal_strlit("Press key");
    reveal_strlit("Scroll");
    reveal_strlit("Wait");
    // The labels are pairwise distinct: most differ in length, and the two
    // same-length pairs differ in their first character.
    assert("Launch program"@.len() == 14);
    assert("Click an image"@.len() == 14);
    assert("Move to image"@.len() == 13);
    assert("Type text"@.len() == 9);
    assert("Press key"@.len() == 9);
    assert("Scroll"@.len() == 6);
    assert("Wait"@.len() == 4);
    assert("Launch program"@[0] == 'L');
    assert("Click an image"@[0] == 'C');
    assert("Type text"@[0] == 'T');
    assert("Press key"@[0] == 'P');
}

/// Every step kind's label is in the option list: the list misses no
/// variant.
pub proof fn lemma_step_label_in_options(v: StepV)
    ensures
        MacroStep::options_spec().contains(MacroStep::label_of(v)),
{
    match v {
        StepV::Launch(_) => {
            assert(MacroStep::options_spec()[0] == MacroStep::label_of(v));
        },
        StepV::ClickImage(_, _, _) => {
            assert(MacroStep::options_spec()[1] == MacroStep::label_of(v));
        },
        StepV::MoveToImage(_, _, _) => {
            assert(MacroStep::options_spec()[2] == MacroStep::label_of(v));
        },
        StepV::TypeText(_, _) => {
            assert(MacroStep::options_spec()[3] == MacroStep::label_of(v));
        },
        StepV::PressKey(_, _) => {
            assert(MacroStep::options_spec()[4] == MacroStep::label_of(v));
        },
        StepV::Scroll(_, _) => {
            assert(MacroStep::options_spec()[5] == MacroStep::label_of(v));
        },
        StepV::WaitTime(_) => {
            assert(MacroStep::options_spec()[6] == MacroStep::label_of(v));
        },
    }
}

/// Every listed label parses: the option list offers nothing that
/// `from_str` would refuse.
pub proof fn lemma_step_options_all_parse(i: int)
    requires
        0 <= i < MacroStep::options_spec().len(),
    ensures
        MacroStep::parse_view(MacroStep::options_spec()[i]) is Some,
{
    reveal_strlit("Launch program");
    reveal_strlit("Click an image");
    reveal_strlit("Move to image");
    reveal_strlit("Type text");
    reveal_strlit("Press key");
    reveal_strlit("Scroll");
    reveal_strlit("Wait");
}

impl EnumInterString for KeyCode {
    open spec fn options_spec() -> Seq<Seq<char>> {
        seq![
            "Left"@,
            "Right"@,
            "Down"@,
            "Up"@,
            "Enter"@,
            "Esc"@,
            "Space"@,
            "Ctrl"@,
            "Alt"@,
            "Shift"@,
            "Tab"@,
            "Del"@,
            "End"@,
            "Home"@,
            "Page Up"@,
            "Page Down"@,
            "Backspace"@,
            "Caps Lock"@,
            "F1"@,
            "F2"@,
            "F3"@,
            "F4"@,
            "F5"@,
            "F6"@,
            "F7"@,
            "F8"@,
            "F9"@,
            "F10"@,
            "F11"@,
            "F12"@,
            "F13"@,
            "F14"@,
            "F15"@,
            "F16"@,
            "F17"@,
            "F18"@,
            "F19"@,
            "F20"@,
            "F21"@,
            "F22"@,
            "F23"@,
            "F24"@,
            "Meta"@,
        ]
    }

    open spec fn label_of(v: KeyCode) -> Seq<char> {
        match v {
            KeyCode::F1 => "F1"@,
            KeyCode::F2 => "F2"@,
            KeyCode::F3 => "F3"@,
            KeyCode::F4 => "F4"@,
            KeyCode::F5 => "F5"@,
            KeyCode::F6 => "F6"@,
            KeyCode::F7 => "F7"@,
            KeyCode::F8 => "F8"@,
            KeyCode::F9 => "F9"@,
            KeyCode::F10 => "F10"@,
            KeyCode::F11 => "F11"@,
            KeyCode::F12 => "F12"@,
            KeyCode::F13 => "F13"@,
            KeyCode::F14 => "F14"@,
            KeyCode::F15 => "F15"@,
            KeyCode::F16 => "F16"@,
            KeyCode::F17 => "F17"@,
            KeyCode::F18 => "F18"@,
            KeyCode::F19 => "F19"@,
            KeyCode::F20 => "F20"@,
            KeyCode::F21 => "F21"@,
            KeyCode::F22 => "F22"@,
            KeyCode::F23 => "F23"@,
            KeyCode::F24 => "F24"@,
            KeyCode::LeftArrow => "Left"@,
            KeyCode::Control => "Ctrl"@,
            KeyCode::RightArrow => "Right"@,
            KeyCode::DownArrow => "Down"@,
            KeyCode::End => "End"@,
            KeyCode::UpArrow => "Up"@,
            KeyCode::PageUp => "Page Up"@,
            KeyCode::Alt => "Alt"@,
            KeyCode::Return => "Enter"@,
            KeyCode::PageDown => "Page Down"@,
            KeyCode::Delete => "Del"@,
            KeyCode::Home => "Home"@,
            KeyCode::Escape => "Esc"@,
            KeyCode::Backspace => "Backspace"@,
            KeyCode::Meta => "Meta"@,
            KeyCode::CapsLock => "Caps Lock"@,
            KeyCode::Shift => "Shift"@,
            KeyCode::Tab => "Tab"@,
            KeyCode::Space => "Space"@,
        }
    }

    open spec fn parse_view(s: Seq<char>) -> Option<KeyCode> {
        if s == "F1"@ {
            Some(KeyCode::F1)
        } else if s == "F2"@ {
            Some(KeyCode::F2)
        } else if s == "F3"@ {
            Some(KeyCode::F3)
        } else if s == "F4"@ {
            Some(KeyCode::F4)
        } else if s == "F5"@ {
            Some(KeyCode::F5)
        } else if s == "F6"@ {
            Some(KeyCode::F6)
        } else if s == "F7"@ {
            Some(KeyCode::F7)
        } else if s == "F8"@ {
            Some(KeyCode::F8)
        } else if s == "F9"@ {
            Some(KeyCode::F9)
        } else if s == "F10"@ {
            Some(KeyCode::F10)
        } else if s == "F11"@ {
            Some(KeyCode::F11)
        } else if s == "F12"@ {
            Some(KeyCode::F12)
        } else if s == "F13"@ {
            Some(KeyCode::F13)
        } else if s == "F14"@ {
            Some(KeyCode::F14)
        } else if s == "F15"@ {
            Some(KeyCode::F15)
        } else if s == "F16"@ {
            Some(KeyCode::F16)
        } else if s == "F17"@ {
            Some(KeyCode::F17)
        } else if s == "F18"@ {
            Some(KeyCode::F18)
        } else if s == "F19"@ {
            Some(KeyCode::F19)
        } else if s == "F20"@ {
            Some(KeyCode::F20)
        } else if s == "F21"@ {
            Some(KeyCode::F21)
        } else if s == "F22"@ {
            Some(KeyCode::F22)
        } else if s == "F23"@ {
            Some(KeyCode::F23)
        } else if s == "F24"@ {
            Some(KeyCode::F24)
        } else if s == "Left"@ {
            Some(KeyCode::LeftArrow)
        } else if s == "Ctrl"@ {
            Some(KeyCode::Control)
        } else if s == "Right"@ {
            Some(KeyCode::RightArrow)
        } else if s == "Down"@ {
            Some(KeyCode::DownArrow)
        } else if s == "End"@ {
            Some(KeyCode::End)
        } else if s == "Up"@ {
            Some(KeyCode::UpArrow)
        } else if s == "Page Up"@ {
            Some(KeyCode::PageUp)
        } else if s == "Alt"@ {
            Some(KeyCode::Alt)
        } else if s == "Enter"@ {
            Some(KeyCode::Return)
        } else if s == "Page Down"@ {
            Some(KeyCode::PageDown)
        } else if s == "Del"@ {
            Some(KeyCode::Delete)
        } else if s == "Home"@ {
            Some(KeyCode::Home)
        } else if s == "Esc"@ {
            Some(KeyCode::Escape)
        } else if s == "Backspace"@ {
            Some(KeyCode::Backspace)
        } else if s == "Meta"@ {
            Some(KeyCode::Meta)
        } else if s == "Caps Lock"@ {
            Some(KeyCode::CapsLock)
        } else if s == "Shift"@ {
            Some(KeyCode::Shift)
        } else if s == "Tab"@ {
            Some(KeyCode::Tab)
        } else if s == "Space"@ {
            Some(KeyCode::Space)
        } else {
            None
        }
    }

    fn all_string_options() -> (r: Vec<String>)
        ensures
            r@.map_values(|s: String| s@) == Self::options_spec(),
    {
        let mut r: Vec<String> = Vec::new();
        r.push("Left".to_owned());
        r.push("Right".to_owned());
        r.push("Down".to_owned());
        r.push("Up".to_owned());
        r.push("Enter".to_owned());
        r.push("Esc".to_owned());
        r.push("Space".to_owned());
        r.push("Ctrl".to_owned());
        r.push("Alt".to_owned());
        r.push("Shift".to_owned());
        r.push("Tab".to_owned());
        r.push("Del".to_owned());
        r.push("End".to_owned());
        r.push("Home".to_owned());
        r.push("Page Up".to_owned());
        r.push("Page Down".to_owned());
        r.push("Backspace".to_owned());
        r.push("Caps Lock".to_owned());
        r.push("F1".to_owned());
        r.push("F2".to_owned());
        r.push("F3".to_owned());
        r.push("F4".to_owned());
        r.push("F5".to_owned());
        r.push("F6".to_owned());
        r.push("F7".to_owned());
        r.push("F8".to_owned());
        r.push("F9".to_owned());
        r.push("F10".to_owned());
        r.push("F11".to_owned());
        r.push("F12".to_owned());
        r.push("F13".to_owned());
        r.push("F14".to_owned());
        r.push("F15".to_owned());
        r.push("F16".to_owned());
        r.push("F17".to_owned());
        r.push("F18".to_owned());
        r.push("F19".to_owned());
        r.push("F20".to_owned());
        r.push("F21".to_owned());
        r.push("F22".to_owned());
        r.push("F23".to_owned());
        r.push("F24".to_owned());
        r.push("Meta".to_owned());
        proof {
            assert(r@.map_values(|s: String| s@) =~= Self::options_spec());
        }
        r
    }

    fn to_string(&self) -> (r: String)
        ensures
            r@ == Self::label_of(self@),
    {
        match self {
            KeyCode::F1 => "F1".to_owned(),
            KeyCode::F2 => "F2".to_owned(),
            KeyCode::F3 => "F3".to_owned(),
            KeyCode::F4 => "F4".to_owned(),
            KeyCode::F5 => "F5".to_owned(),
            KeyCode::F6 => "F6".to_owned(),
            KeyCode::F7 => "F7".to_owned(),
            KeyCode::F8 => "F8".to_owned(),
            KeyCode::F9 => "F9".to_owned(),
            KeyCode::F10 => "F10".to_owned(),
            KeyCode::F11 => "F11".to_owned(),
            KeyCode::F12 => "F12".to_owned(),
            KeyCode::F13 => "F13".to_owned(),
            KeyCode::F14 => "F14".to_owned(),
            KeyCode::F15 => "F15".to_owned(),
            KeyCode::F16 => "F16".to_owned(),
            KeyCode::F17 => "F17".to_owned(),
            KeyCode::F18 => "F18".to_owned(),
            KeyCode::F19 => "F19".to_owned(),
            KeyCode::F20 => "F20".to_owned(),
            KeyCode::F21 => "F21".to_owned(),
            KeyCode::F22 => "F22".to_owned(),
            KeyCode::F23 => "F23".to_owned(),
            KeyCode::F24 => "F24".to_owned(),
            KeyCode::LeftArrow => "Left".to_owned(),
            KeyCode::Control => "Ctrl".to_owned(),
            KeyCode::RightArrow => "Right".to_owned(),
            KeyCode::DownArrow => "Down".to_owned(),
            KeyCode::End => "End".to_owned(),
            KeyCode::UpArrow => "Up".to_owned(),
            KeyCode::PageUp => "Page Up".to_owned(),
            KeyCode::Alt => "Alt".to_owned(),
            KeyCode::Return => "Enter".to_owned(),
            KeyCode::PageDown => "Page Down".to_owned(),
            KeyCode::Delete => "Del".to_owned(),
            KeyCode::Home => "Home".to_owned(),
            KeyCode::Escape => "Esc".to_owned(),
            KeyCode::Backspace => "Backspace".to_owned(),
            KeyCode::Meta => "Meta".to_owned(),
            KeyCode::CapsLock => "Caps Lock".to_owned(),
            KeyCode::Shift => "Shift".to_owned(),
            KeyCode::Tab => "Tab".to_owned(),
            KeyCode::Space => "Space".to_owned(),
        }
    }

    fn from_str(s: &str) -> (r: Result<Self, Error>)
        ensures
            (match r {
                Ok(v) => Self::parse_view(s@) == Some(v@),
                Err(e) => Self::parse_view(s@) is None && e == Error::UnknownLabel,
            }),
    {
        if str_eq(s, "F1") {
            Ok(KeyCode::F1)
        } else if str_eq(s, "F2") {
            Ok(KeyCode::F2)
        } else if str_eq(s, "F3") {
            Ok(KeyCode::F3)
        } else if str_eq(s, "F4") {
            Ok(KeyCode::F4)
        } else if str_eq(s, "F5") {
            Ok(KeyCode::F5)
        } else if str_eq(s, "F6") {
            Ok(KeyCode::F6)
        } else if str_eq(s, "F7") {
            Ok(KeyCode::F7)
        } else if str_eq(s, "F8") {
            Ok(KeyCode::F8)
        } else if str_eq(s, "F9") {
            Ok(KeyCode::F9)
        } else if str_eq(s, "F10") {
            Ok(KeyCode::F10)
        } else if str_eq(s, "F11") {
            Ok(KeyCode::F11)
        } else if str_eq(s, "F12") {
            Ok(KeyCode::F12)
        } else if str_eq(s, "F13") {
            Ok(KeyCode::F13)
        } else if str_eq(s, "F14") {
            Ok(KeyCode::F14)
        } else if str_eq(s, "F15") {
            Ok(KeyCode::F15)
        } else if str_eq(s, "F16") {
            Ok(KeyCode::F16)
        } else if str_eq(s, "F17") {
            Ok(KeyCode::F17)
        } else if str_eq(s, "F18") {
            Ok(KeyCode::F18)
        } else if str_eq(s, "F19") {
            Ok(KeyCode::F19)
        } else if str_eq(s, "F20") {
            Ok(KeyCode::F20)
        } else if str_eq(s, "F21") {
            Ok(KeyCode::F21)
        } else if str_eq(s, "F22") {
            Ok(KeyCode::F22)
        } else if str_eq(s, "F23") {
            Ok(KeyCode::F23)
        } else if str_eq(s, "F24") {
            Ok(KeyCode::F24)
        } else if str_eq(s, "Left") {
            Ok(KeyCode::LeftArrow)
        } else if str_eq(s, "Ctrl") {
            Ok(KeyCode::Control)
        } else if str_eq(s, "Right") {
            Ok(KeyCode::RightArrow)
        } else if str_eq(s, "Down") {
            Ok(KeyCode::DownArrow)
        } else if str_eq(s, "End") {
            Ok(KeyCode::End)
        } else if str_eq(s, "Up") {
            Ok(KeyCode::UpArrow)
        } else if str_eq(s, "Page Up") {
            Ok(KeyCode::PageUp)
        } else if str_eq(s, "Alt") {
            Ok(KeyCode::Alt)
        } else if str_eq(s, "Enter") {
            Ok(KeyCode::Return)
        } else if str_eq(s, "Page Down") {
            Ok(KeyCode::PageDown)
        } else if str_eq(s, "Del") {
            Ok(KeyCode::Delete)
        } else if str_eq(s, "Home") {
            Ok(KeyCode::Home)
        } else if str_eq(s, "Esc") {
            Ok(KeyCode::Escape)
        } else if str_eq(s, "Backspace") {
            Ok(KeyCode::Backspace)
        } else if str_eq(s, "Meta") {
            Ok(KeyCode::Meta)
        } else if str_eq(s, "Caps Lock") {
            Ok(KeyCode::CapsLock)
        } else if str_eq(s, "Shift") {
            Ok(KeyCode::Shift)
        } else if str_eq(s, "Tab") {
            Ok(KeyCode::Tab)
        } else if str_eq(s, "Space") {
            Ok(KeyCode::Space)
        } else {
            Err(Error::UnknownLabel)
        }
    }
}


} // verus!
