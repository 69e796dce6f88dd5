//! The state and decision logic of the editor's small input components.
//!
//! Each component here holds plain state and decides, from one user event,
//! what new state and what outgoing value follow. The widget toolkit that
//! renders them and feeds them events lives outside the library; it hands
//! each `update` the event and passes the returned value on.

use vstd::prelude::*;
use vstd::utf8::encode_utf8;
use crate::settings::Settings;
use crate::strutil::{parse_u32_spec, parse_u32_str, parse_u64_spec, parse_u64_str};

verus! {

/// A text input that accepts a whole percentage, 0 to 100.
pub struct PercentTextInput {
    pub size: u16,
    pub placeholder: String,
    pub value: u32,
}

/// An edit of the percent input's text.
#[derive(Clone, Debug)]
pub enum FTIEvent {
    InputChanged(String),
}

/// What the percent input reports for one edit: an empty text stands for 0;
/// a numeral up to 100 is accepted; anything else changes nothing.
pub open spec fn percent_update_spec(text: Seq<u8>, empty: bool) -> Option<u32> {
    if empty {
        Some(0)
    } else {
        match parse_u32_spec(text) {
            Some(n) => if n <= 100 {
                Some(n)
            } else {
                None
            },
            None => None,
        }
    }
}

impl PercentTextInput {
    pub fn new(placeholder: String, value: u32) -> (r: Self)
        ensures
            r.placeholder@ == placeholder@,
            r.value == value,
            r.size == 24,
    {
        PercentTextInput { size: 24, placeholder, value }
    }

    /// The same input with another text size.
    pub fn size(self, size: u16) -> (r: Self)
        ensures
            r.size == size,
            r.placeholder@ == self.placeholder@,
            r.value == self.value,
    {
        Self { size, ..self }
    }

    /// Decide what one edit reports: `Some` with the accepted percentage,
    /// `None` where the text is no percentage at all.
    pub fn update(&self, event: &FTIEvent) -> (r: Option<u32>)
        ensures
            (match event {
                FTIEvent::InputChanged(text) => r == percent_update_spec(
                    encode_utf8(text@),
                    text@.len() == 0,
                ),
            }),
    {
        match event {
            FTIEvent::InputChanged(text) => {
                if text.as_str().is_empty() {
                    return Some(0);
                }
                match parse_u32_str(text.as_str()) {
                    Some(n) => if n <= 100 {
                        Some(n)
                    } else {
                        None
                    },
                    None => None,
                }
            },
        }
    }
}

/// Build a percent input, as the editor does.
pub fn percent_text_input(placeholder: String, value: u32) -> (r: PercentTextInput)
    ensures
        r.placeholder@ == placeholder@,
        r.value == value,
        r.size == 24,
{
    PercentTextInput::new(placeholder, value)
}

/// A text input that accepts a span of milliseconds.
pub struct TimeInput {
    pub size: u16,
    pub placeholder: String,
    pub value: u64,
}

/// An edit of the time input's text.
#[derive(Clone, Debug)]
pub enum TIEvent {
    InputChanged(String),
}

/// What the time input reports for one edit: an empty text stands for 0; a
/// numeral is accepted as it is; anything else changes nothing.
pub open spec fn time_update_spec(text: Seq<u8>, empty: bool) -> Option<u64> {
    if empty {
        Some(0)
    } else {
        parse_u64_spec(text)
    }
}

impl TimeInput {
    pub fn new(placeholder: String, value: u64) -> (r: Self)
        ensures
            r.placeholder@ == placeholder@,
            r.value == value,
            r.size == 12,
    {
        TimeInput { size: 12, placeholder, value }
    }

    /// The same input with another text size.
    pub fn size(self, size: u16) -> (r: Self)
        ensures
            r.size == size,
            r.placeholder@ == self.placeholder@,
            r.value == self.value,
    {
        Self { size, ..self }
    }

    /// Decide what one edit reports.
    pub fn update(&self, event: &TIEvent) -> (r: Option<u64>)
        ensures
            (match event {
                TIEvent::InputChanged(text) => r == time_update_spec(
                    encode_utf8(text@),
                    text@.len() == 0,
                ),
            }),
    {
        match event {
            TIEvent::InputChanged(text) => {
                if text.as_str().is_empty() {
                    return Some(0);
                }
                parse_u64_str(text.as_str())
            },
        }
    }
}

/// Build a time input, as the editor does.
pub fn time_input(placeholder: String, value: u64) -> (r: TimeInput)
    ensures
        r.placeholder@ == placeholder@,
        r.value == value,
        r.size == 12,
{
    TimeInput::new(placeholder, value)
}

/// The editor's settings panel: it owns a copy of the macro's settings and
/// folds each change into it.
pub struct SettingsComponent {
    pub settings: Settings,
}

/// One change to the settings panel.
#[derive(Clone, Copy, Debug, PartialEq, Eq, Structural)]
pub enum SCEvent {
    BreakWholeMacroChanged(bool),
    StepTimeoutChanges(u64),
}

impl SettingsComponent {
    pub fn new(settings: Settings) -> (r: Self)
        ensures
            r.settings == settings,
    {
        SettingsComponent { settings }
    }

    /// Fold one change in and report the settings as they now stand.
    pub fn update(&mut self, event: SCEvent) -> (r: Settings)
        ensures
            (match event {
                SCEvent::BreakWholeMacroChanged(b) => final(self).settings == (Settings {
                    break_whole_macro: b,
                    ..old(self).settings
                }),
                SCEvent::StepTimeoutChanges(t) => final(self).settings == (Settings {
                    step_timeout_seconds: t,
                    ..old(self).settings
                }),
            }),
            r == final(self).settings,
    {
        match event {
            SCEvent::BreakWholeMacroChanged(b) => {
                self.settings.break_whole_macro = b;
            },
            SCEvent::StepTimeoutChanges(t) => {
                self.settings.step_timeout_seconds = t;
            },
        }
        self.settings
    }
}

/// Build a settings panel, as the editor does.
pub fn settings_component(settings: Settings) -> (r: SettingsComponent)
    ensures
        r.settings == settings,
{
    SettingsComponent::new(settings)
}

/// The file-choice row: it holds the chosen path as text. The file dialog
/// itself is outside work; when it yields a path, it arrives as `NewFile`.
pub struct FileChooseComponent {
    pub path: String,
}

/// One event of the file-choice row. `OpenFilePressed` only asks for the
/// dialog, which the surrounding shell runs; the row's own state changes on
/// `NewFile` alone.
#[derive(Clone, Debug)]
pub enum FCCEvent {
    OpenFilePressed,
    NewFile(String),
}

impl FileChooseComponent {
    pub fn new(path: String) -> (r: Self)
        ensures
            r.path@ == path@,
    {
        FileChooseComponent { path }
    }

    /// Fold one event in: a new path replaces the old one and is reported;
    /// the dialog request changes nothing here.
    pub fn update(&mut self, event: FCCEvent) -> (r: Option<String>)
        ensures
            (match event {
                FCCEvent::OpenFilePressed => final(self).path@ == old(self).path@ && r is None,
                FCCEvent::NewFile(p) => final(self).path@ == p@ && (r matches Some(out) && out@
                    == p@),
            }),
    {
        match event {
            FCCEvent::OpenFilePressed => None,
            FCCEvent::NewFile(p) => {
                self.path = p;
                Some(self.path.clone())
            },
        }
    }
}

/// Build a file-choice row, as the editor does.
pub fn file_choose_component(path: String) -> (r: FileChooseComponent)
    ensures
        r.path@ == path@,
{
    FileChooseComponent::new(path)
}

/// The first index at which a modifier occurs in a list.
pub open spec fn first_occurrence(fl: Seq<crate::keys::Flag>, f: crate::keys::Flag) -> int
    decreases fl.len(),
{
    if fl.len() == 0 {
        0
    } else if fl[0] == f {
        0
    } else {
        1 + first_occurrence(fl.drop_first(), f)
    }
}

/// The modifier chooser: it owns the modifier list of one step and flips
/// one modifier per event.
pub struct ModifiersChooserComponent {
    pub flags: Vec<crate::keys::Flag>,
}

/// One toggle of the modifier chooser: the payload says whether the
/// modifier is now on.
#[derive(Clone, Copy, Debug, PartialEq, Eq, Structural)]
pub enum MCCEvent {
    CtrlFlagFlipped(bool),
    AltFlagFlipped(bool),
    ShiftFlagFlipped(bool),
}

impl MCCEvent {
    /// The modifier a toggle concerns and whether it was switched on.
    pub open spec fn parts(self) -> (crate::keys::Flag, bool) {
        match self {
            MCCEvent::CtrlFlagFlipped(on) => (crate::keys::Flag::Control, on),
            MCCEvent::AltFlagFlipped(on) => (crate::keys::Flag::Alt, on),
            MCCEvent::ShiftFlagFlipped(on) => (crate::keys::Flag::Shift, on),
        }
    }
}

impl ModifiersChooserComponent {
    pub fn new(flags: Vec<crate::keys::Flag>) -> (r: Self)
        ensures
            r.flags@ == flags@,
    {
        ModifiersChooserComponent { flags }
    }

    /// Fold one toggle in and report the modifier list as it now stands:
    /// switching a modifier on appends it, switching it off removes its
    /// first occurrence. A modifier can only be switched off while it is in
    /// the list, which the toggles guarantee.
    pub fn update(&mut self, event: MCCEvent) -> (r: Vec<crate::keys::Flag>)
        requires
            !event.parts().1 ==> old(self).flags@.contains(event.parts().0),
        ensures
            event.parts().1 ==> final(self).flags@ == old(self).flags@.push(event.parts().0),
            !event.parts().1 ==> final(self).flags@ == old(self).flags@.remove(
                first_occurrence(old(self).flags@, event.parts().0),
            ),
            r@ == final(self).flags@,
    {
        let (f, on) = match event {
            MCCEvent::CtrlFlagFlipped(on) => (crate::keys::Flag::Control, on),
            MCCEvent::AltFlagFlipped(on) => (crate::keys::Flag::Alt, on),
            MCCEvent::ShiftFlagFlipped(on) => (crate::keys::Flag::Shift, on),
        };
        if on {
            self.flags.push(f);
        } else {
            let i = find_first(&self.flags, f);
            self.flags.remove(i);
        }
        crate::codec::copy_flags(&self.flags)
    }
}

/// The position of a modifier's first occurrence in a list that holds it.
fn find_first(v: &Vec<crate::keys::Flag>, f: crate::keys::Flag) -> (r: usize)
    requires
        v@.contains(f),
    ensures
        r < v@.len(),
        r == first_occurrence(v@, f),
{
    let n = v.len();
    let mut i: usize = 0;
    while i < n
        invariant
            n == v@.len(),
            i <= n,
            v@.contains(f),
            forall|j: int| 0 <= j < i ==> v@[j] != f,
        decreases n - i,
    {
        if v[i] == f {
            proof {
                lemma_first_occurrence_found(v@, f, i as int);
            }
            return i;
        }
        i += 1;
    }
    proof {
        let w = choose|w: int| 0 <= w < v@.len() && v@[w] == f;
        assert(v@[w] != f);
    }
    0
}

/// When the first `i` entries miss the modifier and entry `i` holds it, the
/// first occurrence is exactly `i`.
proof fn lemma_first_occurrence_found(fl: Seq<crate::keys::Flag>, f: crate::keys::Flag, i: int)
    requires
        0 <= i < fl.len(),
        fl[i] == f,
        forall|j: int| 0 <= j < i ==> fl[j] != f,
    ensures
        first_occurrence(fl, f) == i,
    decreases i,
{
    if i > 0 {
        lemma_first_occurrence_found(fl.drop_first(), f, i - 1);
    }
}

/// Build a modifier chooser, as the editor does.
pub fn modifiers_chooser_component(flags: Vec<crate::keys::Flag>) -> (r: ModifiersChooserComponent)
    ensures
        r.flags@ == flags@,
{
    ModifiersChooserComponent::new(flags)
}

/// The start screen: two buttons and the new-macro naming dialog.
pub struct MainMenu {
    pub show_new_macro: bool,
    pub new_macro_name: String,
}

/// One event of the start screen.
#[derive(Clone, Debug)]
pub enum MMEvent {
    NewButtonClicked,
    LoadButtonClicked,
    NewMacroDismissed,
    MacroNameUpdate(String),
    NewMacroOk,
}

impl MainMenu {
    pub fn new() -> (r: Self)
        ensures
            r.show_new_macro == false,
            r.new_macro_name@ == Seq::<char>::empty(),
    {
        let r = MainMenu { show_new_macro: false, new_macro_name: String::new() };
        proof {
            assert(r.new_macro_name@ =~= Seq::<char>::empty());
        }
        r
    }

    /// Fold one event in. Confirming the dialog reports the chosen name;
    /// everything else only moves the dialog state.
    pub fn update(&mut self, event: MMEvent) -> (r: Option<String>)
        ensures
            (match event {
                MMEvent::NewButtonClicked => final(self).show_new_macro == true && final(self).new_macro_name@ == old(self).new_macro_name@ && r is None,
                MMEvent::LoadButtonClicked => *final(self) == *old(self) && r is None,
                MMEvent::NewMacroDismissed => final(self).show_new_macro == false && final(self).new_macro_name@ == Seq::<char>::empty() && r is None,
                MMEvent::MacroNameUpdate(name) => final(self).new_macro_name@ == name@ && final(self).show_new_macro == old(self).show_new_macro && r is None,
                MMEvent::NewMacroOk => *final(self) == *old(self) && (r matches Some(out) && out@
                    == old(self).new_macro_name@),
            }),
    {
        match event {
            MMEvent::NewButtonClicked => {
                self.show_new_macro = true;
                None
            },
            MMEvent::LoadButtonClicked => None,
            MMEvent::NewMacroDismissed => {
                self.show_new_macro = false;
                self.new_macro_name = String::new();
                proof {
                    assert(self.new_macro_name@ =~= Seq::<char>::empty());
                }
                None
            },
            MMEvent::MacroNameUpdate(name) => {
                self.new_macro_name = name;
                None
            },
            MMEvent::NewMacroOk => Some(self.new_macro_name.clone()),
        }
    }
}

/// Build a start screen, as the shell does.
pub fn main_menu() -> (r: MainMenu)
    ensures
        r.show_new_macro == false,
        r.new_macro_name@ == Seq::<char>::empty(),
{
    MainMenu::new()
}

} // verus!
