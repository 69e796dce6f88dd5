//! The action model: a single macro step, the ordered macro that owns a
//! sequence of them, and their mathematical views.

use vstd::prelude::*;
use crate::anchor::ClickPoint;
use crate::image_data::Image;
use crate::keys::{Flag, KeyCode, ScrollDirection};
use crate::settings::Settings;

verus! {

/// The view of an attached image: dimensions and raw RGB8 bytes.
pub struct ImgV {
    pub width: u32,
    pub height: u32,
    pub data: Seq<u8>,
}

impl View for Image {
    type V = ImgV;

    open spec fn view(&self) -> ImgV {
        ImgV { width: self.width, height: self.height, data: self.data@ }
    }
}

/// One step of a macro. Exactly one case is active at a time.
///
/// The third field of the two image-anchored cases is the allowed difference
/// between the stored template and a screen region, in hundredths: 0 demands
/// a near-exact match, 100 accepts any pixel content. An image of `None`
/// only occurs while a step is being edited; dispatching such a step is the
/// hard error `MissingImageData`, never "no match found".
#[derive(Clone, Debug)]
pub enum MacroStep {
    Launch(String),
    ClickImage(Option<Image>, ClickPoint, u8),
    MoveToImage(Option<Image>, ClickPoint, u8),
    TypeText(String, Vec<Flag>),
    PressKey(KeyCode, Vec<Flag>),
    Scroll(ScrollDirection, u32),
    WaitTime(u64),
}

/// The view of a step: strings, flag lists and images replaced by their
/// mathematical counterparts.
pub enum StepV {
    Launch(Seq<char>),
    ClickImage(Option<ImgV>, ClickPoint, u8),
    MoveToImage(Option<ImgV>, ClickPoint, u8),
    TypeText(Seq<char>, Seq<Flag>),
    PressKey(KeyCode, Seq<Flag>),
    Scroll(ScrollDirection, u32),
    WaitTime(u64),
}

impl View for MacroStep {
    type V = StepV;

    open spec fn view(&self) -> StepV {
        match self {
            MacroStep::Launch(c) => StepV::Launch(c@),
            MacroStep::ClickImage(img, p, d) => StepV::ClickImage(
                match img {
                    Some(i) => Some(i@),
                    None => None,
                },
                *p,
                *d,
            ),
            MacroStep::MoveToImage(img, p, d) => StepV::MoveToImage(
                match img {
                    Some(i) => Some(i@),
                    None => None,
                },
                *p,
                *d,
            ),
            MacroStep::TypeText(t, f) => StepV::TypeText(t@, f@),
            MacroStep::PressKey(k, f) => StepV::PressKey(*k, f@),
            MacroStep::Scroll(d, n) => StepV::Scroll(*d, *n),
            MacroStep::WaitTime(ms) => StepV::WaitTime(*ms),
        }
    }
}

impl MacroStep {
    /// A step is well formed when its allowed difference stays within the
    /// hundredths scale and any attached image is a full pixel buffer.
    pub open spec fn wf(self) -> bool {
        match self {
            MacroStep::ClickImage(img, _, d) => d <= 100 && (img matches Some(i) ==> i.wf()),
            MacroStep::MoveToImage(img, _, d) => d <= 100 && (img matches Some(i) ==> i.wf()),
            _ => true,
        }
    }

    /// Whether this step hunts for an image on screen before acting.
    pub open spec fn is_image_step(self) -> bool {
        self matches MacroStep::ClickImage(_, _, _) || self matches MacroStep::MoveToImage(_, _, _)
    }

    /// Whether this step is image-anchored but has no image attached yet.
    pub open spec fn missing_image(self) -> bool {
        self matches MacroStep::ClickImage(None, _, _) || self matches MacroStep::MoveToImage(
            None,
            _,
            _,
        )
    }

    pub fn default_launch() -> (r: MacroStep)
        ensures
            r@ == StepV::Launch(Seq::<char>::empty()),
            r.wf(),
    {
        let r = MacroStep::Launch(String::new());
        proof {
            assert(r@ matches StepV::Launch(c) && c =~= Seq::<char>::empty());
        }
        r
    }

    pub fn default_click_image() -> (r: MacroStep)
        ensures
            r@ == StepV::ClickImage(None::<ImgV>, ClickPoint::CenterMiddle, 0u8),
            r.wf(),
    {
        MacroStep::ClickImage(None, ClickPoint::CenterMiddle, 0)
    }

    /// The default of the move-only image step.
    pub fn default_await_image() -> (r: MacroStep)
        ensures
            r@ == StepV::MoveToImage(None::<ImgV>, ClickPoint::CenterMiddle, 0u8),
            r.wf(),
    {
        MacroStep::MoveToImage(None, ClickPoint::CenterMiddle, 0)
    }

    pub fn default_type_text() -> (r: MacroStep)
        ensures
            r@ == StepV::TypeText(Seq::<char>::empty(), Seq::<Flag>::empty()),
            r.wf(),
    {
        let r = MacroStep::TypeText(String::new(), Vec::new());
        proof {
            assert(r@ matches StepV::TypeText(t, f) && t =~= Seq::<char>::empty() && f
                =~= Seq::<Flag>::empty());
        }
        r
    }

    pub fn default_press_key() -> (r: MacroStep)
        ensures
            r@ == StepV::PressKey(KeyCode::LeftArrow, Seq::<Flag>::empty()),
            r.wf(),
    {
        let r = MacroStep::PressKey(KeyCode::LeftArrow, Vec::new());
        proof {
            assert(r@ matches StepV::PressKey(k, f) && f =~= Seq::<Flag>::empty());
        }
        r
    }

    pub fn default_scroll() -> (r: MacroStep)
        ensures
            r@ == StepV::Scroll(ScrollDirection::Down, 0u32),
            r.wf(),
    {
        MacroStep::Scroll(ScrollDirection::Down, 0)
    }

    pub fn default_wait() -> (r: MacroStep)
        ensures
            r@ == StepV::WaitTime(0u64),
            r.wf(),
    {
        MacroStep::WaitTime(0)
    }
}

impl Default for MacroStep {
    /// A fresh step starts as a `Launch` with an empty command line.
    fn default() -> (r: Self)
        ensures
            r@ == StepV::Launch(Seq::<char>::empty()),
    {
        MacroStep::default_launch()
    }
}

/// The view of a whole macro.
pub struct MacroV {
    pub macro_name: Seq<char>,
    pub settings: Settings,
    pub macro_steps: Seq<StepV>,
}

/// An ordered, named sequence of steps together with its execution policy.
/// Step order is significant and is preserved exactly through save and load.
#[derive(Clone, Debug)]
pub struct Macro {
    pub macro_name: String,
    pub settings: Settings,
    pub macro_steps: Vec<MacroStep>,
}

impl View for Macro {
    type V = MacroV;

    open spec fn view(&self) -> MacroV {
        MacroV {
            macro_name: self.macro_name@,
            settings: self.settings,
            macro_steps: self.macro_steps@.map_values(|s: MacroStep| s@),
        }
    }
}

impl Macro {
    pub open spec fn wf(self) -> bool {
        forall|i: int| 0 <= i < self.macro_steps@.len() ==> (#[trigger] self.macro_steps@[i]).wf()
    }

    pub fn new(macro_name: String, settings: Settings, macro_steps: Vec<MacroStep>) -> (r: Self)
        ensures
            r.macro_name@ == macro_name@,
            r.settings == settings,
            r.macro_steps@ == macro_steps@,
    {
        Macro { macro_name, settings, macro_steps }
    }

    /// Replace the step at `index` with `step`, and nothing else: every
    /// edit of a macro touches exactly one position, and a replacement
    /// never resizes the sequence.
    pub fn replace_step(&mut self, index: usize, step: MacroStep)
        requires
            index < old(self).macro_steps@.len(),
        ensures
            final(self).macro_steps@ == old(self).macro_steps@.update(index as int, step),
            final(self).macro_name@ == old(self).macro_name@,
            final(self).settings == old(self).settings,
            old(self).wf() && step.wf() ==> final(self).wf(),
    {
        self.macro_steps.set(index, step);
        proof {
            assert(old(self).wf() && self.macro_steps@[index as int].wf() ==> self.wf());
        }
    }

    /// Remove the step at `index`; the steps after it move up by exactly
    /// one position.
    pub fn remove_step(&mut self, index: usize) -> (r: MacroStep)
        requires
            index < old(self).macro_steps@.len(),
        ensures
            final(self).macro_steps@ == old(self).macro_steps@.remove(index as int),
            r == old(self).macro_steps@[index as int],
            final(self).macro_name@ == old(self).macro_name@,
            final(self).settings == old(self).settings,
            old(self).wf() ==> final(self).wf(),
    {
        let r = self.macro_steps.remove(index);
        proof {
            if old(self).wf() {
                assert forall|i: int|
                    0 <= i < self.macro_steps@.len() implies (
                #[trigger] self.macro_steps@[i]).wf() by {
                    if i < index {
                        assert(self.macro_steps@[i] == old(self).macro_steps@[i]);
                    } else {
                        assert(self.macro_steps@[i] == old(self).macro_steps@[i + 1]);
                    }
                };
            }
        }
        r
    }

    /// Append one step at the end.
    pub fn push_step(&mut self, step: MacroStep)
        ensures
            final(self).macro_steps@ == old(self).macro_steps@.push(step),
            final(self).macro_name@ == old(self).macro_name@,
            final(self).settings == old(self).settings,
            old(self).wf() && step.wf() ==> final(self).wf(),
    {
        self.macro_steps.push(step);
    }
}

impl Default for Macro {
    /// A fresh macro is named "Unnamed", keeps the default policy and holds
    /// no steps.
    fn default() -> (r: Self)
        ensures
            r.macro_name@ == "Unnamed"@,
            r.settings.step_timeout_seconds == 60 && r.settings.break_whole_macro == true,
            r.macro_steps@.len() == 0,
            r.wf(),
    {
        Macro {
            macro_name: "Unnamed".to_owned(),
            settings: Settings { step_timeout_seconds: 60, break_whole_macro: true },
            macro_steps: Vec::new(),
        }
    }
}

/// The match strength a user sees for an allowed difference: the exact
/// inversion `(1 - tolerance) * 100`, on the hundredths scale.
pub fn match_strength_percent(allowed_diff: u8) -> (r: u8)
    requires
        allowed_diff <= 100,
    ensures
        r == 100 - allowed_diff,
{
    100 - allowed_diff
}

/// The allowed difference a user's match strength stands for: the same
/// inversion, applied the other way.
pub fn allowed_diff_from_strength(strength: u8) -> (r: u8)
    requires
        strength <= 100,
    ensures
        r == 100 - strength,
{
    100 - strength
}

} // verus!
