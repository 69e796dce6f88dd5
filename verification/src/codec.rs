//! The bridge between the in-memory action model and its portable form:
//! images are encoded on save and decoded on load, and a whole macro round
//! trips through one binary document.

use vstd::prelude::*;
use crate::error::Error;
use crate::image_data::{png_blob_of, png_decode, png_encode, png_pixels_of, Image};
use crate::serial::{
    decode_doc, encode_doc, sp_doc, step_sv_diff_ok, MacroSV, MacroSerializable,
    MacroStepSerializable, PRes, StepSV,
};
use crate::step::{ImgV, Macro, MacroStep, MacroV, StepV};

verus! {

/// How an in-memory step and its portable form correspond: same kind, same
/// plain fields, and the image blob both comes from the step's pixels and
/// decodes back to them.
pub open spec fn step_to_portable(orig: StepV, ser: StepSV) -> bool {
    match (orig, ser) {
        (StepV::Launch(c), StepSV::Launch(c2)) => c2 == c,
        (StepV::ClickImage(img, p, d), StepSV::ClickImage(b, p2, d2)) => match img {
            Some(i) => p2 == p && d2 == d && b == png_blob_of(i.width, i.height, i.data)
                && png_pixels_of(b) == Some((i.width, i.height, i.data)) && i.width >= 1
                && i.height >= 1,
            None => false,
        },
        (StepV::MoveToImage(img, p, d), StepSV::MoveToImage(b, p2, d2)) => match img {
            Some(i) => p2 == p && d2 == d && b == png_blob_of(i.width, i.height, i.data)
                && png_pixels_of(b) == Some((i.width, i.height, i.data)) && i.width >= 1
                && i.height >= 1,
            None => false,
        },
        (StepV::TypeText(t, f), StepSV::TypeText(t2, f2)) => t2 == t && f2 == f,
        (StepV::PressKey(k, f), StepSV::PressKey(k2, f2)) => k2 == k && f2 == f,
        (StepV::Scroll(d, n), StepSV::Scroll(d2, n2)) => d2 == d && n2 == n,
        (StepV::WaitTime(ms), StepSV::WaitTime(ms2)) => ms2 == ms,
        _ => false,
    }
}

/// What a portable step reads back to: the same step, with any image blob
/// decoded; nothing, when the blob does not decode.
pub open spec fn portable_to_step(ser: StepSV) -> Option<StepV> {
    match ser {
        StepSV::Launch(c) => Some(StepV::Launch(c)),
        StepSV::ClickImage(b, p, d) => match png_pixels_of(b) {
            Some((w, h, data)) => if w >= 1 && h >= 1 {
                Some(StepV::ClickImage(Some(ImgV { width: w, height: h, data }), p, d))
            } else {
                None
            },
            None => None,
        },
        StepSV::MoveToImage(b, p, d) => match png_pixels_of(b) {
            Some((w, h, data)) => if w >= 1 && h >= 1 {
                Some(StepV::MoveToImage(Some(ImgV { width: w, height: h, data }), p, d))
            } else {
                None
            },
            None => None,
        },
        StepSV::TypeText(t, f) => Some(StepV::TypeText(t, f)),
        StepSV::PressKey(k, f) => Some(StepV::PressKey(k, f)),
        StepSV::Scroll(d, n) => Some(StepV::Scroll(d, n)),
        StepSV::WaitTime(ms) => Some(StepV::WaitTime(ms)),
    }
}

pub open spec fn portable_steps_back(ss: Seq<StepSV>) -> Option<Seq<StepV>>
    decreases ss.len(),
{
    if ss.len() == 0 {
        Some(Seq::empty())
    } else {
        match portable_to_step(ss[0]) {
            Some(v) => match portable_steps_back(ss.drop_first()) {
                Some(rest) => Some(seq![v] + rest),
                None => None,
            },
            None => None,
        }
    }
}

pub open spec fn portable_to_macro(sv: MacroSV) -> Option<MacroV> {
    match portable_steps_back(sv.macro_steps) {
        Some(steps) => Some(
            MacroV { macro_name: sv.macro_name, settings: sv.settings, macro_steps: steps },
        ),
        None => None,
    }
}

/// What loading a byte string yields: the macro its document describes, or
/// the error naming what failed — the document structure, an enumeration
/// tag, or an image blob.
pub open spec fn load_bytes_spec(bytes: Seq<u8>) -> Result<MacroV, Error> {
    match sp_doc(bytes) {
        PRes::Val(sv, _) => match portable_to_macro(sv) {
            Some(m) => Ok(m),
            None => Err(Error::DecodeFailure),
        },
        PRes::Malformed => Err(Error::MalformedDocument),
        PRes::BadTag => Err(Error::UnknownEnumTag),
    }
}

/// A whole macro and its portable form correspond pointwise.
pub open spec fn macro_to_portable(m: MacroV, sv: MacroSV) -> bool {
    &&& sv.macro_name == m.macro_name
    &&& sv.settings == m.settings
    &&& sv.macro_steps.len() == m.macro_steps.len()
    &&& forall|i: int| 0 <= i < m.macro_steps.len() ==> step_to_portable(
        m.macro_steps[i],
        #[trigger] sv.macro_steps[i],
    )
}

proof fn lemma_step_back(orig: StepV, ser: StepSV)
    requires
        step_to_portable(orig, ser),
    ensures
        portable_to_step(ser) == Some(orig),
{
    match (orig, ser) {
        (StepV::ClickImage(img, p, d), StepSV::ClickImage(b, p2, d2)) => {
            if let Some(i) = img {
                assert(portable_to_step(ser) == Some(
                    StepV::ClickImage(Some(ImgV { width: i.width, height: i.height, data: i.data }), p, d),
                ));
                assert(ImgV { width: i.width, height: i.height, data: i.data } == i);
            }
        },
        (StepV::MoveToImage(img, p, d), StepSV::MoveToImage(b, p2, d2)) => {
            if let Some(i) = img {
                assert(portable_to_step(ser) == Some(
                    StepV::MoveToImage(Some(ImgV { width: i.width, height: i.height, data: i.data }), p, d),
                ));
                assert(ImgV { width: i.width, height: i.height, data: i.data } == i);
            }
        },
        _ => {},
    }
}

proof fn lemma_steps_back(origs: Seq<StepV>, svs: Seq<StepSV>)
    requires
        origs.len() == svs.len(),
        forall|i: int| 0 <= i < origs.len() ==> step_to_portable(origs[i], #[trigger] svs[i]),
    ensures
        portable_steps_back(svs) == Some(origs),
    decreases origs.len(),
{
    if origs.len() == 0 {
        assert(origs =~= Seq::<StepV>::empty());
    } else {
        lemma_step_back(origs[0], svs[0]);
        assert(forall|i: int|
            0 <= i < origs.drop_first().len() ==> step_to_portable(
                origs.drop_first()[i],
                #[trigger] svs.drop_first()[i],
            ));
        lemma_steps_back(origs.drop_first(), svs.drop_first());
        assert(seq![origs[0]] + origs.drop_first() =~= origs);
    }
}

/// A portable form written for a macro reads back as that very macro.
pub proof fn lemma_macro_back(m: MacroV, sv: MacroSV)
    requires
        macro_to_portable(m, sv),
    ensures
        portable_to_macro(sv) == Some(m),
{
    lemma_steps_back(m.macro_steps, sv.macro_steps);
    assert(portable_to_macro(sv) == Some(
        MacroV { macro_name: sv.macro_name, settings: sv.settings, macro_steps: m.macro_steps },
    ));
    assert(MacroV {
        macro_name: sv.macro_name,
        settings: sv.settings,
        macro_steps: m.macro_steps,
    } == m);
}

/// Copy a modifier list element by element.
pub(crate) fn copy_flags(f: &Vec<crate::keys::Flag>) -> (r: Vec<crate::keys::Flag>)
    ensures
        r@ == f@,
{
    let mut r: Vec<crate::keys::Flag> = Vec::new();
    let n = f.len();
    let mut i: usize = 0;
    while i < n
        invariant
            n == f@.len(),
            i <= n,
            r@ == f@.take(i as int),
        decreases n - i,
    {
        r.push(f[i]);
        proof {
            assert(f@.take(i + 1) =~= f@.take(i as int).push(f@[i as int]));
        }
        i += 1;
    }
    proof {
        assert(f@.take(n as int) =~= f@);
    }
    r
}

impl MacroStepSerializable {
    /// Turn one step into its portable form, encoding any attached image.
    /// This fails exactly on an image-anchored step without an image, which
    /// is refused outright; every other step converts.
    pub fn from_normal(macro_step: &MacroStep) -> (r: Result<Self, Error>)
        requires
            macro_step.wf(),
        ensures
            r is Err <==> macro_step.missing_image(),
            (match r {
                Ok(s) => step_to_portable(macro_step@, s@) && step_sv_diff_ok(s@),
                Err(e) => e == Error::MissingImageData,
            }),
    {
        match macro_step {
            MacroStep::Launch(c) => Ok(MacroStepSerializable::Launch(c.clone())),
            MacroStep::ClickImage(img, p, d) => match img {
                Some(i) => match png_encode(i) {
                    Ok(b) => Ok(MacroStepSerializable::ClickImage(b, *p, *d)),
                    Err(e) => Err(e),
                },
                None => Err(Error::MissingImageData),
            },
            MacroStep::MoveToImage(img, p, d) => match img {
                Some(i) => match png_encode(i) {
                    Ok(b) => Ok(MacroStepSerializable::MoveToImage(b, *p, *d)),
                    Err(e) => Err(e),
                },
                None => Err(Error::MissingImageData),
            },
            MacroStep::TypeText(t, f) => Ok(
                MacroStepSerializable::TypeText(t.clone(), copy_flags(f)),
            ),
            MacroStep::PressKey(k, f) => Ok(MacroStepSerializable::PressKey(*k, copy_flags(f))),
            MacroStep::Scroll(d, n) => Ok(MacroStepSerializable::Scroll(*d, *n)),
            MacroStep::WaitTime(ms) => Ok(MacroStepSerializable::WaitTime(*ms)),
        }
    }

    /// Turn a portable step back into its in-memory form, decoding any
    /// image blob. A blob that does not decode is a `DecodeFailure`.
    pub fn to_normal(self) -> (r: Result<MacroStep, Error>)
        requires
            step_sv_diff_ok(self@),
        ensures
            (match r {
                Ok(st) => portable_to_step(self@) == Some(st@) && st.wf(),
                Err(e) => e == Error::DecodeFailure && portable_to_step(self@) is None,
            }),
    {
        match self {
            MacroStepSerializable::Launch(c) => Ok(MacroStep::Launch(c)),
            MacroStepSerializable::ClickImage(b, p, d) => match png_decode(&b) {
                Ok(img) => {
                    if img.width < 1 || img.height < 1 {
                        return Err(Error::DecodeFailure);
                    }
                    Ok(MacroStep::ClickImage(Some(img), p, d))
                },
                Err(e) => Err(e),
            },
            MacroStepSerializable::MoveToImage(b, p, d) => match png_decode(&b) {
                Ok(img) => {
                    if img.width < 1 || img.height < 1 {
                        return Err(Error::DecodeFailure);
                    }
                    Ok(MacroStep::MoveToImage(Some(img), p, d))
                },
                Err(e) => Err(e),
            },
            MacroStepSerializable::TypeText(t, f) => Ok(MacroStep::TypeText(t, f)),
            MacroStepSerializable::PressKey(k, f) => Ok(MacroStep::PressKey(k, f)),
            MacroStepSerializable::Scroll(d, n) => Ok(MacroStep::Scroll(d, n)),
            MacroStepSerializable::WaitTime(ms) => Ok(MacroStep::WaitTime(ms)),
        }
    }
}

impl MacroSerializable {
    /// Turn a whole macro into its portable form. This fails exactly when
    /// some image-anchored step has no image attached, which is reported
    /// before anything is encoded; every complete macro converts.
    pub fn from_normal(macro_data: Macro) -> (r: Result<Self, Error>)
        requires
            macro_data.wf(),
        ensures
            r is Err <==> (exists|i: int|
                0 <= i < macro_data.macro_steps@.len() && (
                #[trigger] macro_data.macro_steps@[i]).missing_image()),
            (match r {
                Ok(s) => macro_to_portable(macro_data@, s@) && (forall|i: int|
                    0 <= i < s@.macro_steps.len() ==> step_sv_diff_ok(
                        #[trigger] s@.macro_steps[i],
                    )),
                Err(e) => e == Error::MissingImageData,
            }),
    {
        let n = macro_data.macro_steps.len();
        let mut i: usize = 0;
        while i < n
            invariant
                n == macro_data.macro_steps@.len(),
                i <= n,
                forall|j: int|
                    0 <= j < i ==> !(#[trigger] macro_data.macro_steps@[j]).missing_image(),
            decreases n - i,
        {
            let missing = match &macro_data.macro_steps[i] {
                MacroStep::ClickImage(img, _, _) => img.is_none(),
                MacroStep::MoveToImage(img, _, _) => img.is_none(),
                _ => false,
            };
            if missing {
                return Err(Error::MissingImageData);
            }
            i += 1;
        }
        let mut out: Vec<MacroStepSerializable> = Vec::new();
        let mut i: usize = 0;
        while i < n
            invariant
                n == macro_data.macro_steps@.len(),
                i <= n,
                macro_data.wf(),
                out@.len() == i,
                forall|j: int|
                    0 <= j < n ==> !(#[trigger] macro_data.macro_steps@[j]).missing_image(),
                forall|j: int|
                    0 <= j < i ==> step_to_portable(
                        macro_data@.macro_steps[j],
                        #[trigger] out@[j]@,
                    ),
                forall|j: int| 0 <= j < i ==> step_sv_diff_ok(#[trigger] out@[j]@),
            decreases n - i,
        {
            proof {
                assert(macro_data@.macro_steps[i as int] == macro_data.macro_steps@[i as int]@);
            }
            // Every image was checked to be present, so conversion cannot
            // fail here.
            match MacroStepSerializable::from_normal(&macro_data.macro_steps[i]) {
                Ok(s) => {
                    out.push(s);
                },
                Err(e) => {
                    proof {
                        assert(false);
                    }
                    return Err(e);
                },
            }
            i += 1;
        }
        let r = MacroSerializable {
            macro_name: macro_data.macro_name,
            settings: macro_data.settings,
            macro_steps: out,
        };
        proof {
            assert(macro_to_portable(macro_data@, r@));
        }
        Ok(r)
    }

    /// Turn a portable macro back into its in-memory form, decoding every
    /// image blob; the first blob that does not decode aborts the load.
    pub fn to_normal(self) -> (r: Result<Macro, Error>)
        requires
            forall|i: int|
                0 <= i < self@.macro_steps.len() ==> step_sv_diff_ok(#[trigger] self@.macro_steps[i]),
        ensures
            (match r {
                Ok(m) => portable_to_macro(self@) == Some(m@) && m.wf(),
                Err(e) => e == Error::DecodeFailure && portable_to_macro(self@) is None,
            }),
    {
        let ghost full = self@.macro_steps;
        let MacroSerializable { macro_name, settings, macro_steps } = self;
        let mut steps = macro_steps;
        let mut out: Vec<MacroStep> = Vec::new();
        let ghost outm = Seq::<StepV>::empty();
        while steps.len() > 0
            invariant
                full == self@.macro_steps,
                out@.len() + steps@.len() == full.len(),
                full == full.take(out@.len() as int) + steps@.map_values(
                    |x: MacroStepSerializable| x@,
                ),
                forall|i: int| 0 <= i < full.len() ==> step_sv_diff_ok(#[trigger] full[i]),
                forall|j: int| 0 <= j < out@.len() ==> (#[trigger] out@[j]).wf(),
                (match portable_steps_back(steps@.map_values(|x: MacroStepSerializable| x@)) {
                    Some(restm) => portable_steps_back(full) == Some(
                        out@.map_values(|x: MacroStep| x@) + restm,
                    ),
                    None => portable_steps_back(full) is None,
                }),
            decreases steps@.len(),
        {
            let ghost pre_steps = steps@;
            let ghost pre_out = out@;
            let st = steps.remove(0);
            proof {
                assert(pre_steps.map_values(|x: MacroStepSerializable| x@)[0] == st@);
                assert(full[pre_out.len() as int] == pre_steps.map_values(
                    |x: MacroStepSerializable| x@,
                )[0]);
            }
            match st.to_normal() {
                Ok(m) => {
                    out.push(m);
                    proof {
                        assert(steps@.map_values(|x: MacroStepSerializable| x@)
                            =~= pre_steps.map_values(|x: MacroStepSerializable| x@).drop_first());
                        assert(full.take(out@.len() as int) =~= full.take(pre_out.len() as int)
                            + seq![st@]);
                        assert(full =~= full.take(out@.len() as int) + steps@.map_values(
                            |x: MacroStepSerializable| x@,
                        ));
                        match portable_steps_back(
                            steps@.map_values(|x: MacroStepSerializable| x@),
                        ) {
                            Some(restm) => {
                                assert(pre_out.map_values(|x: MacroStep| x@) + (seq![m@] + restm)
                                    =~= out@.map_values(|x: MacroStep| x@) + restm);
                            },
                            None => {},
                        }
                    }
                },
                Err(e) => {
                    proof {
                        assert(portable_steps_back(
                            pre_steps.map_values(|x: MacroStepSerializable| x@),
                        ) is None);
                        assert(portable_steps_back(full) is None);
                        assert(portable_to_macro(self@) is None);
                    }
                    return Err(e);
                },
            }
        }
        proof {
            assert(steps@.map_values(|x: MacroStepSerializable| x@) =~= Seq::<StepSV>::empty());
            assert(out@.map_values(|x: MacroStep| x@) + Seq::<StepV>::empty() =~= out@.map_values(
                |x: MacroStep| x@,
            ));
        }
        let m = Macro { macro_name, settings, macro_steps: out };
        proof {
            assert(portable_to_macro(self@) == Some(m@));
        }
        Ok(m)
    }
}

impl Macro {
    /// Write this macro as one binary document.
    ///
    /// The central promise of the codec: the write succeeds exactly when
    /// every image-anchored step has its image attached, and the produced
    /// bytes then load back to this very macro, field for field, with
    /// images pixel-exact after their lossless re-encoding.
    pub fn save_bytes(&self) -> (r: Result<Vec<u8>, Error>)
        requires
            self.wf(),
        ensures
            r is Ok <==> !(exists|i: int|
                0 <= i < self.macro_steps@.len() && (
                #[trigger] self.macro_steps@[i]).missing_image()),
            (match r {
                Ok(bytes) => load_bytes_spec(bytes@) == Ok::<MacroV, Error>(self@),
                Err(e) => e == Error::MissingImageData,
            }),
    {
        let copy = Macro {
            macro_name: self.macro_name.clone(),
            settings: self.settings,
            macro_steps: copy_steps(&self.macro_steps),
        };
        let ghost copyv = copy;
        proof {
            assert forall|i: int|
                0 <= i < copy.macro_steps@.len() implies (#[trigger] copy.macro_steps@[i]).wf() by {
                assert(self.macro_steps@[i].wf());
            };
            assert(copy.wf());
            assert(copy@ == self@);
        }
        match MacroSerializable::from_normal(copy) {
            Ok(d) => {
                let bytes = encode_doc(&d);
                proof {
                    lemma_macro_back(self@, d@);
                }
                Ok(bytes)
            },
            Err(e) => {
                proof {
                    if exists|i: int|
                        0 <= i < copyv.macro_steps@.len() && (
                        #[trigger] copyv.macro_steps@[i]).missing_image() {
                        let i = choose|i: int|
                            0 <= i < copyv.macro_steps@.len() && (
                            #[trigger] copyv.macro_steps@[i]).missing_image();
                        assert(self.macro_steps@[i].missing_image());
                    } else {
                        assert(forall|i: int|
                            0 <= i < self.macro_steps@.len() ==> !(
                            #[trigger] self.macro_steps@[i]).missing_image());
                    }
                }
                Err(e)
            },
        }
    }

    /// Read a macro back from the bytes of one binary document. Succeeds
    /// exactly when the document is readable and every image blob decodes;
    /// each failure names its stage.
    pub fn load_bytes(bytes: &Vec<u8>) -> (r: Result<Macro, Error>)
        ensures
            (match r {
                Ok(m) => load_bytes_spec(bytes@) == Ok::<MacroV, Error>(m@) && m.wf(),
                Err(e) => load_bytes_spec(bytes@) == Err::<MacroV, Error>(e),
            }),
    {
        match decode_doc(bytes) {
            Ok((d, _)) => d.to_normal(),
            Err(e) => Err(e),
        }
    }
}

/// Copy a step list element by element, keeping each step's view.
fn copy_steps(v: &Vec<MacroStep>) -> (r: Vec<MacroStep>)
    ensures
        r@.map_values(|x: MacroStep| x@) == v@.map_values(|x: MacroStep| x@),
        forall|i: int| 0 <= i < v@.len() ==> ((#[trigger] v@[i]).wf() ==> r@[i].wf()),
        r@.len() == v@.len(),
        forall|i: int|
            0 <= i < v@.len() ==> ((#[trigger] v@[i]).missing_image() == r@[i].missing_image()),
{
    let mut r: Vec<MacroStep> = Vec::new();
    let n = v.len();
    let mut i: usize = 0;
    while i < n
        invariant
            n == v@.len(),
            i <= n,
            r@.len() == i,
            forall|j: int| 0 <= j < i ==> (#[trigger] r@[j])@ == v@[j]@,
            forall|j: int| 0 <= j < i ==> ((#[trigger] v@[j]).wf() ==> r@[j].wf()),
            forall|j: int|
                0 <= j < i ==> ((#[trigger] v@[j]).missing_image() == r@[j].missing_image()),
        decreases n - i,
    {
        let c = copy_step(&v[i]);
        r.push(c);
        i += 1;
    }
    proof {
        assert(r@.map_values(|x: MacroStep| x@) =~= v@.map_values(|x: MacroStep| x@));
    }
    r
}

/// Copy one step, keeping its view.
fn copy_step(s: &MacroStep) -> (r: MacroStep)
    ensures
        r@ == s@,
        s.wf() ==> r.wf(),
        s.missing_image() == r.missing_image(),
{
    match s {
        MacroStep::Launch(c) => MacroStep::Launch(c.clone()),
        MacroStep::ClickImage(img, p, d) => MacroStep::ClickImage(copy_image(img), *p, *d),
        MacroStep::MoveToImage(img, p, d) => MacroStep::MoveToImage(copy_image(img), *p, *d),
        MacroStep::TypeText(t, f) => MacroStep::TypeText(t.clone(), copy_flags(f)),
        MacroStep::PressKey(k, f) => MacroStep::PressKey(*k, copy_flags(f)),
        MacroStep::Scroll(d, n) => MacroStep::Scroll(*d, *n),
        MacroStep::WaitTime(ms) => MacroStep::WaitTime(*ms),
    }
}

/// Copy an optional image, keeping dimensions and pixels.
fn copy_image(img: &Option<Image>) -> (r: Option<Image>)
    ensures
        (match (img, r) {
            (Some(a), Some(b)) => a@ == b@ && (a.wf() ==> b.wf()),
            (None, None) => true,
            _ => false,
        }),
{
    match img {
        Some(i) => Some(
            Image { width: i.width, height: i.height, data: copy_bytes(&i.data) },
        ),
        None => None,
    }
}

/// Copy a byte vector element by element.
fn copy_bytes(v: &Vec<u8>) -> (r: Vec<u8>)
    ensures
        r@ == v@,
{
    let mut r: Vec<u8> = Vec::new();
    r.extend_from_slice(v.as_slice());
    proof {
        assert(r@ =~= v@);
    }
    r
}

} // verus!
