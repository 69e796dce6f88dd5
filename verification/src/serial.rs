//! The portable form of a macro and its binary document: images as encoded
//! byte blobs, platform enumerations as explicit wire tags, and the whole
//! macro as one self-describing binary document.

use vstd::prelude::*;
use vstd::utf8::encode_utf8;
use crate::anchor::ClickPoint;
use crate::keys::{Flag, KeyCode, ScrollDirection};
use crate::settings::Settings;
use crate::wire::{
    bool_enc, bytes_enc, emit_bool, emit_bytes, emit_header, emit_text, emit_uint, header_enc,
    read_bool, read_bytes, read_header, read_text, read_uint, sp_bool, sp_bytes, sp_header,
    sp_text, sp_uint, text_enc, uint_enc, lemma_bool_round_trip, lemma_bytes_round_trip,
    lemma_header_round_trip, lemma_text_round_trip, lemma_uint_round_trip, MAJOR_ARRAY,
};

verus! {

/// A step in its portable form: any attached image replaced by its encoded
/// bytes. The mirror of `MacroStep` that the document holds.
#[derive(Clone, Debug)]
pub enum MacroStepSerializable {
    Launch(String),
    ClickImage(Vec<u8>, ClickPoint, u8),
    MoveToImage(Vec<u8>, ClickPoint, u8),
    TypeText(String, Vec<Flag>),
    PressKey(KeyCode, Vec<Flag>),
    Scroll(ScrollDirection, u32),
    WaitTime(u64),
}

/// The view of a portable step.
pub enum StepSV {
    Launch(Seq<char>),
    ClickImage(Seq<u8>, ClickPoint, u8),
    MoveToImage(Seq<u8>, ClickPoint, u8),
    TypeText(Seq<char>, Seq<Flag>),
    PressKey(KeyCode, Seq<Flag>),
    Scroll(ScrollDirection, u32),
    WaitTime(u64),
}

impl View for MacroStepSerializable {
    type V = StepSV;

    open spec fn view(&self) -> StepSV {
        match self {
            MacroStepSerializable::Launch(c) => StepSV::Launch(c@),
            MacroStepSerializable::ClickImage(b, p, d) => StepSV::ClickImage(b@, *p, *d),
            MacroStepSerializable::MoveToImage(b, p, d) => StepSV::MoveToImage(b@, *p, *d),
            MacroStepSerializable::TypeText(t, f) => StepSV::TypeText(t@, f@),
            MacroStepSerializable::PressKey(k, f) => StepSV::PressKey(*k, f@),
            MacroStepSerializable::Scroll(d, n) => StepSV::Scroll(*d, *n),
            MacroStepSerializable::WaitTime(ms) => StepSV::WaitTime(*ms),
        }
    }
}

/// A whole macro in its portable form.
#[derive(Clone, Debug)]
pub struct MacroSerializable {
    pub macro_name: String,
    pub settings: Settings,
    pub macro_steps: Vec<MacroStepSerializable>,
}

/// The view of a portable macro.
pub struct MacroSV {
    pub macro_name: Seq<char>,
    pub settings: Settings,
    pub macro_steps: Seq<StepSV>,
}

impl View for MacroSerializable {
    type V = MacroSV;

    open spec fn view(&self) -> MacroSV {
        MacroSV {
            macro_name: self.macro_name@,
            settings: self.settings,
            macro_steps: self.macro_steps@.map_values(|s: MacroStepSerializable| s@),
        }
    }
}

impl MacroSerializable {
    pub fn new(
        macro_name: String,
        settings: Settings,
        macro_steps: Vec<MacroStepSerializable>,
    ) -> (r: Self)
        ensures
            r.macro_name@ == macro_name@,
            r.settings == settings,
            r.macro_steps@ == macro_steps@,
    {
        MacroSerializable { macro_name, settings, macro_steps }
    }
}

/// The bounds under which a portable step can be written: every length fits
/// the 64-bit wire argument and the allowed difference stays on its scale.
/// Every value built from in-memory vectors and strings satisfies the length
/// bounds by construction.
pub open spec fn step_sv_wf(sv: StepSV) -> bool {
    step_sv_len_ok(sv) && step_sv_diff_ok(sv)
}

pub open spec fn macro_sv_wf(m: MacroSV) -> bool {
    &&& encode_utf8(m.macro_name).len() < 0x10000000000000000
    &&& m.macro_steps.len() < 0x10000000000000000
    &&& forall|i: int| 0 <= i < m.macro_steps.len() ==> step_sv_wf(#[trigger] m.macro_steps[i])
}

/// The wire form of a modifier list: an array of modifier tags.
pub open spec fn flags_items_enc(fl: Seq<Flag>) -> Seq<u8>
    decreases fl.len(),
{
    if fl.len() == 0 {
        Seq::empty()
    } else {
        uint_enc(fl[0].tag_spec()) + flags_items_enc(fl.drop_first())
    }
}

pub open spec fn flags_enc(fl: Seq<Flag>) -> Seq<u8> {
    header_enc(MAJOR_ARRAY, fl.len() as u64) + flags_items_enc(fl)
}

/// The wire form of one step: an array opening with the step kind's wire
/// tag, followed by the kind's fields.
pub open spec fn step_enc(sv: StepSV) -> Seq<u8> {
    match sv {
        StepSV::Launch(c) => header_enc(MAJOR_ARRAY, 2) + uint_enc(0) + text_enc(c),
        StepSV::ClickImage(b, p, d) => header_enc(MAJOR_ARRAY, 4) + uint_enc(1) + bytes_enc(b)
            + uint_enc(p.tag_spec()) + uint_enc(d as u64),
        StepSV::MoveToImage(b, p, d) => header_enc(MAJOR_ARRAY, 4) + uint_enc(2) + bytes_enc(b)
            + uint_enc(p.tag_spec()) + uint_enc(d as u64),
        StepSV::TypeText(t, f) => header_enc(MAJOR_ARRAY, 3) + uint_enc(3) + text_enc(t)
            + flags_enc(f),
        StepSV::PressKey(k, f) => header_enc(MAJOR_ARRAY, 3) + uint_enc(4) + uint_enc(k.tag_spec())
            + flags_enc(f),
        StepSV::Scroll(d, n) => header_enc(MAJOR_ARRAY, 3) + uint_enc(5) + uint_enc(d.tag_spec())
            + uint_enc(n as u64),
        StepSV::WaitTime(ms) => header_enc(MAJOR_ARRAY, 2) + uint_enc(6) + uint_enc(ms),
    }
}

pub open spec fn steps_items_enc(ss: Seq<StepSV>) -> Seq<u8>
    decreases ss.len(),
{
    if ss.len() == 0 {
        Seq::empty()
    } else {
        step_enc(ss[0]) + steps_items_enc(ss.drop_first())
    }
}

/// The wire form of the settings: an array of the timeout and the policy
/// flag.
pub open spec fn settings_enc(s: Settings) -> Seq<u8> {
    header_enc(MAJOR_ARRAY, 2) + uint_enc(s.step_timeout_seconds) + bool_enc(s.break_whole_macro)
}

/// The whole document: an array of the name, the settings and the steps.
pub open spec fn doc_enc(m: MacroSV) -> Seq<u8> {
    header_enc(MAJOR_ARRAY, 3) + text_enc(m.macro_name) + settings_enc(m.settings) + header_enc(
        MAJOR_ARRAY,
        m.macro_steps.len() as u64,
    ) + steps_items_enc(m.macro_steps)
}

/// The outcome of parsing part of a document: a value and the bytes it
/// took, a structurally unreadable document, or a well-formed item carrying
/// an unknown enumeration tag.
pub enum PRes<T> {
    Val(T, int),
    Malformed,
    BadTag,
}

pub open spec fn sp_flags_items(s: Seq<u8>, n: nat) -> PRes<Seq<Flag>>
    decreases n,
{
    if n == 0 {
        PRes::Val(Seq::empty(), 0)
    } else {
        match sp_uint(s) {
            Some((t, c)) => match Flag::from_tag_spec(t) {
                Some(f) => match sp_flags_items(s.skip(c), (n - 1) as nat) {
                    PRes::Val(rest, c2) => PRes::Val(seq![f] + rest, c + c2),
                    PRes::Malformed => PRes::Malformed,
                    PRes::BadTag => PRes::BadTag,
                },
                None => PRes::BadTag,
            },
            None => PRes::Malformed,
        }
    }
}

pub open spec fn sp_flags(s: Seq<u8>) -> PRes<Seq<Flag>> {
    match sp_header(s) {
        Some((major, n, h)) => if major == MAJOR_ARRAY {
            match sp_flags_items(s.skip(h), n as nat) {
                PRes::Val(f, c) => PRes::Val(f, h + c),
                PRes::Malformed => PRes::Malformed,
                PRes::BadTag => PRes::BadTag,
            }
        } else {
            PRes::Malformed
        },
        None => PRes::Malformed,
    }
}

/// Parse one step: the array header, the step kind's tag, then its fields.
pub open spec fn sp_step(s: Seq<u8>) -> PRes<StepSV> {
    match sp_header(s) {
        Some((major, cnt, h)) => if major == MAJOR_ARRAY {
            match sp_uint(s.skip(h)) {
                Some((tag, c1)) => {
                    let p = h + c1;
                    if tag == 0 && cnt == 2 {
                        match sp_text(s.skip(p)) {
                            Some((t, c2)) => PRes::Val(StepSV::Launch(t), p + c2),
                            None => PRes::Malformed,
                        }
                    } else if (tag == 1 || tag == 2) && cnt == 4 {
                        match sp_bytes(s.skip(p)) {
                            Some((b, c2)) => match sp_uint(s.skip(p + c2)) {
                                Some((pt, c3)) => match ClickPoint::from_tag_spec(pt) {
                                    Some(cp) => match sp_uint(s.skip(p + c2 + c3)) {
                                        Some((d, c4)) => if d <= 100 {
                                            if tag == 1 {
                                                PRes::Val(
                                                    StepSV::ClickImage(b, cp, d as u8),
                                                    p + c2 + c3 + c4,
                                                )
                                            } else {
                                                PRes::Val(
                                                    StepSV::MoveToImage(b, cp, d as u8),
                                                    p + c2 + c3 + c4,
                                                )
                                            }
                                        } else {
                                            PRes::Malformed
                                        },
                                        None => PRes::Malformed,
                                    },
                                    None => PRes::BadTag,
                                },
                                None => PRes::Malformed,
                            },
                            None => PRes::Malformed,
                        }
                    } else if tag == 3 && cnt == 3 {
                        match sp_text(s.skip(p)) {
                            Some((t, c2)) => match sp_flags(s.skip(p + c2)) {
                                PRes::Val(f, c3) => PRes::Val(
                                    StepSV::TypeText(t, f),
                                    p + c2 + c3,
                                ),
                                PRes::Malformed => PRes::Malformed,
                                PRes::BadTag => PRes::BadTag,
                            },
                            None => PRes::Malformed,
                        }
                    } else if tag == 4 && cnt == 3 {
                        match sp_uint(s.skip(p)) {
                            Some((kt, c2)) => match KeyCode::from_tag_spec(kt) {
                                Some(k) => match sp_flags(s.skip(p + c2)) {
                                    PRes::Val(f, c3) => PRes::Val(
                                        StepSV::PressKey(k, f),
                                        p + c2 + c3,
                                    ),
                                    PRes::Malformed => PRes::Malformed,
                                    PRes::BadTag => PRes::BadTag,
                                },
                                None => PRes::BadTag,
                            },
                            None => PRes::Malformed,
                        }
                    } else if tag == 5 && cnt == 3 {
                        match sp_uint(s.skip(p)) {
                            Some((dt, c2)) => match ScrollDirection::from_tag_spec(dt) {
                                Some(d) => match sp_uint(s.skip(p + c2)) {
                                    Some((n, c3)) => if n < 0x100000000 {
                                        PRes::Val(StepSV::Scroll(d, n as u32), p + c2 + c3)
                                    } else {
                                        PRes::Malformed
                                    },
                                    None => PRes::Malformed,
                                },
                                None => PRes::BadTag,
                            },
                            None => PRes::Malformed,
                        }
                    } else if tag == 6 && cnt == 2 {
                        match sp_uint(s.skip(p)) {
                            Some((ms, c2)) => PRes::Val(StepSV::WaitTime(ms), p + c2),
                            None => PRes::Malformed,
                        }
                    } else if tag <= 6 {
                        PRes::Malformed
                    } else {
                        PRes::BadTag
                    }
                },
                None => PRes::Malformed,
            }
        } else {
            PRes::Malformed
        },
        None => PRes::Malformed,
    }
}

pub open spec fn sp_steps_items(s: Seq<u8>, n: nat) -> PRes<Seq<StepSV>>
    decreases n,
{
    if n == 0 {
        PRes::Val(Seq::empty(), 0)
    } else {
        match sp_step(s) {
            PRes::Val(sv, c) => match sp_steps_items(s.skip(c), (n - 1) as nat) {
                PRes::Val(rest, c2) => PRes::Val(seq![sv] + rest, c + c2),
                PRes::Malformed => PRes::Malformed,
                PRes::BadTag => PRes::BadTag,
            },
            PRes::Malformed => PRes::Malformed,
            PRes::BadTag => PRes::BadTag,
        }
    }
}

pub open spec fn sp_settings(s: Seq<u8>) -> Option<(Settings, int)> {
    match sp_header(s) {
        Some((major, cnt, h)) => if major == MAJOR_ARRAY && cnt == 2 {
            match sp_uint(s.skip(h)) {
                Some((t, c1)) => match sp_bool(s.skip(h + c1)) {
                    Some((b, c2)) => Some(
                        (Settings { step_timeout_seconds: t, break_whole_macro: b }, h + c1 + c2),
                    ),
                    None => None,
                },
                None => None,
            }
        } else {
            None
        },
        None => None,
    }
}

/// Parse a whole document. Bytes after the document are ignored: a file
/// holds one document and the reader stops at its end.
pub open spec fn sp_doc(s: Seq<u8>) -> PRes<MacroSV> {
    match sp_header(s) {
        Some((major, cnt, h)) => if major == MAJOR_ARRAY && cnt == 3 {
            match sp_text(s.skip(h)) {
                Some((name, c1)) => match sp_settings(s.skip(h + c1)) {
                    Some((st, c2)) => {
                        let p = h + c1 + c2;
                        match sp_header(s.skip(p)) {
                            Some((m2, n, h2)) => if m2 == MAJOR_ARRAY {
                                match sp_steps_items(s.skip(p + h2), n as nat) {
                                    PRes::Val(ss, c3) => PRes::Val(
                                        MacroSV {
                                            macro_name: name,
                                            settings: st,
                                            macro_steps: ss,
                                        },
                                        p + h2 + c3,
                                    ),
                                    PRes::Malformed => PRes::Malformed,
                                    PRes::BadTag => PRes::BadTag,
                                }
                            } else {
                                PRes::Malformed
                            },
                            None => PRes::Malformed,
                        }
                    },
                    None => PRes::Malformed,
                },
                None => PRes::Malformed,
            }
        } else {
            PRes::Malformed
        },
        None => PRes::Malformed,
    }
}

pub proof fn lemma_flags_items_round_trip(fl: Seq<Flag>, rest: Seq<u8>)
    ensures
        sp_flags_items(flags_items_enc(fl) + rest, fl.len()) == PRes::Val(
            fl,
            flags_items_enc(fl).len() as int,
        ),
    decreases fl.len(),
{
    if fl.len() == 0 {
        assert(flags_items_enc(fl) + rest =~= rest);
        assert(fl =~= Seq::<Flag>::empty());
    } else {
        let f0 = fl[0];
        let t0 = f0.tag_spec();
        let tail = fl.drop_first();
        let s = flags_items_enc(fl) + rest;
        assert(s =~= uint_enc(t0) + (flags_items_enc(tail) + rest));
        lemma_uint_round_trip(t0, flags_items_enc(tail) + rest);
        let c = uint_enc(t0).len() as int;
        assert(s.skip(c) =~= flags_items_enc(tail) + rest);
        crate::keys::lemma_flag_tag_round_trip(f0);
        lemma_flags_items_round_trip(tail, rest);
        assert(seq![f0] + tail =~= fl);
    }
}

pub proof fn lemma_flags_round_trip(fl: Seq<Flag>, rest: Seq<u8>)
    requires
        fl.len() < 0x10000000000000000,
    ensures
        sp_flags(flags_enc(fl) + rest) == PRes::Val(fl, flags_enc(fl).len() as int),
{
    let h = header_enc(MAJOR_ARRAY, fl.len() as u64);
    let s = flags_enc(fl) + rest;
    assert(s =~= h + (flags_items_enc(fl) + rest));
    lemma_header_round_trip(MAJOR_ARRAY, fl.len() as u64, flags_items_enc(fl) + rest);
    assert(s.skip(h.len() as int) =~= flags_items_enc(fl) + rest);
    lemma_flags_items_round_trip(fl, rest);
}

proof fn lemma_step_rt_launch(c: Seq<char>, rest: Seq<u8>)
    requires
        step_sv_wf(StepSV::Launch(c)),
    ensures
        sp_step(step_enc(StepSV::Launch(c)) + rest) == PRes::Val(
            StepSV::Launch(c),
            step_enc(StepSV::Launch(c)).len() as int,
        ),
{
    let sv = StepSV::Launch(c);
    let s = step_enc(sv) + rest;
    let h = header_enc(MAJOR_ARRAY, 2);
    let u = uint_enc(0);
    let t = text_enc(c);
    assert(s =~= h + (u + (t + rest)));
    lemma_header_round_trip(MAJOR_ARRAY, 2, u + (t + rest));
    assert(s.skip(h.len() as int) =~= u + (t + rest));
    lemma_uint_round_trip(0, t + rest);
    assert(s.skip((h.len() + u.len()) as int) =~= t + rest);
    lemma_text_round_trip(c, rest);
}

#[verifier::rlimit(80)]
proof fn lemma_step_rt_image(sv: StepSV, rest: Seq<u8>)
    requires
        step_sv_wf(sv),
        sv matches StepSV::ClickImage(_, _, _) || sv matches StepSV::MoveToImage(_, _, _),
    ensures
        sp_step(step_enc(sv) + rest) == PRes::Val(sv, step_enc(sv).len() as int),
{
    let (tag, b, p, d) = match sv {
        StepSV::ClickImage(b, p, d) => (1u64, b, p, d),
        StepSV::MoveToImage(b, p, d) => (2u64, b, p, d),
        _ => (0u64, Seq::empty(), ClickPoint::CenterMiddle, 0u8),
    };
    let s = step_enc(sv) + rest;
    let h = header_enc(MAJOR_ARRAY, 4);
    let u1 = uint_enc(tag);
    let bb = bytes_enc(b);
    let u2 = uint_enc(p.tag_spec());
    let u3 = uint_enc(d as u64);
    assert(s =~= h + (u1 + (bb + (u2 + (u3 + rest)))));
    lemma_header_round_trip(MAJOR_ARRAY, 4, u1 + (bb + (u2 + (u3 + rest))));
    assert(s.skip(h.len() as int) =~= u1 + (bb + (u2 + (u3 + rest))));
    lemma_uint_round_trip(tag, bb + (u2 + (u3 + rest)));
    assert(s.skip((h.len() + u1.len()) as int) =~= bb + (u2 + (u3 + rest)));
    lemma_bytes_round_trip(b, u2 + (u3 + rest));
    assert(s.skip((h.len() + u1.len() + bb.len()) as int) =~= u2 + (u3 + rest));
    lemma_uint_round_trip(p.tag_spec(), u3 + rest);
    crate::anchor::lemma_anchor_tag_round_trip(p);
    assert(s.skip((h.len() + u1.len() + bb.len() + u2.len()) as int) =~= u3 + rest);
    lemma_uint_round_trip(d as u64, rest);
}

proof fn lemma_step_rt_type_text(t: Seq<char>, f: Seq<Flag>, rest: Seq<u8>)
    requires
        step_sv_wf(StepSV::TypeText(t, f)),
    ensures
        sp_step(step_enc(StepSV::TypeText(t, f)) + rest) == PRes::Val(
            StepSV::TypeText(t, f),
            step_enc(StepSV::TypeText(t, f)).len() as int,
        ),
{
    let sv = StepSV::TypeText(t, f);
    let s = step_enc(sv) + rest;
    let h = header_enc(MAJOR_ARRAY, 3);
    let u1 = uint_enc(3);
    let tt = text_enc(t);
    let ff = flags_enc(f);
    assert(s =~= h + (u1 + (tt + (ff + rest))));
    lemma_header_round_trip(MAJOR_ARRAY, 3, u1 + (tt + (ff + rest)));
    assert(s.skip(h.len() as int) =~= u1 + (tt + (ff + rest)));
    lemma_uint_round_trip(3, tt + (ff + rest));
    assert(s.skip((h.len() + u1.len()) as int) =~= tt + (ff + rest));
    lemma_text_round_trip(t, ff + rest);
    assert(s.skip((h.len() + u1.len() + tt.len()) as int) =~= ff + rest);
    lemma_flags_round_trip(f, rest);
}

proof fn lemma_step_rt_press_key(k: KeyCode, f: Seq<Flag>, rest: Seq<u8>)
    requires
        step_sv_wf(StepSV::PressKey(k, f)),
    ensures
        sp_step(step_enc(StepSV::PressKey(k, f)) + rest) == PRes::Val(
            StepSV::PressKey(k, f),
            step_enc(StepSV::PressKey(k, f)).len() as int,
        ),
{
    let sv = StepSV::PressKey(k, f);
    let s = step_enc(sv) + rest;
    let h = header_enc(MAJOR_ARRAY, 3);
    let u1 = uint_enc(4);
    let u2 = uint_enc(k.tag_spec());
    let ff = flags_enc(f);
    assert(s =~= h + (u1 + (u2 + (ff + rest))));
    lemma_header_round_trip(MAJOR_ARRAY, 3, u1 + (u2 + (ff + rest)));
    assert(s.skip(h.len() as int) =~= u1 + (u2 + (ff + rest)));
    lemma_uint_round_trip(4, u2 + (ff + rest));
    assert(s.skip((h.len() + u1.len()) as int) =~= u2 + (ff + rest));
    lemma_uint_round_trip(k.tag_spec(), ff + rest);
    crate::keys::lemma_key_tag_round_trip(k);
    assert(s.skip((h.len() + u1.len() + u2.len()) as int) =~= ff + rest);
    lemma_flags_round_trip(f, rest);
}

proof fn lemma_step_rt_scroll(d: ScrollDirection, n: u32, rest: Seq<u8>)
    ensures
        sp_step(step_enc(StepSV::Scroll(d, n)) + rest) == PRes::Val(
            StepSV::Scroll(d, n),
            step_enc(StepSV::Scroll(d, n)).len() as int,
        ),
{
    let sv = StepSV::Scroll(d, n);
    let s = step_enc(sv) + rest;
    let h = header_enc(MAJOR_ARRAY, 3);
    let u1 = uint_enc(5);
    let u2 = uint_enc(d.tag_spec());
    let u3 = uint_enc(n as u64);
    assert(s =~= h + (u1 + (u2 + (u3 + rest))));
    lemma_header_round_trip(MAJOR_ARRAY, 3, u1 + (u2 + (u3 + rest)));
    assert(s.skip(h.len() as int) =~= u1 + (u2 + (u3 + rest)));
    lemma_uint_round_trip(5, u2 + (u3 + rest));
    assert(s.skip((h.len() + u1.len()) as int) =~= u2 + (u3 + rest));
    lemma_uint_round_trip(d.tag_spec(), u3 + rest);
    crate::keys::lemma_scroll_tag_round_trip(d);
    assert(s.skip((h.len() + u1.len() + u2.len()) as int) =~= u3 + rest);
    lemma_uint_round_trip(n as u64, rest);
}

proof fn lemma_step_rt_wait(ms: u64, rest: Seq<u8>)
    ensures
        sp_step(step_enc(StepSV::WaitTime(ms)) + rest) == PRes::Val(
            StepSV::WaitTime(ms),
            step_enc(StepSV::WaitTime(ms)).len() as int,
        ),
{
    let sv = StepSV::WaitTime(ms);
    let s = step_enc(sv) + rest;
    let h = header_enc(MAJOR_ARRAY, 2);
    let u1 = uint_enc(6);
    let u2 = uint_enc(ms);
    assert(s =~= h + (u1 + (u2 + rest)));
    lemma_header_round_trip(MAJOR_ARRAY, 2, u1 + (u2 + rest));
    assert(s.skip(h.len() as int) =~= u1 + (u2 + rest));
    lemma_uint_round_trip(6, u2 + rest);
    assert(s.skip((h.len() + u1.len()) as int) =~= u2 + rest);
    lemma_uint_round_trip(ms, rest);
}

pub proof fn lemma_step_round_trip(sv: StepSV, rest: Seq<u8>)
    requires
        step_sv_wf(sv),
    ensures
        sp_step(step_enc(sv) + rest) == PRes::Val(sv, step_enc(sv).len() as int),
{
    match sv {
        StepSV::Launch(c) => lemma_step_rt_launch(c, rest),
        StepSV::ClickImage(_, _, _) => lemma_step_rt_image(sv, rest),
        StepSV::MoveToImage(_, _, _) => lemma_step_rt_image(sv, rest),
        StepSV::TypeText(t, f) => lemma_step_rt_type_text(t, f, rest),
        StepSV::PressKey(k, f) => lemma_step_rt_press_key(k, f, rest),
        StepSV::Scroll(d, n) => lemma_step_rt_scroll(d, n, rest),
        StepSV::WaitTime(ms) => lemma_step_rt_wait(ms, rest),
    }
}

pub proof fn lemma_steps_items_round_trip(ss: Seq<StepSV>, rest: Seq<u8>)
    requires
        forall|i: int| 0 <= i < ss.len() ==> step_sv_wf(#[trigger] ss[i]),
    ensures
        sp_steps_items(steps_items_enc(ss) + rest, ss.len()) == PRes::Val(
            ss,
            steps_items_enc(ss).len() as int,
        ),
    decreases ss.len(),
{
    if ss.len() == 0 {
        assert(steps_items_enc(ss) + rest =~= rest);
        assert(ss =~= Seq::<StepSV>::empty());
    } else {
        let sv0 = ss[0];
        let tail = ss.drop_first();
        let s = steps_items_enc(ss) + rest;
        assert(s =~= step_enc(sv0) + (steps_items_enc(tail) + rest));
        lemma_step_round_trip(sv0, steps_items_enc(tail) + rest);
        let c = step_enc(sv0).len() as int;
        assert(s.skip(c) =~= steps_items_enc(tail) + rest);
        assert(forall|i: int| 0 <= i < tail.len() ==> step_sv_wf(#[trigger] tail[i]));
        lemma_steps_items_round_trip(tail, rest);
        assert(seq![sv0] + tail =~= ss);
    }
}

pub proof fn lemma_settings_round_trip(st: Settings, rest: Seq<u8>)
    ensures
        sp_settings(settings_enc(st) + rest) == Some((st, settings_enc(st).len() as int)),
{
    let h = header_enc(MAJOR_ARRAY, 2);
    let u = uint_enc(st.step_timeout_seconds);
    let b = bool_enc(st.break_whole_macro);
    let s = settings_enc(st) + rest;
    assert(s =~= h + (u + (b + rest)));
    lemma_header_round_trip(MAJOR_ARRAY, 2, u + (b + rest));
    assert(s.skip(h.len() as int) =~= u + (b + rest));
    lemma_uint_round_trip(st.step_timeout_seconds, b + rest);
    assert(s.skip((h.len() + u.len()) as int) =~= b + rest);
    lemma_bool_round_trip(st.break_whole_macro, rest);
}

/// The document codec round trip: a well-formed portable macro written by
/// the encoder parses back to itself, whatever follows the document.
#[verifier::rlimit(80)]
pub proof fn lemma_doc_round_trip(m: MacroSV, rest: Seq<u8>)
    requires
        macro_sv_wf(m),
    ensures
        sp_doc(doc_enc(m) + rest) == PRes::Val(m, doc_enc(m).len() as int),
{
    let h = header_enc(MAJOR_ARRAY, 3);
    let t = text_enc(m.macro_name);
    let se = settings_enc(m.settings);
    let ah = header_enc(MAJOR_ARRAY, m.macro_steps.len() as u64);
    let items = steps_items_enc(m.macro_steps);
    let s = doc_enc(m) + rest;
    assert(s =~= h + (t + (se + (ah + (items + rest)))));
    lemma_header_round_trip(MAJOR_ARRAY, 3, t + (se + (ah + (items + rest))));
    assert(s.skip(h.len() as int) =~= t + (se + (ah + (items + rest))));
    lemma_text_round_trip(m.macro_name, se + (ah + (items + rest)));
    assert(s.skip((h.len() + t.len()) as int) =~= se + (ah + (items + rest)));
    lemma_settings_round_trip(m.settings, ah + (items + rest));
    assert(s.skip((h.len() + t.len() + se.len()) as int) =~= ah + (items + rest));
    lemma_header_round_trip(MAJOR_ARRAY, m.macro_steps.len() as u64, items + rest);
    assert(s.skip((h.len() + t.len() + se.len() + ah.len()) as int) =~= items + rest);
    lemma_steps_items_round_trip(m.macro_steps, rest);
}

proof fn lemma_flags_items_snoc(s: Seq<Flag>, x: Flag)
    ensures
        flags_items_enc(s.push(x)) == flags_items_enc(s) + uint_enc(x.tag_spec()),
    decreases s.len(),
{
    if s.len() == 0 {
        assert(s =~= Seq::<Flag>::empty());
        assert(s.push(x).drop_first() =~= Seq::<Flag>::empty());
        assert(s.push(x)[0] == x);
        assert(flags_items_enc(Seq::<Flag>::empty()) == Seq::<u8>::empty());
        assert(flags_items_enc(s.push(x)) == uint_enc(x.tag_spec()) + flags_items_enc(
            s.push(x).drop_first(),
        ));
        assert(flags_items_enc(s.push(x)) =~= uint_enc(x.tag_spec()));
        assert(flags_items_enc(s) + uint_enc(x.tag_spec()) =~= uint_enc(x.tag_spec()));
    } else {
        assert(s.push(x).drop_first() =~= s.drop_first().push(x));
        assert(s.push(x)[0] == s[0]);
        lemma_flags_items_snoc(s.drop_first(), x);
        assert(uint_enc(s[0].tag_spec()) + (flags_items_enc(s.drop_first()) + uint_enc(
            x.tag_spec(),
        )) =~= (uint_enc(s[0].tag_spec()) + flags_items_enc(s.drop_first())) + uint_enc(
            x.tag_spec(),
        ));
    }
}

proof fn lemma_steps_items_snoc(s: Seq<StepSV>, x: StepSV)
    ensures
        steps_items_enc(s.push(x)) == steps_items_enc(s) + step_enc(x),
    decreases s.len(),
{
    if s.len() == 0 {
        assert(s =~= Seq::<StepSV>::empty());
        assert(s.push(x).drop_first() =~= Seq::<StepSV>::empty());
        assert(s.push(x)[0] == x);
        assert(steps_items_enc(Seq::<StepSV>::empty()) == Seq::<u8>::empty());
        assert(steps_items_enc(s.push(x)) == step_enc(s.push(x)[0]) + steps_items_enc(
            s.push(x).drop_first(),
        ));
        assert(steps_items_enc(s.push(x)) =~= step_enc(x));
        assert(steps_items_enc(s) + step_enc(x) =~= step_enc(x));
    } else {
        assert(s.push(x).drop_first() =~= s.drop_first().push(x));
        assert(s.push(x)[0] == s[0]);
        lemma_steps_items_snoc(s.drop_first(), x);
        assert(step_enc(s[0]) + (steps_items_enc(s.drop_first()) + step_enc(x)) =~= (step_enc(s[0])
            + steps_items_enc(s.drop_first())) + step_enc(x));
    }
}

/// The length bounds of a step's wire fields, as the in-memory value
/// guarantees them.
pub open spec fn step_sv_len_ok(sv: StepSV) -> bool {
    match sv {
        StepSV::Launch(c) => encode_utf8(c).len() < 0x10000000000000000,
        StepSV::ClickImage(b, _, _) => b.len() < 0x10000000000000000,
        StepSV::MoveToImage(b, _, _) => b.len() < 0x10000000000000000,
        StepSV::TypeText(t, f) => encode_utf8(t).len() < 0x10000000000000000 && f.len()
            < 0x10000000000000000,
        StepSV::PressKey(_, f) => f.len() < 0x10000000000000000,
        StepSV::Scroll(_, _) => true,
        StepSV::WaitTime(_) => true,
    }
}

/// The allowed difference of an image step stays on the hundredths scale;
/// the document refuses anything beyond it.
pub open spec fn step_sv_diff_ok(sv: StepSV) -> bool {
    match sv {
        StepSV::ClickImage(_, _, d) => d <= 100,
        StepSV::MoveToImage(_, _, d) => d <= 100,
        _ => true,
    }
}

fn encode_flags(out: &mut Vec<u8>, fl: &Vec<Flag>)
    ensures
        final(out)@ == old(out)@ + flags_enc(fl@),
        fl@.len() < 0x10000000000000000,
{
    let ghost pre = out@;
    emit_header(out, MAJOR_ARRAY, fl.len() as u64);
    let n = fl.len();
    let mut i: usize = 0;
    while i < n
        invariant
            n == fl@.len(),
            i <= n,
            out@ == pre + header_enc(MAJOR_ARRAY, fl@.len() as u64) + flags_items_enc(
                fl@.take(i as int),
            ),
        decreases n - i,
    {
        let f = fl[i];
        emit_uint(out, f.tag());
        proof {
            assert(fl@.take(i + 1) =~= fl@.take(i as int).push(fl@[i as int]));
            lemma_flags_items_snoc(fl@.take(i as int), fl@[i as int]);
        }
        i += 1;
    }
    proof {
        assert(fl@.take(n as int) =~= fl@);
        assert(out@ =~= pre + flags_enc(fl@));
    }
}

#[verifier::rlimit(80)]
fn encode_step(out: &mut Vec<u8>, st: &MacroStepSerializable)
    ensures
        final(out)@ == old(out)@ + step_enc(st@),
        step_sv_len_ok(st@),
{
    let ghost pre = out@;
    match st {
        MacroStepSerializable::Launch(c) => {
            emit_header(out, MAJOR_ARRAY, 2);
            emit_uint(out, 0);
            emit_text(out, c.as_str());
            proof {
                assert(out@ =~= pre + step_enc(st@));
            }
        },
        MacroStepSerializable::ClickImage(b, p, d) => {
            emit_header(out, MAJOR_ARRAY, 4);
            emit_uint(out, 1);
            emit_bytes(out, b);
            emit_uint(out, p.tag());
            emit_uint(out, *d as u64);
            proof {
                assert(out@ =~= pre + step_enc(st@));
            }
        },
        MacroStepSerializable::MoveToImage(b, p, d) => {
            emit_header(out, MAJOR_ARRAY, 4);
            emit_uint(out, 2);
            emit_bytes(out, b);
            emit_uint(out, p.tag());
            emit_uint(out, *d as u64);
            proof {
                assert(out@ =~= pre + step_enc(st@));
            }
        },
        MacroStepSerializable::TypeText(t, f) => {
            emit_header(out, MAJOR_ARRAY, 3);
            emit_uint(out, 3);
            emit_text(out, t.as_str());
            encode_flags(out, f);
            proof {
                assert(out@ =~= pre + step_enc(st@));
            }
        },
        MacroStepSerializable::PressKey(k, f) => {
            emit_header(out, MAJOR_ARRAY, 3);
            emit_uint(out, 4);
            emit_uint(out, k.tag());
            encode_flags(out, f);
            proof {
                assert(out@ =~= pre + step_enc(st@));
            }
        },
        MacroStepSerializable::Scroll(d, n) => {
            emit_header(out, MAJOR_ARRAY, 3);
            emit_uint(out, 5);
            emit_uint(out, d.tag());
            emit_uint(out, *n as u64);
            proof {
                assert(out@ =~= pre + step_enc(st@));
            }
        },
        MacroStepSerializable::WaitTime(ms) => {
            emit_header(out, MAJOR_ARRAY, 2);
            emit_uint(out, 6);
            emit_uint(out, *ms);
            proof {
                assert(out@ =~= pre + step_enc(st@));
            }
        },
    }
}

/// Write a portable macro as one binary document. The produced bytes parse
/// back to the very value that was written: the codec round trip at the
/// document level.
pub fn encode_doc(d: &MacroSerializable) -> (r: Vec<u8>)
    requires
        forall|i: int| 0 <= i < d@.macro_steps.len() ==> step_sv_diff_ok(
            #[trigger] d@.macro_steps[i],
        ),
    ensures
        r@ == doc_enc(d@),
        sp_doc(r@) == PRes::Val(d@, r@.len() as int),
{
    let mut out: Vec<u8> = Vec::new();
    emit_header(&mut out, MAJOR_ARRAY, 3);
    emit_text(&mut out, d.macro_name.as_str());
    emit_header(&mut out, MAJOR_ARRAY, 2);
    emit_uint(&mut out, d.settings.step_timeout_seconds);
    emit_bool(&mut out, d.settings.break_whole_macro);
    let ghost doc_prefix = header_enc(MAJOR_ARRAY, 3) + text_enc(d@.macro_name) + settings_enc(
        d@.settings,
    );
    proof {
        assert(out@ =~= doc_prefix);
    }
    let n = d.macro_steps.len();
    emit_header(&mut out, MAJOR_ARRAY, n as u64);
    let ghost items_prefix = doc_prefix + header_enc(MAJOR_ARRAY, d@.macro_steps.len() as u64);
    proof {
        assert(out@ =~= items_prefix + steps_items_enc(d@.macro_steps.take(0)));
    }
    let mut i: usize = 0;
    while i < n
        invariant
            n == d.macro_steps@.len(),
            i <= n,
            d@.macro_steps.len() == n,
            items_prefix == doc_prefix + header_enc(MAJOR_ARRAY, d@.macro_steps.len() as u64),
            out@ == items_prefix + steps_items_enc(d@.macro_steps.take(i as int)),
            forall|j: int| 0 <= j < i ==> step_sv_len_ok(#[trigger] d@.macro_steps[j]),
        decreases n - i,
    {
        proof {
            assert(d@.macro_steps[i as int] == d.macro_steps@[i as int]@);
        }
        encode_step(&mut out, &d.macro_steps[i]);
        proof {
            assert(d@.macro_steps.take(i + 1) =~= d@.macro_steps.take(i as int).push(
                d@.macro_steps[i as int],
            ));
            lemma_steps_items_snoc(d@.macro_steps.take(i as int), d@.macro_steps[i as int]);
        }
        i += 1;
    }
    proof {
        assert(d@.macro_steps.take(n as int) =~= d@.macro_steps);
        assert(steps_items_enc(d@.macro_steps.take(n as int)) == steps_items_enc(d@.macro_steps));
        assert(out@ =~= items_prefix + steps_items_enc(d@.macro_steps));
        assert(doc_enc(d@) == header_enc(MAJOR_ARRAY, 3) + text_enc(d@.macro_name) + settings_enc(
            d@.settings,
        ) + header_enc(MAJOR_ARRAY, d@.macro_steps.len() as u64) + steps_items_enc(
            d@.macro_steps,
        ));
        assert(doc_enc(d@) =~= items_prefix + steps_items_enc(d@.macro_steps));
        assert(out@ =~= doc_enc(d@));
        assert(macro_sv_wf(d@));
        lemma_doc_round_trip(d@, Seq::empty());
        assert(doc_enc(d@) + Seq::<u8>::empty() =~= doc_enc(d@));
    }
    out
}

use crate::error::Error;

fn decode_flags(buf: &Vec<u8>, pos: usize) -> (r: Result<(Vec<Flag>, usize), Error>)
    requires
        pos <= buf@.len(),
    ensures
        (match r {
            Ok((v, np)) => pos <= np <= buf@.len() && sp_flags(buf@.skip(pos as int)) == PRes::Val(
                v@,
                np - pos,
            ),
            Err(e) => (e == Error::MalformedDocument && sp_flags(buf@.skip(pos as int))
                is Malformed) || (e == Error::UnknownEnumTag && sp_flags(buf@.skip(pos as int))
                is BadTag),
        }),
{
    let ghost s = buf@.skip(pos as int);
    let (n, arr_start) = match read_header(buf, pos) {
        Some((major, n, np)) => {
            if major != MAJOR_ARRAY {
                return Err(Error::MalformedDocument);
            }
            (n, np)
        },
        None => {
            return Err(Error::MalformedDocument);
        },
    };
    let ghost s_arr = buf@.skip(arr_start as int);
    proof {
        assert(s.skip(arr_start - pos) =~= s_arr);
    }
    let mut acc: Vec<Flag> = Vec::new();
    let mut cur: usize = arr_start;
    let mut i: u64 = 0;
    while i < n
        invariant
            i <= n,
            pos <= arr_start <= cur <= buf@.len(),
            s == buf@.skip(pos as int),
            s_arr == buf@.skip(arr_start as int),
            s.skip(arr_start - pos) == s_arr,
            sp_header(s) == Some((MAJOR_ARRAY, n, arr_start - pos)),
            (match sp_flags_items(buf@.skip(cur as int), (n - i) as nat) {
                PRes::Val(restf, c) => sp_flags_items(s_arr, n as nat) == PRes::Val(
                    acc@ + restf,
                    cur - arr_start + c,
                ),
                PRes::Malformed => sp_flags_items(s_arr, n as nat) is Malformed,
                PRes::BadTag => sp_flags_items(s_arr, n as nat) is BadTag,
            }),
        decreases n - i,
    {
        match read_uint(buf, cur) {
            Some((t, np)) => {
                match Flag::from_tag(t) {
                    Some(f) => {
                        proof {
                            assert(buf@.skip(cur as int).skip(np - cur) =~= buf@.skip(np as int));
                        }
                        let ghost old_acc = acc@;
                        acc.push(f);
                        proof {
                            match sp_flags_items(buf@.skip(np as int), (n - i - 1) as nat) {
                                PRes::Val(rest2, c2) => {
                                    assert(old_acc + (seq![f] + rest2) =~= acc@ + rest2);
                                },
                                PRes::Malformed => {},
                                PRes::BadTag => {},
                            }
                        }
                        cur = np;
                        i = i + 1;
                    },
                    None => {
                        return Err(Error::UnknownEnumTag);
                    },
                }
            },
            None => {
                return Err(Error::MalformedDocument);
            },
        }
    }
    proof {
        assert(acc@ + Seq::<Flag>::empty() =~= acc@);
    }
    Ok((acc, cur))
}

#[verifier::rlimit(80)]
fn decode_step(buf: &Vec<u8>, pos: usize) -> (r: Result<(MacroStepSerializable, usize), Error>)
    requires
        pos <= buf@.len(),
    ensures
        (match r {
            Ok((v, np)) => pos <= np <= buf@.len() && sp_step(buf@.skip(pos as int)) == PRes::Val(
                v@,
                np - pos,
            ) && step_sv_diff_ok(v@),
            Err(e) => (e == Error::MalformedDocument && sp_step(buf@.skip(pos as int))
                is Malformed) || (e == Error::UnknownEnumTag && sp_step(buf@.skip(pos as int))
                is BadTag),
        }),
{
    let ghost s = buf@.skip(pos as int);
    let (cnt, p0) = match read_header(buf, pos) {
        Some((major, cnt, np)) => {
            if major != MAJOR_ARRAY {
                return Err(Error::MalformedDocument);
            }
            (cnt, np)
        },
        None => {
            return Err(Error::MalformedDocument);
        },
    };
    proof {
        assert(s.skip(p0 - pos) =~= buf@.skip(p0 as int));
    }
    let (tag, p1) = match read_uint(buf, p0) {
        Some((tag, np)) => (tag, np),
        None => {
            return Err(Error::MalformedDocument);
        },
    };
    proof {
        assert(s.skip(p1 - pos) =~= buf@.skip(p1 as int));
    }
    if tag == 0 && cnt == 2 {
        match read_text(buf, p1) {
            Some((t, np)) => Ok((MacroStepSerializable::Launch(t), np)),
            None => Err(Error::MalformedDocument),
        }
    } else if (tag == 1 || tag == 2) && cnt == 4 {
        let (b, p2) = match read_bytes(buf, p1) {
            Some((b, np)) => (b, np),
            None => {
                return Err(Error::MalformedDocument);
            },
        };
        proof {
            assert(s.skip(p2 - pos) =~= buf@.skip(p2 as int));
        }
        let (pt, p3) = match read_uint(buf, p2) {
            Some((pt, np)) => (pt, np),
            None => {
                return Err(Error::MalformedDocument);
            },
        };
        let cp = match ClickPoint::from_tag(pt) {
            Some(cp) => cp,
            None => {
                return Err(Error::UnknownEnumTag);
            },
        };
        proof {
            assert(s.skip(p3 - pos) =~= buf@.skip(p3 as int));
        }
        let (d, p4) = match read_uint(buf, p3) {
            Some((d, np)) => (d, np),
            None => {
                return Err(Error::MalformedDocument);
            },
        };
        if d > 100 {
            return Err(Error::MalformedDocument);
        }
        if tag == 1 {
            Ok((MacroStepSerializable::ClickImage(b, cp, d as u8), p4))
        } else {
            Ok((MacroStepSerializable::MoveToImage(b, cp, d as u8), p4))
        }
    } else if tag == 3 && cnt == 3 {
        let (t, p2) = match read_text(buf, p1) {
            Some((t, np)) => (t, np),
            None => {
                return Err(Error::MalformedDocument);
            },
        };
        proof {
            assert(s.skip(p2 - pos) =~= buf@.skip(p2 as int));
        }
        match decode_flags(buf, p2) {
            Ok((f, p3)) => Ok((MacroStepSerializable::TypeText(t, f), p3)),
            Err(e) => Err(e),
        }
    } else if tag == 4 && cnt == 3 {
        let (kt, p2) = match read_uint(buf, p1) {
            Some((kt, np)) => (kt, np),
            None => {
                return Err(Error::MalformedDocument);
            },
        };
        let k = match KeyCode::from_tag(kt) {
            Some(k) => k,
            None => {
                return Err(Error::UnknownEnumTag);
            },
        };
        proof {
            assert(s.skip(p2 - pos) =~= buf@.skip(p2 as int));
        }
        match decode_flags(buf, p2) {
            Ok((f, p3)) => Ok((MacroStepSerializable::PressKey(k, f), p3)),
            Err(e) => Err(e),
        }
    } else if tag == 5 && cnt == 3 {
        let (dt, p2) = match read_uint(buf, p1) {
            Some((dt, np)) => (dt, np),
            None => {
                return Err(Error::MalformedDocument);
            },
        };
        let dir = match ScrollDirection::from_tag(dt) {
            Some(d) => d,
            None => {
                return Err(Error::UnknownEnumTag);
            },
        };
        proof {
            assert(s.skip(p2 - pos) =~= buf@.skip(p2 as int));
        }
        let (amount, p3) = match read_uint(buf, p2) {
            Some((n, np)) => (n, np),
            None => {
                return Err(Error::MalformedDocument);
            },
        };
        if amount >= 0x100000000 {
            return Err(Error::MalformedDocument);
        }
        Ok((MacroStepSerializable::Scroll(dir, amount as u32), p3))
    } else if tag == 6 && cnt == 2 {
        match read_uint(buf, p1) {
            Some((ms, np)) => Ok((MacroStepSerializable::WaitTime(ms), np)),
            None => Err(Error::MalformedDocument),
        }
    } else if tag <= 6 {
        Err(Error::MalformedDocument)
    } else {
        Err(Error::UnknownEnumTag)
    }
}

fn decode_steps(buf: &Vec<u8>, pos: usize, n: u64) -> (r: Result<
    (Vec<MacroStepSerializable>, usize),
    Error,
>)
    requires
        pos <= buf@.len(),
    ensures
        (match r {
            Ok((v, np)) => pos <= np <= buf@.len() && sp_steps_items(
                buf@.skip(pos as int),
                n as nat,
            ) == PRes::Val(v@.map_values(|x: MacroStepSerializable| x@), np - pos) && (forall|
                j: int,
            |
                0 <= j < v@.len() ==> step_sv_diff_ok(#[trigger] v@[j]@)),
            Err(e) => (e == Error::MalformedDocument && sp_steps_items(
                buf@.skip(pos as int),
                n as nat,
            ) is Malformed) || (e == Error::UnknownEnumTag && sp_steps_items(
                buf@.skip(pos as int),
                n as nat,
            ) is BadTag),
        }),
{
    let ghost s0 = buf@.skip(pos as int);
    let mut acc: Vec<MacroStepSerializable> = Vec::new();
    let mut cur: usize = pos;
    let mut i: u64 = 0;
    while i < n
        invariant
            i <= n,
            pos <= cur <= buf@.len(),
            s0 == buf@.skip(pos as int),
            (match sp_steps_items(buf@.skip(cur as int), (n - i) as nat) {
                PRes::Val(restf, c) => sp_steps_items(s0, n as nat) == PRes::Val(
                    acc@.map_values(|x: MacroStepSerializable| x@) + restf,
                    cur - pos + c,
                ),
                PRes::Malformed => sp_steps_items(s0, n as nat) is Malformed,
                PRes::BadTag => sp_steps_items(s0, n as nat) is BadTag,
            }),
            forall|j: int| 0 <= j < acc@.len() ==> step_sv_diff_ok(#[trigger] acc@[j]@),
        decreases n - i,
    {
        match decode_step(buf, cur) {
            Ok((sv, np)) => {
                proof {
                    assert(buf@.skip(cur as int).skip(np - cur) =~= buf@.skip(np as int));
                }
                let ghost old_accv = acc@.map_values(|x: MacroStepSerializable| x@);
                let ghost svv = sv@;
                acc.push(sv);
                proof {
                    assert(acc@.map_values(|x: MacroStepSerializable| x@) =~= old_accv.push(svv));
                    match sp_steps_items(buf@.skip(np as int), (n - i - 1) as nat) {
                        PRes::Val(rest2, c2) => {
                            assert(old_accv + (seq![svv] + rest2) =~= old_accv.push(svv) + rest2);
                        },
                        PRes::Malformed => {},
                        PRes::BadTag => {},
                    }
                }
                cur = np;
                i = i + 1;
            },
            Err(e) => {
                return Err(e);
            },
        }
    }
    proof {
        assert(acc@.map_values(|x: MacroStepSerializable| x@) + Seq::<StepSV>::empty()
            =~= acc@.map_values(|x: MacroStepSerializable| x@));
    }
    Ok((acc, cur))
}

fn decode_settings(buf: &Vec<u8>, pos: usize) -> (r: Result<(Settings, usize), Error>)
    requires
        pos <= buf@.len(),
    ensures
        (match r {
            Ok((v, np)) => pos <= np <= buf@.len() && sp_settings(buf@.skip(pos as int)) == Some(
                (v, np - pos),
            ),
            Err(e) => e == Error::MalformedDocument && sp_settings(buf@.skip(pos as int)) is None,
        }),
{
    let ghost s = buf@.skip(pos as int);
    let p0 = match read_header(buf, pos) {
        Some((major, cnt, np)) => {
            if major != MAJOR_ARRAY || cnt != 2 {
                return Err(Error::MalformedDocument);
            }
            np
        },
        None => {
            return Err(Error::MalformedDocument);
        },
    };
    proof {
        assert(s.skip(p0 - pos) =~= buf@.skip(p0 as int));
    }
    let (t, p1) = match read_uint(buf, p0) {
        Some((t, np)) => (t, np),
        None => {
            return Err(Error::MalformedDocument);
        },
    };
    proof {
        assert(s.skip(p1 - pos) =~= buf@.skip(p1 as int));
    }
    match read_bool(buf, p1) {
        Some((b, np)) => Ok(
            (Settings { step_timeout_seconds: t, break_whole_macro: b }, np),
        ),
        None => Err(Error::MalformedDocument),
    }
}

/// Read one binary document back into a portable macro. Succeeds exactly
/// when the bytes open with a readable document; a structural fault is
/// `MalformedDocument`, a well-formed document carrying an enumeration tag
/// the library does not know is `UnknownEnumTag`.
pub fn decode_doc(buf: &Vec<u8>) -> (r: Result<(MacroSerializable, usize), Error>)
    ensures
        (match r {
            Ok((d, np)) => np <= buf@.len() && sp_doc(buf@) == PRes::Val(d@, np as int) && (
            forall|j: int|
                0 <= j < d@.macro_steps.len() ==> step_sv_diff_ok(#[trigger] d@.macro_steps[j])),
            Err(e) => (e == Error::MalformedDocument && sp_doc(buf@) is Malformed) || (e
                == Error::UnknownEnumTag && sp_doc(buf@) is BadTag),
        }),
{
    let ghost s = buf@;
    proof {
        assert(buf@.skip(0) =~= buf@);
    }
    let p0 = match read_header(buf, 0) {
        Some((major, cnt, np)) => {
            if major != MAJOR_ARRAY || cnt != 3 {
                return Err(Error::MalformedDocument);
            }
            np
        },
        None => {
            return Err(Error::MalformedDocument);
        },
    };
    proof {
        assert(s.skip(p0 as int) =~= buf@.skip(p0 as int));
    }
    let (name, p1) = match read_text(buf, p0) {
        Some((t, np)) => (t, np),
        None => {
            return Err(Error::MalformedDocument);
        },
    };
    proof {
        assert(s.skip(p1 as int) =~= buf@.skip(p1 as int));
    }
    let (st, p2) = match decode_settings(buf, p1) {
        Ok(v) => v,
        Err(e) => {
            return Err(e);
        },
    };
    proof {
        assert(s.skip(p2 as int) =~= buf@.skip(p2 as int));
    }
    let (nsteps, p3) = match read_header(buf, p2) {
        Some((major, n, np)) => {
            if major != MAJOR_ARRAY {
                return Err(Error::MalformedDocument);
            }
            (n, np)
        },
        None => {
            return Err(Error::MalformedDocument);
        },
    };
    proof {
        assert(s.skip(p3 as int) =~= buf@.skip(p3 as int));
    }
    match decode_steps(buf, p3, nsteps) {
        Ok((steps, p4)) => {
            let d = MacroSerializable { macro_name: name, settings: st, macro_steps: steps };
            proof {
                assert(sp_doc(buf@) == PRes::Val(d@, p4 as int));
            }
            Ok((d, p4))
        },
        Err(e) => Err(e),
    }
}

} // verus!
