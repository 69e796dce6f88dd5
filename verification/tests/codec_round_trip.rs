use screen_macro::anchor::ClickPoint;
use screen_macro::error::Error;
use screen_macro::image_data::Image;
use screen_macro::keys::{Flag, KeyCode, ScrollDirection};
use screen_macro::settings::Settings;
use screen_macro::step::{Macro, MacroStep};

fn sample_image() -> Image {
    Image {
        width: 2,
        height: 2,
        data: vec![255, 0, 0, 0, 255, 0, 0, 0, 255, 10, 20, 30],
    }
}

fn assert_steps_equal(a: &MacroStep, b: &MacroStep) {
    match (a, b) {
        (MacroStep::Launch(x), MacroStep::Launch(y)) => assert_eq!(x, y),
        (MacroStep::ClickImage(ia, pa, da), MacroStep::ClickImage(ib, pb, db))
        | (MacroStep::MoveToImage(ia, pa, da), MacroStep::MoveToImage(ib, pb, db)) => {
            assert_eq!(pa, pb);
            assert_eq!(da, db);
            match (ia, ib) {
                (Some(x), Some(y)) => {
                    assert_eq!(x.width, y.width);
                    assert_eq!(x.height, y.height);
                    assert_eq!(x.data, y.data);
                },
                (None, None) => {},
                _ => panic!("image presence differs"),
            }
        },
        (MacroStep::TypeText(ta, fa), MacroStep::TypeText(tb, fb)) => {
            assert_eq!(ta, tb);
            assert_eq!(fa, fb);
        },
        (MacroStep::PressKey(ka, fa), MacroStep::PressKey(kb, fb)) => {
            assert_eq!(ka, kb);
            assert_eq!(fa, fb);
        },
        (MacroStep::Scroll(da, na), MacroStep::Scroll(db, nb)) => {
            assert_eq!(da, db);
            assert_eq!(na, nb);
        },
        (MacroStep::WaitTime(a), MacroStep::WaitTime(b)) => assert_eq!(a, b),
        _ => panic!("step kinds differ"),
    }
}

fn assert_round_trip(m: &Macro) {
    let bytes = m.save_bytes().expect("save should succeed");
    let back = Macro::load_bytes(&bytes).expect("load should succeed");
    assert_eq!(back.macro_name, m.macro_name);
    assert_eq!(back.settings, m.settings);
    assert_eq!(back.macro_steps.len(), m.macro_steps.len());
    for (a, b) in m.macro_steps.iter().zip(back.macro_steps.iter()) {
        assert_steps_equal(a, b);
    }
}

#[test]
fn round_trip_empty_macro() {
    let m = Macro::new("Nothing here".to_string(), Settings::new(60, true), vec![]);
    assert_round_trip(&m);
}

#[test]
fn round_trip_default_macro() {
    let m: Macro = Default::default();
    assert_eq!(m.macro_name, "Unnamed");
    assert_eq!(m.settings, Settings::new(60, true));
    assert_round_trip(&m);
}

#[test]
fn round_trip_every_step_kind() {
    let steps = vec![
        MacroStep::Launch("xterm -e htop".to_string()),
        MacroStep::ClickImage(Some(sample_image()), ClickPoint::TopRight, 25),
        MacroStep::MoveToImage(Some(sample_image()), ClickPoint::BottomLeft, 100),
        MacroStep::TypeText("héllo wörld".to_string(), vec![Flag::Shift, Flag::Control]),
        MacroStep::PressKey(KeyCode::Return, vec![Flag::Alt, Flag::Meta, Flag::Help]),
        MacroStep::Scroll(ScrollDirection::Up, 42),
        MacroStep::Scroll(ScrollDirection::Down, 4294967295),
        MacroStep::WaitTime(18446744073709551615),
    ];
    let m = Macro::new("Ünïcode näme".to_string(), Settings::new(1, false), steps);
    assert_round_trip(&m);
}

#[test]
fn round_trip_keeps_pixels_exact() {
    let img = sample_image();
    let m = Macro::new(
        "pix".to_string(),
        Settings::new(60, true),
        vec![MacroStep::ClickImage(Some(img.clone()), ClickPoint::CenterMiddle, 0)],
    );
    let bytes = m.save_bytes().unwrap();
    let back = Macro::load_bytes(&bytes).unwrap();
    match &back.macro_steps[0] {
        MacroStep::ClickImage(Some(got), _, _) => {
            assert_eq!(got.width, img.width);
            assert_eq!(got.height, img.height);
            assert_eq!(got.data, img.data);
        },
        _ => panic!("step came back wrong"),
    }
}

#[test]
fn saving_a_missing_image_is_refused() {
    let m = Macro::new(
        "broken".to_string(),
        Settings::new(60, true),
        vec![
            MacroStep::Launch("ls".to_string()),
            MacroStep::ClickImage(None, ClickPoint::CenterMiddle, 0),
        ],
    );
    assert_eq!(m.save_bytes().unwrap_err(), Error::MissingImageData);
}

#[test]
fn loading_garbage_is_malformed() {
    assert_eq!(Macro::load_bytes(&vec![]).unwrap_err(), Error::MalformedDocument);
    assert_eq!(
        Macro::load_bytes(&vec![0xff, 0x00, 0x12]).unwrap_err(),
        Error::MalformedDocument
    );
    // An array of the wrong arity is not a document either.
    assert_eq!(Macro::load_bytes(&vec![0x82, 0x60, 0x60]).unwrap_err(), Error::MalformedDocument);
}

#[test]
fn loading_an_unknown_tag_is_reported_as_such() {
    // A document whose single step carries the unassigned step tag 7.
    let doc = vec![
        0x83, // array(3): the document
        0x60, // text(0): empty name
        0x82, 0x00, 0xf4, // array(2): timeout 0, break false
        0x81, // array(1): one step
        0x82, 0x07, 0x00, // array(2): step tag 7, one field
    ];
    assert_eq!(Macro::load_bytes(&doc).unwrap_err(), Error::UnknownEnumTag);
}

#[test]
fn loading_a_bad_image_blob_is_a_decode_failure() {
    // A document whose single step is a click-image step with three bytes
    // that no image decoder accepts.
    let doc = vec![
        0x83, // array(3): the document
        0x60, // text(0): empty name
        0x82, 0x00, 0xf4, // array(2): settings
        0x81, // array(1): one step
        0x84, 0x01, // array(4): step tag 1 (click an image)
        0x43, 0x00, 0x01, 0x02, // bytes(3): not an image
        0x04, // anchor tag: center
        0x00, // allowed difference 0
    ];
    assert_eq!(Macro::load_bytes(&doc).unwrap_err(), Error::DecodeFailure);
}

#[test]
fn loading_an_overlarge_difference_is_malformed() {
    // Same step shape, but the allowed difference is 101 of 100.
    let doc = vec![
        0x83, 0x60, 0x82, 0x00, 0xf4, 0x81, 0x84, 0x01, 0x43, 0x00, 0x01, 0x02, 0x04, 0x18, 0x65,
    ];
    assert_eq!(Macro::load_bytes(&doc).unwrap_err(), Error::MalformedDocument);
}

#[test]
fn saved_bytes_are_a_binary_document() {
    let m = Macro::new("x".to_string(), Settings::new(60, true), vec![]);
    let bytes = m.save_bytes().unwrap();
    // array(3), text(1) 'x', array(2), uint 24-bit-form 60, true, array(0)
    assert_eq!(bytes, vec![0x83, 0x61, 0x78, 0x82, 0x18, 0x3c, 0xf5, 0x80]);
}

#[test]
fn trailing_bytes_after_the_document_are_ignored() {
    let m = Macro::new("t".to_string(), Settings::new(60, true), vec![MacroStep::WaitTime(3)]);
    let mut bytes = m.save_bytes().unwrap();
    bytes.extend_from_slice(&[0xde, 0xad, 0xbe, 0xef]);
    let back = Macro::load_bytes(&bytes).unwrap();
    assert_eq!(back.macro_name, "t");
    assert!(matches!(back.macro_steps[0], MacroStep::WaitTime(3)));
}

#[test]
fn strength_inversion_is_exact() {
    assert_eq!(screen_macro::step::match_strength_percent(0), 100);
    assert_eq!(screen_macro::step::match_strength_percent(25), 75);
    assert_eq!(screen_macro::step::match_strength_percent(100), 0);
    assert_eq!(screen_macro::step::allowed_diff_from_strength(75), 25);
    assert_eq!(screen_macro::step::allowed_diff_from_strength(100), 0);
}
