use screen_macro::error::Error;
use screen_macro::keys::KeyCode;
use screen_macro::labels::EnumInterString;
use screen_macro::step::MacroStep;

#[test]
fn check_macro_step_from_str() {
    let options = MacroStep::all_string_options();

    for option in options {
        let a = MacroStep::from_str(&option);
        assert!(a.is_ok());
    }
}

#[test]
fn check_macro_step_to_string() {
    let options = MacroStep::all_string_options();

    for option in options {
        let a = MacroStep::from_str(&option).unwrap();

        let res = a.to_string();

        assert!(res == option);
    }
}

#[test]
fn check_keycode_from_str() {
    let options = KeyCode::all_string_options();

    for option in options {
        let a = KeyCode::from_str(&option);
        assert!(a.is_ok());
    }
}

#[test]
fn check_keycode_to_string() {
    let options = KeyCode::all_string_options();

    for option in options {
        let a = KeyCode::from_str(&option).unwrap();

        let res = a.to_string();

        assert!(res == option);
    }
}

#[test]
fn step_label_list_is_exact() {
    let options = MacroStep::all_string_options();
    let expected = vec![
        "Launch program",
        "Click an image",
        "Move to image",
        "Type text",
        "Press key",
        "Scroll",
        "Wait",
    ];
    assert_eq!(options.len(), expected.len());
    for (got, want) in options.iter().zip(expected.iter()) {
        assert_eq!(got, want);
    }
}

#[test]
fn step_labels_parse_to_defaults() {
    match MacroStep::from_str("Launch program").unwrap() {
        MacroStep::Launch(c) => assert_eq!(c, ""),
        _ => panic!("wrong kind"),
    }
    match MacroStep::from_str("Click an image").unwrap() {
        MacroStep::ClickImage(img, p, d) => {
            assert!(img.is_none());
            assert!(matches!(p, screen_macro::anchor::ClickPoint::CenterMiddle));
            assert_eq!(d, 0);
        },
        _ => panic!("wrong kind"),
    }
    match MacroStep::from_str("Wait").unwrap() {
        MacroStep::WaitTime(ms) => assert_eq!(ms, 0),
        _ => panic!("wrong kind"),
    }
    match MacroStep::from_str("Press key").unwrap() {
        MacroStep::PressKey(k, f) => {
            assert!(matches!(k, KeyCode::LeftArrow));
            assert!(f.is_empty());
        },
        _ => panic!("wrong kind"),
    }
}

#[test]
fn unknown_labels_are_refused() {
    assert!(matches!(MacroStep::from_str("Dance"), Err(Error::UnknownLabel)));
    assert!(matches!(MacroStep::from_str(""), Err(Error::UnknownLabel)));
    assert!(matches!(KeyCode::from_str("Hyper"), Err(Error::UnknownLabel)));
}

#[test]
fn keycode_label_samples() {
    assert_eq!(KeyCode::Return.to_string(), "Enter");
    assert_eq!(KeyCode::PageUp.to_string(), "Page Up");
    assert!(matches!(KeyCode::from_str("Esc"), Ok(KeyCode::Escape)));
    assert!(matches!(KeyCode::from_str("F24"), Ok(KeyCode::F24)));
}
