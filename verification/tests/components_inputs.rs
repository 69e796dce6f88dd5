use screen_macro::components::{
    file_choose_component, main_menu, modifiers_chooser_component, percent_text_input,
    settings_component, time_input, FCCEvent, FTIEvent, MCCEvent, MMEvent, SCEvent, TIEvent,
};
use screen_macro::keys::{Flag, KeyCode, ScrollDirection};
use screen_macro::settings::Settings;
use screen_macro::step::MacroStep;

#[test]
fn percent_input_accepts_whole_percentages() {
    let input = percent_text_input("strength".to_string(), 50);
    assert_eq!(input.update(&FTIEvent::InputChanged("".to_string())), Some(0));
    assert_eq!(input.update(&FTIEvent::InputChanged("0".to_string())), Some(0));
    assert_eq!(input.update(&FTIEvent::InputChanged("37".to_string())), Some(37));
    assert_eq!(input.update(&FTIEvent::InputChanged("100".to_string())), Some(100));
    assert_eq!(input.update(&FTIEvent::InputChanged("+7".to_string())), Some(7));
}

#[test]
fn percent_input_refuses_everything_else() {
    let input = percent_text_input("strength".to_string(), 50);
    assert_eq!(input.update(&FTIEvent::InputChanged("101".to_string())), None);
    assert_eq!(input.update(&FTIEvent::InputChanged("abc".to_string())), None);
    assert_eq!(input.update(&FTIEvent::InputChanged("-3".to_string())), None);
    assert_eq!(input.update(&FTIEvent::InputChanged("1 0".to_string())), None);
    assert_eq!(input.update(&FTIEvent::InputChanged("4294967296".to_string())), None);
}

#[test]
fn percent_input_builder_keeps_fields() {
    let input = percent_text_input("s".to_string(), 12).size(40);
    assert_eq!(input.size, 40);
    assert_eq!(input.value, 12);
    assert_eq!(input.placeholder, "s");
}

#[test]
fn time_input_parses_milliseconds() {
    let input = time_input("ms".to_string(), 0);
    assert_eq!(input.update(&TIEvent::InputChanged("".to_string())), Some(0));
    assert_eq!(input.update(&TIEvent::InputChanged("300".to_string())), Some(300));
    assert_eq!(
        input.update(&TIEvent::InputChanged("18446744073709551615".to_string())),
        Some(u64::MAX)
    );
    assert_eq!(input.update(&TIEvent::InputChanged("18446744073709551616".to_string())), None);
    assert_eq!(input.update(&TIEvent::InputChanged("12x".to_string())), None);
    assert_eq!(input.update(&TIEvent::InputChanged("+".to_string())), None);
}

#[test]
fn time_input_builder_keeps_fields() {
    let input = time_input("ms".to_string(), 9).size(18);
    assert_eq!(input.size, 18);
    assert_eq!(input.value, 9);
}

#[test]
fn settings_component_folds_changes_in() {
    let mut sc = settings_component(Settings::new(60, true));
    let s = sc.update(SCEvent::BreakWholeMacroChanged(false));
    assert_eq!(s, Settings::new(60, false));
    let s = sc.update(SCEvent::StepTimeoutChanges(5));
    assert_eq!(s, Settings::new(5, false));
    assert_eq!(sc.settings, Settings::new(5, false));
}

#[test]
fn file_choose_component_tracks_the_path() {
    let mut fcc = file_choose_component("a.smbf".to_string());
    assert_eq!(fcc.update(FCCEvent::OpenFilePressed), None);
    assert_eq!(fcc.path, "a.smbf");
    assert_eq!(fcc.update(FCCEvent::NewFile("b.smbf".to_string())), Some("b.smbf".to_string()));
    assert_eq!(fcc.path, "b.smbf");
}

#[test]
fn main_menu_reports_the_chosen_name() {
    let mut menu = main_menu();
    assert!(!menu.show_new_macro);
    assert_eq!(menu.update(MMEvent::NewButtonClicked), None);
    assert!(menu.show_new_macro);
    assert_eq!(menu.update(MMEvent::MacroNameUpdate("My macro".to_string())), None);
    assert_eq!(menu.update(MMEvent::NewMacroOk), Some("My macro".to_string()));
    assert_eq!(menu.update(MMEvent::NewMacroDismissed), None);
    assert!(!menu.show_new_macro);
    assert_eq!(menu.new_macro_name, "");
    assert_eq!(menu.update(MMEvent::LoadButtonClicked), None);
}

#[test]
fn settings_defaults_match_the_documented_policy() {
    let s: Settings = Default::default();
    assert_eq!(s.step_timeout_seconds, 60);
    assert!(s.break_whole_macro);
    let s2 = Settings::new(3, false);
    assert_eq!(s2.step_timeout_seconds, 3);
    assert!(!s2.break_whole_macro);
}

#[test]
fn step_defaults_are_the_documented_placeholders() {
    assert!(matches!(MacroStep::default_launch(), MacroStep::Launch(c) if c.is_empty()));
    assert!(matches!(MacroStep::default_click_image(), MacroStep::ClickImage(None, _, 0)));
    assert!(matches!(MacroStep::default_await_image(), MacroStep::MoveToImage(None, _, 0)));
    assert!(
        matches!(MacroStep::default_type_text(), MacroStep::TypeText(t, f) if t.is_empty() && f.is_empty())
    );
    assert!(matches!(MacroStep::default_scroll(), MacroStep::Scroll(_, 0)));
    assert!(matches!(MacroStep::default_wait(), MacroStep::WaitTime(0)));
    assert!(matches!(MacroStep::default(), MacroStep::Launch(c) if c.is_empty()));
}

#[test]
fn key_and_flag_tags_round_trip() {
    for t in 0..43u64 {
        let k = KeyCode::from_tag(t).expect("all tags through 42 are assigned");
        assert_eq!(k.tag(), t);
    }
    assert_eq!(KeyCode::from_tag(43), None);
    for t in 0..5u64 {
        let f = Flag::from_tag(t).expect("all tags through 4 are assigned");
        assert_eq!(f.tag(), t);
    }
    assert_eq!(Flag::from_tag(5), None);
    assert_eq!(ScrollDirection::from_tag(0), Some(ScrollDirection::Up));
    assert_eq!(ScrollDirection::from_tag(1), Some(ScrollDirection::Down));
    assert_eq!(ScrollDirection::from_tag(2), None);
}

#[test]
fn modifier_toggles_append_and_remove_first_occurrence() {
    let mut mcc = modifiers_chooser_component(vec![Flag::Shift]);
    let flags = mcc.update(MCCEvent::CtrlFlagFlipped(true));
    assert_eq!(flags, vec![Flag::Shift, Flag::Control]);
    let flags = mcc.update(MCCEvent::AltFlagFlipped(true));
    assert_eq!(flags, vec![Flag::Shift, Flag::Control, Flag::Alt]);
    let flags = mcc.update(MCCEvent::ShiftFlagFlipped(false));
    assert_eq!(flags, vec![Flag::Control, Flag::Alt]);
    let flags = mcc.update(MCCEvent::CtrlFlagFlipped(false));
    assert_eq!(flags, vec![Flag::Alt]);
}
