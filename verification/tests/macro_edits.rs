use screen_macro::settings::Settings;
use screen_macro::step::{Macro, MacroStep};

fn base_macro() -> Macro {
    Macro::new(
        "edit me".to_string(),
        Settings::new(60, true),
        vec![
            MacroStep::Launch("a".to_string()),
            MacroStep::WaitTime(1),
            MacroStep::Launch("c".to_string()),
        ],
    )
}

#[test]
fn replace_step_touches_exactly_one_position() {
    let mut m = base_macro();
    m.replace_step(1, MacroStep::WaitTime(99));
    assert_eq!(m.macro_steps.len(), 3);
    assert!(matches!(&m.macro_steps[0], MacroStep::Launch(c) if c == "a"));
    assert!(matches!(m.macro_steps[1], MacroStep::WaitTime(99)));
    assert!(matches!(&m.macro_steps[2], MacroStep::Launch(c) if c == "c"));
}

#[test]
fn remove_step_moves_the_tail_up_by_one() {
    let mut m = base_macro();
    let removed = m.remove_step(1);
    assert!(matches!(removed, MacroStep::WaitTime(1)));
    assert_eq!(m.macro_steps.len(), 2);
    assert!(matches!(&m.macro_steps[0], MacroStep::Launch(c) if c == "a"));
    assert!(matches!(&m.macro_steps[1], MacroStep::Launch(c) if c == "c"));
}

#[test]
fn push_step_appends_at_the_end() {
    let mut m = base_macro();
    m.push_step(MacroStep::default());
    assert_eq!(m.macro_steps.len(), 4);
    assert!(matches!(&m.macro_steps[3], MacroStep::Launch(c) if c.is_empty()));
}

#[test]
fn macro_new_keeps_what_it_is_given() {
    let m = base_macro();
    assert_eq!(m.macro_name, "edit me");
    assert_eq!(m.settings, Settings::new(60, true));
    assert_eq!(m.macro_steps.len(), 3);
}
