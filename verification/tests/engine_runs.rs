use screen_macro::anchor::ClickPoint;
use screen_macro::engine::{Command, Engine, EngineState, Event, Outcome};
use screen_macro::error::Error;
use screen_macro::image_data::Image;
use screen_macro::settings::Settings;
use screen_macro::step::{Macro, MacroStep};

fn tiny_image() -> Image {
    Image { width: 1, height: 1, data: vec![1, 2, 3] }
}

fn three_step_macro(break_whole_macro: bool) -> Macro {
    Macro::new(
        "poll".to_string(),
        Settings::new(1, break_whole_macro),
        vec![
            MacroStep::WaitTime(5),
            MacroStep::ClickImage(Some(tiny_image()), ClickPoint::CenterMiddle, 0),
            MacroStep::Launch("echo done".to_string()),
        ],
    )
}

/// Drive one plain step to its completion and through the inter-step check.
fn complete_plain_step(engine: &mut Engine, keep_running: bool) {
    let cmd = engine.step(Event::Done);
    assert!(matches!(cmd, Command::Sleep(1000)));
    let cmd = engine.step(Event::Slept(0));
    assert!(matches!(cmd, Command::CheckShouldRun));
    let _ = engine.step(Event::ShouldRun(keep_running));
}

#[test]
fn timeout_with_break_aborts_without_error() {
    // Step 1 runs; step 2 searches and never finds its image; once the
    // elapsed time exceeds the one-second budget the whole run aborts
    // softly: step 3 is never dispatched and no error is reported.
    let mut engine = Engine::new(three_step_macro(true));
    let cmd = engine.step(Event::Start);
    assert!(matches!(cmd, Command::Wait(5)));
    let cmd = engine.step(Event::Done);
    assert!(matches!(cmd, Command::Sleep(1000)));
    let cmd = engine.step(Event::Slept(0));
    assert!(matches!(cmd, Command::CheckShouldRun));
    let cmd = engine.step(Event::ShouldRun(true));
    assert!(matches!(cmd, Command::Search(1)));

    // Poll a few times below the one-second budget, then just past it:
    // the abort lands at the first poll beyond 1000 ms, about 1.2 s in.
    let cmd = engine.step(Event::NotFound);
    assert!(matches!(cmd, Command::Sleep(300)));
    let cmd = engine.step(Event::Slept(300));
    assert!(matches!(cmd, Command::Search(1)));
    let cmd = engine.step(Event::NotFound);
    assert!(matches!(cmd, Command::Sleep(300)));
    let cmd = engine.step(Event::Slept(600));
    assert!(matches!(cmd, Command::Search(1)));
    let cmd = engine.step(Event::NotFound);
    assert!(matches!(cmd, Command::Sleep(300)));
    let cmd = engine.step(Event::Slept(900));
    assert!(matches!(cmd, Command::Search(1)));
    let cmd = engine.step(Event::NotFound);
    assert!(matches!(cmd, Command::Sleep(300)));
    let cmd = engine.step(Event::Slept(1200));

    // The budget is exceeded: soft abort, no error, run finished.
    assert!(matches!(cmd, Command::Finish(None)));
    assert!(engine.is_finished());
    assert!(matches!(engine.state, EngineState::Finished(Outcome::TimedOutAbort)));
}

#[test]
fn timeout_without_break_skips_to_the_next_step() {
    // Same setup with the policy flag off: after step 2's timeout, step 3
    // still executes.
    let mut engine = Engine::new(three_step_macro(false));
    let cmd = engine.step(Event::Start);
    assert!(matches!(cmd, Command::Wait(5)));
    complete_plain_step(&mut engine, true);
    assert!(matches!(engine.state, EngineState::Searching(1)));

    let cmd = engine.step(Event::NotFound);
    assert!(matches!(cmd, Command::Sleep(300)));
    let cmd = engine.step(Event::Slept(1200));
    // Skip, not abort: the ordinary inter-step delay follows.
    assert!(matches!(cmd, Command::Sleep(1000)));
    let cmd = engine.step(Event::Slept(0));
    assert!(matches!(cmd, Command::CheckShouldRun));
    let cmd = engine.step(Event::ShouldRun(true));
    // Step 3 is dispatched.
    match cmd {
        Command::Spawn(c) => assert_eq!(c, "echo done"),
        other => panic!("expected the launch of step 3, got {:?}", other),
    }
}

#[test]
fn clearing_should_run_stops_between_steps() {
    // Clearing the flag while a plain step runs stops the run after that
    // step completes and before the next step begins.
    let mut engine = Engine::new(three_step_macro(true));
    let cmd = engine.step(Event::Start);
    assert!(matches!(cmd, Command::Wait(5)));
    let cmd = engine.step(Event::Done);
    assert!(matches!(cmd, Command::Sleep(1000)));
    let cmd = engine.step(Event::Slept(0));
    assert!(matches!(cmd, Command::CheckShouldRun));
    let cmd = engine.step(Event::ShouldRun(false));
    assert!(matches!(cmd, Command::Finish(None)));
    assert!(matches!(engine.state, EngineState::Finished(Outcome::StoppedEarly)));
}

#[test]
fn missing_image_aborts_immediately_whatever_the_policy() {
    for break_whole_macro in [true, false] {
        let m = Macro::new(
            "broken".to_string(),
            Settings::new(60, break_whole_macro),
            vec![MacroStep::ClickImage(None, ClickPoint::CenterMiddle, 0)],
        );
        let mut engine = Engine::new(m);
        let cmd = engine.step(Event::Start);
        assert!(matches!(cmd, Command::Finish(Some(Error::MissingImageData))));
        assert!(matches!(
            engine.state,
            EngineState::Finished(Outcome::Errored(Error::MissingImageData))
        ));
    }
}

#[test]
fn a_found_image_is_clicked_at_the_anchor() {
    let m = Macro::new(
        "click".to_string(),
        Settings::new(60, true),
        vec![MacroStep::ClickImage(
            Some(Image { width: 10, height: 4, data: vec![0; 120] }),
            ClickPoint::BottomRight,
            0,
        )],
    );
    let mut engine = Engine::new(m);
    let cmd = engine.step(Event::Start);
    assert!(matches!(cmd, Command::Search(0)));
    let cmd = engine.step(Event::Found(100, 200));
    // Bottom right: the full width and height are added.
    match cmd {
        Command::MoveTo(x, y) => {
            assert_eq!(x, 110);
            assert_eq!(y, 204);
        },
        other => panic!("expected a move, got {:?}", other),
    }
    let cmd = engine.step(Event::Done);
    assert!(matches!(cmd, Command::Click));
    let cmd = engine.step(Event::Done);
    assert!(matches!(cmd, Command::Sleep(1000)));
}

#[test]
fn a_move_step_does_not_click() {
    let m = Macro::new(
        "move".to_string(),
        Settings::new(60, true),
        vec![MacroStep::MoveToImage(
            Some(Image { width: 9, height: 9, data: vec![0; 243] }),
            ClickPoint::CenterMiddle,
            0,
        )],
    );
    let mut engine = Engine::new(m);
    let cmd = engine.step(Event::Start);
    assert!(matches!(cmd, Command::Search(0)));
    let cmd = engine.step(Event::Found(0, 0));
    // Center: half of nine pixels, rounded down.
    match cmd {
        Command::MoveTo(x, y) => {
            assert_eq!(x, 4);
            assert_eq!(y, 4);
        },
        other => panic!("expected a move, got {:?}", other),
    }
    // The move completes and the run heads into the inter-step delay: no
    // click for a move-only step.
    let cmd = engine.step(Event::Done);
    assert!(matches!(cmd, Command::Sleep(1000)));
}

#[test]
fn a_backend_failure_aborts_the_run_with_its_error() {
    let mut engine = Engine::new(three_step_macro(false));
    let cmd = engine.step(Event::Start);
    assert!(matches!(cmd, Command::Wait(5)));
    // The backend reports a spawn failure: the run aborts at once, even
    // though the policy flag would let a timeout pass.
    let cmd = engine.step(Event::Failed(Error::SpawnFailure));
    assert!(matches!(cmd, Command::Finish(Some(Error::SpawnFailure))));
    assert!(matches!(
        engine.state,
        EngineState::Finished(Outcome::Errored(Error::SpawnFailure))
    ));
}

#[test]
fn a_capture_failure_during_a_search_aborts_the_run() {
    let mut engine = Engine::new(three_step_macro(true));
    let _ = engine.step(Event::Start);
    complete_plain_step(&mut engine, true);
    assert!(matches!(engine.state, EngineState::Searching(1)));
    let cmd = engine.step(Event::Failed(Error::CaptureError));
    assert!(matches!(cmd, Command::Finish(Some(Error::CaptureError))));
    assert!(matches!(
        engine.state,
        EngineState::Finished(Outcome::Errored(Error::CaptureError))
    ));
}

#[test]
fn a_failed_cursor_move_aborts_the_run() {
    let mut engine = Engine::new(three_step_macro(true));
    let _ = engine.step(Event::Start);
    complete_plain_step(&mut engine, true);
    let cmd = engine.step(Event::Found(5, 6));
    assert!(matches!(cmd, Command::MoveTo(_, _)));
    let cmd = engine.step(Event::Failed(Error::InputError));
    assert!(matches!(cmd, Command::Finish(Some(Error::InputError))));
    assert!(matches!(
        engine.state,
        EngineState::Finished(Outcome::Errored(Error::InputError))
    ));
}

#[test]
fn an_empty_macro_completes_at_once() {
    let m = Macro::new("empty".to_string(), Settings::new(60, true), vec![]);
    let mut engine = Engine::new(m);
    let cmd = engine.step(Event::Start);
    assert!(matches!(cmd, Command::Finish(None)));
    assert!(matches!(engine.state, EngineState::Finished(Outcome::Completed)));
}

#[test]
fn a_full_run_dispatches_every_step_in_order() {
    let m = Macro::new(
        "all".to_string(),
        Settings::new(60, true),
        vec![
            MacroStep::Launch("true".to_string()),
            MacroStep::WaitTime(7),
        ],
    );
    let mut engine = Engine::new(m);
    let cmd = engine.step(Event::Start);
    match cmd {
        Command::Spawn(c) => assert_eq!(c, "true"),
        other => panic!("expected a spawn, got {:?}", other),
    }
    complete_plain_step(&mut engine, true);
    assert!(matches!(engine.state, EngineState::Running(1)));
    complete_plain_step(&mut engine, true);
    assert!(matches!(engine.state, EngineState::Finished(Outcome::Completed)));
}
