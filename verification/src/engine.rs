//! The execution engine: sequential dispatch of a macro's steps as an
//! explicit state machine.
//!
//! The engine itself performs no outside work. A driver owns the loop: it
//! hands the engine one event at a time, receives the next command, performs
//! it — spawn a process, synthesize input, capture the screen and look for a
//! step's image, sleep, read the stop flag — and reports the result as the
//! next event. Every decision (which step runs next, what a timeout does,
//! when a stop request is honoured, what aborts the run) is made here and is
//! verified; the driver decides nothing.
//!
//! Per step the machine walks `Running` (plain steps) or `Searching →
//! PollWait → Searching …` (image steps, the bounded polling loop), then the
//! fixed inter-step delay and the stop-flag check; every terminal outcome
//! converges on a `Finish` command, on which the driver clears `is_running`
//! unconditionally.

use vstd::prelude::*;
use crate::error::Error;
use crate::keys::{Flag, KeyCode, ScrollDirection};
use crate::step::{Macro, MacroStep, MacroV, StepV};

verus! {

/// How a run ended. A step timeout with `break_whole_macro` set is the soft
/// `TimedOutAbort`, not an error; a cleared stop flag is `StoppedEarly`.
#[derive(Clone, Copy, Debug, PartialEq, Eq, Structural)]
pub enum Outcome {
    Completed,
    StoppedEarly,
    TimedOutAbort,
    Errored(Error),
}

/// Where the engine stands. Indices name the step being worked on.
#[derive(Clone, Copy, Debug, PartialEq, Eq, Structural)]
pub enum EngineState {
    Idle,
    Running(usize),
    Searching(usize),
    PollWait(usize),
    Moving(usize),
    Clicking(usize),
    InterDelay(usize),
    CheckRun(usize),
    Finished(Outcome),
}

/// What the driver must do next.
#[derive(Clone, Debug)]
pub enum Command {
    Spawn(String),
    TypeText(String, Vec<Flag>),
    TapKey(KeyCode, Vec<Flag>),
    Scroll(ScrollDirection, u32),
    Wait(u64),
    Search(usize),
    MoveTo(i64, i64),
    Click,
    Sleep(u64),
    CheckShouldRun,
    Finish(Option<Error>),
}

/// What the driver reports back. `Slept` carries, after a poll sleep, the
/// milliseconds elapsed since the current image search began; after the
/// inter-step delay its payload is not read.
#[derive(Clone, Copy, Debug, PartialEq, Eq, Structural)]
pub enum Event {
    Start,
    Done,
    Failed(Error),
    Found(i64, i64),
    NotFound,
    Slept(u64),
    ShouldRun(bool),
}

/// The fixed wait between unsuccessful image-match attempts.
pub const POLL_INTERVAL_MS: u64 = 300;

/// The fixed pause after a completed step, before the stop flag is read.
pub const INTER_STEP_DELAY_MS: u64 = 1000;

/// The events a state is prepared for: what a correct driver may report.
pub open spec fn accepts(st: EngineState, ev: Event) -> bool {
    match st {
        EngineState::Idle => ev == Event::Start,
        EngineState::Running(_) => ev == Event::Done || ev matches Event::Failed(_),
        EngineState::Searching(_) => ev matches Event::Found(_, _) || ev == Event::NotFound
            || ev matches Event::Failed(_),
        EngineState::PollWait(_) => ev matches Event::Slept(_),
        EngineState::Moving(_) => ev == Event::Done || ev matches Event::Failed(_),
        EngineState::Clicking(_) => ev == Event::Done,
        EngineState::InterDelay(_) => ev matches Event::Slept(_),
        EngineState::CheckRun(_) => ev matches Event::ShouldRun(_),
        EngineState::Finished(_) => false,
    }
}

/// Where dispatching step `i` puts the engine: past the end completes the
/// run; an image step with no image aborts it at once; an image step starts
/// the search; a plain step runs.
pub open spec fn issue_state(m: MacroV, i: usize) -> EngineState {
    if i >= m.macro_steps.len() {
        EngineState::Finished(Outcome::Completed)
    } else {
        match m.macro_steps[i as int] {
            StepV::ClickImage(img, _, _) => if img is Some {
                EngineState::Searching(i)
            } else {
                EngineState::Finished(Outcome::Errored(Error::MissingImageData))
            },
            StepV::MoveToImage(img, _, _) => if img is Some {
                EngineState::Searching(i)
            } else {
                EngineState::Finished(Outcome::Errored(Error::MissingImageData))
            },
            _ => EngineState::Running(i),
        }
    }
}

/// The step timeout in milliseconds: the per-step budget is configured in
/// whole seconds, while poll elapsed times arrive in milliseconds, so a one
/// second budget ends the wait at the poll right after one second. An
/// overlarge budget saturates, meaning the wait never ends.
pub open spec fn timeout_budget_ms(timeout_seconds: u64) -> u64 {
    if timeout_seconds > 0xffffffffffffffffu64 / 1000 {
        0xffffffffffffffffu64
    } else {
        (timeout_seconds * 1000) as u64
    }
}

/// The full transition relation of the engine, one event at a time.
pub open spec fn next_state_spec(m: MacroV, st: EngineState, ev: Event) -> EngineState {
    match (st, ev) {
        (EngineState::Idle, Event::Start) => issue_state(m, 0),
        (EngineState::Running(i), Event::Done) => EngineState::InterDelay(i),
        (EngineState::Running(_), Event::Failed(e)) => EngineState::Finished(Outcome::Errored(e)),
        (EngineState::Searching(i), Event::Found(_, _)) => EngineState::Moving(i),
        (EngineState::Searching(i), Event::NotFound) => EngineState::PollWait(i),
        (EngineState::Searching(_), Event::Failed(e)) => EngineState::Finished(
            Outcome::Errored(e),
        ),
        (EngineState::PollWait(i), Event::Slept(elapsed)) => if elapsed
            > timeout_budget_ms(m.settings.step_timeout_seconds) {
            if m.settings.break_whole_macro {
                EngineState::Finished(Outcome::TimedOutAbort)
            } else {
                EngineState::InterDelay(i)
            }
        } else {
            EngineState::Searching(i)
        },
        (EngineState::Moving(i), Event::Done) => if m.macro_steps[i as int] matches
            StepV::ClickImage(_, _, _) {
            EngineState::Clicking(i)
        } else {
            EngineState::InterDelay(i)
        },
        (EngineState::Moving(_), Event::Failed(e)) => EngineState::Finished(Outcome::Errored(e)),
        (EngineState::Clicking(i), Event::Done) => EngineState::InterDelay(i),
        (EngineState::InterDelay(i), Event::Slept(_)) => EngineState::CheckRun(i),
        (EngineState::CheckRun(i), Event::ShouldRun(run)) => if run {
            issue_state(m, (i + 1) as usize)
        } else {
            EngineState::Finished(Outcome::StoppedEarly)
        },
        _ => st,
    }
}

/// The target coordinate of a move: the found corner plus the anchor's
/// share of the template's extent, saturated at the numeric ceiling.
pub open spec fn target_spec(base: i64, size: u32, halves: u8) -> i64 {
    let off = (size * halves) / 2;
    if base + off > i64::MAX {
        i64::MAX
    } else {
        (base + off) as i64
    }
}

/// The command a correct transition hands the driver, determined by the
/// state just entered (and, for a move, by the reported match position).
pub open spec fn command_matches(m: MacroV, new_st: EngineState, ev: Event, cmd: Command) -> bool {
    match new_st {
        EngineState::Idle => false,
        EngineState::Running(i) => match (m.macro_steps[i as int], cmd) {
            (StepV::Launch(c), Command::Spawn(c2)) => c2@ == c,
            (StepV::TypeText(t, f), Command::TypeText(t2, f2)) => t2@ == t && f2@ == f,
            (StepV::PressKey(k, f), Command::TapKey(k2, f2)) => k2 == k && f2@ == f,
            (StepV::Scroll(d, n), Command::Scroll(d2, n2)) => d2 == d && n2 == n,
            (StepV::WaitTime(ms), Command::Wait(ms2)) => ms2 == ms,
            _ => false,
        },
        EngineState::Searching(i) => cmd matches Command::Search(j) && j == i,
        EngineState::PollWait(_) => cmd matches Command::Sleep(ms) && ms == POLL_INTERVAL_MS,
        EngineState::Moving(i) => ev matches Event::Found(x, y) && (match m.macro_steps[i as int] {
            StepV::ClickImage(img, p, _) => img matches Some(im) && (cmd matches Command::MoveTo(
                tx,
                ty,
            ) && tx == target_spec(x, im.width, p.mults_spec().0) && ty == target_spec(
                y,
                im.height,
                p.mults_spec().1,
            )),
            StepV::MoveToImage(img, p, _) => img matches Some(im) && (cmd matches Command::MoveTo(
                tx,
                ty,
            ) && tx == target_spec(x, im.width, p.mults_spec().0) && ty == target_spec(
                y,
                im.height,
                p.mults_spec().1,
            )),
            _ => false,
        }),
        EngineState::Clicking(_) => cmd is Click,
        EngineState::InterDelay(_) => cmd matches Command::Sleep(ms) && ms == INTER_STEP_DELAY_MS,
        EngineState::CheckRun(_) => cmd is CheckShouldRun,
        EngineState::Finished(o) => cmd matches Command::Finish(e) && e == (match o {
            Outcome::Errored(err) => Some(err),
            _ => None::<Error>,
        }),
    }
}

/// A state is sound for a macro: its index is in range, and a search or
/// move only ever concerns an image step whose image is present.
pub open spec fn state_wf(m: MacroV, st: EngineState) -> bool {
    match st {
        EngineState::Idle => true,
        EngineState::Running(i) => i < m.macro_steps.len(),
        EngineState::Searching(i) | EngineState::PollWait(i) | EngineState::Moving(i) => i
            < m.macro_steps.len() && (match m.macro_steps[i as int] {
            StepV::ClickImage(img, _, _) => img is Some,
            StepV::MoveToImage(img, _, _) => img is Some,
            _ => false,
        }),
        EngineState::Clicking(i) => i < m.macro_steps.len() && (m.macro_steps[i as int] matches
            StepV::ClickImage(img, _, _) && img is Some),
        EngineState::InterDelay(i) => i < m.macro_steps.len(),
        EngineState::CheckRun(i) => i < m.macro_steps.len(),
        EngineState::Finished(_) => true,
    }
}

/// One macro run: the macro with the policy it was started with, and the
/// engine's current position in it.
pub struct Engine {
    pub macro_data: Macro,
    pub state: EngineState,
}

impl Engine {
    pub open spec fn wf(self) -> bool {
        self.macro_data.wf() && state_wf(self.macro_data@, self.state)
    }

    /// A run starts idle; the first `Start` event dispatches step 0.
    pub fn new(macro_data: Macro) -> (r: Engine)
        requires
            macro_data.wf(),
        ensures
            r.state == EngineState::Idle,
            r.macro_data == macro_data,
            r.wf(),
    {
        Engine { macro_data, state: EngineState::Idle }
    }

    /// Whether the run has reached a terminal outcome.
    pub fn is_finished(&self) -> (r: bool)
        ensures
            r == (self.state matches EngineState::Finished(_)),
    {
        match self.state {
            EngineState::Finished(_) => true,
            _ => false,
        }
    }

    /// Feed one event and receive the next command. The state moves exactly
    /// as `next_state_spec` says, and the command is the one the new state
    /// calls for.
    pub fn step(&mut self, ev: Event) -> (cmd: Command)
        requires
            old(self).wf(),
            accepts(old(self).state, ev),
        ensures
            final(self).wf(),
            final(self).macro_data == old(self).macro_data,
            final(self).state == next_state_spec(old(self).macro_data@, old(self).state, ev),
            command_matches(old(self).macro_data@, final(self).state, ev, cmd),
    {
        match (self.state, ev) {
            (EngineState::Idle, Event::Start) => self.issue(0),
            (EngineState::Running(i), Event::Done) => {
                self.state = EngineState::InterDelay(i);
                Command::Sleep(INTER_STEP_DELAY_MS)
            },
            (EngineState::Running(_), Event::Failed(e)) => {
                self.state = EngineState::Finished(Outcome::Errored(e));
                Command::Finish(Some(e))
            },
            (EngineState::Searching(i), Event::Found(x, y)) => {
                self.state = EngineState::Moving(i);
                match &self.macro_data.macro_steps[i] {
                    MacroStep::ClickImage(img, p, _) => match img {
                        Some(im) => {
                            let (mx, my) = p.to_mults();
                            Command::MoveTo(
                                target_coord(x, im.width, mx),
                                target_coord(y, im.height, my),
                            )
                        },
                        None => {
                            proof {
                                assert(false);
                            }
                            Command::Click
                        },
                    },
                    MacroStep::MoveToImage(img, p, _) => match img {
                        Some(im) => {
                            let (mx, my) = p.to_mults();
                            Command::MoveTo(
                                target_coord(x, im.width, mx),
                                target_coord(y, im.height, my),
                            )
                        },
                        None => {
                            proof {
                                assert(false);
                            }
                            Command::Click
                        },
                    },
                    _ => {
                        proof {
                            assert(false);
                        }
                        Command::Click
                    },
                }
            },
            (EngineState::Searching(i), Event::NotFound) => {
                self.state = EngineState::PollWait(i);
                Command::Sleep(POLL_INTERVAL_MS)
            },
            (EngineState::Searching(_), Event::Failed(e)) => {
                self.state = EngineState::Finished(Outcome::Errored(e));
                Command::Finish(Some(e))
            },
            (EngineState::PollWait(i), Event::Slept(elapsed)) => {
                let budget = match self.macro_data.settings.step_timeout_seconds.checked_mul(
                    1000,
                ) {
                    Some(ms) => ms,
                    None => u64::MAX,
                };
                if elapsed > budget {
                    if self.macro_data.settings.break_whole_macro {
                        self.state = EngineState::Finished(Outcome::TimedOutAbort);
                        Command::Finish(None)
                    } else {
                        self.state = EngineState::InterDelay(i);
                        Command::Sleep(INTER_STEP_DELAY_MS)
                    }
                } else {
                    self.state = EngineState::Searching(i);
                    Command::Search(i)
                }
            },
            (EngineState::Moving(i), Event::Done) => {
                let click = match &self.macro_data.macro_steps[i] {
                    MacroStep::ClickImage(_, _, _) => true,
                    _ => false,
                };
                if click {
                    self.state = EngineState::Clicking(i);
                    Command::Click
                } else {
                    self.state = EngineState::InterDelay(i);
                    Command::Sleep(INTER_STEP_DELAY_MS)
                }
            },
            (EngineState::Moving(_), Event::Failed(e)) => {
                self.state = EngineState::Finished(Outcome::Errored(e));
                Command::Finish(Some(e))
            },
            (EngineState::Clicking(i), Event::Done) => {
                self.state = EngineState::InterDelay(i);
                Command::Sleep(INTER_STEP_DELAY_MS)
            },
            (EngineState::InterDelay(i), Event::Slept(_)) => {
                self.state = EngineState::CheckRun(i);
                Command::CheckShouldRun
            },
            (EngineState::CheckRun(i), Event::ShouldRun(run)) => {
                if run {
                    let n = self.macro_data.macro_steps.len();
                    proof {
                        assert(i < n);
                    }
                    self.issue(i + 1)
                } else {
                    self.state = EngineState::Finished(Outcome::StoppedEarly);
                    Command::Finish(None)
                }
            },
            _ => {
                proof {
                    assert(false);
                }
                Command::Click
            },
        }
    }

    /// Dispatch step `i`: set the state `issue_state` names and hand out
    /// that state's command.
    fn issue(&mut self, i: usize) -> (cmd: Command)
        requires
            old(self).wf(),
            i <= old(self).macro_data.macro_steps@.len(),
        ensures
            final(self).wf(),
            final(self).macro_data == old(self).macro_data,
            final(self).state == issue_state(old(self).macro_data@, i),
            (forall|ev: Event| command_matches(old(self).macro_data@, final(self).state, ev, cmd)),
    {
        if i >= self.macro_data.macro_steps.len() {
            self.state = EngineState::Finished(Outcome::Completed);
            return Command::Finish(None);
        }
        match &self.macro_data.macro_steps[i] {
            MacroStep::Launch(c) => {
                self.state = EngineState::Running(i);
                Command::Spawn(c.clone())
            },
            MacroStep::ClickImage(img, _, _) => {
                if img.is_some() {
                    self.state = EngineState::Searching(i);
                    Command::Search(i)
                } else {
                    self.state = EngineState::Finished(
                        Outcome::Errored(Error::MissingImageData),
                    );
                    Command::Finish(Some(Error::MissingImageData))
                }
            },
            MacroStep::MoveToImage(img, _, _) => {
                if img.is_some() {
                    self.state = EngineState::Searching(i);
                    Command::Search(i)
                } else {
                    self.state = EngineState::Finished(
                        Outcome::Errored(Error::MissingImageData),
                    );
                    Command::Finish(Some(Error::MissingImageData))
                }
            },
            MacroStep::TypeText(t, f) => {
                self.state = EngineState::Running(i);
                Command::TypeText(t.clone(), crate::codec::copy_flags(f))
            },
            MacroStep::PressKey(k, f) => {
                self.state = EngineState::Running(i);
                Command::TapKey(*k, crate::codec::copy_flags(f))
            },
            MacroStep::Scroll(d, n) => {
                self.state = EngineState::Running(i);
                Command::Scroll(*d, *n)
            },
            MacroStep::WaitTime(ms) => {
                self.state = EngineState::Running(i);
                Command::Wait(*ms)
            },
        }
    }
}

/// The found corner plus the anchor's share of the template's extent,
/// saturated at the numeric ceiling.
fn target_coord(base: i64, size: u32, halves: u8) -> (r: i64)
    requires
        halves <= 2,
    ensures
        r == target_spec(base, size, halves),
{
    proof {
        assert((size as i64) * (halves as i64) <= 0xffffffffi64 * 2) by (nonlinear_arith)
            requires
                size <= 0xffffffffu32 && halves <= 2u8,
        ;
    }
    let off: i64 = ((size as i64) * (halves as i64)) / 2;
    match base.checked_add(off) {
        Some(v) => v,
        None => i64::MAX,
    }
}

/// An image-anchored step that reaches dispatch with no image attached
/// aborts the whole run at once with `MissingImageData`, whatever the
/// timeout policy says: only the timeout path is policy-controlled.
pub proof fn lemma_missing_image_aborts(m: MacroV, i: usize)
    requires
        i < m.macro_steps.len(),
        (m.macro_steps[i as int] matches StepV::ClickImage(img, _, _) && img is None) || (
        m.macro_steps[i as int] matches StepV::MoveToImage(img, _, _) && img is None),
    ensures
        issue_state(m, i) == EngineState::Finished(Outcome::Errored(Error::MissingImageData)),
{
}

/// A cleared stop flag is honoured at the check between steps: the run ends
/// as `StoppedEarly`, before the next step is dispatched.
pub proof fn lemma_stop_request_honoured(m: MacroV, i: usize)
    ensures
        next_state_spec(m, EngineState::CheckRun(i), Event::ShouldRun(false))
            == EngineState::Finished(Outcome::StoppedEarly),
{
}

/// What a poll timeout does is exactly the policy: with `break_whole_macro`
/// the run aborts softly, with no error; without it the step is skipped and
/// the run moves on through the inter-step delay. Short of the timeout the
/// search polls again.
pub proof fn lemma_timeout_policy(m: MacroV, i: usize, elapsed_ms: u64)
    ensures
        elapsed_ms > timeout_budget_ms(m.settings.step_timeout_seconds)
            && m.settings.break_whole_macro ==> next_state_spec(
            m,
            EngineState::PollWait(i),
            Event::Slept(elapsed_ms),
        ) == EngineState::Finished(Outcome::TimedOutAbort),
        elapsed_ms > timeout_budget_ms(m.settings.step_timeout_seconds)
            && !m.settings.break_whole_macro ==> next_state_spec(
            m,
            EngineState::PollWait(i),
            Event::Slept(elapsed_ms),
        ) == EngineState::InterDelay(i),
        elapsed_ms <= timeout_budget_ms(m.settings.step_timeout_seconds) ==> next_state_spec(
            m,
            EngineState::PollWait(i),
            Event::Slept(elapsed_ms),
        ) == EngineState::Searching(i),
{
}

/// A finished run is terminal: no event is accepted any more, so no step
/// after the terminal outcome is ever dispatched.
pub proof fn lemma_finished_is_terminal(o: Outcome, ev: Event)
    ensures
        !accepts(EngineState::Finished(o), ev),
{
}

} // verus!
