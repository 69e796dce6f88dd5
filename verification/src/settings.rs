//! Per-macro execution policy: the per-step timeout and what a timeout
//! does to the rest of the run.

use vstd::prelude::*;

verus! {

/// Execution policy owned by a macro and copied into the engine when a run
/// starts. `step_timeout_seconds` bounds how long an image-anchored step may
/// poll for its image; `break_whole_macro` decides whether such a timeout
/// aborts the whole run (`true`) or merely skips the step (`false`).
#[derive(Clone, Copy, Debug, PartialEq, Eq, Structural)]
pub struct Settings {
    pub step_timeout_seconds: u64,
    pub break_whole_macro: bool,
}

impl Settings {
    pub fn new(step_timeout_seconds: u64, break_whole_macro: bool) -> (r: Self)
        ensures
            r.step_timeout_seconds == step_timeout_seconds,
            r.break_whole_macro == break_whole_macro,
    {
        Settings { step_timeout_seconds, break_whole_macro }
    }
}

impl Default for Settings {
    /// A fresh macro waits up to a minute per image step and aborts the
    /// whole run when that wait runs out.
    fn default() -> (r: Self)
        ensures
            r.step_timeout_seconds == 60,
            r.break_whole_macro == true,
    {
        Settings { step_timeout_seconds: 60, break_whole_macro: true }
    }
}

} // verus!
