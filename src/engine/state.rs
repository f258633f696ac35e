//! Counters that a simulation may keep about its own cadence.
use vstd::prelude::*;

verus! {

/// How often a simulation updated and rendered, and the rendered time in
/// nanoseconds.
pub struct Game {
    pub update_called: usize,
    pub render_called: usize,
    pub time_passed: u64,
}

impl Game {
    pub fn new() -> (r: Self)
        ensures
            r.update_called == 0,
            r.render_called == 0,
            r.time_passed == 0,
    {
        Self { update_called: 0, render_called: 0, time_passed: 0 }
    }
}

} // verus!
