//! Errors surfaced by the engine to its caller.
use vstd::prelude::*;

verus! {

/// Why an engine operation failed.
#[derive(Debug, PartialEq, Eq)]
pub enum EngineError {
    /// The configured tick rate yields no positive update timestep.
    InvalidRate,
    /// A lifecycle hook, an update step or a render step failed; the text
    /// says why.
    Step(String),
}

} // verus!
