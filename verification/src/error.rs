//! The errors of the engine.

use vstd::prelude::*;

verus! {

/// The two ways in which an engine operation can fail. Both are recoverable:
/// the caller decides how to correct the ruleset.
#[derive(Clone, Copy, Debug, PartialEq, Eq, Hash, Structural)]
pub enum EngineError {
    /// A ruleset change would break an invariant of the ruleset.
    InvalidConfig,
    /// No valid problem was found within the attempt bound.
    GenerationExhausted,
}

} // verus!
