//! The one way a call can be refused.

use vstd::prelude::*;

verus! {

/// Why the engine refused its arguments.
#[derive(Clone, Copy, Debug, PartialEq, Eq, Structural)]
pub enum EngineError {
    /// A move argument, or an entry of a move history, is none of 0, 1 and 2.
    InvalidMove,
}

} // verus!
