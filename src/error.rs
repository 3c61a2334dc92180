//! Errors of the learning engine.
use vstd::prelude::*;

verus! {

/// What can go wrong in a call of the library.
#[derive(Clone, Copy, Debug, PartialEq, Eq, Structural)]
pub enum Error {
    /// A feature vector, trace, weight vector or state had `found` entries
    /// where `expected` were needed.
    DimensionMismatch { expected: usize, found: usize },
}

} // verus!
