//! The errors that resolution and comparison report.

use vstd::prelude::*;

verus! {

/// Why a label or a comparison could not be resolved.
#[derive(Debug, Clone, Copy, PartialEq, Eq, Structural)]
pub enum MilkError {
    /// The label names no reference or object.
    NotFound,
    /// An abbreviated id is shared by several objects (or too short to tell).
    Ambiguous,
    /// The object exists but is not of the kind the caller needs.
    WrongKind,
    /// Both sides of a comparison name the same pseudo-target.
    DegenerateComparison,
    /// The store failed to open the index or to compute a diff.
    Store,
}

} // verus!
