//! Errors reported by the dataset loader.

use vstd::prelude::*;

verus! {

/// A malformed composition table or an unrecognized stage label.
///
/// Line and field positions are zero-based; fields are counted from the
/// start of the line, so the first numeric field is field 1.
#[derive(Debug, Clone, Copy, PartialEq, Eq)]
pub enum ParseError {
    /// The stage label is none of the four recognized tags.
    UnknownStage,
    /// A line has fewer than eight whitespace-separated fields.
    MissingFields { line: usize },
    /// A numeric field is not a decimal floating-point literal.
    InvalidNumber { line: usize, field: usize },
}

} // verus!
