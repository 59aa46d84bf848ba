//! Failures that a caller of the column accessors is expected to handle.

use vstd::prelude::*;

verus! {

/// A recoverable failure of a column lookup.
#[derive(Debug, Clone, PartialEq, Eq)]
pub enum Error {
    /// The index is not below the statement's column count.
    InvalidColumnIndex(usize),
    /// No result column has this name, even ignoring ASCII case.
    InvalidColumnName(String),
}

} // verus!
