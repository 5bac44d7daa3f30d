//! Errors in shader assembly source.

use vstd::prelude::*;

verus! {

/// An error at a place in the source.
#[derive(Clone, Debug)]
pub struct SourceError {
    pub message: String,
    pub line: usize,
    pub column: usize,
}

} // verus!
