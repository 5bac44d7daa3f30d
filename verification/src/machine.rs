use vstd::prelude::*;

verus! {

/// Outcome of a read from a memory-mapped device.
#[derive(Copy, Clone, Debug, PartialEq, Eq)]
pub enum ReadResult<T> {
    /// The read succeeded with this value.
    Success(T),
    InvalidAddress,
}

/// Outcome of a write to a memory-mapped device.
#[derive(Copy, Clone, Debug, PartialEq, Eq)]
pub enum WriteResult {
    /// The write was accepted.
    Success,
    InvalidAddress,
}

} // verus!
