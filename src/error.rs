use vstd::prelude::*;

verus! {

/// What can go wrong at the adapter boundary.
#[derive(Debug, Clone, Copy, PartialEq, Eq, Structural)]
pub enum AdapterError {
    /// A host operation (a slice read, a write) rejected or answered with a
    /// malformed result.
    HostCall,
    /// A host capability that the adapter needs is missing, or a setting
    /// cannot be used.
    Configuration,
}

/// The answer to a poll: either nothing is ready yet, or a value is.
#[derive(Debug, Clone, Copy, PartialEq, Eq, Structural)]
pub enum Progress<T> {
    Pending,
    Ready(T),
}

} // verus!
