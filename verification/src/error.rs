//! Error values shared by the swap adapters and the entry point.

use vstd::prelude::*;

verus! {

/// Failures that every adapter and the entry point can report.
#[derive(Debug, Clone, Copy, PartialEq, Eq, Structural)]
pub enum SkipError {
    /// The caller is not the principal that the operation is reserved for.
    Unauthorized,
    /// The route holds no hop.
    SwapOperationsEmpty,
    /// The first hop does not start from the coin that is offered.
    SwapOperationsCoinInDenomMismatch,
    /// The last hop does not end in the coin that is asked for.
    SwapOperationsCoinOutDenomMismatch,
}

} // verus!
