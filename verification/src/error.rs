//! The ways in which the store can refuse a statement.

use vstd::prelude::*;

verus! {

/// Why the store did not carry out a statement.
///
/// The handlers render every one of these as absence; the distinction is kept
/// for callers that sit below the transport boundary.
#[derive(Clone, Copy, Debug, PartialEq, Eq, Structural)]
pub enum StoreError {
    /// The pool had no connection to lend.
    Unavailable,
    /// The statement addressed a row that does not exist.
    NotFound,
    /// A constraint of the store rejected the statement: the primary key is
    /// already taken, or no further key can be assigned.
    Conflict,
    /// The store could not be reached or failed while executing.
    Failed,
}

} // verus!
