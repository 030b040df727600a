//! The one failure the key lifecycle knows.

use vstd::prelude::*;

verus! {

/// Why an operation on the key table did not complete.
///
/// A credential mismatch and a redemption of an absent key are ordinary
/// results, not failures; they never appear here.
#[derive(Clone, Copy, Debug, PartialEq, Eq, Structural)]
pub enum E {
    /// The table could not carry out the statement: it was unreachable, the
    /// statement violated a constraint, or no row answered where one was owed.
    StoreUnavailable,
}

/// The result of an operation that may find the table unavailable.
pub type R<S> = Result<S, E>;

} // verus!
