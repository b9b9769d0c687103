use vstd::prelude::*;

verus! {

/// Why an operation was rejected. Every rejection is final for the operation
/// that met it: nothing is retried, and no effect is handed out with it.
#[derive(Clone, Copy, PartialEq, Eq, Debug, Structural)]
pub enum AmmError {
    /// The account list has the wrong number of records, or the record in
    /// some position does not hold what that position calls for.
    AccountShape,
    /// The record in some position is not owned by the program that the
    /// position calls for.
    ForeignOwner,
    /// The payload is malformed: wrong length, or a zero amount.
    PayloadShape,
    /// The current time is past the payload's expiration.
    Expired,
    /// The pool's state does not permit the operation.
    StateGuard,
    /// A reserve address, derived anew, differs from the one supplied.
    AddressMismatch,
    /// The curve engine found no answer, or answered with a zero quantity.
    Arithmetic,
    /// A quantity lies beyond the bound the caller set.
    Slippage,
    /// A write-once field was written a second time.
    ImmutableField,
    /// A value lies outside what its field of the configuration record admits.
    InvalidField,
}

} // verus!
