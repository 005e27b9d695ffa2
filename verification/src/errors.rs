use vstd::prelude::*;

verus! {

/// Every guard failure is a typed, returned error, so that callers get one
/// uniform error-handling contract.
///
/// `NotCurrentlyTransferring`, `AccountNotWhitelisted` and `NotAuthorized`
/// report violated security invariants: they abort the enclosing transfer or
/// mutation. `AccountNotFound` reports a benign input (removing an entry
/// that has no occurrence). `StorageExhausted` reports that the fixed
/// allocation backing the allow-list cannot hold a further entry.
#[derive(Clone, Copy, Debug, PartialEq, Eq, Structural)]
pub enum TransferError {
    /// The validation hook ran outside a genuine, in-flight transfer.
    NotCurrentlyTransferring,
    /// The destination identifier is not in the allow-list.
    AccountNotWhitelisted,
    /// A mutation was signed by an identity other than the authority.
    NotAuthorized,
    /// The identifier to remove has no occurrence in the allow-list.
    AccountNotFound,
    /// The allow-list already fills its fixed allocation.
    StorageExhausted,
}

} // verus!
