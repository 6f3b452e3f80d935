use vstd::prelude::*;

verus! {

/// Why an operation was rejected. A rejected call leaves the contract
/// state exactly as it was: every error is surfaced before any write.
#[derive(Clone, Copy, Debug, PartialEq, Eq, Structural)]
pub enum Error {
    /// A mutating call other than `initialize` arrived while the
    /// contract was still uninitialized.
    NotInitialized,
    /// `initialize` on a contract that already has an admin.
    AlreadyInitialized,
    /// The caller fails the admin/minter authorization predicate.
    NotAuthorized,
    /// `mint` for an identity that already holds a record.
    AlreadyMinted,
    /// A score or history update for an identity without a record.
    NoRecord,
}

} // verus!
