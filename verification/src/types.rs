use vstd::prelude::*;

verus! {

/// An authenticable principal of the host environment, reduced to the
/// plain identifier the contract logic needs. The host resolves real
/// addresses and authentication; the logic only compares identifiers.
#[derive(Clone, Copy, Debug, PartialEq, Eq, Structural)]
pub struct Identity {
    pub id: u64,
}

impl Identity {
    pub fn new(id: u64) -> (r: Identity)
        ensures
            r.id == id,
    {
        Identity { id }
    }
}

/// An opaque 32-byte reference to an externally stored repayment/behavior
/// history document. The ledger stores and returns it verbatim and never
/// reads into its contents.
#[derive(Clone, Copy, Debug, PartialEq, Eq)]
pub struct HistoryHash {
    pub bytes: [u8; 32],
}

impl HistoryHash {
    pub fn new(bytes: [u8; 32]) -> (r: HistoryHash)
        ensures
            r.bytes == bytes,
    {
        HistoryHash { bytes }
    }
}

/// The per-identity record: the credit score and the history reference.
/// Created once by `mint` and never deleted; the score only ever rises.
#[derive(Clone, Copy, Debug, PartialEq, Eq)]
pub struct ScoreRecord {
    pub score: u64,
    pub history_hash: HistoryHash,
}

} // verus!
