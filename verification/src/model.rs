use vstd::prelude::*;

use crate::errors::Error;
use crate::types::{HistoryHash, ScoreRecord};

verus! {

/// How much repayment buys one score point: the delta of `update_score`
/// is the integer quotient of the repayment amount by this constant.
/// A policy constant that downstream score consumers depend on.
pub const REPAYMENT_PER_POINT: u64 = 100;

/// The abstract contract state: what the host's persistent store holds
/// between calls, seen as plain mathematics.
///
/// `admin` is present exactly when the contract is initialized; there is
/// no path back to `None`. `minters` never contains the admin implicitly:
/// the authorization predicate short-circuits on the admin instead, so a
/// revocation can never touch the admin's rights.
#[verifier::ext_equal]
pub struct StateView {
    /// The administrator, present exactly when the contract is initialized.
    pub admin: Option<u64>,
    /// Identities besides the admin that may mint and update records.
    pub minters: Set<u64>,
    /// The score records, keyed by identity.
    pub records: Map<u64, ScoreRecord>,
}

/// The score points bought by one repayment: its integer quotient by
/// `REPAYMENT_PER_POINT` (250 buys 2, 1000 buys 10, 99 buys none).
pub open spec fn score_delta(repayment_amount: u64) -> int {
    repayment_amount as int / REPAYMENT_PER_POINT as int
}

/// A score after a repayment: raised by `score_delta`, saturating at
/// `u64::MAX` so that it can never wrap around.
pub open spec fn raised_score(score: u64, repayment_amount: u64) -> u64 {
    if score as int + score_delta(repayment_amount) > u64::MAX as int {
        u64::MAX
    } else {
        (score as int + score_delta(repayment_amount)) as u64
    }
}

impl StateView {
    /// The state of a freshly deployed, never-initialized contract.
    pub open spec fn empty() -> StateView {
        StateView { admin: None, minters: Set::empty(), records: Map::empty() }
    }

    /// The contract has an admin, i.e. `initialize` has succeeded.
    pub open spec fn is_initialized(self) -> bool {
        self.admin is Some
    }

    /// The authorization predicate consulted before any record mutation:
    /// the admin is implicitly authorized, every other identity only
    /// while it stands in the minter set. Nobody is authorized before
    /// initialization.
    pub open spec fn is_authorized(self, id: u64) -> bool {
        self.is_initialized() && (self.admin == Some(id) || self.minters.contains(id))
    }

    /// The score surfaced for an identity: the record's score, or 0 when
    /// no record exists — absence is indistinguishable from a zero score
    /// at this query.
    pub open spec fn score_of(self, identity: u64) -> u64 {
        if self.records.contains_key(identity) {
            self.records[identity].score
        } else {
            0
        }
    }

    /// The full record surfaced for an identity, or `None` when no record
    /// exists — unlike `score_of`, absence is distinguishable here.
    pub open spec fn metadata_of(self, identity: u64) -> Option<ScoreRecord> {
        if self.records.contains_key(identity) {
            Some(self.records[identity])
        } else {
            None
        }
    }

    /// `initialize(admin)`: installs the admin on a contract that has
    /// none; rejects a second installation.
    pub open spec fn initialize_step(self, admin: u64) -> (StateView, Result<(), Error>) {
        if self.is_initialized() {
            (self, Err(Error::AlreadyInitialized))
        } else {
            (StateView { admin: Some(admin), minters: self.minters, records: self.records }, Ok(()))
        }
    }

    /// `mint(identity, initial_score, history_hash)` called by an
    /// authenticated `caller`: creates the identity's record exactly once.
    pub open spec fn mint_step(
        self,
        caller: u64,
        identity: u64,
        initial_score: u64,
        history_hash: HistoryHash,
    ) -> (StateView, Result<(), Error>) {
        if !self.is_initialized() {
            (self, Err(Error::NotInitialized))
        } else if !self.is_authorized(caller) {
            (self, Err(Error::NotAuthorized))
        } else if self.records.contains_key(identity) {
            (self, Err(Error::AlreadyMinted))
        } else {
            (
                StateView {
                    admin: self.admin,
                    minters: self.minters,
                    records: self.records.insert(
                        identity,
                        ScoreRecord { score: initial_score, history_hash },
                    ),
                },
                Ok(()),
            )
        }
    }

    /// `update_score(identity, repayment_amount)` called by an
    /// authenticated `caller`: raises the identity's score by the
    /// repayment's quotient, saturating instead of wrapping.
    pub open spec fn update_score_step(
        self,
        caller: u64,
        identity: u64,
        repayment_amount: u64,
    ) -> (StateView, Result<(), Error>) {
        if !self.is_initialized() {
            (self, Err(Error::NotInitialized))
        } else if !self.is_authorized(caller) {
            (self, Err(Error::NotAuthorized))
        } else if !self.records.contains_key(identity) {
            (self, Err(Error::NoRecord))
        } else {
            (
                StateView {
                    admin: self.admin,
                    minters: self.minters,
                    records: self.records.insert(
                        identity,
                        ScoreRecord {
                            score: raised_score(self.records[identity].score, repayment_amount),
                            history_hash: self.records[identity].history_hash,
                        },
                    ),
                },
                Ok(()),
            )
        }
    }

    /// `update_history_hash(identity, new_hash)` called by an
    /// authenticated `caller`: replaces the history reference verbatim and
    /// leaves the score untouched.
    pub open spec fn update_history_hash_step(
        self,
        caller: u64,
        identity: u64,
        new_hash: HistoryHash,
    ) -> (StateView, Result<(), Error>) {
        if !self.is_initialized() {
            (self, Err(Error::NotInitialized))
        } else if !self.is_authorized(caller) {
            (self, Err(Error::NotAuthorized))
        } else if !self.records.contains_key(identity) {
            (self, Err(Error::NoRecord))
        } else {
            (
                StateView {
                    admin: self.admin,
                    minters: self.minters,
                    records: self.records.insert(
                        identity,
                        ScoreRecord {
                            score: self.records[identity].score,
                            history_hash: new_hash,
                        },
                    ),
                },
                Ok(()),
            )
        }
    }

    /// `authorize_minter(identity)` called by an authenticated `caller`:
    /// admin-only; adds the identity to the minter set, idempotently.
    pub open spec fn authorize_step(self, caller: u64, identity: u64) -> (
        StateView,
        Result<(), Error>,
    ) {
        if !self.is_initialized() {
            (self, Err(Error::NotInitialized))
        } else if self.admin != Some(caller) {
            (self, Err(Error::NotAuthorized))
        } else {
            (
                StateView {
                    admin: self.admin,
                    minters: self.minters.insert(identity),
                    records: self.records,
                },
                Ok(()),
            )
        }
    }

    /// `revoke_minter(identity)` called by an authenticated `caller`:
    /// admin-only; removes the identity from the minter set, idempotently.
    /// The admin never stands in the set, so no revocation can demote the
    /// admin.
    pub open spec fn revoke_step(self, caller: u64, identity: u64) -> (
        StateView,
        Result<(), Error>,
    ) {
        if !self.is_initialized() {
            (self, Err(Error::NotInitialized))
        } else if self.admin != Some(caller) {
            (self, Err(Error::NotAuthorized))
        } else {
            (
                StateView {
                    admin: self.admin,
                    minters: self.minters.remove(identity),
                    records: self.records,
                },
                Ok(()),
            )
        }
    }
}

} // verus!
