use std::collections::HashMap;
use std::collections::HashSet;
use vstd::prelude::*;

use crate::errors::Error;
use crate::model::{StateView, REPAYMENT_PER_POINT};
use crate::types::{HistoryHash, Identity, ScoreRecord};

verus! {

broadcast use vstd::std_specs::hash::group_hash_axioms;

/// The contract entry surface over its persistent state: the
/// authorization registry (admin and minter set) and the score ledger
/// (per-identity records).
///
/// The host environment authenticates callers and serializes calls; each
/// mutating method here takes the already-authenticated `caller` identity
/// and runs as one atomic step. Every method's contract equates its
/// effect with the corresponding transition of [`StateView`], so a failed
/// precondition provably leaves the state untouched.
pub struct RemittanceNft {
    admin: Option<Identity>,
    minters: HashSet<u64>,
    records: HashMap<u64, ScoreRecord>,
}

impl View for RemittanceNft {
    type V = StateView;

    closed spec fn view(&self) -> StateView {
        StateView {
            admin: match self.admin {
                Some(a) => Some(a.id),
                None => None,
            },
            minters: self.minters@,
            records: self.records@,
        }
    }
}

impl RemittanceNft {
    /// A freshly deployed contract: uninitialized, with empty storage.
    pub fn new() -> (r: RemittanceNft)
        ensures
            r@ == StateView::empty(),
    {
        let r = RemittanceNft {
            admin: None,
            minters: HashSet::new(),
            records: HashMap::new(),
        };
        proof {
            assert(r@ =~= StateView::empty());
        }
        r
    }

    /// Installs the admin. Succeeds exactly on an uninitialized contract;
    /// a second call is rejected with `AlreadyInitialized`. The admin is
    /// authorized to mint from this moment on, with no further call.
    pub fn initialize(&mut self, admin: Identity) -> (r: Result<(), Error>)
        ensures
            final(self)@ == old(self)@.initialize_step(admin.id).0,
            r == old(self)@.initialize_step(admin.id).1,
    {
        if self.admin.is_some() {
            return Err(Error::AlreadyInitialized);
        }
        self.admin = Some(admin);
        proof {
            assert(self@ =~= old(self)@.initialize_step(admin.id).0);
        }
        Ok(())
    }

    /// True iff `identity` passes the authorization predicate: it is the
    /// admin, or it stands in the minter set. Read-only; needs no
    /// authentication and never errors. Always false before `initialize`.
    pub fn is_authorized_minter(&self, identity: Identity) -> (r: bool)
        ensures
            r == self@.is_authorized(identity.id),
    {
        match &self.admin {
            None => false,
            Some(a) => a.id == identity.id || self.minters.contains(&identity.id),
        }
    }

    /// Creates the record for `identity` with the given initial score and
    /// history reference. `caller` is the identity the host authenticated
    /// for this call; it must pass the authorization predicate. Each
    /// identity can be minted exactly once.
    pub fn mint(
        &mut self,
        caller: Identity,
        identity: Identity,
        initial_score: u64,
        history_hash: HistoryHash,
    ) -> (r: Result<(), Error>)
        ensures
            final(self)@ == old(self)@.mint_step(caller.id, identity.id, initial_score, history_hash).0,
            r == old(self)@.mint_step(caller.id, identity.id, initial_score, history_hash).1,
    {
        if self.admin.is_none() {
            return Err(Error::NotInitialized);
        }
        if !self.is_authorized_minter(caller) {
            return Err(Error::NotAuthorized);
        }
        if self.records.contains_key(&identity.id) {
            return Err(Error::AlreadyMinted);
        }
        self.records.insert(identity.id, ScoreRecord { score: initial_score, history_hash });
        proof {
            assert(self@ =~= old(self)@.mint_step(caller.id, identity.id, initial_score, history_hash).0);
        }
        Ok(())
    }

    /// Credits a repayment to `identity`'s record: the score rises by the
    /// integer quotient of `repayment_amount` by `REPAYMENT_PER_POINT`,
    /// saturating at `u64::MAX` rather than wrapping. The history
    /// reference is untouched.
    pub fn update_score(
        &mut self,
        caller: Identity,
        identity: Identity,
        repayment_amount: u64,
    ) -> (r: Result<(), Error>)
        ensures
            final(self)@ == old(self)@.update_score_step(caller.id, identity.id, repayment_amount).0,
            r == old(self)@.update_score_step(caller.id, identity.id, repayment_amount).1,
    {
        if self.admin.is_none() {
            return Err(Error::NotInitialized);
        }
        if !self.is_authorized_minter(caller) {
            return Err(Error::NotAuthorized);
        }
        let record = match self.records.get(&identity.id) {
            None => {
                return Err(Error::NoRecord);
            },
            Some(record) => *record,
        };
        let delta: u64 = repayment_amount / REPAYMENT_PER_POINT;
        let new_score: u64 = if record.score > u64::MAX - delta {
            u64::MAX
        } else {
            record.score + delta
        };
        self.records.insert(
            identity.id,
            ScoreRecord { score: new_score, history_hash: record.history_hash },
        );
        proof {
            assert(self@ =~= old(self)@.update_score_step(caller.id, identity.id, repayment_amount).0);
        }
        Ok(())
    }

    /// Replaces `identity`'s history reference verbatim; the score is
    /// untouched, so off-chain history updates need no re-attested score.
    pub fn update_history_hash(
        &mut self,
        caller: Identity,
        identity: Identity,
        new_hash: HistoryHash,
    ) -> (r: Result<(), Error>)
        ensures
            final(self)@ == old(self)@.update_history_hash_step(caller.id, identity.id, new_hash).0,
            r == old(self)@.update_history_hash_step(caller.id, identity.id, new_hash).1,
    {
        if self.admin.is_none() {
            return Err(Error::NotInitialized);
        }
        if !self.is_authorized_minter(caller) {
            return Err(Error::NotAuthorized);
        }
        let record = match self.records.get(&identity.id) {
            None => {
                return Err(Error::NoRecord);
            },
            Some(record) => *record,
        };
        self.records.insert(
            identity.id,
            ScoreRecord { score: record.score, history_hash: new_hash },
        );
        proof {
            assert(self@ =~= old(self)@.update_history_hash_step(caller.id, identity.id, new_hash).0);
        }
        Ok(())
    }

    /// Adds `identity` to the minter set. Admin-only; idempotent, so
    /// re-adding is a no-op rather than an error.
    pub fn authorize_minter(&mut self, caller: Identity, identity: Identity) -> (r: Result<(), Error>)
        ensures
            final(self)@ == old(self)@.authorize_step(caller.id, identity.id).0,
            r == old(self)@.authorize_step(caller.id, identity.id).1,
    {
        let admin = match &self.admin {
            None => {
                return Err(Error::NotInitialized);
            },
            Some(admin) => *admin,
        };
        if admin.id != caller.id {
            return Err(Error::NotAuthorized);
        }
        self.minters.insert(identity.id);
        proof {
            assert(self@ =~= old(self)@.authorize_step(caller.id, identity.id).0);
        }
        Ok(())
    }

    /// Removes `identity` from the minter set if present. Admin-only;
    /// idempotent. The admin never stands in the set, so this can never
    /// demote the admin.
    pub fn revoke_minter(&mut self, caller: Identity, identity: Identity) -> (r: Result<(), Error>)
        ensures
            final(self)@ == old(self)@.revoke_step(caller.id, identity.id).0,
            r == old(self)@.revoke_step(caller.id, identity.id).1,
    {
        let admin = match &self.admin {
            None => {
                return Err(Error::NotInitialized);
            },
            Some(admin) => *admin,
        };
        if admin.id != caller.id {
            return Err(Error::NotAuthorized);
        }
        self.minters.remove(&identity.id);
        proof {
            assert(self@ =~= old(self)@.revoke_step(caller.id, identity.id).0);
        }
        Ok(())
    }

    /// The score surfaced for `identity`: its record's score, or 0 when
    /// no record exists. Read-only, never errors; a missing record is
    /// indistinguishable from a zero-score one at this query.
    pub fn get_score(&self, identity: Identity) -> (r: u64)
        ensures
            r == self@.score_of(identity.id),
    {
        match self.records.get(&identity.id) {
            None => 0,
            Some(record) => record.score,
        }
    }

    /// The full record surfaced for `identity`, or `None` when no record
    /// exists. Read-only, never errors; unlike `get_score`, absence is
    /// distinguishable from a zero-score record here.
    pub fn get_metadata(&self, identity: Identity) -> (r: Option<ScoreRecord>)
        ensures
            r == self@.metadata_of(identity.id),
    {
        match self.records.get(&identity.id) {
            None => None,
            Some(record) => Some(*record),
        }
    }
}

} // verus!
