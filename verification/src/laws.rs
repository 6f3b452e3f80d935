use vstd::prelude::*;

use crate::errors::Error;
use crate::model::{raised_score, score_delta, StateView};
use crate::types::{HistoryHash, ScoreRecord};

verus! {

/// The repayment quotient is never negative, so raising a score can
/// never lower it, and the raise saturates at `u64::MAX`.
pub proof fn lemma_raised_score_monotone(score: u64, repayment_amount: u64)
    ensures
        score_delta(repayment_amount) >= 0,
        raised_score(score, repayment_amount) >= score,
{
}

/// On an uninitialized contract, every mutating operation except
/// `initialize` is rejected with `NotInitialized` and changes nothing.
pub proof fn law_uninitialized_rejects_mutation(
    s: StateView,
    caller: u64,
    identity: u64,
    initial_score: u64,
    history_hash: HistoryHash,
    repayment_amount: u64,
)
    requires
        !s.is_initialized(),
    ensures
        s.mint_step(caller, identity, initial_score, history_hash) == (
            s,
            Err::<(), Error>(Error::NotInitialized),
        ),
        s.update_score_step(caller, identity, repayment_amount) == (
            s,
            Err::<(), Error>(Error::NotInitialized),
        ),
        s.update_history_hash_step(caller, identity, history_hash) == (
            s,
            Err::<(), Error>(Error::NotInitialized),
        ),
        s.authorize_step(caller, identity) == (s, Err::<(), Error>(Error::NotInitialized)),
        s.revoke_step(caller, identity) == (s, Err::<(), Error>(Error::NotInitialized)),
{
}

/// `initialize` succeeds exactly once: it succeeds precisely on an
/// uninitialized contract, and after a success any further `initialize`
/// is rejected with `AlreadyInitialized` and changes nothing.
pub proof fn law_initialize_exactly_once(s: StateView, admin: u64, admin2: u64)
    requires
        !s.is_initialized(),
    ensures
        s.initialize_step(admin).1 == Ok::<(), Error>(()),
        s.initialize_step(admin).0.is_initialized(),
        s.initialize_step(admin).0.initialize_step(admin2) == (
            s.initialize_step(admin).0,
            Err::<(), Error>(Error::AlreadyInitialized),
        ),
{
}

/// A successful `mint` installs exactly the requested record: score and
/// metadata read back as given, and no other identity's reads move.
pub proof fn law_mint_creates_record(
    s: StateView,
    caller: u64,
    identity: u64,
    initial_score: u64,
    history_hash: HistoryHash,
)
    requires
        s.is_initialized(),
        s.is_authorized(caller),
        !s.records.contains_key(identity),
    ensures
        s.mint_step(caller, identity, initial_score, history_hash).1 == Ok::<(), Error>(()),
        s.mint_step(caller, identity, initial_score, history_hash).0.score_of(identity)
            == initial_score,
        s.mint_step(caller, identity, initial_score, history_hash).0.metadata_of(identity)
            == Some(ScoreRecord { score: initial_score, history_hash }),
        forall|other: u64|
            other != identity ==> #[trigger] s.mint_step(
                caller,
                identity,
                initial_score,
                history_hash,
            ).0.metadata_of(other) == s.metadata_of(other),
{
}

/// A successful `update_score` raises the target score by exactly the
/// integer quotient of the repayment by `REPAYMENT_PER_POINT`,
/// saturating at `u64::MAX`, leaves its history reference in place, and
/// moves no other record.
pub proof fn law_update_score_adds_quotient(
    s: StateView,
    caller: u64,
    identity: u64,
    repayment_amount: u64,
)
    requires
        s.is_initialized(),
        s.is_authorized(caller),
        s.records.contains_key(identity),
    ensures
        s.update_score_step(caller, identity, repayment_amount).1 == Ok::<(), Error>(()),
        s.update_score_step(caller, identity, repayment_amount).0.metadata_of(identity) == Some(
            ScoreRecord {
                score: raised_score(s.records[identity].score, repayment_amount),
                history_hash: s.records[identity].history_hash,
            },
        ),
        s.score_of(identity) as int + score_delta(repayment_amount) <= u64::MAX as int
            ==> s.update_score_step(caller, identity, repayment_amount).0.score_of(identity)
            == s.score_of(identity) as int + score_delta(repayment_amount),
        forall|other: u64|
            other != identity ==> #[trigger] s.update_score_step(
                caller,
                identity,
                repayment_amount,
            ).0.metadata_of(other) == s.metadata_of(other),
{
}

/// A successful `update_history_hash` replaces the target's history
/// reference verbatim, alters no score anywhere, and moves no other
/// record.
pub proof fn law_update_history_hash_preserves_score(
    s: StateView,
    caller: u64,
    identity: u64,
    new_hash: HistoryHash,
)
    requires
        s.is_initialized(),
        s.is_authorized(caller),
        s.records.contains_key(identity),
    ensures
        s.update_history_hash_step(caller, identity, new_hash).1 == Ok::<(), Error>(()),
        s.update_history_hash_step(caller, identity, new_hash).0.metadata_of(identity) == Some(
            ScoreRecord { score: s.records[identity].score, history_hash: new_hash },
        ),
        forall|id: u64|
            #[trigger] s.update_history_hash_step(caller, identity, new_hash).0.score_of(id)
                == s.score_of(id),
        forall|other: u64|
            other != identity ==> #[trigger] s.update_history_hash_step(
                caller,
                identity,
                new_hash,
            ).0.metadata_of(other) == s.metadata_of(other),
{
}

/// Reads on an identity without a record: the score defaults to 0 while
/// the metadata is an explicit `None`, so a real zero-score record and a
/// missing one are never confused at the metadata query.
pub proof fn law_absent_record_reads(s: StateView, identity: u64)
    requires
        !s.records.contains_key(identity),
    ensures
        s.score_of(identity) == 0,
        s.metadata_of(identity) is None,
{
}

/// Once minted, minted forever: after a successful `mint`, a second
/// `mint` for the same identity — by any still-authorized caller, with
/// any arguments — is rejected with `AlreadyMinted` and changes nothing.
pub proof fn law_second_mint_rejected(
    s: StateView,
    caller: u64,
    identity: u64,
    initial_score: u64,
    history_hash: HistoryHash,
    caller2: u64,
    score2: u64,
    hash2: HistoryHash,
)
    requires
        s.is_initialized(),
        s.is_authorized(caller),
        s.is_authorized(caller2),
        !s.records.contains_key(identity),
    ensures
        ({
            let s1 = s.mint_step(caller, identity, initial_score, history_hash).0;
            s1.mint_step(caller2, identity, score2, hash2) == (
                s1,
                Err::<(), Error>(Error::AlreadyMinted),
            )
        }),
{
}

/// `update_score` and `update_history_hash` on an identity without a
/// record are rejected with `NoRecord` and change nothing, even for an
/// authorized caller.
pub proof fn law_update_without_record_rejected(
    s: StateView,
    caller: u64,
    identity: u64,
    repayment_amount: u64,
    new_hash: HistoryHash,
)
    requires
        s.is_initialized(),
        s.is_authorized(caller),
        !s.records.contains_key(identity),
    ensures
        s.update_score_step(caller, identity, repayment_amount) == (
            s,
            Err::<(), Error>(Error::NoRecord),
        ),
        s.update_history_hash_step(caller, identity, new_hash) == (
            s,
            Err::<(), Error>(Error::NoRecord),
        ),
{
}

/// The admin is authorized from the moment `initialize` succeeds, before
/// any explicit `authorize_minter` call.
pub proof fn law_admin_authorized_after_initialize(s: StateView, admin: u64)
    requires
        !s.is_initialized(),
    ensures
        s.initialize_step(admin).0.is_authorized(admin),
{
}

/// `authorize_minter(x)` grants and a following `revoke_minter(x)`
/// withdraws: afterwards `x` is authorized exactly when `x` is the
/// admin — revocation returns every other identity to unauthorized and
/// can never demote the admin.
pub proof fn law_authorize_then_revoke(s: StateView, caller: u64, x: u64)
    requires
        s.is_initialized(),
        s.admin == Some(caller),
    ensures
        s.authorize_step(caller, x).1 == Ok::<(), Error>(()),
        s.authorize_step(caller, x).0.is_authorized(x),
        s.authorize_step(caller, x).0.revoke_step(caller, x).1 == Ok::<(), Error>(()),
        s.authorize_step(caller, x).0.revoke_step(caller, x).0.is_authorized(x) <==> s.admin
            == Some(x),
{
}

/// `authorize_minter` and `revoke_minter` are idempotent: repeating
/// either call succeeds again and leaves the state exactly as the first
/// call did.
pub proof fn law_authorize_revoke_idempotent(s: StateView, caller: u64, x: u64)
    requires
        s.is_initialized(),
        s.admin == Some(caller),
    ensures
        ({
            let s1 = s.authorize_step(caller, x).0;
            s1.authorize_step(caller, x) == (s1, Ok::<(), Error>(()))
        }),
        ({
            let s1 = s.revoke_step(caller, x).0;
            s1.revoke_step(caller, x) == (s1, Ok::<(), Error>(()))
        }),
{
    let s1 = s.authorize_step(caller, x).0;
    assert(s1.authorize_step(caller, x).0 =~= s1);
    let s2 = s.revoke_step(caller, x).0;
    assert(s2.revoke_step(caller, x).0 =~= s2);
}

/// Atomicity: whenever an operation reports an error, the state it
/// leaves behind is exactly the state it found.
pub proof fn law_errors_mutate_nothing(
    s: StateView,
    admin: u64,
    caller: u64,
    identity: u64,
    initial_score: u64,
    history_hash: HistoryHash,
    repayment_amount: u64,
)
    ensures
        s.initialize_step(admin).1 is Err ==> s.initialize_step(admin).0 == s,
        s.mint_step(caller, identity, initial_score, history_hash).1 is Err ==> s.mint_step(
            caller,
            identity,
            initial_score,
            history_hash,
        ).0 == s,
        s.update_score_step(caller, identity, repayment_amount).1 is Err
            ==> s.update_score_step(caller, identity, repayment_amount).0 == s,
        s.update_history_hash_step(caller, identity, history_hash).1 is Err
            ==> s.update_history_hash_step(caller, identity, history_hash).0 == s,
        s.authorize_step(caller, identity).1 is Err ==> s.authorize_step(caller, identity).0 == s,
        s.revoke_step(caller, identity).1 is Err ==> s.revoke_step(caller, identity).0 == s,
{
}

/// `Initialized` is terminal: no operation other than `initialize` ever
/// touches the admin slot, a successful `initialize` always leaves the
/// contract initialized, and `initialize` on an initialized contract
/// changes nothing.
pub proof fn law_initialization_is_stable(
    s: StateView,
    admin: u64,
    caller: u64,
    identity: u64,
    initial_score: u64,
    history_hash: HistoryHash,
    repayment_amount: u64,
)
    ensures
        s.mint_step(caller, identity, initial_score, history_hash).0.admin == s.admin,
        s.update_score_step(caller, identity, repayment_amount).0.admin == s.admin,
        s.update_history_hash_step(caller, identity, history_hash).0.admin == s.admin,
        s.authorize_step(caller, identity).0.admin == s.admin,
        s.revoke_step(caller, identity).0.admin == s.admin,
        s.initialize_step(admin).0.is_initialized(),
        s.is_initialized() ==> s.initialize_step(admin).0 == s,
{
}

/// `get_score` and `get_metadata` agree on every identity: the score
/// surfaced is the metadata's score when a record exists, and the
/// zero default exactly when the metadata is `None`.
pub proof fn law_reads_agree(s: StateView, identity: u64)
    ensures
        match s.metadata_of(identity) {
            Some(record) => s.score_of(identity) == record.score,
            None => s.score_of(identity) == 0,
        },
{
}

/// Records are never deleted: there is no burn operation, and no step
/// ever removes an identity's record once minted.
pub proof fn law_records_never_deleted(
    s: StateView,
    admin: u64,
    caller: u64,
    identity: u64,
    initial_score: u64,
    history_hash: HistoryHash,
    repayment_amount: u64,
    minted: u64,
)
    requires
        s.records.contains_key(minted),
    ensures
        s.initialize_step(admin).0.records.contains_key(minted),
        s.mint_step(caller, identity, initial_score, history_hash).0.records.contains_key(minted),
        s.update_score_step(caller, identity, repayment_amount).0.records.contains_key(minted),
        s.update_history_hash_step(caller, identity, history_hash).0.records.contains_key(minted),
        s.authorize_step(caller, identity).0.records.contains_key(minted),
        s.revoke_step(caller, identity).0.records.contains_key(minted),
{
}

/// An uninitialized contract has empty storage: the freshly deployed
/// state satisfies this, and every operation preserves it, so no minter
/// set entry and no record can ever precede `initialize`.
pub open spec fn storage_consistent(s: StateView) -> bool {
    !s.is_initialized() ==> s.minters == Set::<u64>::empty() && s.records == Map::<
        u64,
        ScoreRecord,
    >::empty()
}

/// Every operation preserves [`storage_consistent`], which holds of the
/// freshly deployed state.
pub proof fn law_storage_consistent_preserved(
    s: StateView,
    admin: u64,
    caller: u64,
    identity: u64,
    initial_score: u64,
    history_hash: HistoryHash,
    repayment_amount: u64,
)
    requires
        storage_consistent(s),
    ensures
        storage_consistent(StateView::empty()),
        storage_consistent(s.initialize_step(admin).0),
        storage_consistent(s.mint_step(caller, identity, initial_score, history_hash).0),
        storage_consistent(s.update_score_step(caller, identity, repayment_amount).0),
        storage_consistent(s.update_history_hash_step(caller, identity, history_hash).0),
        storage_consistent(s.authorize_step(caller, identity).0),
        storage_consistent(s.revoke_step(caller, identity).0),
{
}

/// Scores never fall: `update_score` can only raise its target's score,
/// and neither it nor `update_history_hash` moves any other score.
pub proof fn law_scores_never_decrease(
    s: StateView,
    caller: u64,
    identity: u64,
    repayment_amount: u64,
    new_hash: HistoryHash,
)
    ensures
        forall|id: u64|
            #[trigger] s.update_score_step(caller, identity, repayment_amount).0.score_of(id)
                >= s.score_of(id),
        forall|id: u64|
            #[trigger] s.update_history_hash_step(caller, identity, new_hash).0.score_of(id)
                == s.score_of(id),
{
    if s.records.contains_key(identity) {
        lemma_raised_score_monotone(s.records[identity].score, repayment_amount);
    }
}

} // verus!
