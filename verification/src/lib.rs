//! A per-identity credit-score ledger held as non-transferable records,
//! guarded by an admin/minter authorization registry and an
//! initialize-once entry surface.
//!
//! The contract state moves through two phases: uninitialized and
//! initialized. `initialize` performs the only transition; every other
//! mutating operation demands the initialized phase, an authorized
//! caller, and leaves the state untouched whenever it reports an error.

mod contract;
mod errors;
mod laws;
mod model;
mod types;

pub use contract::RemittanceNft;
pub use errors::Error;
pub use laws::{
    law_absent_record_reads, law_admin_authorized_after_initialize, law_authorize_revoke_idempotent,
    law_authorize_then_revoke, law_errors_mutate_nothing, law_initialization_is_stable,
    law_initialize_exactly_once, law_mint_creates_record, law_reads_agree,
    law_records_never_deleted, law_scores_never_decrease, law_second_mint_rejected,
    law_storage_consistent_preserved, law_uninitialized_rejects_mutation,
    law_update_history_hash_preserves_score, law_update_score_adds_quotient,
    law_update_without_record_rejected, lemma_raised_score_monotone, storage_consistent,
};
pub use model::{raised_score, score_delta, StateView, REPAYMENT_PER_POINT};
pub use types::{HistoryHash, Identity, ScoreRecord};
