use remittance_nft::{Error, HistoryHash, Identity, RemittanceNft};

fn create_test_hash(value: u8) -> HistoryHash {
    let mut hash_bytes = [0u8; 32];
    hash_bytes[0] = value;
    HistoryHash::new(hash_bytes)
}

#[test]
fn test_score_lifecycle() {
    let mut contract = RemittanceNft::new();

    let admin = Identity::new(1);
    let user = Identity::new(2);

    contract.initialize(admin).unwrap();

    let history_hash = create_test_hash(1);

    // Initial mint
    contract.mint(admin, user, 500, history_hash).unwrap();
    assert_eq!(contract.get_score(user), 500);

    // Check metadata
    let metadata = contract.get_metadata(user).unwrap();
    assert_eq!(metadata.score, 500);
    assert_eq!(metadata.history_hash, history_hash);

    // Update score (repayment of 250 -> 2 points)
    contract.update_score(admin, user, 250).unwrap();
    assert_eq!(contract.get_score(user), 502);

    // Verify metadata updated
    let metadata = contract.get_metadata(user).unwrap();
    assert_eq!(metadata.score, 502);

    // Update score (repayment of 1000 -> 10 points)
    contract.update_score(admin, user, 1000).unwrap();
    assert_eq!(contract.get_score(user), 512);

    // Verify metadata updated
    let metadata = contract.get_metadata(user).unwrap();
    assert_eq!(metadata.score, 512);

    // Unregistered user should have 0 score
    let stranger = Identity::new(3);
    assert_eq!(contract.get_score(stranger), 0);
    assert!(contract.get_metadata(stranger).is_none());
}

#[test]
fn test_history_hash_update() {
    let mut contract = RemittanceNft::new();

    let admin = Identity::new(1);
    let user = Identity::new(2);

    contract.initialize(admin).unwrap();

    let initial_hash = create_test_hash(1);
    contract.mint(admin, user, 500, initial_hash).unwrap();

    let metadata = contract.get_metadata(user).unwrap();
    assert_eq!(metadata.history_hash, initial_hash);

    // Update history hash
    let new_hash = create_test_hash(2);
    contract.update_history_hash(admin, user, new_hash).unwrap();

    let metadata = contract.get_metadata(user).unwrap();
    assert_eq!(metadata.history_hash, new_hash);
    assert_eq!(metadata.score, 500); // Score should remain unchanged
}

#[test]
fn test_authorized_minter() {
    let mut contract = RemittanceNft::new();

    let admin = Identity::new(1);
    let authorized_contract = Identity::new(2);

    contract.initialize(admin).unwrap();

    // Admin should be authorized by default
    assert!(contract.is_authorized_minter(admin));

    // Authorize a contract
    contract.authorize_minter(admin, authorized_contract).unwrap();
    assert!(contract.is_authorized_minter(authorized_contract));

    // Revoke authorization
    contract.revoke_minter(admin, authorized_contract).unwrap();
    assert!(!contract.is_authorized_minter(authorized_contract));
}

#[test]
fn test_not_initialized() {
    let mut contract = RemittanceNft::new();
    let caller = Identity::new(1);
    let user = Identity::new(2);

    let history_hash = create_test_hash(1);
    let result = contract.mint(caller, user, 500, history_hash);
    assert_eq!(result, Err(Error::NotInitialized));
}

#[test]
fn test_already_initialized() {
    let mut contract = RemittanceNft::new();
    let admin = Identity::new(1);

    contract.initialize(admin).unwrap();
    let result = contract.initialize(admin);
    assert_eq!(result, Err(Error::AlreadyInitialized));
}

#[test]
fn test_duplicate_mint() {
    let mut contract = RemittanceNft::new();

    let admin = Identity::new(1);
    let user = Identity::new(2);

    contract.initialize(admin).unwrap();

    let history_hash = create_test_hash(1);
    contract.mint(admin, user, 500, history_hash).unwrap();

    // Try to mint again for the same user
    let history_hash2 = create_test_hash(2);
    let result = contract.mint(admin, user, 600, history_hash2);
    assert_eq!(result, Err(Error::AlreadyMinted));
    // The first record is untouched
    assert_eq!(contract.get_score(user), 500);
    assert_eq!(contract.get_metadata(user).unwrap().history_hash, history_hash);
}

#[test]
fn test_update_score_without_nft() {
    let mut contract = RemittanceNft::new();

    let admin = Identity::new(1);
    let user = Identity::new(2);

    contract.initialize(admin).unwrap();

    // Try to update score for user without NFT
    let result = contract.update_score(admin, user, 100);
    assert_eq!(result, Err(Error::NoRecord));
}

#[test]
fn test_update_history_hash_without_record() {
    let mut contract = RemittanceNft::new();

    let admin = Identity::new(1);
    let user = Identity::new(2);

    contract.initialize(admin).unwrap();

    let result = contract.update_history_hash(admin, user, create_test_hash(7));
    assert_eq!(result, Err(Error::NoRecord));
    assert!(contract.get_metadata(user).is_none());
}

#[test]
fn test_uninitialized_rejects_every_mutation() {
    let mut contract = RemittanceNft::new();
    let caller = Identity::new(1);
    let user = Identity::new(2);
    let hash = create_test_hash(1);

    assert_eq!(contract.mint(caller, user, 500, hash), Err(Error::NotInitialized));
    assert_eq!(contract.update_score(caller, user, 100), Err(Error::NotInitialized));
    assert_eq!(contract.update_history_hash(caller, user, hash), Err(Error::NotInitialized));
    assert_eq!(contract.authorize_minter(caller, user), Err(Error::NotInitialized));
    assert_eq!(contract.revoke_minter(caller, user), Err(Error::NotInitialized));

    // Reads never error, even before initialization
    assert_eq!(contract.get_score(user), 0);
    assert!(contract.get_metadata(user).is_none());
    assert!(!contract.is_authorized_minter(caller));
}

#[test]
fn test_unauthorized_caller_rejected() {
    let mut contract = RemittanceNft::new();

    let admin = Identity::new(1);
    let outsider = Identity::new(9);
    let user = Identity::new(2);
    let hash = create_test_hash(1);

    contract.initialize(admin).unwrap();

    assert_eq!(contract.mint(outsider, user, 500, hash), Err(Error::NotAuthorized));
    assert_eq!(contract.update_score(outsider, user, 100), Err(Error::NotAuthorized));
    assert_eq!(contract.update_history_hash(outsider, user, hash), Err(Error::NotAuthorized));
    // Registry mutation is admin-only
    assert_eq!(contract.authorize_minter(outsider, outsider), Err(Error::NotAuthorized));
    assert_eq!(contract.revoke_minter(outsider, outsider), Err(Error::NotAuthorized));

    // Nothing was written
    assert!(contract.get_metadata(user).is_none());
    assert!(!contract.is_authorized_minter(outsider));
}

#[test]
fn test_minter_can_mint_and_update() {
    let mut contract = RemittanceNft::new();

    let admin = Identity::new(1);
    let minter = Identity::new(5);
    let user = Identity::new(2);

    contract.initialize(admin).unwrap();
    contract.authorize_minter(admin, minter).unwrap();

    contract.mint(minter, user, 300, create_test_hash(1)).unwrap();
    assert_eq!(contract.get_score(user), 300);

    contract.update_score(minter, user, 400).unwrap();
    assert_eq!(contract.get_score(user), 304);

    // A minter may not mutate the registry itself
    assert_eq!(contract.authorize_minter(minter, user), Err(Error::NotAuthorized));
}

#[test]
fn test_score_delta_boundaries() {
    let mut contract = RemittanceNft::new();

    let admin = Identity::new(1);
    let user = Identity::new(2);

    contract.initialize(admin).unwrap();
    contract.mint(admin, user, 0, create_test_hash(1)).unwrap();

    // 99 / 100 buys nothing
    contract.update_score(admin, user, 99).unwrap();
    assert_eq!(contract.get_score(user), 0);

    // 100 / 100 buys exactly one point
    contract.update_score(admin, user, 100).unwrap();
    assert_eq!(contract.get_score(user), 1);

    // 199 / 100 still buys only one point
    contract.update_score(admin, user, 199).unwrap();
    assert_eq!(contract.get_score(user), 2);

    // A zero repayment is accepted and buys nothing
    contract.update_score(admin, user, 0).unwrap();
    assert_eq!(contract.get_score(user), 2);
}

#[test]
fn test_score_saturates_instead_of_wrapping() {
    let mut contract = RemittanceNft::new();

    let admin = Identity::new(1);
    let user = Identity::new(2);

    contract.initialize(admin).unwrap();
    contract.mint(admin, user, u64::MAX - 5, create_test_hash(1)).unwrap();

    // A delta of 10 would overflow: the score pins at the maximum
    contract.update_score(admin, user, 1000).unwrap();
    assert_eq!(contract.get_score(user), u64::MAX);

    // And stays pinned
    contract.update_score(admin, user, 1000).unwrap();
    assert_eq!(contract.get_score(user), u64::MAX);

    // The history reference survived both updates
    let hash = contract.get_metadata(user).unwrap().history_hash;
    assert_eq!(hash, create_test_hash(1));
}

#[test]
fn test_authorize_revoke_idempotent() {
    let mut contract = RemittanceNft::new();

    let admin = Identity::new(1);
    let minter = Identity::new(5);

    contract.initialize(admin).unwrap();

    contract.authorize_minter(admin, minter).unwrap();
    contract.authorize_minter(admin, minter).unwrap();
    assert!(contract.is_authorized_minter(minter));

    contract.revoke_minter(admin, minter).unwrap();
    contract.revoke_minter(admin, minter).unwrap();
    assert!(!contract.is_authorized_minter(minter));
}

#[test]
fn test_revoke_cannot_demote_admin() {
    let mut contract = RemittanceNft::new();

    let admin = Identity::new(1);

    contract.initialize(admin).unwrap();

    // The admin never stands in the minter set, so revoking the admin
    // succeeds as a no-op and leaves the admin authorized.
    contract.revoke_minter(admin, admin).unwrap();
    assert!(contract.is_authorized_minter(admin));

    // Even an explicit authorize-then-revoke cannot demote the admin.
    contract.authorize_minter(admin, admin).unwrap();
    contract.revoke_minter(admin, admin).unwrap();
    assert!(contract.is_authorized_minter(admin));
}
