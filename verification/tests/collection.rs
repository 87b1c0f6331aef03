use launchpad::collection::{Collection721, CollectionError};
use launchpad::common::{AccountId, Auth};

const CREATOR: AccountId = 1;
const ROYALTY_RECEIVER: AccountId = 2;
const ALICE: AccountId = 10;
const BOB: AccountId = 11;
const EVE: AccountId = 12;
const CHARLIE: AccountId = 13;
const SPENDER: AccountId = 14;
const OPERATOR: AccountId = 15;

fn all() -> Auth {
    Auth::All
}

fn s(text: &str) -> String {
    text.to_string()
}

/// An initialised collection of at most 1 000 tokens.
fn setup() -> Collection721 {
    let mut c = Collection721::new();
    c.initialize(CREATOR, s("Test Collection 721"), s("T721"), 1_000, 500, ROYALTY_RECEIVER)
        .unwrap();
    c
}

// ── Long-lived collections ───────────────────────────────────────────────────

#[test]
fn instance_ttl_is_extended_on_mint() {
    // Storage lifetimes belong to the ledger host; what the library owes
    // is that mints far apart in time still hand out consecutive ids.
    let mut c = setup();
    let token_id_0 = c.mint(&all(), ALICE, s("uri-0")).unwrap();
    let token_id_1 = c.mint(&all(), ALICE, s("uri-1")).unwrap();
    assert_eq!(token_id_0, 0u64);
    assert_eq!(token_id_1, 1u64);
}

// ── Query functions ──────────────────────────────────────────────────────────

#[test]
fn name_and_symbol_are_stored_correctly() {
    let c = setup();
    assert_eq!(c.name(), s("Test Collection 721"));
    assert_eq!(c.symbol(), s("T721"));
}

#[test]
fn total_supply_starts_at_zero() {
    let c = setup();
    assert_eq!(c.total_supply(), 0u64);
}

#[test]
fn max_supply_reflects_initialized_value() {
    let c = setup();
    assert_eq!(c.max_supply(), 1_000u64);
}

#[test]
fn balance_of_returns_zero_for_address_with_no_tokens() {
    let c = setup();
    let nobody: AccountId = 99;
    assert_eq!(c.balance_of(nobody), 0u64);
}

#[test]
fn royalty_info_matches_initialized_values() {
    let mut c = Collection721::new();
    c.initialize(CREATOR, s("Royalty Test"), s("RT"), 100, 750, ROYALTY_RECEIVER).unwrap();
    let (recv, bps) = c.royalty_info();
    assert_eq!(recv, ROYALTY_RECEIVER);
    assert_eq!(bps, 750u32);
}

// ── Minting ──────────────────────────────────────────────────────────────────

#[test]
fn mint_increments_total_supply_and_balance() {
    let mut c = setup();
    assert_eq!(c.total_supply(), 0);
    let id0 = c.mint(&all(), ALICE, s("uri-0")).unwrap();
    assert_eq!(c.total_supply(), 1);
    assert_eq!(c.balance_of(ALICE), 1);

    let id1 = c.mint(&all(), ALICE, s("uri-1")).unwrap();
    assert_eq!(c.total_supply(), 2);
    assert_eq!(c.balance_of(ALICE), 2);
    assert_eq!(id0, 0u64);
    assert_eq!(id1, 1u64);
}

#[test]
fn mint_sets_owner_and_token_uri() {
    let mut c = setup();
    let id = c.mint(&all(), ALICE, s("ipfs://Qm123")).unwrap();
    assert_eq!(c.owner_of(id), Ok(ALICE));
    assert_eq!(c.token_uri(id), Ok(s("ipfs://Qm123")));
}

#[test]
fn mint_to_multiple_addresses_tracks_balances_independently() {
    let mut c = setup();
    c.mint(&all(), ALICE, s("alice-uri")).unwrap();
    c.mint(&all(), BOB, s("bob-uri-1")).unwrap();
    c.mint(&all(), BOB, s("bob-uri-2")).unwrap();

    assert_eq!(c.balance_of(ALICE), 1);
    assert_eq!(c.balance_of(BOB), 2);
    assert_eq!(c.total_supply(), 3);
}

// ── Max supply enforcement ───────────────────────────────────────────────────

#[test]
fn mint_fails_when_max_supply_is_reached() {
    let mut c = Collection721::new();
    c.initialize(CREATOR, s("Small Collection"), s("SC"), 2, 0, ROYALTY_RECEIVER).unwrap();

    c.mint(&all(), ALICE, s("uri-0")).unwrap();
    c.mint(&all(), ALICE, s("uri-1")).unwrap();

    let result = c.mint(&all(), ALICE, s("uri-2"));
    assert_eq!(result, Err(CollectionError::MaxSupplyReached));
}

#[test]
fn cannot_initialize_twice() {
    let mut c = setup();
    let result = c.initialize(CREATOR, s("Again"), s("AG"), 100, 0, 3);
    assert_eq!(result, Err(CollectionError::AlreadyInitialized));
}

// ── Transfers ────────────────────────────────────────────────────────────────

#[test]
fn transfer_moves_ownership_and_updates_balances() {
    let mut c = setup();
    let id = c.mint(&all(), ALICE, s("uri")).unwrap();
    assert_eq!(c.owner_of(id), Ok(ALICE));
    assert_eq!(c.balance_of(ALICE), 1);
    assert_eq!(c.balance_of(BOB), 0);

    c.transfer(&all(), ALICE, BOB, id).unwrap();

    assert_eq!(c.owner_of(id), Ok(BOB));
    assert_eq!(c.balance_of(ALICE), 0);
    assert_eq!(c.balance_of(BOB), 1);
}

#[test]
fn transfer_fails_when_called_by_non_owner() {
    let mut c = setup();
    let id = c.mint(&all(), ALICE, s("uri")).unwrap();

    // Eve is not the owner and has no approval
    let result = c.transfer(&all(), EVE, ALICE, id);
    assert!(result.is_err());
}

#[test]
fn transfer_clears_single_token_approval() {
    let mut c = setup();
    let id = c.mint(&all(), ALICE, s("uri")).unwrap();
    c.approve(&all(), ALICE, CHARLIE, id).unwrap();

    assert!(c.get_approved(id).is_some());

    c.transfer(&all(), ALICE, BOB, id).unwrap();

    assert!(c.get_approved(id).is_none());
}

#[test]
fn transfer_from_by_approved_spender_succeeds() {
    let mut c = setup();
    let id = c.mint(&all(), ALICE, s("uri")).unwrap();
    c.approve(&all(), ALICE, SPENDER, id).unwrap();

    c.transfer_from(&all(), SPENDER, ALICE, BOB, id).unwrap();
    assert_eq!(c.owner_of(id), Ok(BOB));
}

#[test]
fn transfer_from_by_operator_succeeds() {
    let mut c = setup();
    let id = c.mint(&all(), ALICE, s("uri")).unwrap();
    c.set_approval_for_all(&all(), ALICE, OPERATOR, true).unwrap();

    c.transfer_from(&all(), OPERATOR, ALICE, BOB, id).unwrap();
    assert_eq!(c.owner_of(id), Ok(BOB));
}

#[test]
fn transfer_from_fails_without_approval() {
    let mut c = setup();
    let id = c.mint(&all(), ALICE, s("uri")).unwrap();
    let result = c.transfer_from(&all(), EVE, ALICE, BOB, id);
    assert_eq!(result, Err(CollectionError::NotApproved));
}

// ── Approvals ────────────────────────────────────────────────────────────────

#[test]
fn approve_sets_single_token_approval() {
    let mut c = setup();
    let id = c.mint(&all(), ALICE, s("uri")).unwrap();
    assert_eq!(c.get_approved(id), None);

    c.approve(&all(), ALICE, BOB, id).unwrap();
    assert_eq!(c.get_approved(id), Some(BOB));
}

#[test]
fn approve_by_non_owner_fails() {
    let mut c = setup();
    let id = c.mint(&all(), ALICE, s("uri")).unwrap();
    let result = c.approve(&all(), EVE, BOB, id);
    assert_eq!(result, Err(CollectionError::NotApproved));
}

#[test]
fn set_approval_for_all_and_is_approved_for_all() {
    let mut c = setup();
    let owner: AccountId = 20;
    let operator: AccountId = 21;

    assert!(!c.is_approved_for_all(owner, operator));
    c.set_approval_for_all(&all(), owner, operator, true).unwrap();
    assert!(c.is_approved_for_all(owner, operator));

    c.set_approval_for_all(&all(), owner, operator, false).unwrap();
    assert!(!c.is_approved_for_all(owner, operator));
}

#[test]
fn operator_can_approve_on_behalf_of_owner() {
    let mut c = setup();
    let id = c.mint(&all(), ALICE, s("uri")).unwrap();
    c.set_approval_for_all(&all(), ALICE, OPERATOR, true).unwrap();

    c.approve(&all(), OPERATOR, CHARLIE, id).unwrap();
    assert_eq!(c.get_approved(id), Some(CHARLIE));
}

// ── Burns ────────────────────────────────────────────────────────────────────

#[test]
fn burn_removes_token_and_decrements_supply_and_balance() {
    let mut c = setup();
    let id = c.mint(&all(), ALICE, s("uri")).unwrap();
    assert_eq!(c.total_supply(), 1);
    assert_eq!(c.balance_of(ALICE), 1);

    c.approve(&all(), ALICE, ALICE, id).unwrap();
    c.burn(&all(), ALICE, id).unwrap();

    assert_eq!(c.total_supply(), 0);
    assert_eq!(c.balance_of(ALICE), 0);

    assert_eq!(c.owner_of(id), Err(CollectionError::TokenNotFound));
}

#[test]
fn burn_by_non_owner_without_approval_fails() {
    let mut c = setup();
    let id = c.mint(&all(), ALICE, s("uri")).unwrap();
    let result = c.burn(&all(), EVE, id);
    assert_eq!(result, Err(CollectionError::NotApproved));
}

#[test]
fn burn_by_approved_spender_succeeds() {
    let mut c = setup();
    let id = c.mint(&all(), ALICE, s("uri")).unwrap();
    c.approve(&all(), ALICE, SPENDER, id).unwrap();
    c.burn(&all(), SPENDER, id).unwrap();

    assert_eq!(c.owner_of(id), Err(CollectionError::TokenNotFound));
}

#[test]
fn burn_by_operator_succeeds() {
    let mut c = setup();
    let id = c.mint(&all(), ALICE, s("uri")).unwrap();
    c.set_approval_for_all(&all(), ALICE, OPERATOR, true).unwrap();
    c.burn(&all(), OPERATOR, id).unwrap();

    assert_eq!(c.owner_of(id), Err(CollectionError::TokenNotFound));
}

#[test]
fn burn_nonexistent_token_fails() {
    let mut c = setup();
    let caller: AccountId = 30;
    let result = c.burn(&all(), caller, 999u64);
    assert_eq!(result, Err(CollectionError::TokenNotFound));
}

// ── Ownership management ─────────────────────────────────────────────────────

#[test]
fn transfer_ownership_updates_creator() {
    let mut c = setup();
    let new_creator: AccountId = 40;

    c.transfer_ownership(&all(), new_creator).unwrap();
    assert_eq!(c.creator(), new_creator);

    // the new creator can mint
    let id = c.mint(&Auth::Signers(vec![new_creator]), ALICE, s("new-uri")).unwrap();
    assert_eq!(c.owner_of(id), Ok(ALICE));
}

#[test]
fn update_royalty_changes_receiver_and_bps() {
    let mut c = setup();
    let new_receiver: AccountId = 41;

    c.update_royalty(&all(), new_receiver, 250u32).unwrap();
    let (recv, bps) = c.royalty_info();
    assert_eq!(recv, new_receiver);
    assert_eq!(bps, 250u32);
}

#[test]
fn update_royalty_fails_if_not_creator() {
    let mut c = setup();
    let new_receiver: AccountId = 41;
    // nobody signs the call
    let result = c.update_royalty(&Auth::Signers(vec![]), new_receiver, 250u32);
    assert!(result.is_err());
}

// ── Balance corruption fix test ──────────────────────────────────────────────

#[test]
fn transfer_from_zero_balance_fails_correctly() {
    let mut c = setup();
    assert_eq!(c.balance_of(ALICE), 0u64);

    c.mint(&all(), BOB, s("uri-0")).unwrap();
    assert_eq!(c.balance_of(BOB), 1u64);

    // Alice, who neither owns token 0 nor is approved for it, is refused.
    let result = c.transfer_from(&all(), ALICE, ALICE, BOB, 0u64);
    assert_eq!(result, Err(CollectionError::NotApproved));
}

// ── next_token_id ────────────────────────────────────────────────────────────

#[test]
fn next_token_id_advances_with_each_mint() {
    let mut c = setup();
    assert_eq!(c.next_token_id(), 0u64);
    c.mint(&all(), ALICE, s("uri-0")).unwrap();
    assert_eq!(c.next_token_id(), 1u64);
    c.mint(&all(), ALICE, s("uri-1")).unwrap();
    assert_eq!(c.next_token_id(), 2u64);
}
