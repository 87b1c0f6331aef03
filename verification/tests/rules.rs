use launchpad::collection::{Collection721, CollectionError};
use launchpad::common::{same_bytes32, AccountId, Auth};
use launchpad::launchpad::{
    is_kind, kind_of_code, CollectionInit, CollectionKind, CollectionRecord, DeployRequest, FeeCharge, Launchpad,
    LaunchpadError, StakingPlan, KIND_LAZY_1155, KIND_LAZY_721, KIND_NORMAL_1155, KIND_NORMAL_721,
};
use launchpad::lazy::{ILazy721, LazyCollection721, LazyConfig, LazyError, MintVoucher};

const CREATOR: AccountId = 1;
const ALICE: AccountId = 10;
const BOB: AccountId = 11;
const EVE: AccountId = 12;
const OPERATOR: AccountId = 15;
const ADMIN: AccountId = 20;
const FEE_RECEIVER: AccountId = 21;
const FEE_TOKEN: AccountId = 22;

fn s(text: &str) -> String {
    text.to_string()
}

fn collection(max_supply: u64) -> Collection721 {
    let mut c = Collection721::new();
    c.initialize(CREATOR, s("Rules"), s("RUL"), max_supply, 100, 2).unwrap();
    c
}

// ── Auth and bytes ───────────────────────────────────────────────────────────

#[test]
fn auth_lists_exactly_the_signers() {
    let auth = Auth::Signers(vec![3, 5]);
    assert!(auth.has_signed(3));
    assert!(auth.has_signed(5));
    assert!(!auth.has_signed(4));
    assert!(Auth::All.has_signed(4));
    assert!(!Auth::Signers(vec![]).has_signed(0));
}

#[test]
fn byte_arrays_compare_by_every_byte() {
    let a = [1u8; 32];
    let mut b = [1u8; 32];
    assert!(same_bytes32(&a, &b));
    b[31] = 2;
    assert!(!same_bytes32(&a, &b));
}

// ── Collection ───────────────────────────────────────────────────────────────

#[test]
fn balances_always_add_up_to_the_supply() {
    let mut c = collection(100);
    for i in 0..6u64 {
        let to = if i % 2 == 0 { ALICE } else { BOB };
        c.mint(&Auth::All, to, format!("uri-{i}")).unwrap();
    }
    c.transfer(&Auth::All, ALICE, BOB, 0).unwrap();
    c.set_approval_for_all(&Auth::All, BOB, OPERATOR, true).unwrap();
    c.burn(&Auth::All, OPERATOR, 1).unwrap();
    assert_eq!(c.balance_of(ALICE) + c.balance_of(BOB), c.total_supply());
    assert_eq!(c.total_supply(), 5);
    assert_eq!(c.next_token_id(), 6);
}

#[test]
fn operations_before_initialisation_are_refused() {
    let mut c = Collection721::new();
    assert!(!c.is_initialized());
    assert_eq!(c.mint(&Auth::All, ALICE, s("u")), Err(CollectionError::NotInitialized));
    assert_eq!(c.transfer(&Auth::All, ALICE, BOB, 0), Err(CollectionError::NotInitialized));
    assert_eq!(c.transfer_from(&Auth::All, ALICE, ALICE, BOB, 0), Err(CollectionError::NotInitialized));
    assert_eq!(c.approve(&Auth::All, ALICE, BOB, 0), Err(CollectionError::NotInitialized));
    assert_eq!(c.burn(&Auth::All, ALICE, 0), Err(CollectionError::NotInitialized));
    assert_eq!(
        c.set_approval_for_all(&Auth::All, ALICE, BOB, true),
        Err(CollectionError::NotInitialized)
    );
    assert_eq!(c.transfer_ownership(&Auth::All, BOB), Err(CollectionError::NotInitialized));
    assert_eq!(c.update_royalty(&Auth::All, BOB, 1), Err(CollectionError::NotInitialized));
    assert_eq!(c.owner_of(0), Err(CollectionError::TokenNotFound));
}

#[test]
fn mint_needs_the_creators_signature() {
    let mut c = collection(10);
    assert_eq!(c.mint(&Auth::Signers(vec![ALICE]), ALICE, s("u")), Err(CollectionError::Unauthorized));
    assert_eq!(c.total_supply(), 0);
    assert_eq!(c.mint(&Auth::Signers(vec![CREATOR]), ALICE, s("u")), Ok(0));
}

#[test]
fn transfer_needs_the_senders_signature_and_ownership() {
    let mut c = collection(10);
    let id = c.mint(&Auth::All, ALICE, s("u")).unwrap();
    assert_eq!(c.transfer(&Auth::Signers(vec![BOB]), ALICE, BOB, id), Err(CollectionError::Unauthorized));
    assert_eq!(c.transfer(&Auth::All, EVE, BOB, id), Err(CollectionError::NotOwner));
    assert_eq!(c.transfer(&Auth::All, ALICE, BOB, 7), Err(CollectionError::TokenNotFound));
    // A refused transfer changes nothing.
    assert_eq!(c.owner_of(id), Ok(ALICE));
    assert_eq!(c.balance_of(ALICE), 1);
    assert_eq!(c.balance_of(BOB), 0);
}

#[test]
fn transfer_to_oneself_keeps_the_balance() {
    let mut c = collection(10);
    let id = c.mint(&Auth::All, ALICE, s("u")).unwrap();
    c.approve(&Auth::All, ALICE, BOB, id).unwrap();
    c.transfer(&Auth::All, ALICE, ALICE, id).unwrap();
    assert_eq!(c.balance_of(ALICE), 1);
    assert_eq!(c.owner_of(id), Ok(ALICE));
    assert_eq!(c.get_approved(id), None);
}

#[test]
fn an_approved_spender_must_name_the_real_owner() {
    let mut c = collection(10);
    let id = c.mint(&Auth::All, ALICE, s("u")).unwrap();
    c.set_approval_for_all(&Auth::All, ALICE, OPERATOR, true).unwrap();
    assert_eq!(c.transfer_from(&Auth::All, OPERATOR, BOB, EVE, id), Err(CollectionError::NotOwner));
    // The owner may always move its own token.
    c.transfer_from(&Auth::All, ALICE, ALICE, BOB, id).unwrap();
    assert_eq!(c.owner_of(id), Ok(BOB));
}

#[test]
fn burning_goes_by_approval_not_by_ownership() {
    let mut c = collection(10);
    let id = c.mint(&Auth::All, ALICE, s("u")).unwrap();
    assert_eq!(c.burn(&Auth::All, ALICE, id), Err(CollectionError::NotApproved));
    c.approve(&Auth::All, ALICE, ALICE, id).unwrap();
    c.burn(&Auth::All, ALICE, id).unwrap();
    assert_eq!(c.get_approved(id), None);
    assert_eq!(c.token_uri(id), Err(CollectionError::TokenNotFound));
    // A burnt id is not handed out again.
    assert_eq!(c.mint(&Auth::All, BOB, s("v")), Ok(1));
}

#[test]
fn revoking_an_operator_leaves_the_others() {
    let mut c = collection(10);
    c.set_approval_for_all(&Auth::All, ALICE, OPERATOR, true).unwrap();
    c.set_approval_for_all(&Auth::All, ALICE, BOB, true).unwrap();
    c.set_approval_for_all(&Auth::All, ALICE, OPERATOR, true).unwrap();
    c.set_approval_for_all(&Auth::All, ALICE, OPERATOR, false).unwrap();
    assert!(!c.is_approved_for_all(ALICE, OPERATOR));
    assert!(c.is_approved_for_all(ALICE, BOB));
    assert!(!c.is_approved_for_all(BOB, ALICE));
    assert_eq!(
        c.set_approval_for_all(&Auth::Signers(vec![BOB]), ALICE, OPERATOR, true),
        Err(CollectionError::Unauthorized)
    );
}

#[test]
fn token_uri_and_supply_limit_of_a_one_token_collection() {
    let mut c = collection(1);
    let id = c.mint(&Auth::All, ALICE, s("ipfs://one")).unwrap();
    assert_eq!(c.token_uri(id), Ok(s("ipfs://one")));
    assert_eq!(c.mint(&Auth::All, ALICE, s("ipfs://two")), Err(CollectionError::MaxSupplyReached));
    assert_eq!(c.next_token_id(), 1);
}

// ── Launchpad ────────────────────────────────────────────────────────────────

fn launchpad() -> Launchpad {
    let mut lp = Launchpad::new();
    lp.initialize(ADMIN, FEE_RECEIVER, 40, Some(FEE_TOKEN)).unwrap();
    lp.set_wasm_hashes(&Auth::All, [1u8; 32], [2u8; 32], [3u8; 32], [4u8; 32]).unwrap();
    lp
}

fn deploy(lp: &mut Launchpad, creator: AccountId, seed: u8, address: AccountId) -> CollectionRecord {
    let req = DeployRequest::normal_721(creator, s("Coll"), s("C"), 10, 0, creator, [seed; 32]);
    lp.deploy(&Auth::All, &req).unwrap();
    lp.record_deploy(&Auth::All, &req, address).unwrap()
}

#[test]
fn a_deploy_plan_names_code_salt_and_fee() {
    let lp = launchpad();
    let plan = lp
        .deploy_lazy_721(&Auth::All, ALICE, [8u8; 32], s("L"), s("LZ"), 5, 0, ALICE, [6u8; 32])
        .unwrap();
    assert_eq!(plan.kind, CollectionKind::LazyMint721);
    assert_eq!(plan.creator, ALICE);
    assert_eq!(plan.salt, [6u8; 32]);
    assert_eq!(plan.wasm_hash, [3u8; 32]);
    assert_eq!(plan.fee, Some(FeeCharge { token: FEE_TOKEN, from: ALICE, to: FEE_RECEIVER, amount: 40 }));
    assert_eq!(
        plan.init,
        CollectionInit {
            creator: ALICE,
            name: s("L"),
            symbol: Some(s("LZ")),
            max_supply: Some(5),
            royalty_bps: 0,
            royalty_receiver: ALICE,
            creator_pubkey: Some([8u8; 32]),
        }
    );
}

#[test]
fn a_deployed_collection_reports_the_requested_settings() {
    let lp = launchpad();
    let plan = lp
        .deploy_normal_721(&Auth::All, ALICE, s("Happy"), s("HAPPY"), 500, 750, BOB, [2u8; 32])
        .unwrap();
    let c = Collection721::from_init(plan.init);
    assert_eq!(c.name(), s("Happy"));
    assert_eq!(c.symbol(), s("HAPPY"));
    assert_eq!(c.creator(), ALICE);
    assert_eq!(c.max_supply(), 500);
    assert_eq!(c.royalty_info(), (BOB, 750));
    assert_eq!(c.total_supply(), 0);
}

#[test]
fn a_hand_made_request_is_not_registered_without_code() {
    let mut lp = Launchpad::new();
    lp.initialize(ADMIN, FEE_RECEIVER, 0, None).unwrap();
    let req = DeployRequest::normal_1155(ALICE, s("N"), 0, ALICE, [1u8; 32]);
    assert_eq!(lp.record_deploy(&Auth::All, &req, 900), Err(LaunchpadError::WasmHashNotSet));
    assert_eq!(lp.collection_count(), 0);
}

#[test]
fn no_fee_token_charges_nothing() {
    let mut lp = Launchpad::new();
    lp.initialize(ADMIN, FEE_RECEIVER, 250, None).unwrap();
    lp.set_wasm_hashes(&Auth::All, [1u8; 32], [2u8; 32], [3u8; 32], [4u8; 32]).unwrap();
    let plan = lp.deploy_normal_1155(&Auth::All, ALICE, s("N"), 0, ALICE, [1u8; 32]).unwrap();
    assert_eq!(plan.fee, None);
}

#[test]
fn deploys_before_initialisation_or_unsigned_are_refused() {
    let lp = Launchpad::new();
    assert_eq!(
        lp.deploy_normal_1155(&Auth::All, ALICE, s("N"), 0, ALICE, [1u8; 32]),
        Err(LaunchpadError::NotInitialized)
    );
    let lp = launchpad();
    assert_eq!(
        lp.deploy_normal_1155(&Auth::Signers(vec![BOB]), ALICE, s("N"), 0, ALICE, [1u8; 32]),
        Err(LaunchpadError::Unauthorized)
    );
}

#[test]
fn a_salt_is_spent_per_creator() {
    let mut lp = launchpad();
    let first = DeployRequest::normal_721(ALICE, s("A"), s("A"), 10, 0, ALICE, [5u8; 32]);
    lp.deploy(&Auth::All, &first).unwrap();
    lp.record_deploy(&Auth::All, &first, 500).unwrap();
    // Recording the same request again is refused and changes nothing.
    assert_eq!(lp.record_deploy(&Auth::All, &first, 501), Err(LaunchpadError::SaltAlreadyUsed));
    assert_eq!(lp.collection_count(), 1);
    assert_eq!(
        lp.deploy_normal_1155(&Auth::All, ALICE, s("B"), 0, ALICE, [5u8; 32]),
        Err(LaunchpadError::SaltAlreadyUsed)
    );
    assert!(lp.deploy_normal_1155(&Auth::All, BOB, s("B"), 0, BOB, [5u8; 32]).is_ok());
}

#[test]
fn pages_of_collections() {
    let mut lp = launchpad();
    for i in 0..5u8 {
        deploy(&mut lp, ALICE, i, 600 + i as AccountId);
    }
    let page = lp.get_collections(1, 2);
    assert_eq!(page.len(), 2);
    assert_eq!(page[0].address, 601);
    assert_eq!(page[1].address, 602);
    assert_eq!(lp.get_collections(4, 10).len(), 1);
    assert!(lp.get_collections(9, 10).is_empty());
    assert!(lp.get_collections(0, 0).is_empty());
    assert_eq!(lp.get_collections(0, u32::MAX).len(), 5);
}

#[test]
fn lookup_by_address_finds_the_record() {
    let mut lp = launchpad();
    let a = deploy(&mut lp, ALICE, 1, 700);
    let b = deploy(&mut lp, BOB, 2, 701);
    assert_eq!(lp.get_collection_by_id(700), Some(a));
    assert_eq!(lp.get_collection_by_id(701), Some(b));
    assert_eq!(lp.get_collection_by_id(702), None);
}

#[test]
fn admin_operations_need_the_admins_signature() {
    let mut lp = launchpad();
    let nobody = Auth::Signers(vec![ALICE]);
    assert_eq!(lp.transfer_admin(&nobody, ALICE), Err(LaunchpadError::Unauthorized));
    assert_eq!(lp.set_platform_fee_token(&nobody, 1), Err(LaunchpadError::Unauthorized));
    assert_eq!(lp.set_staking_wasm_hash(&nobody, [1u8; 32]), Err(LaunchpadError::Unauthorized));
    assert_eq!(lp.set_splitter_wasm_hash(&nobody, [1u8; 32]), Err(LaunchpadError::Unauthorized));
    assert_eq!(lp.add_approved_currency(&nobody, 1), Err(LaunchpadError::Unauthorized));
    assert_eq!(lp.admin(), Ok(ADMIN));
    assert_eq!(lp.platform_fee_token(), Some(FEE_TOKEN));
    assert!(!lp.is_approved_currency(1));
}

#[test]
fn approving_a_currency_twice_keeps_it_approved() {
    let mut lp = launchpad();
    lp.add_approved_currency(&Auth::All, 9).unwrap();
    lp.add_approved_currency(&Auth::All, 9).unwrap();
    assert!(lp.is_approved_currency(9));
    assert!(!lp.is_approved_currency(10));
}

#[test]
fn staking_pools_need_code_and_stay_unique() {
    let mut lp = launchpad();
    lp.add_approved_currency(&Auth::All, 9).unwrap();
    assert_eq!(
        lp.deploy_staking_pool(&Auth::All, ALICE, 800, 9, 5, [1u8; 32]),
        Err(LaunchpadError::WasmHashNotSet)
    );
    lp.set_staking_wasm_hash(&Auth::All, [7u8; 32]).unwrap();
    let plan = lp.deploy_staking_pool(&Auth::All, ALICE, 800, 9, 5, [1u8; 32]).unwrap();
    assert_eq!(plan.wasm_hash, [7u8; 32]);
    assert_eq!(plan.reward_rate, 5);
    lp.record_staking_pool(&Auth::All, &plan, 801).unwrap();
    assert_eq!(lp.record_staking_pool(&Auth::All, &plan, 802), Err(LaunchpadError::StakingPoolAlreadyExists));
    assert_eq!(lp.get_staking_pool(800), Some(801));
    assert_eq!(lp.get_staking_pool(803), None);
}

#[test]
fn staking_pools_are_registered_only_for_accepted_plans() {
    let mut lp = launchpad();
    lp.set_staking_wasm_hash(&Auth::All, [7u8; 32]).unwrap();
    let forged = StakingPlan {
        creator: ALICE,
        nft: 800,
        reward_token: 9,
        reward_rate: 5,
        salt: [1u8; 32],
        wasm_hash: [7u8; 32],
    };
    assert_eq!(lp.record_staking_pool(&Auth::All, &forged, 801), Err(LaunchpadError::InvalidCurrency));
    lp.add_approved_currency(&Auth::All, 9).unwrap();
    assert_eq!(lp.record_staking_pool(&Auth::Signers(vec![BOB]), &forged, 801), Err(LaunchpadError::Unauthorized));
    assert_eq!(lp.get_staking_pool(800), None);
    lp.record_staking_pool(&Auth::Signers(vec![ALICE]), &forged, 801).unwrap();
    assert_eq!(lp.get_staking_pool(800), Some(801));
}

#[test]
fn splitters_need_code() {
    let mut lp = launchpad();
    lp.add_approved_currency(&Auth::All, 9).unwrap();
    assert_eq!(
        lp.deploy_splitter(&Auth::All, ALICE, 9, vec![1, 2], vec![60, 40], [1u8; 32]),
        Err(LaunchpadError::WasmHashNotSet)
    );
    lp.set_splitter_wasm_hash(&Auth::All, [6u8; 32]).unwrap();
    let plan = lp.deploy_splitter(&Auth::All, ALICE, 9, vec![1, 2], vec![60, 40], [1u8; 32]).unwrap();
    assert_eq!(plan.beneficiaries, vec![1, 2]);
    assert_eq!(plan.shares, vec![60, 40]);
    assert_eq!(plan.wasm_hash, [6u8; 32]);
}

#[test]
fn kind_codes_select_kinds() {
    assert_eq!(kind_of_code(KIND_NORMAL_721), CollectionKind::Normal721);
    assert_eq!(kind_of_code(KIND_NORMAL_1155), CollectionKind::Normal1155);
    assert_eq!(kind_of_code(KIND_LAZY_721), CollectionKind::LazyMint721);
    assert_eq!(kind_of_code(KIND_LAZY_1155), CollectionKind::LazyMint1155);
    assert_eq!(kind_of_code(200), CollectionKind::LazyMint1155);
    assert!(is_kind(&CollectionKind::Normal1155, KIND_NORMAL_1155));
    assert!(!is_kind(&CollectionKind::Normal1155, KIND_NORMAL_721));
    assert!(!is_kind(&CollectionKind::LazyMint1155, 200));
    assert!(CollectionKind::LazyMint721.is_721());
    assert!(!CollectionKind::Normal1155.is_721());
}

#[test]
fn each_kind_has_the_code_that_selects_it() {
    let kinds = [
        CollectionKind::Normal721,
        CollectionKind::Normal1155,
        CollectionKind::LazyMint721,
        CollectionKind::LazyMint1155,
    ];
    for kind in kinds {
        assert_eq!(kind_of_code(kind.code()), kind);
        assert!(is_kind(&kind, kind.code()));
    }
    assert_eq!(CollectionKind::Normal721.code(), KIND_NORMAL_721);
    assert_eq!(CollectionKind::Normal1155.code(), KIND_NORMAL_1155);
    assert_eq!(CollectionKind::LazyMint721.code(), KIND_LAZY_721);
    assert_eq!(CollectionKind::LazyMint1155.code(), KIND_LAZY_1155);
}

#[test]
fn a_request_by_code_keeps_only_what_its_kind_takes() {
    let r = DeployRequest::for_kind_code(KIND_NORMAL_1155, ALICE, [4u8; 32], s("N"), s("S"), 9, 3, BOB, [5u8; 32]);
    assert_eq!(r.kind, CollectionKind::Normal1155);
    assert_eq!(r.symbol, None);
    assert_eq!(r.max_supply, None);
    assert_eq!(r.creator_pubkey, None);
    let r = DeployRequest::for_kind_code(KIND_LAZY_721, ALICE, [4u8; 32], s("N"), s("S"), 9, 3, BOB, [5u8; 32]);
    assert_eq!(r.symbol, Some(s("S")));
    assert_eq!(r.max_supply, Some(9));
    assert_eq!(r.creator_pubkey, Some([4u8; 32]));
    assert_eq!(r.royalty_receiver, BOB);
}

#[test]
fn symbols_are_measured_in_bytes() {
    let lp = launchpad();
    // Five two-byte characters fit; six do not.
    assert!(lp.deploy_normal_721(&Auth::All, ALICE, s("N"), s("ééééé"), 1, 0, ALICE, [1u8; 32]).is_ok());
    assert_eq!(
        lp.deploy_normal_721(&Auth::All, ALICE, s("N"), s("éééééé"), 1, 0, ALICE, [1u8; 32]),
        Err(LaunchpadError::SymbolTooLong)
    );
}

// ── Lazy collections ─────────────────────────────────────────────────────────

fn lazy(max_supply: u64) -> LazyCollection721 {
    let mut c = LazyCollection721::new();
    c.initialize(LazyConfig {
        creator: CREATOR,
        creator_pubkey: [3u8; 32],
        name: s("Lazy"),
        symbol: s("LZ"),
        max_supply,
        royalty_bps: 0,
        royalty_receiver: CREATOR,
    })
    .unwrap();
    c
}

fn voucher(token_id: u64, valid_until: u64) -> MintVoucher {
    MintVoucher {
        token_id,
        price: 10,
        currency: 4,
        uri: format!("ipfs://{token_id}"),
        uri_hash: [0u8; 32],
        valid_until,
    }
}

#[test]
fn a_valid_voucher_mints_once() {
    let mut c = lazy(10);
    assert_eq!(c.redeem(5, ALICE, voucher(42, 5), true), Ok(42));
    assert_eq!(c.owner_of(42), Ok(ALICE));
    assert_eq!(c.token_uri(42), Ok(s("ipfs://42")));
    assert_eq!(c.total_supply(), 1);
    assert_eq!(c.redeem(5, BOB, voucher(42, 9), true), Err(LazyError::VoucherAlreadyUsed));
    assert_eq!(c.owner_of(42), Ok(ALICE));
}

#[test]
fn redeem_checks_in_order() {
    let mut fresh = LazyCollection721::new();
    assert_eq!(fresh.redeem(1, ALICE, voucher(1, 9), true), Err(LazyError::NotInitialized));
    let mut c = lazy(1);
    assert_eq!(c.redeem(10, ALICE, voucher(1, 9), false), Err(LazyError::VoucherExpired));
    assert_eq!(c.redeem(9, ALICE, voucher(1, 9), false), Err(LazyError::InvalidSignature));
    assert_eq!(c.redeem(9, ALICE, voucher(1, 9), true), Ok(1));
    assert_eq!(c.redeem(9, ALICE, voucher(2, 9), true), Err(LazyError::MaxSupplyReached));
    assert_eq!(c.owner_of(2), Err(LazyError::TokenNotFound));
}

#[test]
fn the_signature_is_read_only_for_a_live_voucher_of_an_initialised_collection() {
    let fresh = LazyCollection721::new();
    assert!(!fresh.needs_signature(1, &voucher(1, 9)));
    let mut c = lazy(5);
    assert!(!c.needs_signature(10, &voucher(1, 9)));
    assert!(c.needs_signature(9, &voucher(1, 9)));
    assert!(c.needs_signature(1_000_000, &voucher(1, 0)));
    // Where it is not read, a bad and a good signature get one answer.
    assert_eq!(c.redeem(10, ALICE, voucher(1, 9), true), Err(LazyError::VoucherExpired));
    assert_eq!(c.redeem(10, ALICE, voucher(1, 9), false), Err(LazyError::VoucherExpired));
    assert_eq!(c.total_supply(), 0);
}

#[test]
fn a_voucher_valid_until_zero_never_expires() {
    let mut c = lazy(10);
    assert_eq!(c.redeem(1_000_000, ALICE, voucher(3, 0), true), Ok(3));
    assert_eq!(c.redeem(1_000_000, ALICE, voucher(4, 0), false), Err(LazyError::InvalidSignature));
}

#[test]
fn a_lazy_collection_is_initialised_once() {
    let mut c = lazy(3);
    let again = LazyConfig {
        creator: BOB,
        creator_pubkey: [1u8; 32],
        name: s("Other"),
        symbol: s("O"),
        max_supply: 1,
        royalty_bps: 5,
        royalty_receiver: BOB,
    };
    assert_eq!(c.initialize(again), Err(LazyError::AlreadyInitialized));
    assert_eq!(c.creator(), CREATOR);
    assert_eq!(c.name(), s("Lazy"));
}
