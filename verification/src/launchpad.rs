use vstd::prelude::*;

use std::collections::HashMap;

use crate::common::{same_bytes32, AccountId, Auth, Bytes32};

verus! {

broadcast use vstd::std_specs::hash::group_hash_axioms;

/// The highest platform fee the launchpad accepts.
pub const MAX_FEE_BPS: u32 = 10_000;

/// The longest symbol, in bytes, a collection may be deployed with.
pub const MAX_SYMBOL_LEN: usize = 10;

/// Errors of the launchpad.
#[derive(Clone, Copy, Debug, PartialEq, Eq, Structural)]
pub enum LaunchpadError {
    AlreadyInitialized,
    NotInitialized,
    InvalidFeeBps,
    WasmHashNotSet,
    EmptyName,
    SymbolTooLong,
    StakingPoolAlreadyExists,
    InvalidCurrency,
    /// The account whose signature the operation needs has not signed.
    Unauthorized,
    /// The creator already deployed a contract with this salt.
    SaltAlreadyUsed,
}

/// The four kinds of collection the launchpad deploys.
#[derive(Clone, Copy, Debug, PartialEq, Eq, Structural)]
pub enum CollectionKind {
    Normal721,
    Normal1155,
    LazyMint721,
    LazyMint1155,
}

/// One deployed collection, as the launchpad registers it.
#[derive(Clone, Copy, Debug, PartialEq, Eq, Structural)]
pub struct CollectionRecord {
    pub address: AccountId,
    pub kind: CollectionKind,
    pub creator: AccountId,
}

/// Numeric codes of the collection kinds.
pub const KIND_NORMAL_721: u8 = 0;

pub const KIND_NORMAL_1155: u8 = 1;

pub const KIND_LAZY_721: u8 = 2;

pub const KIND_LAZY_1155: u8 = 3;

/// The kind a numeric code selects; every code above the last names the
/// lazily minted multi-token kind.
pub open spec fn spec_kind_of_code(code: u8) -> CollectionKind {
    if code == KIND_NORMAL_721 {
        CollectionKind::Normal721
    } else if code == KIND_NORMAL_1155 {
        CollectionKind::Normal1155
    } else if code == KIND_LAZY_721 {
        CollectionKind::LazyMint721
    } else {
        CollectionKind::LazyMint1155
    }
}

/// The kind a numeric code selects.
pub fn kind_of_code(code: u8) -> (r: CollectionKind)
    ensures
        r == spec_kind_of_code(code),
{
    if code == KIND_NORMAL_721 {
        CollectionKind::Normal721
    } else if code == KIND_NORMAL_1155 {
        CollectionKind::Normal1155
    } else if code == KIND_LAZY_721 {
        CollectionKind::LazyMint721
    } else {
        CollectionKind::LazyMint1155
    }
}

/// Whether `record_kind` is the kind with numeric code `kind`.
pub fn is_kind(record_kind: &CollectionKind, kind: u8) -> (r: bool)
    ensures
        r == (kind <= KIND_LAZY_1155 && spec_kind_of_code(kind) == *record_kind),
{
    match record_kind {
        CollectionKind::Normal721 => kind == KIND_NORMAL_721,
        CollectionKind::Normal1155 => kind == KIND_NORMAL_1155,
        CollectionKind::LazyMint721 => kind == KIND_LAZY_721,
        CollectionKind::LazyMint1155 => kind == KIND_LAZY_1155,
    }
}

impl CollectionKind {
    /// The numeric code of this kind, the one `kind_of_code` maps back to it.
    pub fn code(&self) -> (r: u8)
        ensures
            r <= KIND_LAZY_1155,
            spec_kind_of_code(r) == *self,
    {
        match self {
            CollectionKind::Normal721 => KIND_NORMAL_721,
            CollectionKind::Normal1155 => KIND_NORMAL_1155,
            CollectionKind::LazyMint721 => KIND_LAZY_721,
            CollectionKind::LazyMint1155 => KIND_LAZY_1155,
        }
    }

    /// The single-token kinds carry a symbol and a maximum supply.
    pub open spec fn spec_is_721(&self) -> bool {
        *self == CollectionKind::Normal721 || *self == CollectionKind::LazyMint721
    }

    /// The lazily minted kinds carry the creator's signing key.
    pub open spec fn spec_is_lazy(&self) -> bool {
        *self == CollectionKind::LazyMint721 || *self == CollectionKind::LazyMint1155
    }

    pub fn is_721(&self) -> (r: bool)
        ensures
            r == self.spec_is_721(),
    {
        match self {
            CollectionKind::Normal721 => true,
            CollectionKind::LazyMint721 => true,
            _ => false,
        }
    }
}

/// The length of `s` in UTF-8 bytes, as `str::len` reports it.
pub open spec fn byte_len(s: &String) -> usize {
    vstd::utf8::encode_utf8(s@).len() as usize
}

/// What a creator asks the launchpad to deploy.
#[derive(Debug)]
pub struct DeployRequest {
    pub kind: CollectionKind,
    pub creator: AccountId,
    /// The key that signs mint vouchers, for the lazily minted kinds.
    pub creator_pubkey: Option<Bytes32>,
    pub name: String,
    /// The symbol, for the single-token kinds.
    pub symbol: Option<String>,
    /// The maximum supply, for the single-token kinds.
    pub max_supply: Option<u64>,
    pub royalty_bps: u32,
    pub royalty_receiver: AccountId,
    pub salt: Bytes32,
}

/// A fee the creator pays before a deploy goes ahead.
#[derive(Clone, Copy, Debug, PartialEq, Eq, Structural)]
pub struct FeeCharge {
    pub token: AccountId,
    pub from: AccountId,
    pub to: AccountId,
    pub amount: u32,
}

/// The settings a newly deployed collection is initialised with.
#[derive(Debug, PartialEq, Eq)]
pub struct CollectionInit {
    pub creator: AccountId,
    pub name: String,
    /// The symbol, for the single-token kinds.
    pub symbol: Option<String>,
    /// The maximum supply, for the single-token kinds.
    pub max_supply: Option<u64>,
    pub royalty_bps: u32,
    pub royalty_receiver: AccountId,
    /// The key that signs mint vouchers, for the lazily minted kinds.
    pub creator_pubkey: Option<Bytes32>,
}

/// The launchpad's decision to deploy a collection: the code to deploy,
/// under which creator and salt, the fee to collect first, and the
/// settings to initialise the new collection with. The host carries it
/// out and then calls `record_deploy`.
#[derive(Debug, PartialEq, Eq)]
pub struct DeployPlan {
    pub kind: CollectionKind,
    pub creator: AccountId,
    pub salt: Bytes32,
    pub wasm_hash: Bytes32,
    pub fee: Option<FeeCharge>,
    pub init: CollectionInit,
}

/// The launchpad's decision to deploy a staking pool for a collection.
#[derive(Clone, Copy, Debug, PartialEq, Eq)]
pub struct StakingPlan {
    pub creator: AccountId,
    pub nft: AccountId,
    pub reward_token: AccountId,
    pub reward_rate: i128,
    pub salt: Bytes32,
    pub wasm_hash: Bytes32,
}

/// The launchpad's decision to deploy a revenue splitter.
#[derive(Debug, PartialEq, Eq)]
pub struct SplitterPlan {
    pub creator: AccountId,
    pub currency: AccountId,
    pub beneficiaries: Vec<AccountId>,
    pub shares: Vec<u32>,
    pub salt: Bytes32,
    pub wasm_hash: Bytes32,
}

/// The code hashes of the four collection kinds.
#[derive(Clone, Copy, Debug, PartialEq, Eq)]
pub struct WasmHashes {
    pub normal_721: Option<Bytes32>,
    pub normal_1155: Option<Bytes32>,
    pub lazy_721: Option<Bytes32>,
    pub lazy_1155: Option<Bytes32>,
}

impl WasmHashes {
    pub open spec fn spec_for(&self, kind: CollectionKind) -> Option<Bytes32> {
        match kind {
            CollectionKind::Normal721 => self.normal_721,
            CollectionKind::Normal1155 => self.normal_1155,
            CollectionKind::LazyMint721 => self.lazy_721,
            CollectionKind::LazyMint1155 => self.lazy_1155,
        }
    }

    /// The code hash stored for `kind`.
    pub fn for_kind(&self, kind: CollectionKind) -> (r: Option<Bytes32>)
        ensures
            r == self.spec_for(kind),
    {
        match kind {
            CollectionKind::Normal721 => self.normal_721,
            CollectionKind::Normal1155 => self.normal_1155,
            CollectionKind::LazyMint721 => self.lazy_721,
            CollectionKind::LazyMint1155 => self.lazy_1155,
        }
    }
}

/// The launchpad's state as the contracts speak of it.
pub struct LaunchpadView {
    pub admin: Option<AccountId>,
    pub fee_receiver: AccountId,
    pub fee_bps: u32,
    pub fee_token: Option<AccountId>,
    pub wasm: WasmHashes,
    pub staking_wasm: Option<Bytes32>,
    pub splitter_wasm: Option<Bytes32>,
    /// Approved currencies, in the order they were first approved.
    pub currencies: Seq<AccountId>,
    /// Deployed collections, in deploy order.
    pub collections: Seq<CollectionRecord>,
    /// `(creator, salt)` of every collection deployed.
    pub deploy_keys: Seq<(AccountId, Seq<u8>)>,
    /// The staking pool deployed for each collection.
    pub staking_pools: Map<AccountId, AccountId>,
}

impl LaunchpadView {
    pub open spec fn initialized(&self) -> bool {
        self.admin is Some
    }

    pub open spec fn key_used(&self, creator: AccountId, salt: Seq<u8>) -> bool {
        self.deploy_keys.contains((creator, salt))
    }

    /// The fee a deploy by `payer` is charged: the configured flat
    /// amount in the configured token, when both are set.
    pub open spec fn fee_charge(&self, payer: AccountId) -> Option<FeeCharge> {
        if self.fee_token is Some && self.fee_bps > 0 {
            Some(
                FeeCharge {
                    token: self.fee_token->0,
                    from: payer,
                    to: self.fee_receiver,
                    amount: self.fee_bps,
                },
            )
        } else {
            None
        }
    }

    /// The outcome of an operation only the admin may perform.
    pub open spec fn admin_gate(&self, auth: &Auth) -> Result<(), LaunchpadError> {
        if !self.initialized() {
            Err(LaunchpadError::NotInitialized)
        } else if !auth.signed(self.admin->0) {
            Err(LaunchpadError::Unauthorized)
        } else {
            Ok(())
        }
    }

    /// The outcome of a collection deploy request.
    pub open spec fn deploy_outcome(&self, auth: &Auth, req: &DeployRequest) -> Result<
        (),
        LaunchpadError,
    > {
        if !auth.signed(req.creator) {
            Err(LaunchpadError::Unauthorized)
        } else if !self.initialized() {
            Err(LaunchpadError::NotInitialized)
        } else if req.name@.len() == 0 {
            Err(LaunchpadError::EmptyName)
        } else if req.symbol is Some && byte_len(&req.symbol->0) > MAX_SYMBOL_LEN {
            Err(LaunchpadError::SymbolTooLong)
        } else if self.wasm.spec_for(req.kind) is None {
            Err(LaunchpadError::WasmHashNotSet)
        } else if self.key_used(req.creator, req.salt@) {
            Err(LaunchpadError::SaltAlreadyUsed)
        } else {
            Ok(())
        }
    }

    /// The plan a successful deploy request yields.
    pub open spec fn deploy_plan(&self, req: &DeployRequest) -> DeployPlan {
        DeployPlan {
            kind: req.kind,
            creator: req.creator,
            salt: req.salt,
            wasm_hash: self.wasm.spec_for(req.kind)->0,
            fee: self.fee_charge(req.creator),
            init: CollectionInit {
                creator: req.creator,
                name: req.name,
                symbol: req.symbol,
                max_supply: req.max_supply,
                royalty_bps: req.royalty_bps,
                royalty_receiver: req.royalty_receiver,
                creator_pubkey: req.creator_pubkey,
            },
        }
    }

    /// The records of the collections `creator` deployed, in deploy order.
    pub open spec fn by_creator(&self, creator: AccountId) -> Seq<CollectionRecord> {
        self.collections.filter(|r: CollectionRecord| r.creator == creator)
    }

    /// The outcome of a staking-pool deploy request.
    pub open spec fn staking_outcome(
        &self,
        auth: &Auth,
        creator: AccountId,
        nft: AccountId,
        reward_token: AccountId,
    ) -> Result<(), LaunchpadError> {
        if !auth.signed(creator) {
            Err(LaunchpadError::Unauthorized)
        } else if !self.initialized() {
            Err(LaunchpadError::NotInitialized)
        } else if !self.currencies.contains(reward_token) {
            Err(LaunchpadError::InvalidCurrency)
        } else if self.staking_pools.contains_key(nft) {
            Err(LaunchpadError::StakingPoolAlreadyExists)
        } else if self.staking_wasm is None {
            Err(LaunchpadError::WasmHashNotSet)
        } else {
            Ok(())
        }
    }

    /// The outcome of a splitter deploy request.
    pub open spec fn splitter_outcome(
        &self,
        auth: &Auth,
        creator: AccountId,
        currency: AccountId,
    ) -> Result<(), LaunchpadError> {
        if !auth.signed(creator) {
            Err(LaunchpadError::Unauthorized)
        } else if !self.initialized() {
            Err(LaunchpadError::NotInitialized)
        } else if !self.currencies.contains(currency) {
            Err(LaunchpadError::InvalidCurrency)
        } else if self.splitter_wasm is None {
            Err(LaunchpadError::WasmHashNotSet)
        } else {
            Ok(())
        }
    }
}

/// The launchpad: platform configuration, the registry of deployed
/// collections and the rules a deploy must pass.
pub struct Launchpad {
    admin: Option<AccountId>,
    fee_receiver: AccountId,
    fee_bps: u32,
    fee_token: Option<AccountId>,
    wasm: WasmHashes,
    staking_wasm: Option<Bytes32>,
    splitter_wasm: Option<Bytes32>,
    currencies: Vec<AccountId>,
    collections: Vec<CollectionRecord>,
    deploy_keys: Vec<(AccountId, Bytes32)>,
    staking_pools: HashMap<AccountId, AccountId>,
}

impl View for Launchpad {
    type V = LaunchpadView;

    closed spec fn view(&self) -> LaunchpadView {
        LaunchpadView {
            admin: self.admin,
            fee_receiver: self.fee_receiver,
            fee_bps: self.fee_bps,
            fee_token: self.fee_token,
            wasm: self.wasm,
            staking_wasm: self.staking_wasm,
            splitter_wasm: self.splitter_wasm,
            currencies: self.currencies@,
            collections: self.collections@,
            deploy_keys: self.deploy_keys@.map_values(|k: (AccountId, Bytes32)| (k.0, k.1@)),
            staking_pools: self.staking_pools@,
        }
    }
}

impl Launchpad {
    /// Internal consistency: the fee never exceeds its bound, and nothing
    /// is configured or registered before initialisation.
    pub closed spec fn wf(&self) -> bool {
        &&& self.fee_bps <= MAX_FEE_BPS
        &&& self.admin is None ==> {
            &&& self.fee_token is None
            &&& self.collections@.len() == 0
            &&& self.deploy_keys@.len() == 0
            &&& self.staking_pools@.dom().len() == 0
        }
    }

    // ---------------------------------------------------------------
    // Laws
    // ---------------------------------------------------------------
    /// The platform fee never exceeds `MAX_FEE_BPS`; before initialisation
    /// no fee token is set and no collection is registered.
    pub proof fn law_fee_bounded_and_empty_before_init(&self)
        requires
            self.wf(),
        ensures
            self@.fee_bps <= MAX_FEE_BPS,
            !self@.initialized() ==> self@.fee_token is None && self@.collections.len() == 0,
    {
    }

    /// Every record listed for a creator was deployed by that creator, and
    /// every collection a creator deployed is listed for it, in order.
    pub proof fn law_by_creator_is_the_creator_subsequence(v: LaunchpadView, creator: AccountId)
        ensures
            forall|i: int|
                0 <= i < v.by_creator(creator).len() ==> (#[trigger] v.by_creator(
                    creator,
                )[i]).creator == creator,
            forall|i: int|
                0 <= i < v.collections.len() && (#[trigger] v.collections[i]).creator == creator
                    ==> v.by_creator(creator).contains(v.collections[i]),
            v.by_creator(creator).len() <= v.collections.len(),
    {
        broadcast use vstd::seq_lib::group_filter_ensures;

    }

    /// The registries of two creators together never hold more than all
    /// collections; records of different creators are disjoint.
    pub proof fn law_creators_are_isolated(v: LaunchpadView, a: AccountId, b: AccountId)
        requires
            a != b,
        ensures
            forall|r: CollectionRecord| #[trigger]
                v.by_creator(a).contains(r) ==> !v.by_creator(b).contains(r),
    {
        broadcast use vstd::seq_lib::group_filter_ensures;

    }

    /// A creator cannot deploy twice with one salt: once the pair is
    /// registered, every further deploy request with it is refused.
    pub proof fn law_salt_used_once(v: LaunchpadView, auth: &Auth, req: &DeployRequest)
        requires
            v.key_used(req.creator, req.salt@),
        ensures
            v.deploy_outcome(auth, req) is Err,
    {
    }

    /// Deploys of one creator never block another: registering a deploy
    /// by `other` leaves the outcome of every request by a different
    /// creator as it was, whatever salt either of them used.
    pub proof fn law_deploys_are_namespaced_by_creator(
        v: LaunchpadView,
        auth: &Auth,
        req: &DeployRequest,
        other: AccountId,
        other_salt: Seq<u8>,
        rec: CollectionRecord,
    )
        requires
            other != req.creator,
        ensures
            (LaunchpadView {
                collections: v.collections.push(rec),
                deploy_keys: v.deploy_keys.push((other, other_salt)),
                ..v
            }).deploy_outcome(auth, req) == v.deploy_outcome(auth, req),
    {
        let w = LaunchpadView {
            collections: v.collections.push(rec),
            deploy_keys: v.deploy_keys.push((other, other_salt)),
            ..v
        };
        let k = (req.creator, req.salt@);
        if v.deploy_keys.contains(k) {
            let i = choose|i: int| 0 <= i < v.deploy_keys.len() && v.deploy_keys[i] == k;
            assert(w.deploy_keys[i] == k);
        }
        if w.deploy_keys.contains(k) {
            let i = choose|i: int| 0 <= i < w.deploy_keys.len() && w.deploy_keys[i] == k;
            assert(i < v.deploy_keys.len());
            assert(v.deploy_keys[i] == k);
        }
    }

    /// A deploy that passes validation is charged exactly the configured
    /// flat fee, from the creator to the fee receiver, in the fee token;
    /// a zero fee or a missing token charges nothing.
    pub proof fn law_deploy_fee(v: LaunchpadView, req: &DeployRequest)
        ensures
            v.deploy_plan(req).fee is Some <==> (v.fee_token is Some && v.fee_bps > 0),
            v.deploy_plan(req).fee matches Some(f) ==> f.from == req.creator && f.to
                == v.fee_receiver && f.amount == v.fee_bps && Some(f.token) == v.fee_token,
    {
    }

    /// A deploy plan initialises the new collection with exactly the
    /// settings the creator asked for.
    pub proof fn law_plan_carries_requested_settings(v: LaunchpadView, req: &DeployRequest)
        ensures
            v.deploy_plan(req).kind == req.kind,
            v.deploy_plan(req).creator == req.creator,
            v.deploy_plan(req).salt == req.salt,
            v.deploy_plan(req).init == (CollectionInit {
                creator: req.creator,
                name: req.name,
                symbol: req.symbol,
                max_supply: req.max_supply,
                royalty_bps: req.royalty_bps,
                royalty_receiver: req.royalty_receiver,
                creator_pubkey: req.creator_pubkey,
            }),
    {
    }

    /// Registering a deploy adds exactly its record to the creator's list
    /// and leaves every other creator's list as it was.
    pub proof fn law_record_extends_creator_list(
        v: LaunchpadView,
        rec: CollectionRecord,
        creator: AccountId,
    )
        ensures
            (LaunchpadView { collections: v.collections.push(rec), ..v }).by_creator(creator) == if rec.creator
                == creator {
                v.by_creator(creator).push(rec)
            } else {
                v.by_creator(creator)
            },
    {
        let f = |r: CollectionRecord| r.creator == creator;
        v.collections.lemma_filter_push(rec, f);
    }

    /// A numeric kind code names the kind it selects, and no other.
    pub proof fn law_kind_codes(code: u8, kind: CollectionKind)
        requires
            code <= KIND_LAZY_1155,
        ensures
            (spec_kind_of_code(code) == kind) <==> (code == KIND_NORMAL_721 && kind
                == CollectionKind::Normal721 || code == KIND_NORMAL_1155 && kind
                == CollectionKind::Normal1155 || code == KIND_LAZY_721 && kind
                == CollectionKind::LazyMint721 || code == KIND_LAZY_1155 && kind
                == CollectionKind::LazyMint1155),
    {
    }

    /// Each kind is deployed from its own code: the code hash a kind
    /// reports, and the one an accepted deploy plan names, is the hash
    /// stored in that kind's own slot, never another kind's.
    pub proof fn law_each_kind_deploys_its_own_code(
        v: LaunchpadView,
        auth: &Auth,
        req: &DeployRequest,
    )
        ensures
            v.wasm.spec_for(CollectionKind::Normal721) == v.wasm.normal_721,
            v.wasm.spec_for(CollectionKind::Normal1155) == v.wasm.normal_1155,
            v.wasm.spec_for(CollectionKind::LazyMint721) == v.wasm.lazy_721,
            v.wasm.spec_for(CollectionKind::LazyMint1155) == v.wasm.lazy_1155,
            v.deploy_outcome(auth, req) is Ok ==> {
                &&& req.kind == CollectionKind::Normal721 ==> v.wasm.normal_721 == Some(
                    v.deploy_plan(req).wasm_hash,
                )
                &&& req.kind == CollectionKind::Normal1155 ==> v.wasm.normal_1155 == Some(
                    v.deploy_plan(req).wasm_hash,
                )
                &&& req.kind == CollectionKind::LazyMint721 ==> v.wasm.lazy_721 == Some(
                    v.deploy_plan(req).wasm_hash,
                )
                &&& req.kind == CollectionKind::LazyMint1155 ==> v.wasm.lazy_1155 == Some(
                    v.deploy_plan(req).wasm_hash,
                )
            },
    {
    }

    /// After the admin sets the four code hashes, every kind reports the
    /// hash given for it, and a deploy of a kind names that hash.
    pub proof fn law_set_hashes_then_deploy(
        v: LaunchpadView,
        auth: &Auth,
        req: &DeployRequest,
        normal_721: Bytes32,
        normal_1155: Bytes32,
        lazy_721: Bytes32,
        lazy_1155: Bytes32,
    )
        ensures
            ({
                let w = LaunchpadView {
                    wasm: WasmHashes {
                        normal_721: Some(normal_721),
                        normal_1155: Some(normal_1155),
                        lazy_721: Some(lazy_721),
                        lazy_1155: Some(lazy_1155),
                    },
                    ..v
                };
                &&& w.wasm.spec_for(CollectionKind::Normal721) == Some(normal_721)
                &&& w.wasm.spec_for(CollectionKind::Normal1155) == Some(normal_1155)
                &&& w.wasm.spec_for(CollectionKind::LazyMint721) == Some(lazy_721)
                &&& w.wasm.spec_for(CollectionKind::LazyMint1155) == Some(lazy_1155)
                &&& w.deploy_outcome(auth, req) is Ok ==> w.deploy_plan(req).wasm_hash == (
                if req.kind == CollectionKind::Normal721 {
                    normal_721
                } else if req.kind == CollectionKind::Normal1155 {
                    normal_1155
                } else if req.kind == CollectionKind::LazyMint721 {
                    lazy_721
                } else {
                    lazy_1155
                })
            }),
    {
    }

    /// A collection deploy is accepted exactly when the creator signs,
    /// the launchpad is initialised, the name is not empty, a symbol is at
    /// most `MAX_SYMBOL_LEN` bytes, the kind's code hash is set and the
    /// creator has not deployed under this salt before.
    pub proof fn law_deploy_accepted_exactly(v: LaunchpadView, auth: &Auth, req: &DeployRequest)
        ensures
            v.deploy_outcome(auth, req) is Ok <==> {
                &&& auth.signed(req.creator)
                &&& v.admin is Some
                &&& req.name@.len() > 0
                &&& req.symbol matches Some(sym) ==> byte_len(&sym) <= MAX_SYMBOL_LEN
                &&& v.wasm.spec_for(req.kind) is Some
                &&& !v.deploy_keys.contains((req.creator, req.salt@))
            },
    {
    }

    /// An admin operation goes through exactly when the launchpad is
    /// initialised and its admin signs.
    pub proof fn law_admin_gate(v: LaunchpadView, auth: &Auth)
        ensures
            v.admin_gate(auth) is Ok <==> (v.admin matches Some(a) && auth.signed(a)),
    {
    }

    /// A staking pool is paid in an approved currency only: a signed
    /// request on an initialised launchpad whose reward token was never
    /// approved is refused as `InvalidCurrency`, whatever the fee token,
    /// and an accepted one names an approved reward token.
    pub proof fn law_staking_reward_must_be_approved(
        v: LaunchpadView,
        auth: &Auth,
        creator: AccountId,
        nft: AccountId,
        reward_token: AccountId,
    )
        ensures
            auth.signed(creator) && v.initialized() && !v.currencies.contains(reward_token)
                ==> v.staking_outcome(auth, creator, nft, reward_token) == Err::<(), LaunchpadError>(
                LaunchpadError::InvalidCurrency,
            ),
            v.staking_outcome(auth, creator, nft, reward_token) is Ok ==> {
                &&& auth.signed(creator)
                &&& v.initialized()
                &&& v.currencies.contains(reward_token)
                &&& !v.staking_pools.contains_key(nft)
                &&& v.staking_wasm is Some
            },
            auth.signed(creator) && v.initialized() && v.currencies.contains(reward_token)
                && !v.staking_pools.contains_key(nft) && v.staking_wasm is Some ==> v.staking_outcome(
                auth,
                creator,
                nft,
                reward_token,
            ) is Ok,
    {
    }

    /// The platform fee token plays no part in staking or splitter
    /// deploys: changing it changes neither answer.
    pub proof fn law_fee_token_is_not_a_currency(
        v: LaunchpadView,
        auth: &Auth,
        creator: AccountId,
        nft: AccountId,
        currency: AccountId,
        fee_token: Option<AccountId>,
    )
        ensures
            (LaunchpadView { fee_token, ..v }).staking_outcome(auth, creator, nft, currency)
                == v.staking_outcome(auth, creator, nft, currency),
            (LaunchpadView { fee_token, ..v }).splitter_outcome(auth, creator, currency)
                == v.splitter_outcome(auth, creator, currency),
    {
    }

    /// A splitter is paid in an approved currency: an approved currency
    /// is never refused as `InvalidCurrency`, and with the creator's
    /// signature, an initialised launchpad and the splitter code set the
    /// deploy is accepted; an unapproved one is refused as
    /// `InvalidCurrency`.
    pub proof fn law_splitter_currency_must_be_approved(
        v: LaunchpadView,
        auth: &Auth,
        creator: AccountId,
        currency: AccountId,
    )
        ensures
            v.currencies.contains(currency) ==> v.splitter_outcome(auth, creator, currency)
                != Err::<(), LaunchpadError>(LaunchpadError::InvalidCurrency),
            auth.signed(creator) && v.initialized() && v.currencies.contains(currency)
                && v.splitter_wasm is Some ==> v.splitter_outcome(auth, creator, currency) is Ok,
            auth.signed(creator) && v.initialized() && !v.currencies.contains(currency)
                ==> v.splitter_outcome(auth, creator, currency) == Err::<(), LaunchpadError>(
                LaunchpadError::InvalidCurrency,
            ),
            v.splitter_outcome(auth, creator, currency) is Ok ==> v.currencies.contains(currency),
    {
    }

    // ---------------------------------------------------------------
    // Helpers
    // ---------------------------------------------------------------
    fn admin_signed(&self, auth: &Auth) -> (r: Result<(), LaunchpadError>)
        ensures
            r == self@.admin_gate(auth),
    {
        match self.admin {
            None => Err(LaunchpadError::NotInitialized),
            Some(a) => {
                if auth.has_signed(a) {
                    Ok(())
                } else {
                    Err(LaunchpadError::Unauthorized)
                }
            },
        }
    }

    fn currency_approved(&self, token: AccountId) -> (r: bool)
        ensures
            r == self@.currencies.contains(token),
    {
        let mut i: usize = 0;
        while i < self.currencies.len()
            invariant
                0 <= i <= self.currencies.len(),
                forall|j: int| 0 <= j < i ==> self.currencies@[j] != token,
            decreases self.currencies.len() - i,
        {
            if self.currencies[i] == token {
                assert(self.currencies@[i as int] == token);
                return true;
            }
            i = i + 1;
        }
        false
    }

    fn key_used(&self, creator: AccountId, salt: &Bytes32) -> (r: bool)
        ensures
            r == self@.key_used(creator, salt@),
    {
        let ghost keys = self@.deploy_keys;
        assert(keys.len() == self.deploy_keys@.len());
        let mut i: usize = 0;
        while i < self.deploy_keys.len()
            invariant
                0 <= i <= self.deploy_keys.len(),
                keys == self@.deploy_keys,
                keys.len() == self.deploy_keys@.len(),
                forall|j: int| 0 <= j < i ==> keys[j] != (creator, salt@),
            decreases self.deploy_keys.len() - i,
        {
            let k = &self.deploy_keys[i];
            assert(keys[i as int] == (k.0, k.1@));
            if k.0 == creator && same_bytes32(&k.1, salt) {
                assert(keys[i as int] == (creator, salt@));
                return true;
            }
            i = i + 1;
        }
        false
    }

    // ---------------------------------------------------------------
    // Construction and administration
    // ---------------------------------------------------------------
    /// A launchpad that has not been initialised.
    pub fn new() -> (r: Self)
        ensures
            r.wf(),
            !r@.initialized(),
            r@.fee_token is None,
            r@.currencies == Seq::<AccountId>::empty(),
            r@.collections == Seq::<CollectionRecord>::empty(),
            r@.deploy_keys == Seq::<(AccountId, Seq<u8>)>::empty(),
            r@.staking_pools == Map::<AccountId, AccountId>::empty(),
            r@.wasm == (WasmHashes {
                normal_721: None,
                normal_1155: None,
                lazy_721: None,
                lazy_1155: None,
            }),
            r@.staking_wasm is None,
            r@.splitter_wasm is None,
    {
        let r = Launchpad {
            admin: None,
            fee_receiver: 0,
            fee_bps: 0,
            fee_token: None,
            wasm: WasmHashes { normal_721: None, normal_1155: None, lazy_721: None, lazy_1155: None },
            staking_wasm: None,
            splitter_wasm: None,
            currencies: Vec::new(),
            collections: Vec::new(),
            deploy_keys: Vec::new(),
            staking_pools: HashMap::new(),
        };
        assert(r.staking_pools@ =~= Map::<AccountId, AccountId>::empty());
        assert(r@.deploy_keys =~= Seq::<(AccountId, Seq<u8>)>::empty());
        r
    }

    /// Sets the admin and the platform fee once; a fee above
    /// `MAX_FEE_BPS` is refused and leaves the launchpad uninitialised.
    pub fn initialize(
        &mut self,
        admin: AccountId,
        fee_receiver: AccountId,
        fee_bps: u32,
        fee_token: Option<AccountId>,
    ) -> (r: Result<(), LaunchpadError>)
        requires
            old(self).wf(),
        ensures
            final(self).wf(),
            r == (if old(self)@.initialized() {
                Err(LaunchpadError::AlreadyInitialized)
            } else if fee_bps > MAX_FEE_BPS {
                Err(LaunchpadError::InvalidFeeBps)
            } else {
                Ok(())
            }),
            r is Err ==> *final(self) == *old(self),
            r is Ok ==> final(self)@ == (LaunchpadView {
                admin: Some(admin),
                fee_receiver,
                fee_bps,
                fee_token,
                ..old(self)@
            }),
    {
        if self.admin.is_some() {
            return Err(LaunchpadError::AlreadyInitialized);
        }
        if fee_bps > MAX_FEE_BPS {
            return Err(LaunchpadError::InvalidFeeBps);
        }
        self.admin = Some(admin);
        self.fee_receiver = fee_receiver;
        self.fee_bps = fee_bps;
        self.fee_token = fee_token;
        Ok(())
    }

    /// Hands the admin role to `new_admin`; the admin signs.
    pub fn transfer_admin(&mut self, auth: &Auth, new_admin: AccountId) -> (r: Result<
        (),
        LaunchpadError,
    >)
        requires
            old(self).wf(),
        ensures
            final(self).wf(),
            r == old(self)@.admin_gate(auth),
            r is Err ==> *final(self) == *old(self),
            r is Ok ==> final(self)@ == (LaunchpadView { admin: Some(new_admin), ..old(self)@ }),
    {
        self.admin_signed(auth)?;
        self.admin = Some(new_admin);
        Ok(())
    }

    /// Sets the platform fee receiver and amount; the admin signs and the
    /// amount may not exceed `MAX_FEE_BPS`.
    pub fn update_platform_fee(&mut self, auth: &Auth, receiver: AccountId, fee_bps: u32) -> (r:
        Result<(), LaunchpadError>)
        requires
            old(self).wf(),
        ensures
            final(self).wf(),
            r == (if old(self)@.admin_gate(auth) is Err {
                old(self)@.admin_gate(auth)
            } else if fee_bps > MAX_FEE_BPS {
                Err(LaunchpadError::InvalidFeeBps)
            } else {
                Ok(())
            }),
            r is Err ==> *final(self) == *old(self),
            r is Ok ==> final(self)@ == (LaunchpadView {
                fee_receiver: receiver,
                fee_bps,
                ..old(self)@
            }),
    {
        self.admin_signed(auth)?;
        if fee_bps > MAX_FEE_BPS {
            return Err(LaunchpadError::InvalidFeeBps);
        }
        self.fee_receiver = receiver;
        self.fee_bps = fee_bps;
        Ok(())
    }

    /// Sets the token deploy fees are paid in; the admin signs. The token
    /// need not be an approved currency.
    pub fn set_platform_fee_token(&mut self, auth: &Auth, token: AccountId) -> (r: Result<
        (),
        LaunchpadError,
    >)
        requires
            old(self).wf(),
        ensures
            final(self).wf(),
            r == old(self)@.admin_gate(auth),
            r is Err ==> *final(self) == *old(self),
            r is Ok ==> final(self)@ == (LaunchpadView { fee_token: Some(token), ..old(self)@ }),
    {
        self.admin_signed(auth)?;
        self.fee_token = Some(token);
        Ok(())
    }

    /// Sets the code hashes of the four collection kinds; the admin signs.
    pub fn set_wasm_hashes(
        &mut self,
        auth: &Auth,
        normal_721: Bytes32,
        normal_1155: Bytes32,
        lazy_721: Bytes32,
        lazy_1155: Bytes32,
    ) -> (r: Result<(), LaunchpadError>)
        requires
            old(self).wf(),
        ensures
            final(self).wf(),
            r == old(self)@.admin_gate(auth),
            r is Err ==> *final(self) == *old(self),
            r is Ok ==> final(self)@ == (LaunchpadView {
                wasm: WasmHashes {
                    normal_721: Some(normal_721),
                    normal_1155: Some(normal_1155),
                    lazy_721: Some(lazy_721),
                    lazy_1155: Some(lazy_1155),
                },
                ..old(self)@
            }),
    {
        self.admin_signed(auth)?;
        self.wasm = WasmHashes {
            normal_721: Some(normal_721),
            normal_1155: Some(normal_1155),
            lazy_721: Some(lazy_721),
            lazy_1155: Some(lazy_1155),
        };
        Ok(())
    }

    /// Sets the code hash of staking pools; the admin signs.
    pub fn set_staking_wasm_hash(&mut self, auth: &Auth, hash: Bytes32) -> (r: Result<
        (),
        LaunchpadError,
    >)
        requires
            old(self).wf(),
        ensures
            final(self).wf(),
            r == old(self)@.admin_gate(auth),
            r is Err ==> *final(self) == *old(self),
            r is Ok ==> final(self)@ == (LaunchpadView { staking_wasm: Some(hash), ..old(self)@ }),
    {
        self.admin_signed(auth)?;
        self.staking_wasm = Some(hash);
        Ok(())
    }

    /// Sets the code hash of revenue splitters; the admin signs.
    pub fn set_splitter_wasm_hash(&mut self, auth: &Auth, hash: Bytes32) -> (r: Result<
        (),
        LaunchpadError,
    >)
        requires
            old(self).wf(),
        ensures
            final(self).wf(),
            r == old(self)@.admin_gate(auth),
            r is Err ==> *final(self) == *old(self),
            r is Ok ==> final(self)@ == (LaunchpadView { splitter_wasm: Some(hash), ..old(self)@ }),
    {
        self.admin_signed(auth)?;
        self.splitter_wasm = Some(hash);
        Ok(())
    }

    /// Approves `token` as a currency for staking rewards and splitters;
    /// the admin signs.
    pub fn add_approved_currency(&mut self, auth: &Auth, token: AccountId) -> (r: Result<
        (),
        LaunchpadError,
    >)
        requires
            old(self).wf(),
        ensures
            final(self).wf(),
            r == old(self)@.admin_gate(auth),
            r is Err ==> *final(self) == *old(self),
            r is Ok ==> final(self)@.currencies.contains(token),
            r is Ok ==> final(self)@ == (LaunchpadView {
                currencies: if old(self)@.currencies.contains(token) {
                    old(self)@.currencies
                } else {
                    old(self)@.currencies.push(token)
                },
                ..old(self)@
            }),
    {
        self.admin_signed(auth)?;
        if !self.currency_approved(token) {
            self.currencies.push(token);
            assert(self.currencies@[self.currencies@.len() - 1] == token);
        }
        Ok(())
    }

    // ---------------------------------------------------------------
    // Queries
    // ---------------------------------------------------------------
    /// The admin.
    pub fn admin(&self) -> (r: Result<AccountId, LaunchpadError>)
        ensures
            r == match self@.admin {
                Some(a) => Ok(a),
                None => Err(LaunchpadError::NotInitialized),
            },
    {
        match self.admin {
            Some(a) => Ok(a),
            None => Err(LaunchpadError::NotInitialized),
        }
    }

    /// The platform fee receiver and amount.
    pub fn platform_fee(&self) -> (r: Result<(AccountId, u32), LaunchpadError>)
        ensures
            r == if self@.initialized() {
                Ok((self@.fee_receiver, self@.fee_bps))
            } else {
                Err(LaunchpadError::NotInitialized)
            },
    {
        if self.admin.is_none() {
            return Err(LaunchpadError::NotInitialized);
        }
        Ok((self.fee_receiver, self.fee_bps))
    }

    /// The token deploy fees are paid in, if any.
    pub fn platform_fee_token(&self) -> (r: Option<AccountId>)
        ensures
            r == self@.fee_token,
    {
        self.fee_token
    }

    /// Whether `token` is an approved currency.
    pub fn is_approved_currency(&self, token: AccountId) -> (r: bool)
        ensures
            r == self@.currencies.contains(token),
    {
        self.currency_approved(token)
    }

    /// The code hash stored for `kind`.
    pub fn wasm_hash(&self, kind: CollectionKind) -> (r: Option<Bytes32>)
        ensures
            r == self@.wasm.spec_for(kind),
    {
        self.wasm.for_kind(kind)
    }

    /// The number of collections deployed through the launchpad.
    pub fn collection_count(&self) -> (r: u64)
        ensures
            r == self@.collections.len(),
    {
        self.collections.len() as u64
    }

    /// All deployed collections, in deploy order.
    pub fn all_collections(&self) -> (r: Vec<CollectionRecord>)
        ensures
            r@ == self@.collections,
    {
        let mut out: Vec<CollectionRecord> = Vec::new();
        let mut i: usize = 0;
        while i < self.collections.len()
            invariant
                0 <= i <= self.collections.len(),
                out@ == self.collections@.subrange(0, i as int),
            decreases self.collections.len() - i,
        {
            out.push(self.collections[i]);
            assert(out@ =~= self.collections@.subrange(0, i + 1));
            i = i + 1;
        }
        assert(out@ =~= self.collections@);
        out
    }

    /// The collections `creator` deployed, in deploy order.
    pub fn collections_by_creator(&self, creator: AccountId) -> (r: Vec<CollectionRecord>)
        ensures
            r@ == self@.by_creator(creator),
    {
        let ghost f = |r: CollectionRecord| r.creator == creator;
        let mut out: Vec<CollectionRecord> = Vec::new();
        let mut i: usize = 0;
        while i < self.collections.len()
            invariant
                0 <= i <= self.collections.len(),
                f == (|r: CollectionRecord| r.creator == creator),
                out@ == self.collections@.subrange(0, i as int).filter(f),
            decreases self.collections.len() - i,
        {
            let rec = self.collections[i];
            proof {
                let pre = self.collections@.subrange(0, i as int);
                assert(self.collections@.subrange(0, i + 1) =~= pre.push(rec));
                pre.lemma_filter_push(rec, f);
            }
            if rec.creator == creator {
                out.push(rec);
            }
            i = i + 1;
        }
        assert(self.collections@.subrange(0, self.collections@.len() as int) =~= self.collections@);
        out
    }

    /// The record of the collection deployed at `address`, if any.
    pub fn get_collection_by_id(&self, address: AccountId) -> (r: Option<CollectionRecord>)
        ensures
            r is None <==> forall|i: int|
                0 <= i < self@.collections.len() ==> #[trigger] self@.collections[i].address
                    != address,
            r matches Some(rec) ==> exists|i: int|
                0 <= i < self@.collections.len() && #[trigger] self@.collections[i] == rec
                    && rec.address == address && forall|j: int|
                    0 <= j < i ==> #[trigger] self@.collections[j].address != address,
    {
        let mut i: usize = 0;
        while i < self.collections.len()
            invariant
                0 <= i <= self.collections.len(),
                forall|j: int| 0 <= j < i ==> #[trigger] self.collections@[j].address != address,
            decreases self.collections.len() - i,
        {
            if self.collections[i].address == address {
                return Some(self.collections[i]);
            }
            i = i + 1;
        }
        None
    }

    /// At most `limit` collections, starting at position `start`.
    pub fn get_collections(&self, start: u32, limit: u32) -> (r: Vec<CollectionRecord>)
        ensures
            ({
                let n = self@.collections.len() as int;
                let lo = if start as int <= n {
                    start as int
                } else {
                    n
                };
                let hi = if start as int + limit as int <= n {
                    start as int + limit as int
                } else {
                    n
                };
                r@ == self@.collections.subrange(lo, hi)
            }),
    {
        let n = self.collections.len();
        let lo: usize = if (start as usize) <= n {
            start as usize
        } else {
            n
        };
        let end: u64 = start as u64 + limit as u64;
        let hi: usize = if end <= n as u64 {
            end as usize
        } else {
            n
        };
        let mut out: Vec<CollectionRecord> = Vec::new();
        let mut i: usize = lo;
        while i < hi
            invariant
                lo <= i <= hi,
                hi <= self.collections.len(),
                out@ == self.collections@.subrange(lo as int, i as int),
            decreases hi - i,
        {
            out.push(self.collections[i]);
            assert(out@ =~= self.collections@.subrange(lo as int, i + 1));
            i = i + 1;
        }
        out
    }

    /// The staking pool deployed for collection `nft`, if any.
    pub fn get_staking_pool(&self, nft: AccountId) -> (r: Option<AccountId>)
        ensures
            r == (if self@.staking_pools.contains_key(nft) {
                Some(self@.staking_pools[nft])
            } else {
                None
            }),
    {
        match self.staking_pools.get(&nft) {
            Some(p) => Some(*p),
            None => None,
        }
    }

    // ---------------------------------------------------------------
    // Deploys
    // ---------------------------------------------------------------
    /// Decides a collection deploy: the creator signs, the launchpad is
    /// initialised, the name is not empty, a symbol is at most
    /// `MAX_SYMBOL_LEN` bytes, the kind's code hash is set and the creator
    /// has not used the salt before. Nothing changes here: the host
    /// collects the fee, deploys and initialises the collection, and then
    /// `record_deploy` registers it; a failure on the way registers nothing.
    pub fn deploy(&self, auth: &Auth, req: &DeployRequest) -> (r: Result<DeployPlan, LaunchpadError>)
        ensures
            r is Ok <==> self@.deploy_outcome(auth, req) is Ok,
            r matches Err(e) ==> self@.deploy_outcome(auth, req) == Err::<(), LaunchpadError>(e),
            r matches Ok(p) ==> p == self@.deploy_plan(req),
    {
        if !auth.has_signed(req.creator) {
            return Err(LaunchpadError::Unauthorized);
        }
        if self.admin.is_none() {
            return Err(LaunchpadError::NotInitialized);
        }
        if req.name.as_str().is_empty() {
            return Err(LaunchpadError::EmptyName);
        }
        match &req.symbol {
            Some(sym) => {
                if sym.as_str().len() > MAX_SYMBOL_LEN {
                    return Err(LaunchpadError::SymbolTooLong);
                }
            },
            None => {},
        }
        let wasm_hash = match self.wasm.for_kind(req.kind) {
            Some(h) => h,
            None => {
                return Err(LaunchpadError::WasmHashNotSet);
            },
        };
        if self.key_used(req.creator, &req.salt) {
            return Err(LaunchpadError::SaltAlreadyUsed);
        }
        let fee = match self.fee_token {
            Some(token) => {
                if self.fee_bps > 0 {
                    Some(
                        FeeCharge {
                            token,
                            from: req.creator,
                            to: self.fee_receiver,
                            amount: self.fee_bps,
                        },
                    )
                } else {
                    None
                }
            },
            None => None,
        };
        let symbol = match &req.symbol {
            Some(sym) => Some(sym.clone()),
            None => None,
        };
        let init = CollectionInit {
            creator: req.creator,
            name: req.name.clone(),
            symbol,
            max_supply: req.max_supply,
            royalty_bps: req.royalty_bps,
            royalty_receiver: req.royalty_receiver,
            creator_pubkey: req.creator_pubkey,
        };
        Ok(DeployPlan { kind: req.kind, creator: req.creator, salt: req.salt, wasm_hash, fee, init })
    }

    /// Registers the collection deployed at `address` for `req`. The
    /// request is held to the deploy rules again, on the same state
    /// `deploy` saw, so only a request `deploy` accepts is registered.
    pub fn record_deploy(&mut self, auth: &Auth, req: &DeployRequest, address: AccountId) -> (r:
        Result<CollectionRecord, LaunchpadError>)
        requires
            old(self).wf(),
        ensures
            final(self).wf(),
            r is Ok <==> old(self)@.deploy_outcome(auth, req) is Ok,
            r matches Err(e) ==> old(self)@.deploy_outcome(auth, req) == Err::<
                (),
                LaunchpadError,
            >(e) && *final(self) == *old(self),
            r is Ok ==> {
                let rec = CollectionRecord { address, kind: req.kind, creator: req.creator };
                &&& r == Ok::<CollectionRecord, LaunchpadError>(rec)
                &&& final(self)@.key_used(req.creator, req.salt@)
                &&& final(self)@ == (LaunchpadView {
                    collections: old(self)@.collections.push(rec),
                    deploy_keys: old(self)@.deploy_keys.push((req.creator, req.salt@)),
                    ..old(self)@
                })
            },
    {
        match self.deploy(auth, req) {
            Err(e) => {
                return Err(e);
            },
            Ok(_) => {},
        }
        let ghost prev = self@;
        let ghost prev_keys = self.deploy_keys@;
        let rec = CollectionRecord { address, kind: req.kind, creator: req.creator };
        self.collections.push(rec);
        self.deploy_keys.push((req.creator, req.salt));
        proof {
            let g = |k: (AccountId, Bytes32)| (k.0, k.1@);
            assert(self.deploy_keys@ == prev_keys.push((req.creator, req.salt)));
            assert(self.deploy_keys@.map_values(g) =~= prev_keys.map_values(g).push(
                (req.creator, req.salt@),
            ));
            let keys = self@.deploy_keys;
            assert(keys[keys.len() - 1] == (req.creator, req.salt@));
        }
        Ok(rec)
    }

    /// Decides a normal single-token collection deploy.
    pub fn deploy_normal_721(
        &self,
        auth: &Auth,
        creator: AccountId,
        name: String,
        symbol: String,
        max_supply: u64,
        royalty_bps: u32,
        royalty_receiver: AccountId,
        salt: Bytes32,
    ) -> (r: Result<DeployPlan, LaunchpadError>)
        ensures
            ({
                let req = DeployRequest {
                    kind: CollectionKind::Normal721,
                    creator,
                    creator_pubkey: None,
                    name,
                    symbol: Some(symbol),
                    max_supply: Some(max_supply),
                    royalty_bps,
                    royalty_receiver,
                    salt,
                };
                &&& r is Ok <==> self@.deploy_outcome(auth, &req) is Ok
                &&& r matches Err(e) ==> self@.deploy_outcome(auth, &req) == Err::<
                    (),
                    LaunchpadError,
                >(e)
                &&& r matches Ok(p) ==> p == self@.deploy_plan(&req)
            }),
    {
        let req = DeployRequest::normal_721(
            creator,
            name,
            symbol,
            max_supply,
            royalty_bps,
            royalty_receiver,
            salt,
        );
        self.deploy(auth, &req)
    }

    /// Decides a normal multi-token collection deploy.
    pub fn deploy_normal_1155(
        &self,
        auth: &Auth,
        creator: AccountId,
        name: String,
        royalty_bps: u32,
        royalty_receiver: AccountId,
        salt: Bytes32,
    ) -> (r: Result<DeployPlan, LaunchpadError>)
        ensures
            ({
                let req = DeployRequest {
                    kind: CollectionKind::Normal1155,
                    creator,
                    creator_pubkey: None,
                    name,
                    symbol: None,
                    max_supply: None,
                    royalty_bps,
                    royalty_receiver,
                    salt,
                };
                &&& r is Ok <==> self@.deploy_outcome(auth, &req) is Ok
                &&& r matches Err(e) ==> self@.deploy_outcome(auth, &req) == Err::<
                    (),
                    LaunchpadError,
                >(e)
                &&& r matches Ok(p) ==> p == self@.deploy_plan(&req)
            }),
    {
        let req = DeployRequest::normal_1155(creator, name, royalty_bps, royalty_receiver, salt);
        self.deploy(auth, &req)
    }

    /// Decides a lazily minted single-token collection deploy.
    pub fn deploy_lazy_721(
        &self,
        auth: &Auth,
        creator: AccountId,
        creator_pubkey: Bytes32,
        name: String,
        symbol: String,
        max_supply: u64,
        royalty_bps: u32,
        royalty_receiver: AccountId,
        salt: Bytes32,
    ) -> (r: Result<DeployPlan, LaunchpadError>)
        ensures
            ({
                let req = DeployRequest {
                    kind: CollectionKind::LazyMint721,
                    creator,
                    creator_pubkey: Some(creator_pubkey),
                    name,
                    symbol: Some(symbol),
                    max_supply: Some(max_supply),
                    royalty_bps,
                    royalty_receiver,
                    salt,
                };
                &&& r is Ok <==> self@.deploy_outcome(auth, &req) is Ok
                &&& r matches Err(e) ==> self@.deploy_outcome(auth, &req) == Err::<
                    (),
                    LaunchpadError,
                >(e)
                &&& r matches Ok(p) ==> p == self@.deploy_plan(&req)
            }),
    {
        let req = DeployRequest::lazy_721(
            creator,
            creator_pubkey,
            name,
            symbol,
            max_supply,
            royalty_bps,
            royalty_receiver,
            salt,
        );
        self.deploy(auth, &req)
    }

    /// Decides a lazily minted multi-token collection deploy.
    pub fn deploy_lazy_1155(
        &self,
        auth: &Auth,
        creator: AccountId,
        creator_pubkey: Bytes32,
        name: String,
        royalty_bps: u32,
        royalty_receiver: AccountId,
        salt: Bytes32,
    ) -> (r: Result<DeployPlan, LaunchpadError>)
        ensures
            ({
                let req = DeployRequest {
                    kind: CollectionKind::LazyMint1155,
                    creator,
                    creator_pubkey: Some(creator_pubkey),
                    name,
                    symbol: None,
                    max_supply: None,
                    royalty_bps,
                    royalty_receiver,
                    salt,
                };
                &&& r is Ok <==> self@.deploy_outcome(auth, &req) is Ok
                &&& r matches Err(e) ==> self@.deploy_outcome(auth, &req) == Err::<
                    (),
                    LaunchpadError,
                >(e)
                &&& r matches Ok(p) ==> p == self@.deploy_plan(&req)
            }),
    {
        let req = DeployRequest::lazy_1155(
            creator,
            creator_pubkey,
            name,
            royalty_bps,
            royalty_receiver,
            salt,
        );
        self.deploy(auth, &req)
    }

    /// Decides a staking-pool deploy for collection `nft`: the creator
    /// signs, the reward token is an approved currency, the collection has
    /// no pool yet and the staking code hash is set.
    pub fn deploy_staking_pool(
        &self,
        auth: &Auth,
        creator: AccountId,
        nft: AccountId,
        reward_token: AccountId,
        reward_rate: i128,
        salt: Bytes32,
    ) -> (r: Result<StakingPlan, LaunchpadError>)
        ensures
            r is Ok <==> self@.staking_outcome(auth, creator, nft, reward_token) is Ok,
            r matches Err(e) ==> self@.staking_outcome(auth, creator, nft, reward_token) == Err::<
                (),
                LaunchpadError,
            >(e),
            r matches Ok(p) ==> p == (StakingPlan {
                creator,
                nft,
                reward_token,
                reward_rate,
                salt,
                wasm_hash: self@.staking_wasm->0,
            }),
    {
        if !auth.has_signed(creator) {
            return Err(LaunchpadError::Unauthorized);
        }
        if self.admin.is_none() {
            return Err(LaunchpadError::NotInitialized);
        }
        if !self.currency_approved(reward_token) {
            return Err(LaunchpadError::InvalidCurrency);
        }
        if self.staking_pools.contains_key(&nft) {
            return Err(LaunchpadError::StakingPoolAlreadyExists);
        }
        match self.staking_wasm {
            None => Err(LaunchpadError::WasmHashNotSet),
            Some(wasm_hash) => Ok(
                StakingPlan { creator, nft, reward_token, reward_rate, salt, wasm_hash },
            ),
        }
    }

    /// Registers the staking pool deployed at `pool` for `plan`. The plan's
    /// request is held to the staking rules again, on the same state
    /// `deploy_staking_pool` saw, so only a pool that call accepts is
    /// registered, and a collection keeps its first pool.
    pub fn record_staking_pool(&mut self, auth: &Auth, plan: &StakingPlan, pool: AccountId) -> (r:
        Result<(), LaunchpadError>)
        requires
            old(self).wf(),
        ensures
            final(self).wf(),
            r is Ok <==> old(self)@.staking_outcome(auth, plan.creator, plan.nft, plan.reward_token)
                is Ok,
            r matches Err(e) ==> old(self)@.staking_outcome(
                auth,
                plan.creator,
                plan.nft,
                plan.reward_token,
            ) == Err::<(), LaunchpadError>(e) && *final(self) == *old(self),
            r is Ok ==> final(self)@ == (LaunchpadView {
                staking_pools: old(self)@.staking_pools.insert(plan.nft, pool),
                ..old(self)@
            }),
    {
        match self.deploy_staking_pool(
            auth,
            plan.creator,
            plan.nft,
            plan.reward_token,
            plan.reward_rate,
            plan.salt,
        ) {
            Err(e) => {
                return Err(e);
            },
            Ok(_) => {},
        }
        self.staking_pools.insert(plan.nft, pool);
        Ok(())
    }

    /// Decides a revenue-splitter deploy: the creator signs, the currency
    /// is approved and the splitter code hash is set.
    pub fn deploy_splitter(
        &self,
        auth: &Auth,
        creator: AccountId,
        currency: AccountId,
        beneficiaries: Vec<AccountId>,
        shares: Vec<u32>,
        salt: Bytes32,
    ) -> (r: Result<SplitterPlan, LaunchpadError>)
        ensures
            r is Ok <==> self@.splitter_outcome(auth, creator, currency) is Ok,
            r matches Err(e) ==> self@.splitter_outcome(auth, creator, currency) == Err::<
                (),
                LaunchpadError,
            >(e),
            r matches Ok(p) ==> {
                &&& p.creator == creator
                &&& p.currency == currency
                &&& p.beneficiaries@ == beneficiaries@
                &&& p.shares@ == shares@
                &&& p.salt == salt
                &&& p.wasm_hash == self@.splitter_wasm->0
            },
    {
        if !auth.has_signed(creator) {
            return Err(LaunchpadError::Unauthorized);
        }
        if self.admin.is_none() {
            return Err(LaunchpadError::NotInitialized);
        }
        if !self.currency_approved(currency) {
            return Err(LaunchpadError::InvalidCurrency);
        }
        match self.splitter_wasm {
            None => Err(LaunchpadError::WasmHashNotSet),
            Some(wasm_hash) => Ok(
                SplitterPlan { creator, currency, beneficiaries, shares, salt, wasm_hash },
            ),
        }
    }
}

impl DeployRequest {
    /// A request for a normal single-token collection.
    pub fn normal_721(
        creator: AccountId,
        name: String,
        symbol: String,
        max_supply: u64,
        royalty_bps: u32,
        royalty_receiver: AccountId,
        salt: Bytes32,
    ) -> (r: Self)
        ensures
            r == (DeployRequest {
                kind: CollectionKind::Normal721,
                creator,
                creator_pubkey: None,
                name,
                symbol: Some(symbol),
                max_supply: Some(max_supply),
                royalty_bps,
                royalty_receiver,
                salt,
            }),
    {
        DeployRequest {
            kind: CollectionKind::Normal721,
            creator,
            creator_pubkey: None,
            name,
            symbol: Some(symbol),
            max_supply: Some(max_supply),
            royalty_bps,
            royalty_receiver,
            salt,
        }
    }

    /// A request for a normal multi-token collection.
    pub fn normal_1155(
        creator: AccountId,
        name: String,
        royalty_bps: u32,
        royalty_receiver: AccountId,
        salt: Bytes32,
    ) -> (r: Self)
        ensures
            r == (DeployRequest {
                kind: CollectionKind::Normal1155,
                creator,
                creator_pubkey: None,
                name,
                symbol: None,
                max_supply: None,
                royalty_bps,
                royalty_receiver,
                salt,
            }),
    {
        DeployRequest {
            kind: CollectionKind::Normal1155,
            creator,
            creator_pubkey: None,
            name,
            symbol: None,
            max_supply: None,
            royalty_bps,
            royalty_receiver,
            salt,
        }
    }

    /// A request for a lazily minted single-token collection.
    pub fn lazy_721(
        creator: AccountId,
        creator_pubkey: Bytes32,
        name: String,
        symbol: String,
        max_supply: u64,
        royalty_bps: u32,
        royalty_receiver: AccountId,
        salt: Bytes32,
    ) -> (r: Self)
        ensures
            r == (DeployRequest {
                kind: CollectionKind::LazyMint721,
                creator,
                creator_pubkey: Some(creator_pubkey),
                name,
                symbol: Some(symbol),
                max_supply: Some(max_supply),
                royalty_bps,
                royalty_receiver,
                salt,
            }),
    {
        DeployRequest {
            kind: CollectionKind::LazyMint721,
            creator,
            creator_pubkey: Some(creator_pubkey),
            name,
            symbol: Some(symbol),
            max_supply: Some(max_supply),
            royalty_bps,
            royalty_receiver,
            salt,
        }
    }

    /// A request for a lazily minted multi-token collection.
    pub fn lazy_1155(
        creator: AccountId,
        creator_pubkey: Bytes32,
        name: String,
        royalty_bps: u32,
        royalty_receiver: AccountId,
        salt: Bytes32,
    ) -> (r: Self)
        ensures
            r == (DeployRequest {
                kind: CollectionKind::LazyMint1155,
                creator,
                creator_pubkey: Some(creator_pubkey),
                name,
                symbol: None,
                max_supply: None,
                royalty_bps,
                royalty_receiver,
                salt,
            }),
    {
        DeployRequest {
            kind: CollectionKind::LazyMint1155,
            creator,
            creator_pubkey: Some(creator_pubkey),
            name,
            symbol: None,
            max_supply: None,
            royalty_bps,
            royalty_receiver,
            salt,
        }
    }

    /// The request for the kind with numeric code `kind`, from one set of
    /// arguments: the multi-token kinds drop `symbol` and `max_supply`,
    /// the lazily minted kinds take `creator_pubkey`.
    pub fn for_kind_code(
        kind: u8,
        creator: AccountId,
        creator_pubkey: Bytes32,
        name: String,
        symbol: String,
        max_supply: u64,
        royalty_bps: u32,
        royalty_receiver: AccountId,
        salt: Bytes32,
    ) -> (r: Self)
        ensures
            r.kind == spec_kind_of_code(kind),
            r.creator == creator,
            r.name == name,
            r.royalty_bps == royalty_bps,
            r.royalty_receiver == royalty_receiver,
            r.salt == salt,
            r.creator_pubkey == if r.kind.spec_is_lazy() {
                Some(creator_pubkey)
            } else {
                None
            },
            r.symbol == if r.kind.spec_is_721() {
                Some(symbol)
            } else {
                None
            },
            r.max_supply == if r.kind.spec_is_721() {
                Some(max_supply)
            } else {
                None
            },
    {
        match kind_of_code(kind) {
            CollectionKind::Normal721 => DeployRequest::normal_721(
                creator,
                name,
                symbol,
                max_supply,
                royalty_bps,
                royalty_receiver,
                salt,
            ),
            CollectionKind::Normal1155 => DeployRequest::normal_1155(
                creator,
                name,
                royalty_bps,
                royalty_receiver,
                salt,
            ),
            CollectionKind::LazyMint721 => DeployRequest::lazy_721(
                creator,
                creator_pubkey,
                name,
                symbol,
                max_supply,
                royalty_bps,
                royalty_receiver,
                salt,
            ),
            CollectionKind::LazyMint1155 => DeployRequest::lazy_1155(
                creator,
                creator_pubkey,
                name,
                royalty_bps,
                royalty_receiver,
                salt,
            ),
        }
    }
}

} // verus!
