use vstd::prelude::*;

use std::collections::HashMap;

use crate::common::{AccountId, Auth};
use crate::launchpad::CollectionInit;
use crate::ledger::{
    count_live, count_owned, lemma_count_bounds, lemma_count_owned_positive, lemma_count_push,
    lemma_count_update,
};

verus! {

broadcast use vstd::std_specs::hash::group_hash_axioms;

/// Errors of a non-fungible token collection.
#[derive(Clone, Copy, Debug, PartialEq, Eq, Structural)]
pub enum CollectionError {
    AlreadyInitialized,
    NotInitialized,
    NotOwner,
    NotApproved,
    TokenNotFound,
    MaxSupplyReached,
    /// The account whose signature the operation needs has not signed.
    Unauthorized,
}

/// The settings a collection is initialised with.
#[derive(Debug)]
pub struct CollectionConfig {
    pub creator: AccountId,
    pub name: String,
    pub symbol: String,
    pub max_supply: u64,
    pub royalty_bps: u32,
    pub royalty_receiver: AccountId,
}

/// A non-fungible token collection: token ids are handed out in order
/// from 0, each live token has one owner, and owners may approve one
/// spender per token or an operator for all their tokens.
pub struct Collection721 {
    config: Option<CollectionConfig>,
    /// Slot `i` holds the owner of token `i`, or `None` once it is burnt.
    owners: Vec<Option<AccountId>>,
    uris: Vec<String>,
    approvals: Vec<Option<AccountId>>,
    balances: HashMap<AccountId, u64>,
    /// Pairs `(owner, operator)`.
    operators: Vec<(AccountId, AccountId)>,
    total_supply: u64,
}

impl Collection721 {
    // ---------------------------------------------------------------
    // Model
    // ---------------------------------------------------------------
    /// The configuration, once initialised.
    pub closed spec fn cfg(&self) -> Option<CollectionConfig> {
        self.config
    }

    pub open spec fn initialized(&self) -> bool {
        self.cfg() is Some
    }

    /// The owner slot of every token id handed out so far.
    pub closed spec fn tokens(&self) -> Seq<Option<AccountId>> {
        self.owners@
    }

    /// The number of token ids handed out so far: the next id.
    pub open spec fn minted(&self) -> nat {
        self.tokens().len()
    }

    /// The owner of token `t`, if it exists.
    pub open spec fn owner_at(&self, t: int) -> Option<AccountId> {
        if 0 <= t < self.minted() {
            self.tokens()[t]
        } else {
            None
        }
    }

    /// The metadata uri recorded for token `t` when it was minted.
    pub closed spec fn uri_at(&self, t: int) -> String {
        self.uris@[t]
    }

    /// The single-token approval of token `t`.
    pub closed spec fn approved_at(&self, t: int) -> Option<AccountId> {
        if 0 <= t < self.approvals@.len() {
            self.approvals@[t]
        } else {
            None
        }
    }

    /// `operator` may act for all tokens of `owner`.
    pub closed spec fn operator_pair(&self, owner: AccountId, operator: AccountId) -> bool {
        self.operators@.contains((owner, operator))
    }

    /// The stored balance of `a`.
    pub closed spec fn balance_at(&self, a: AccountId) -> nat {
        if self.balances@.contains_key(a) {
            self.balances@[a] as nat
        } else {
            0
        }
    }

    /// The stored total supply.
    pub closed spec fn supply(&self) -> nat {
        self.total_supply as nat
    }

    /// Internal consistency: balances and supply agree with the owners,
    /// approvals exist only for live tokens, and no more ids were handed
    /// out than the maximum supply allows.
    pub closed spec fn wf(&self) -> bool {
        &&& self.owners@.len() == self.uris@.len()
        &&& self.owners@.len() == self.approvals@.len()
        &&& self.owners@.len() <= u64::MAX
        &&& self.total_supply == count_live(self.owners@)
        &&& forall|a: AccountId| #[trigger] self.balance_at(a) == count_owned(self.owners@, a)
        &&& forall|i: int|
            0 <= i < self.approvals@.len() && (#[trigger] self.approvals@[i]) is Some
                ==> self.owners@[i] is Some
        &&& self.config is None ==> self.owners@.len() == 0
        &&& self.config is Some ==> self.owners@.len() <= self.config->0.max_supply
    }

    /// `caller` may move or burn token `t` on behalf of its owner.
    pub open spec fn may_manage(&self, caller: AccountId, t: int) -> bool {
        &&& self.owner_at(t) is Some
        &&& {
            ||| self.owner_at(t) == Some(caller)
            ||| self.approved_at(t) == Some(caller)
            ||| self.operator_pair(self.owner_at(t)->0, caller)
        }
    }

    /// `caller` may set the single-token approval of token `t`.
    pub open spec fn may_approve(&self, caller: AccountId, t: int) -> bool {
        &&& self.owner_at(t) is Some
        &&& {
            ||| self.owner_at(t) == Some(caller)
            ||| self.operator_pair(self.owner_at(t)->0, caller)
        }
    }

    /// `caller` may burn token `t`: burning goes by the token's explicit
    /// approval or by an operator of the owner, not by ownership alone.
    pub open spec fn may_burn(&self, caller: AccountId, t: int) -> bool {
        &&& self.owner_at(t) is Some
        &&& {
            ||| self.approved_at(t) == Some(caller)
            ||| self.operator_pair(self.owner_at(t)->0, caller)
        }
    }

    /// Everything but the configuration is as in `other`.
    pub open spec fn same_tokens(&self, other: &Self) -> bool {
        &&& self.tokens() == other.tokens()
        &&& forall|t: int| #[trigger] self.approved_at(t) == other.approved_at(t)
        &&& forall|t: int| #[trigger] self.uri_at(t) == other.uri_at(t)
        &&& forall|a: AccountId| #[trigger] self.balance_at(a) == other.balance_at(a)
        &&& forall|o: AccountId, p: AccountId| #[trigger]
            self.operator_pair(o, p) == other.operator_pair(o, p)
        &&& self.supply() == other.supply()
    }

    /// The token state proper, field by field, is as in `other`.
    closed spec fn same_token_fields(&self, other: &Self) -> bool {
        &&& self.owners == other.owners
        &&& self.uris == other.uris
        &&& self.approvals == other.approvals
        &&& self.balances == other.balances
        &&& self.operators == other.operators
        &&& self.total_supply == other.total_supply
    }

    /// Consistency survives a change that leaves the token state alone
    /// and keeps the supply bound.
    proof fn lemma_wf_frame(&self, prev: &Self)
        requires
            prev.wf(),
            self.same_token_fields(prev),
            self.config is None ==> self.owners@.len() == 0,
            self.config is Some ==> self.owners@.len() <= self.config->0.max_supply,
        ensures
            self.wf(),
            self.same_tokens(prev),
    {
        assert forall|a: AccountId| #[trigger] self.balance_at(a) == count_owned(self.owners@, a) by {
            assert(prev.balance_at(a) == count_owned(prev.owners@, a));
        }
    }

    // ---------------------------------------------------------------
    // Laws
    // ---------------------------------------------------------------
    /// The balance of every account is the number of live tokens it owns.
    pub proof fn law_balance_counts_owned_tokens(&self, a: AccountId)
        requires
            self.wf(),
        ensures
            self.balance_at(a) == count_owned(self.tokens(), a),
    {
    }

    /// The total supply is the number of live tokens, and never exceeds
    /// the number of ids handed out nor the maximum supply.
    pub proof fn law_supply_counts_live_tokens(&self)
        requires
            self.wf(),
        ensures
            self.supply() == count_live(self.tokens()),
            self.supply() <= self.minted(),
            self.initialized() ==> self.minted() <= self.cfg()->0.max_supply,
    {
        lemma_count_bounds(self.owners@, 0);
    }

    /// Nobody holds more tokens than the total supply, and the owner of a
    /// live token has a positive balance.
    pub proof fn law_owner_balance_positive(&self, a: AccountId, t: int)
        requires
            self.wf(),
        ensures
            self.balance_at(a) <= self.supply(),
            self.owner_at(t) == Some(a) ==> self.balance_at(a) >= 1,
    {
        lemma_count_bounds(self.owners@, a);
        if self.owner_at(t) == Some(a) {
            lemma_count_owned_positive(self.owners@, t, a);
        }
    }

    /// After a token moved, it belongs to its receiver, carries no
    /// single-token approval, and the supply is unchanged.
    pub proof fn law_moved_token_belongs_to_receiver(
        &self,
        prev: &Self,
        t: int,
        from: AccountId,
        to: AccountId,
    )
        requires
            prev.wf(),
            prev.owner_at(t) == Some(from),
            self.moved_from(prev, t, from, to),
        ensures
            self.owner_at(t) == Some(to),
            self.approved_at(t) is None,
            self.supply() == prev.supply(),
            self.minted() == prev.minted(),
            forall|s: int| s != t ==> #[trigger] self.owner_at(s) == prev.owner_at(s),
    {
    }

    /// After a token is burnt it has no owner, its id stays spent, and the
    /// other tokens keep their owners.
    pub proof fn law_burnt_token_is_gone(&self, prev: &Self, t: int, owner: AccountId)
        requires
            prev.wf(),
            prev.owner_at(t) == Some(owner),
            self.burnt_from(prev, t, owner),
        ensures
            self.owner_at(t) is None,
            self.minted() == prev.minted(),
            forall|s: int| s != t ==> #[trigger] self.owner_at(s) == prev.owner_at(s),
    {
    }

    /// Only a live token can carry a single-token approval.
    /// Only the owner of a token, or an operator of its owner, sets the
    /// token's approval: an accepted `approve` had such a caller, and a
    /// signed caller who is neither is refused as `NotApproved`, even one
    /// holding the token's own approval.
    pub proof fn law_only_owner_or_operator_approves(
        c: &Self,
        auth: &Auth,
        caller: AccountId,
        t: int,
    )
        ensures
            Self::approve_outcome(c, auth, caller, t) is Ok ==> c.owner_at(t) is Some && (c.owner_at(t)
                == Some(caller) || c.operator_pair(c.owner_at(t)->0, caller)),
            c.initialized() && auth.signed(caller) && c.owner_at(t) is Some && c.owner_at(t) != Some(
                caller,
            ) && !c.operator_pair(c.owner_at(t)->0, caller) ==> Self::approve_outcome(
                c,
                auth,
                caller,
                t,
            ) == Err::<(), CollectionError>(CollectionError::NotApproved),
            c.initialized() && auth.signed(caller) && (c.owner_at(t) == Some(caller) || (c.owner_at(
                t,
            ) is Some && c.operator_pair(c.owner_at(t)->0, caller))) ==> Self::approve_outcome(
                c,
                auth,
                caller,
                t,
            ) is Ok,
    {
    }

    /// Who moves, burns and mints: a transfer needs the owner's
    /// signature; a transfer on someone's behalf needs the owner, the
    /// token's approved spender or an operator of the owner; a burn needs
    /// the token's approved spender or an operator, ownership alone is not
    /// enough; a mint needs the creator and room below the maximum supply
    /// and hands out the next id.
    pub proof fn law_who_acts_on_a_token(
        c: &Self,
        auth: &Auth,
        caller: AccountId,
        from: AccountId,
        t: int,
    )
        ensures
            Self::transfer_outcome(c, auth, from, t) is Ok <==> (c.initialized() && auth.signed(from)
                && c.owner_at(t) == Some(from)),
            Self::transfer_from_outcome(c, auth, caller, from, t) is Ok <==> (c.initialized()
                && auth.signed(caller) && c.owner_at(t) == Some(from) && (caller == from
                || c.approved_at(t) == Some(caller) || c.operator_pair(from, caller))),
            Self::burn_outcome(c, auth, caller, t) is Ok <==> (c.initialized() && auth.signed(caller)
                && c.owner_at(t) is Some && (c.approved_at(t) == Some(caller) || c.operator_pair(
                c.owner_at(t)->0,
                caller,
            ))),
            c.initialized() && auth.signed(caller) && c.owner_at(t) == Some(caller)
                && c.approved_at(t) != Some(caller) && !c.operator_pair(caller, caller)
                ==> Self::burn_outcome(c, auth, caller, t) == Err::<(), CollectionError>(
                CollectionError::NotApproved,
            ),
            Self::mint_outcome(c, auth) matches Ok(id) ==> c.initialized() && auth.signed(
                c.cfg()->0.creator,
            ) && c.minted() < c.cfg()->0.max_supply && id == c.minted(),
            c.initialized() && auth.signed(c.cfg()->0.creator) && c.minted() < c.cfg()->0.max_supply
                ==> Self::mint_outcome(c, auth) is Ok,
            Self::owner_gate(c, auth, from) is Ok <==> (c.initialized() && auth.signed(from)),
    {
    }

    pub proof fn law_approval_only_for_live_tokens(&self, t: int)
        requires
            self.wf(),
        ensures
            self.approved_at(t) is Some ==> self.owner_at(t) is Some,
    {
    }

    // ---------------------------------------------------------------
    // Internal helpers
    // ---------------------------------------------------------------
    fn get_balance(&self, a: AccountId) -> (r: u64)
        ensures
            r == self.balance_at(a),
    {
        match self.balances.get(&a) {
            Some(v) => *v,
            None => 0,
        }
    }

    fn find_operator(&self, owner: AccountId, operator: AccountId) -> (r: bool)
        ensures
            r == self.operator_pair(owner, operator),
    {
        let mut i: usize = 0;
        while i < self.operators.len()
            invariant
                0 <= i <= self.operators.len(),
                forall|j: int| 0 <= j < i ==> self.operators@[j] != (owner, operator),
            decreases self.operators.len() - i,
        {
            let p = self.operators[i];
            if p.0 == owner && p.1 == operator {
                assert(self.operators@[i as int] == (owner, operator));
                return true;
            }
            i = i + 1;
        }
        false
    }

    /// The owner of an existing token, by index.
    fn owner_slot(&self, token_id: u64) -> (r: Option<AccountId>)
        requires
            self.wf(),
        ensures
            r == self.owner_at(token_id as int),
    {
        if token_id < self.owners.len() as u64 {
            self.owners[token_id as usize]
        } else {
            None
        }
    }

    fn approval_slot(&self, token_id: u64) -> (r: Option<AccountId>)
        requires
            self.wf(),
        ensures
            r == self.approved_at(token_id as int),
    {
        if token_id < self.approvals.len() as u64 {
            self.approvals[token_id as usize]
        } else {
            None
        }
    }

    fn creator_signed(&self, auth: &Auth) -> (r: bool)
        requires
            self.initialized(),
        ensures
            r == auth.signed(self.cfg()->0.creator),
    {
        match &self.config {
            Some(c) => auth.has_signed(c.creator),
            None => false,
        }
    }

    // ---------------------------------------------------------------
    // Construction and configuration
    // ---------------------------------------------------------------
    /// A collection that has not been initialised yet.
    pub fn new() -> (r: Self)
        ensures
            r.wf(),
            !r.initialized(),
            r.minted() == 0,
            r.supply() == 0,
            forall|a: AccountId| #[trigger] r.balance_at(a) == 0,
            forall|o: AccountId, p: AccountId| !#[trigger] r.operator_pair(o, p),
    {
        let r = Collection721 {
            config: None,
            owners: Vec::new(),
            uris: Vec::new(),
            approvals: Vec::new(),
            balances: HashMap::new(),
            operators: Vec::new(),
            total_supply: 0,
        };
        assert forall|a: AccountId| #[trigger] r.balance_at(a) == count_owned(r.owners@, a) by {}
        r
    }

    /// A collection initialised with the settings of a deploy plan, as the
    /// launchpad's deploy leaves it.
    pub fn from_init(init: CollectionInit) -> (r: Self)
        requires
            init.symbol is Some,
            init.max_supply is Some,
        ensures
            r.wf(),
            r.cfg() == Some(
                CollectionConfig {
                    creator: init.creator,
                    name: init.name,
                    symbol: init.symbol->0,
                    max_supply: init.max_supply->0,
                    royalty_bps: init.royalty_bps,
                    royalty_receiver: init.royalty_receiver,
                },
            ),
            r.minted() == 0,
            r.supply() == 0,
            forall|a: AccountId| #[trigger] r.balance_at(a) == 0,
            forall|o: AccountId, p: AccountId| !#[trigger] r.operator_pair(o, p),
    {
        let symbol = match init.symbol {
            Some(sym) => sym,
            None => String::new(),
        };
        let max_supply = match init.max_supply {
            Some(m) => m,
            None => 0,
        };
        let mut r = Collection721::new();
        let _ = r.initialize(
            init.creator,
            init.name,
            symbol,
            max_supply,
            init.royalty_bps,
            init.royalty_receiver,
        );
        r
    }

    /// Sets the collection up once; a second call is refused.
    pub fn initialize(
        &mut self,
        creator: AccountId,
        name: String,
        symbol: String,
        max_supply: u64,
        royalty_bps: u32,
        royalty_receiver: AccountId,
    ) -> (r: Result<(), CollectionError>)
        requires
            old(self).wf(),
        ensures
            final(self).wf(),
            old(self).initialized() ==> r == Err::<(), CollectionError>(
                CollectionError::AlreadyInitialized,
            ) && *final(self) == *old(self),
            !old(self).initialized() ==> {
                &&& r is Ok
                &&& final(self).cfg() == Some(
                    CollectionConfig {
                        creator,
                        name,
                        symbol,
                        max_supply,
                        royalty_bps,
                        royalty_receiver,
                    },
                )
                &&& final(self).same_tokens(old(self))
            },
    {
        if self.config.is_some() {
            return Err(CollectionError::AlreadyInitialized);
        }
        let ghost prev = *self;
        self.config = Some(
            CollectionConfig { creator, name, symbol, max_supply, royalty_bps, royalty_receiver },
        );
        proof {
            self.lemma_wf_frame(&prev);
        }
        Ok(())
    }

    /// Hands the creator role to `new_creator`; the current creator signs.
    pub fn transfer_ownership(&mut self, auth: &Auth, new_creator: AccountId) -> (r: Result<
        (),
        CollectionError,
    >)
        requires
            old(self).wf(),
        ensures
            final(self).wf(),
            r == Self::creator_gate(old(self), auth),
            r is Err ==> *final(self) == *old(self),
            r is Ok ==> {
                &&& final(self).cfg() == Some(
                    CollectionConfig { creator: new_creator, ..old(self).cfg()->0 },
                )
                &&& final(self).same_tokens(old(self))
            },
    {
        if self.config.is_none() {
            return Err(CollectionError::NotInitialized);
        }
        if !self.creator_signed(auth) {
            return Err(CollectionError::Unauthorized);
        }
        let ghost prev = *self;
        match &mut self.config {
            Some(c) => {
                c.creator = new_creator;
            },
            None => {},
        }
        proof {
            self.lemma_wf_frame(&prev);
        }
        Ok(())
    }

    /// Sets the royalty receiver and rate; the creator signs.
    pub fn update_royalty(&mut self, auth: &Auth, receiver: AccountId, bps: u32) -> (r: Result<
        (),
        CollectionError,
    >)
        requires
            old(self).wf(),
        ensures
            final(self).wf(),
            r == Self::creator_gate(old(self), auth),
            r is Err ==> *final(self) == *old(self),
            r is Ok ==> {
                &&& final(self).cfg() == Some(
                    CollectionConfig {
                        royalty_receiver: receiver,
                        royalty_bps: bps,
                        ..old(self).cfg()->0
                    },
                )
                &&& final(self).same_tokens(old(self))
            },
    {
        if self.config.is_none() {
            return Err(CollectionError::NotInitialized);
        }
        if !self.creator_signed(auth) {
            return Err(CollectionError::Unauthorized);
        }
        let ghost prev = *self;
        match &mut self.config {
            Some(c) => {
                c.royalty_receiver = receiver;
                c.royalty_bps = bps;
            },
            None => {},
        }
        proof {
            self.lemma_wf_frame(&prev);
        }
        Ok(())
    }

    /// The outcome of an operation that only the creator may perform.
    pub open spec fn creator_gate(c: &Self, auth: &Auth) -> Result<(), CollectionError> {
        if !c.initialized() {
            Err(CollectionError::NotInitialized)
        } else if !auth.signed(c.cfg()->0.creator) {
            Err(CollectionError::Unauthorized)
        } else {
            Ok(())
        }
    }

    // ---------------------------------------------------------------
    // Outcomes
    // ---------------------------------------------------------------
    /// What `mint` answers.
    pub open spec fn mint_outcome(c: &Self, auth: &Auth) -> Result<u64, CollectionError> {
        if !c.initialized() {
            Err(CollectionError::NotInitialized)
        } else if !auth.signed(c.cfg()->0.creator) {
            Err(CollectionError::Unauthorized)
        } else if c.minted() >= c.cfg()->0.max_supply {
            Err(CollectionError::MaxSupplyReached)
        } else {
            Ok(c.minted() as u64)
        }
    }

    /// What `transfer` answers.
    pub open spec fn transfer_outcome(c: &Self, auth: &Auth, from: AccountId, t: int) -> Result<
        (),
        CollectionError,
    > {
        if !c.initialized() {
            Err(CollectionError::NotInitialized)
        } else if !auth.signed(from) {
            Err(CollectionError::Unauthorized)
        } else if c.owner_at(t) is None {
            Err(CollectionError::TokenNotFound)
        } else if c.owner_at(t) != Some(from) {
            Err(CollectionError::NotOwner)
        } else {
            Ok(())
        }
    }

    /// What `transfer_from` answers.
    pub open spec fn transfer_from_outcome(
        c: &Self,
        auth: &Auth,
        spender: AccountId,
        from: AccountId,
        t: int,
    ) -> Result<(), CollectionError> {
        if !c.initialized() {
            Err(CollectionError::NotInitialized)
        } else if !auth.signed(spender) {
            Err(CollectionError::Unauthorized)
        } else if c.owner_at(t) is None {
            Err(CollectionError::TokenNotFound)
        } else if !c.may_manage(spender, t) {
            Err(CollectionError::NotApproved)
        } else if c.owner_at(t) != Some(from) {
            Err(CollectionError::NotOwner)
        } else {
            Ok(())
        }
    }

    /// What `approve` answers.
    pub open spec fn approve_outcome(c: &Self, auth: &Auth, caller: AccountId, t: int) -> Result<
        (),
        CollectionError,
    > {
        if !c.initialized() {
            Err(CollectionError::NotInitialized)
        } else if !auth.signed(caller) {
            Err(CollectionError::Unauthorized)
        } else if c.owner_at(t) is None {
            Err(CollectionError::TokenNotFound)
        } else if !c.may_approve(caller, t) {
            Err(CollectionError::NotApproved)
        } else {
            Ok(())
        }
    }

    /// What `burn` answers.
    pub open spec fn burn_outcome(c: &Self, auth: &Auth, caller: AccountId, t: int) -> Result<
        (),
        CollectionError,
    > {
        if !c.initialized() {
            Err(CollectionError::NotInitialized)
        } else if !auth.signed(caller) {
            Err(CollectionError::Unauthorized)
        } else if c.owner_at(t) is None {
            Err(CollectionError::TokenNotFound)
        } else if !c.may_burn(caller, t) {
            Err(CollectionError::NotApproved)
        } else {
            Ok(())
        }
    }

    /// What `set_approval_for_all` answers.
    pub open spec fn owner_gate(c: &Self, auth: &Auth, owner: AccountId) -> Result<
        (),
        CollectionError,
    > {
        if !c.initialized() {
            Err(CollectionError::NotInitialized)
        } else if !auth.signed(owner) {
            Err(CollectionError::Unauthorized)
        } else {
            Ok(())
        }
    }

    /// `self` is `prev` with token `t` (owned by `from`) handed to `to`:
    /// its single-token approval is cleared, the balances move with it,
    /// and nothing else changes.
    pub open spec fn moved_from(
        &self,
        prev: &Self,
        t: int,
        from: AccountId,
        to: AccountId,
    ) -> bool {
        &&& self.cfg() == prev.cfg()
        &&& self.tokens() == prev.tokens().update(t, Some(to))
        &&& self.approved_at(t) is None
        &&& forall|s: int| s != t ==> #[trigger] self.approved_at(s) == prev.approved_at(s)
        &&& forall|s: int| 0 <= s < prev.minted() ==> #[trigger] self.uri_at(s) == prev.uri_at(s)
        &&& forall|o: AccountId, p: AccountId| #[trigger]
            self.operator_pair(o, p) == prev.operator_pair(o, p)
        &&& self.supply() == prev.supply()
        &&& from != to ==> self.balance_at(from) + 1 == prev.balance_at(from)
        &&& from != to ==> self.balance_at(to) == prev.balance_at(to) + 1
        &&& forall|a: AccountId|
            a != from && a != to ==> #[trigger] self.balance_at(a) == prev.balance_at(a)
        &&& from == to ==> self.balance_at(from) == prev.balance_at(from)
    }

    /// `self` is `prev` with token `t` (owned by `owner`) burnt.
    pub open spec fn burnt_from(&self, prev: &Self, t: int, owner: AccountId) -> bool {
        &&& self.cfg() == prev.cfg()
        &&& self.tokens() == prev.tokens().update(t, None)
        &&& self.approved_at(t) is None
        &&& forall|s: int| s != t ==> #[trigger] self.approved_at(s) == prev.approved_at(s)
        &&& forall|s: int| 0 <= s < prev.minted() ==> #[trigger] self.uri_at(s) == prev.uri_at(s)
        &&& forall|o: AccountId, p: AccountId| #[trigger]
            self.operator_pair(o, p) == prev.operator_pair(o, p)
        &&& self.supply() + 1 == prev.supply()
        &&& self.balance_at(owner) + 1 == prev.balance_at(owner)
        &&& forall|a: AccountId| a != owner ==> #[trigger] self.balance_at(a) == prev.balance_at(a)
    }

    // ---------------------------------------------------------------
    // Token operations
    // ---------------------------------------------------------------
    /// Mints the next token id to `to` with metadata `uri`; the creator
    /// signs, and no more than `max_supply` ids are ever handed out.
    pub fn mint(&mut self, auth: &Auth, to: AccountId, uri: String) -> (r: Result<
        u64,
        CollectionError,
    >)
        requires
            old(self).wf(),
        ensures
            final(self).wf(),
            r == Self::mint_outcome(old(self), auth),
            r is Err ==> *final(self) == *old(self),
            r is Ok ==> {
                &&& final(self).cfg() == old(self).cfg()
                &&& final(self).tokens() == old(self).tokens().push(Some(to))
                &&& final(self).uri_at(old(self).minted() as int) == uri
                &&& forall|s: int|
                    0 <= s < old(self).minted() ==> #[trigger] final(self).uri_at(s) == old(
                        self,
                    ).uri_at(s)
                &&& forall|s: int| #[trigger] final(self).approved_at(s) == old(self).approved_at(s)
                &&& forall|o: AccountId, p: AccountId| #[trigger]
                    final(self).operator_pair(o, p) == old(self).operator_pair(o, p)
                &&& final(self).supply() == old(self).supply() + 1
                &&& final(self).balance_at(to) == old(self).balance_at(to) + 1
                &&& forall|a: AccountId|
                    a != to ==> #[trigger] final(self).balance_at(a) == old(self).balance_at(a)
            },
    {
        if self.config.is_none() {
            return Err(CollectionError::NotInitialized);
        }
        if !self.creator_signed(auth) {
            return Err(CollectionError::Unauthorized);
        }
        let max = match &self.config {
            Some(c) => c.max_supply,
            None => 0,
        };
        let id = self.owners.len() as u64;
        if id >= max {
            return Err(CollectionError::MaxSupplyReached);
        }
        let ghost prev = *self;
        let bal = self.get_balance(to);
        proof {
            lemma_count_bounds(self.owners@, to);
            lemma_count_push(self.owners@, Some(to), to);
        }
        self.owners.push(Some(to));
        self.uris.push(uri);
        self.approvals.push(None);
        self.total_supply = self.total_supply + 1;
        self.balances.insert(to, bal + 1);
        proof {
            assert forall|a: AccountId| #[trigger]
                self.balance_at(a) == count_owned(self.owners@, a) by {
                lemma_count_push(prev.owners@, Some(to), a);
                assert(prev.balance_at(a) == count_owned(prev.owners@, a));
            }
            assert forall|i: int|
                0 <= i < self.approvals@.len() && (#[trigger] self.approvals@[i]) is Some
                    implies self.owners@[i] is Some by {
                assert(prev.approvals@[i] is Some ==> prev.owners@[i] is Some);
            }
            assert forall|s: int| #[trigger] self.approved_at(s) == prev.approved_at(s) by {}
            assert forall|o: AccountId, p: AccountId| #[trigger]
                self.operator_pair(o, p) == prev.operator_pair(o, p) by {}
        }
        Ok(id)
    }

    /// Moves live token `t` from its owner `from` to `to`.
    fn move_token(&mut self, t: u64, from: AccountId, to: AccountId)
        requires
            old(self).wf(),
            old(self).owner_at(t as int) == Some(from),
        ensures
            final(self).wf(),
            final(self).moved_from(old(self), t as int, from, to),
    {
        let ghost prev = *self;
        let n = self.owners.len();
        assert(t < n);
        let i = t as usize;
        assert(i as int == t as int);
        let bal_from = self.get_balance(from);
        let bal_to = self.get_balance(to);
        let ghost upd = self.owners@.update(i as int, Some(to));
        proof {
            lemma_count_owned_positive(self.owners@, i as int, from);
            lemma_count_update(self.owners@, i as int, Some(to), to);
            lemma_count_update(self.owners@, i as int, Some(to), from);
            lemma_count_bounds(upd, to);
            lemma_count_update(self.owners@, i as int, Some(to), 0);
        }
        self.owners.set(i, Some(to));
        self.approvals.set(i, None);
        if from != to {
            self.balances.insert(from, bal_from - 1);
            self.balances.insert(to, bal_to + 1);
        }
        proof {
            assert(self.owners@ == upd);
            assert forall|a: AccountId| #[trigger]
                self.balance_at(a) == count_owned(self.owners@, a) by {
                lemma_count_update(prev.owners@, i as int, Some(to), a);
                assert(prev.balance_at(a) == count_owned(prev.owners@, a));
            }
            assert forall|j: int|
                0 <= j < self.approvals@.len() && (#[trigger] self.approvals@[j]) is Some
                    implies self.owners@[j] is Some by {
                assert(prev.approvals@[j] is Some ==> prev.owners@[j] is Some);
            }
            assert forall|s: int| s != i implies #[trigger] self.approved_at(s) == prev.approved_at(
                s,
            ) by {}
            assert forall|o: AccountId, p: AccountId| #[trigger]
                self.operator_pair(o, p) == prev.operator_pair(o, p) by {}
            assert forall|a: AccountId|
                a != from && a != to implies #[trigger] self.balance_at(a) == prev.balance_at(
                    a,
                ) by {}
        }
    }

    /// Moves token `t` from `from` to `to`; `from` signs and must own it.
    pub fn transfer(&mut self, auth: &Auth, from: AccountId, to: AccountId, token_id: u64) -> (r:
        Result<(), CollectionError>)
        requires
            old(self).wf(),
        ensures
            final(self).wf(),
            r == Self::transfer_outcome(old(self), auth, from, token_id as int),
            r is Err ==> *final(self) == *old(self),
            r is Ok ==> final(self).moved_from(old(self), token_id as int, from, to),
    {
        if self.config.is_none() {
            return Err(CollectionError::NotInitialized);
        }
        if !auth.has_signed(from) {
            return Err(CollectionError::Unauthorized);
        }
        match self.owner_slot(token_id) {
            None => Err(CollectionError::TokenNotFound),
            Some(owner) => {
                if owner != from {
                    return Err(CollectionError::NotOwner);
                }
                self.move_token(token_id, from, to);
                Ok(())
            },
        }
    }

    /// Moves token `t` from `from` to `to` on the signature of `spender`,
    /// who must own it, hold its approval, or be an operator of its owner.
    pub fn transfer_from(
        &mut self,
        auth: &Auth,
        spender: AccountId,
        from: AccountId,
        to: AccountId,
        token_id: u64,
    ) -> (r: Result<(), CollectionError>)
        requires
            old(self).wf(),
        ensures
            final(self).wf(),
            r == Self::transfer_from_outcome(old(self), auth, spender, from, token_id as int),
            r is Err ==> *final(self) == *old(self),
            r is Ok ==> final(self).moved_from(old(self), token_id as int, from, to),
    {
        if self.config.is_none() {
            return Err(CollectionError::NotInitialized);
        }
        if !auth.has_signed(spender) {
            return Err(CollectionError::Unauthorized);
        }
        match self.owner_slot(token_id) {
            None => Err(CollectionError::TokenNotFound),
            Some(owner) => {
                let allowed = owner == spender || self.approval_slot(token_id) == Some(spender)
                    || self.find_operator(owner, spender);
                if !allowed {
                    return Err(CollectionError::NotApproved);
                }
                if owner != from {
                    return Err(CollectionError::NotOwner);
                }
                self.move_token(token_id, from, to);
                Ok(())
            },
        }
    }

    /// Sets the single-token approval of `t` to `spender`; `caller` signs
    /// and must own the token or be an operator of its owner.
    pub fn approve(&mut self, auth: &Auth, caller: AccountId, spender: AccountId, token_id: u64) -> (r:
        Result<(), CollectionError>)
        requires
            old(self).wf(),
        ensures
            final(self).wf(),
            r == Self::approve_outcome(old(self), auth, caller, token_id as int),
            r is Err ==> *final(self) == *old(self),
            r is Ok ==> {
                &&& final(self).cfg() == old(self).cfg()
                &&& final(self).tokens() == old(self).tokens()
                &&& final(self).approved_at(token_id as int) == Some(spender)
                &&& forall|s: int|
                    s != token_id ==> #[trigger] final(self).approved_at(s) == old(self).approved_at(
                        s,
                    )
                &&& forall|s: int| #[trigger] final(self).uri_at(s) == old(self).uri_at(s)
                &&& forall|o: AccountId, p: AccountId| #[trigger]
                    final(self).operator_pair(o, p) == old(self).operator_pair(o, p)
                &&& final(self).supply() == old(self).supply()
                &&& forall|a: AccountId| #[trigger]
                    final(self).balance_at(a) == old(self).balance_at(a)
            },
    {
        if self.config.is_none() {
            return Err(CollectionError::NotInitialized);
        }
        if !auth.has_signed(caller) {
            return Err(CollectionError::Unauthorized);
        }
        match self.owner_slot(token_id) {
            None => Err(CollectionError::TokenNotFound),
            Some(owner) => {
                if !(owner == caller || self.find_operator(owner, caller)) {
                    return Err(CollectionError::NotApproved);
                }
                let ghost prev = *self;
                let n = self.owners.len();
                assert(token_id < n);
                let i = token_id as usize;
                assert(i as int == token_id as int);
                self.approvals.set(i, Some(spender));
                proof {
                    assert forall|a: AccountId| #[trigger]
                        self.balance_at(a) == count_owned(self.owners@, a) by {
                        assert(prev.balance_at(a) == count_owned(prev.owners@, a));
                    }
                    assert forall|j: int|
                        0 <= j < self.approvals@.len() && (#[trigger] self.approvals@[j]) is Some
                            implies self.owners@[j] is Some by {
                        assert(prev.approvals@[j] is Some ==> prev.owners@[j] is Some);
                    }
                    assert forall|s: int|
                        s != token_id implies #[trigger] self.approved_at(s) == prev.approved_at(
                            s,
                        ) by {}
                    assert forall|o: AccountId, p: AccountId| #[trigger]
                        self.operator_pair(o, p) == prev.operator_pair(o, p) by {}
                }
                Ok(())
            },
        }
    }

    /// Burns token `t` on the signature of `caller`, who must hold the
    /// token's single-token approval or be an operator of its owner.
    pub fn burn(&mut self, auth: &Auth, caller: AccountId, token_id: u64) -> (r: Result<
        (),
        CollectionError,
    >)
        requires
            old(self).wf(),
        ensures
            final(self).wf(),
            r == Self::burn_outcome(old(self), auth, caller, token_id as int),
            r is Err ==> *final(self) == *old(self),
            r is Ok ==> final(self).burnt_from(
                old(self),
                token_id as int,
                old(self).owner_at(token_id as int)->0,
            ),
    {
        if self.config.is_none() {
            return Err(CollectionError::NotInitialized);
        }
        if !auth.has_signed(caller) {
            return Err(CollectionError::Unauthorized);
        }
        match self.owner_slot(token_id) {
            None => Err(CollectionError::TokenNotFound),
            Some(owner) => {
                let allowed = self.approval_slot(token_id) == Some(caller) || self.find_operator(
                    owner,
                    caller,
                );
                if !allowed {
                    return Err(CollectionError::NotApproved);
                }
                let ghost prev = *self;
                let n = self.owners.len();
                assert(token_id < n);
                let i = token_id as usize;
                assert(i as int == token_id as int);
                let bal = self.get_balance(owner);
                proof {
                    lemma_count_owned_positive(self.owners@, i as int, owner);
                    lemma_count_update(self.owners@, i as int, None, owner);
                }
                self.owners.set(i, None);
                self.approvals.set(i, None);
                self.total_supply = self.total_supply - 1;
                self.balances.insert(owner, bal - 1);
                proof {
                    assert forall|a: AccountId| #[trigger]
                        self.balance_at(a) == count_owned(self.owners@, a) by {
                        lemma_count_update(prev.owners@, i as int, None, a);
                        assert(prev.balance_at(a) == count_owned(prev.owners@, a));
                    }
                    assert forall|j: int|
                        0 <= j < self.approvals@.len() && (#[trigger] self.approvals@[j]) is Some
                            implies self.owners@[j] is Some by {
                        assert(prev.approvals@[j] is Some ==> prev.owners@[j] is Some);
                    }
                    assert forall|s: int| s != i implies #[trigger] self.approved_at(s)
                        == prev.approved_at(s) by {}
                    assert forall|o: AccountId, p: AccountId| #[trigger]
                        self.operator_pair(o, p) == prev.operator_pair(o, p) by {}
                    assert forall|a: AccountId| a != owner implies #[trigger] self.balance_at(a)
                        == prev.balance_at(a) by {}
                }
                Ok(())
            },
        }
    }

    /// Grants (`approved`) or revokes the right of `operator` to act for
    /// all tokens of `owner`; `owner` signs.
    pub fn set_approval_for_all(
        &mut self,
        auth: &Auth,
        owner: AccountId,
        operator: AccountId,
        approved: bool,
    ) -> (r: Result<(), CollectionError>)
        requires
            old(self).wf(),
        ensures
            final(self).wf(),
            r == Self::owner_gate(old(self), auth, owner),
            r is Err ==> *final(self) == *old(self),
            r is Ok ==> {
                &&& final(self).cfg() == old(self).cfg()
                &&& final(self).tokens() == old(self).tokens()
                &&& final(self).operator_pair(owner, operator) == approved
                &&& forall|o: AccountId, p: AccountId|
                    (o, p) != (owner, operator) ==> #[trigger] final(self).operator_pair(o, p)
                        == old(self).operator_pair(o, p)
                &&& forall|s: int| #[trigger] final(self).approved_at(s) == old(self).approved_at(s)
                &&& forall|s: int| #[trigger] final(self).uri_at(s) == old(self).uri_at(s)
                &&& final(self).supply() == old(self).supply()
                &&& forall|a: AccountId| #[trigger]
                    final(self).balance_at(a) == old(self).balance_at(a)
            },
    {
        if self.config.is_none() {
            return Err(CollectionError::NotInitialized);
        }
        if !auth.has_signed(owner) {
            return Err(CollectionError::Unauthorized);
        }
        let ghost prev = *self;
        let pair = (owner, operator);
        if approved {
            if !self.find_operator(owner, operator) {
                self.operators.push(pair);
                proof {
                    assert(self.operators@[self.operators@.len() - 1] == pair);
                    assert forall|o: AccountId, p: AccountId|
                        (o, p) != pair implies #[trigger] self.operator_pair(o, p)
                        == prev.operator_pair(o, p) by {
                        if prev.operators@.contains((o, p)) {
                            let k = choose|k: int|
                                0 <= k < prev.operators@.len() && prev.operators@[k] == (o, p);
                            assert(self.operators@[k] == (o, p));
                        }
                        if self.operators@.contains((o, p)) {
                            let k = choose|k: int|
                                0 <= k < self.operators@.len() && self.operators@[k] == (o, p);
                            assert(prev.operators@[k] == (o, p));
                        }
                    }
                }
            }
        } else {
            let mut kept: Vec<(AccountId, AccountId)> = Vec::new();
            let mut i: usize = 0;
            while i < self.operators.len()
                invariant
                    0 <= i <= self.operators.len(),
                    pair == (owner, operator),
                    forall|k: int|
                        0 <= k < kept@.len() ==> #[trigger] kept@[k] != pair
                            && self.operators@.contains(kept@[k]),
                    forall|j: int|
                        0 <= j < i && #[trigger] self.operators@[j] != pair ==> kept@.contains(
                            self.operators@[j],
                        ),
                decreases self.operators.len() - i,
            {
                let q = self.operators[i];
                let ghost old_kept = kept@;
                proof {
                    assert(self.operators@[i as int] == q);
                    assert((q.0 == owner && q.1 == operator) <==> q == pair);
                }
                if !(q.0 == owner && q.1 == operator) {
                    kept.push(q);
                    proof {
                        assert forall|k: int|
                            0 <= k < kept@.len() implies #[trigger] kept@[k] != pair
                            && self.operators@.contains(kept@[k]) by {
                            if k < old_kept.len() {
                                assert(kept@[k] == old_kept[k]);
                            } else {
                                assert(kept@[k] == self.operators@[i as int]);
                            }
                        }
                        assert forall|j: int|
                            0 <= j < i + 1 && #[trigger] self.operators@[j] != pair
                                implies kept@.contains(self.operators@[j]) by {
                            if j < i {
                                assert(old_kept.contains(self.operators@[j]));
                                let k = choose|k: int|
                                    0 <= k < old_kept.len() && old_kept[k] == self.operators@[j];
                                assert(kept@[k] == self.operators@[j]);
                            } else {
                                assert(kept@[kept@.len() - 1] == self.operators@[j]);
                            }
                        }
                    }
                }
                i = i + 1;
            }
            self.operators = kept;
            proof {
                assert(!self.operators@.contains(pair));
                assert forall|o: AccountId, p: AccountId|
                    (o, p) != pair implies #[trigger] self.operator_pair(o, p)
                    == prev.operator_pair(o, p) by {
                    if prev.operators@.contains((o, p)) {
                        let k = choose|k: int|
                            0 <= k < prev.operators@.len() && prev.operators@[k] == (o, p);
                        assert(prev.operators@[k] != pair);
                    }
                }
            }
        }
        proof {
            assert forall|a: AccountId| #[trigger]
                self.balance_at(a) == count_owned(self.owners@, a) by {
                assert(prev.balance_at(a) == count_owned(prev.owners@, a));
            }
        }
        Ok(())
    }

    // ---------------------------------------------------------------
    // Queries
    // ---------------------------------------------------------------
    /// Whether the collection has been initialised.
    pub fn is_initialized(&self) -> (r: bool)
        ensures
            r == self.initialized(),
    {
        self.config.is_some()
    }

    /// The owner of token `token_id`.
    pub fn owner_of(&self, token_id: u64) -> (r: Result<AccountId, CollectionError>)
        requires
            self.wf(),
        ensures
            r == match self.owner_at(token_id as int) {
                Some(o) => Ok(o),
                None => Err(CollectionError::TokenNotFound),
            },
    {
        match self.owner_slot(token_id) {
            Some(o) => Ok(o),
            None => Err(CollectionError::TokenNotFound),
        }
    }

    /// The metadata uri of live token `token_id`.
    pub fn token_uri(&self, token_id: u64) -> (r: Result<String, CollectionError>)
        requires
            self.wf(),
        ensures
            self.owner_at(token_id as int) is Some ==> r == Ok::<String, CollectionError>(
                self.uri_at(token_id as int),
            ),
            self.owner_at(token_id as int) is None ==> r == Err::<String, CollectionError>(
                CollectionError::TokenNotFound,
            ),
    {
        match self.owner_slot(token_id) {
            Some(_) => {
                let n = self.uris.len();
                assert(token_id < n);
                Ok(self.uris[token_id as usize].clone())
            },
            None => Err(CollectionError::TokenNotFound),
        }
    }

    /// The number of live tokens held by `owner`.
    pub fn balance_of(&self, owner: AccountId) -> (r: u64)
        ensures
            r == self.balance_at(owner),
    {
        self.get_balance(owner)
    }

    /// The number of live tokens.
    pub fn total_supply(&self) -> (r: u64)
        ensures
            r == self.supply(),
    {
        self.total_supply
    }

    /// The id the next mint hands out.
    pub fn next_token_id(&self) -> (r: u64)
        requires
            self.wf(),
        ensures
            r == self.minted(),
    {
        self.owners.len() as u64
    }

    /// The single-token approval of `token_id`.
    pub fn get_approved(&self, token_id: u64) -> (r: Option<AccountId>)
        requires
            self.wf(),
        ensures
            r == self.approved_at(token_id as int),
    {
        self.approval_slot(token_id)
    }

    /// Whether `operator` may act for all tokens of `owner`.
    pub fn is_approved_for_all(&self, owner: AccountId, operator: AccountId) -> (r: bool)
        ensures
            r == self.operator_pair(owner, operator),
    {
        self.find_operator(owner, operator)
    }

    /// The collection's name.
    pub fn name(&self) -> (r: String)
        requires
            self.initialized(),
        ensures
            r == self.cfg()->0.name,
    {
        match &self.config {
            Some(c) => c.name.clone(),
            None => String::new(),
        }
    }

    /// The collection's symbol.
    pub fn symbol(&self) -> (r: String)
        requires
            self.initialized(),
        ensures
            r == self.cfg()->0.symbol,
    {
        match &self.config {
            Some(c) => c.symbol.clone(),
            None => String::new(),
        }
    }

    /// The current creator.
    pub fn creator(&self) -> (r: AccountId)
        requires
            self.initialized(),
        ensures
            r == self.cfg()->0.creator,
    {
        match &self.config {
            Some(c) => c.creator,
            None => 0,
        }
    }

    /// The maximum number of token ids the collection hands out.
    pub fn max_supply(&self) -> (r: u64)
        requires
            self.initialized(),
        ensures
            r == self.cfg()->0.max_supply,
    {
        match &self.config {
            Some(c) => c.max_supply,
            None => 0,
        }
    }

    /// The royalty receiver and rate in basis points.
    pub fn royalty_info(&self) -> (r: (AccountId, u32))
        requires
            self.initialized(),
        ensures
            r == (self.cfg()->0.royalty_receiver, self.cfg()->0.royalty_bps),
    {
        match &self.config {
            Some(c) => (c.royalty_receiver, c.royalty_bps),
            None => (0, 0),
        }
    }
}

} // verus!
