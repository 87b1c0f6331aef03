use vstd::prelude::*;

use std::collections::HashMap;

use crate::common::{AccountId, Bytes32};
use crate::launchpad::CollectionInit;

verus! {

broadcast use vstd::std_specs::hash::group_hash_axioms;

/// A creator's signed offer to mint one token to whoever redeems it.
#[derive(Debug)]
pub struct MintVoucher {
    pub token_id: u64,
    pub price: i128,
    pub currency: AccountId,
    pub uri: String,
    pub uri_hash: Bytes32,
    /// The last ledger sequence at which the voucher may be redeemed;
    /// 0 for a voucher that does not expire.
    pub valid_until: u64,
}

/// Errors of a lazily minted collection.
#[derive(Clone, Copy, Debug, PartialEq, Eq, PartialOrd, Ord, Structural)]
pub enum LazyError {
    AlreadyInitialized,
    NotInitialized,
    NotOwner,
    NotApproved,
    TokenNotFound,
    MaxSupplyReached,
    VoucherExpired,
    VoucherAlreadyUsed,
    NotCreator,
    InvalidSignature,
}

/// The settings a lazily minted collection is initialised with.
#[derive(Debug)]
pub struct LazyConfig {
    pub creator: AccountId,
    /// The key vouchers must be signed with.
    pub creator_pubkey: Bytes32,
    pub name: String,
    pub symbol: String,
    pub max_supply: u64,
    pub royalty_bps: u32,
    pub royalty_receiver: AccountId,
}

/// Redeeming mint vouchers.
pub trait ILazy721: Sized {
    /// The implementation's internal consistency.
    spec fn inv(&self) -> bool;

    /// Mints the token a voucher offers to `buyer`. `ledger_sequence` is
    /// the current ledger sequence and `signature_ok` whether the voucher's
    /// signature verifies under the creator's key.
    fn redeem(
        &mut self,
        ledger_sequence: u32,
        buyer: AccountId,
        voucher: MintVoucher,
        signature_ok: bool,
    ) -> (r: Result<u64, LazyError>)
        requires
            old(self).inv(),
        ensures
            final(self).inv(),
    ;
}

/// A single-token collection whose tokens are minted when a buyer
/// redeems a voucher the creator signed.
pub struct LazyCollection721 {
    config: Option<LazyConfig>,
    owners: HashMap<u64, AccountId>,
    uris: HashMap<u64, String>,
    total_supply: u64,
}

/// The state of a lazily minted collection as the contracts speak of it.
pub struct LazyView {
    pub config: Option<LazyConfig>,
    /// The owner of every minted token.
    pub owners: Map<u64, AccountId>,
    pub uris: Map<u64, String>,
    pub total_supply: nat,
}

impl View for LazyCollection721 {
    type V = LazyView;

    closed spec fn view(&self) -> LazyView {
        LazyView {
            config: self.config,
            owners: self.owners@,
            uris: self.uris@,
            total_supply: self.total_supply as nat,
        }
    }
}

impl LazyView {
    /// Whether `redeem` reaches the signature check for this voucher: the
    /// collection is initialised and the voucher has not expired.
    pub open spec fn signature_checked(&self, ledger_sequence: u32, voucher: &MintVoucher) -> bool {
        &&& self.config is Some
        &&& !(voucher.valid_until != 0 && voucher.valid_until < ledger_sequence)
    }

    /// What `redeem` answers.
    pub open spec fn redeem_outcome(
        &self,
        ledger_sequence: u32,
        voucher: &MintVoucher,
        signature_ok: bool,
    ) -> Result<u64, LazyError> {
        if self.config is None {
            Err(LazyError::NotInitialized)
        } else if voucher.valid_until != 0 && voucher.valid_until < ledger_sequence {
            Err(LazyError::VoucherExpired)
        } else if !signature_ok {
            Err(LazyError::InvalidSignature)
        } else if self.owners.contains_key(voucher.token_id) {
            Err(LazyError::VoucherAlreadyUsed)
        } else if self.total_supply >= self.config->0.max_supply {
            Err(LazyError::MaxSupplyReached)
        } else {
            Ok(voucher.token_id)
        }
    }
}

impl LazyCollection721 {
    /// Internal consistency: the supply counts the minted tokens, every
    /// minted token has its uri, and the supply stays within the maximum.
    pub closed spec fn wf(&self) -> bool {
        &&& self.owners@.dom().finite()
        &&& self.total_supply == self.owners@.dom().len()
        &&& self.uris@.dom() == self.owners@.dom()
        &&& self.config is None ==> self.total_supply == 0
        &&& self.config is Some ==> self.total_supply <= self.config->0.max_supply
    }

    /// The supply counts the minted tokens and never exceeds the maximum.
    pub proof fn law_supply_bounded(&self)
        requires
            self.wf(),
        ensures
            self@.total_supply == self@.owners.dom().len(),
            self@.config matches Some(c) ==> self@.total_supply <= c.max_supply,
    {
    }

    /// A voucher's token is minted once: when its id is taken, every
    /// further redemption of it is refused.
    pub proof fn law_voucher_single_use(
        v: LazyView,
        ledger_sequence: u32,
        voucher: &MintVoucher,
        signature_ok: bool,
    )
        requires
            v.owners.contains_key(voucher.token_id),
        ensures
            v.redeem_outcome(ledger_sequence, voucher, signature_ok) is Err,
    {
    }

    /// An expired voucher is refused as expired, whatever its signature.
    pub proof fn law_expiry_checked_before_signature(
        v: LazyView,
        ledger_sequence: u32,
        voucher: &MintVoucher,
        signature_ok: bool,
    )
        requires
            v.config is Some,
            voucher.valid_until != 0,
            voucher.valid_until < ledger_sequence,
        ensures
            v.redeem_outcome(ledger_sequence, voucher, signature_ok) == Err::<u64, LazyError>(
                LazyError::VoucherExpired,
            ),
    {
    }

    /// Where `redeem` does not reach the signature check, the signature
    /// does not change its answer.
    pub proof fn law_signature_read_only_when_checked(
        v: LazyView,
        ledger_sequence: u32,
        voucher: &MintVoucher,
    )
        requires
            !v.signature_checked(ledger_sequence, voucher),
        ensures
            v.redeem_outcome(ledger_sequence, voucher, true) == v.redeem_outcome(
                ledger_sequence,
                voucher,
                false,
            ),
            v.redeem_outcome(ledger_sequence, voucher, true) is Err,
    {
    }

    /// A voucher mints exactly when the collection is initialised, the
    /// voucher has not expired (0 never expires), its signature verifies,
    /// its token is not minted yet and the supply is below the maximum;
    /// the token minted is the voucher's.
    pub proof fn law_redeem_accepted_exactly(
        v: LazyView,
        ledger_sequence: u32,
        voucher: &MintVoucher,
        signature_ok: bool,
    )
        ensures
            v.redeem_outcome(ledger_sequence, voucher, signature_ok) is Ok <==> {
                &&& v.config is Some
                &&& voucher.valid_until == 0 || voucher.valid_until >= ledger_sequence
                &&& signature_ok
                &&& !v.owners.contains_key(voucher.token_id)
                &&& v.total_supply < v.config->0.max_supply
            },
            v.redeem_outcome(ledger_sequence, voucher, signature_ok) matches Ok(id) ==> id
                == voucher.token_id,
            v.config is Some && voucher.valid_until >= ledger_sequence && !signature_ok
                ==> v.redeem_outcome(ledger_sequence, voucher, signature_ok) == Err::<u64, LazyError>(
                LazyError::InvalidSignature,
            ),
    {
    }

    /// A collection that has not been initialised.
    pub fn new() -> (r: Self)
        ensures
            r.wf(),
            r@.config is None,
            r@.owners == Map::<u64, AccountId>::empty(),
            r@.uris == Map::<u64, String>::empty(),
            r@.total_supply == 0,
    {
        let r = LazyCollection721 {
            config: None,
            owners: HashMap::new(),
            uris: HashMap::new(),
            total_supply: 0,
        };
        assert(r.owners@ =~= Map::<u64, AccountId>::empty());
        assert(r.uris@ =~= Map::<u64, String>::empty());
        r
    }

    /// A collection initialised with the settings of a deploy plan, as the
    /// launchpad's deploy leaves it.
    pub fn from_init(init: CollectionInit) -> (r: Self)
        requires
            init.symbol is Some,
            init.max_supply is Some,
            init.creator_pubkey is Some,
        ensures
            r.wf(),
            r@.config == Some(
                LazyConfig {
                    creator: init.creator,
                    creator_pubkey: init.creator_pubkey->0,
                    name: init.name,
                    symbol: init.symbol->0,
                    max_supply: init.max_supply->0,
                    royalty_bps: init.royalty_bps,
                    royalty_receiver: init.royalty_receiver,
                },
            ),
            r@.owners == Map::<u64, AccountId>::empty(),
            r@.uris == Map::<u64, String>::empty(),
            r@.total_supply == 0,
    {
        let symbol = match init.symbol {
            Some(sym) => sym,
            None => String::new(),
        };
        let max_supply = match init.max_supply {
            Some(m) => m,
            None => 0,
        };
        let creator_pubkey = match init.creator_pubkey {
            Some(k) => k,
            None => [0u8; 32],
        };
        let mut r = LazyCollection721::new();
        let _ = r.initialize(
            LazyConfig {
                creator: init.creator,
                creator_pubkey,
                name: init.name,
                symbol,
                max_supply,
                royalty_bps: init.royalty_bps,
                royalty_receiver: init.royalty_receiver,
            },
        );
        r
    }

    /// Whether the collection has been initialised.
    pub fn is_initialized(&self) -> (r: bool)
        ensures
            r == (self@.config is Some),
    {
        self.config.is_some()
    }

    /// The key vouchers must be signed with.
    pub fn creator_pubkey(&self) -> (r: Bytes32)
        requires
            self@.config is Some,
        ensures
            r == self@.config->0.creator_pubkey,
    {
        match &self.config {
            Some(c) => c.creator_pubkey,
            None => [0u8; 32],
        }
    }

    /// The maximum supply.
    pub fn max_supply(&self) -> (r: u64)
        requires
            self@.config is Some,
        ensures
            r == self@.config->0.max_supply,
    {
        match &self.config {
            Some(c) => c.max_supply,
            None => 0,
        }
    }

    /// Sets the collection up once; a second call is refused.
    pub fn initialize(&mut self, config: LazyConfig) -> (r: Result<(), LazyError>)
        requires
            old(self).wf(),
        ensures
            final(self).wf(),
            old(self)@.config is Some ==> r == Err::<(), LazyError>(
                LazyError::AlreadyInitialized,
            ) && *final(self) == *old(self),
            old(self)@.config is None ==> r is Ok && final(self)@ == (LazyView {
                config: Some(config),
                ..old(self)@
            }),
    {
        if self.config.is_some() {
            return Err(LazyError::AlreadyInitialized);
        }
        self.config = Some(config);
        Ok(())
    }

    /// The owner of token `token_id`.
    pub fn owner_of(&self, token_id: u64) -> (r: Result<AccountId, LazyError>)
        ensures
            r == if self@.owners.contains_key(token_id) {
                Ok(self@.owners[token_id])
            } else {
                Err(LazyError::TokenNotFound)
            },
    {
        match self.owners.get(&token_id) {
            Some(o) => Ok(*o),
            None => Err(LazyError::TokenNotFound),
        }
    }

    /// The metadata uri of token `token_id`.
    pub fn token_uri(&self, token_id: u64) -> (r: Result<String, LazyError>)
        ensures
            r == if self@.uris.contains_key(token_id) {
                Ok(self@.uris[token_id])
            } else {
                Err(LazyError::TokenNotFound)
            },
    {
        match self.uris.get(&token_id) {
            Some(u) => Ok(u.clone()),
            None => Err(LazyError::TokenNotFound),
        }
    }

    /// The collection's name.
    pub fn name(&self) -> (r: String)
        requires
            self@.config is Some,
        ensures
            r == self@.config->0.name,
    {
        match &self.config {
            Some(c) => c.name.clone(),
            None => String::new(),
        }
    }

    /// The collection's symbol.
    pub fn symbol(&self) -> (r: String)
        requires
            self@.config is Some,
        ensures
            r == self@.config->0.symbol,
    {
        match &self.config {
            Some(c) => c.symbol.clone(),
            None => String::new(),
        }
    }

    /// The creator.
    pub fn creator(&self) -> (r: AccountId)
        requires
            self@.config is Some,
        ensures
            r == self@.config->0.creator,
    {
        match &self.config {
            Some(c) => c.creator,
            None => 0,
        }
    }

    /// The royalty receiver and rate in basis points.
    pub fn royalty_info(&self) -> (r: (AccountId, u32))
        requires
            self@.config is Some,
        ensures
            r == (self@.config->0.royalty_receiver, self@.config->0.royalty_bps),
    {
        match &self.config {
            Some(c) => (c.royalty_receiver, c.royalty_bps),
            None => (0, 0),
        }
    }

    /// The number of minted tokens.
    pub fn total_supply(&self) -> (r: u64)
        ensures
            r == self@.total_supply,
    {
        self.total_supply
    }

    /// Whether redeeming `voucher` at `ledger_sequence` reads its
    /// signature: the collection is initialised and the voucher has not
    /// expired. The signature is worth verifying only then.
    pub fn needs_signature(&self, ledger_sequence: u32, voucher: &MintVoucher) -> (r: bool)
        ensures
            r == self@.signature_checked(ledger_sequence, voucher),
    {
        match &self.config {
            None => false,
            Some(_) => !(voucher.valid_until != 0 && voucher.valid_until < ledger_sequence as u64),
        }
    }
}

impl ILazy721 for LazyCollection721 {
    open spec fn inv(&self) -> bool {
        self.wf()
    }

    /// Checks, in order, that the collection is initialised, the voucher
    /// has not expired (a `valid_until` of 0 never expires), its signature verifies, its token id is unused and
    /// the maximum supply is not reached; then mints the token.
    fn redeem(
        &mut self,
        ledger_sequence: u32,
        buyer: AccountId,
        voucher: MintVoucher,
        signature_ok: bool,
    ) -> (r: Result<u64, LazyError>)
        ensures
            final(self).wf(),
            r == old(self)@.redeem_outcome(ledger_sequence, &voucher, signature_ok),
            r is Err ==> *final(self) == *old(self),
            r is Ok ==> final(self)@ == (LazyView {
                owners: old(self)@.owners.insert(voucher.token_id, buyer),
                uris: old(self)@.uris.insert(voucher.token_id, voucher.uri),
                total_supply: old(self)@.total_supply + 1,
                ..old(self)@
            }),
    {
        let max = match &self.config {
            None => {
                return Err(LazyError::NotInitialized);
            },
            Some(c) => c.max_supply,
        };
        if voucher.valid_until != 0 && voucher.valid_until < ledger_sequence as u64 {
            return Err(LazyError::VoucherExpired);
        }
        if !signature_ok {
            return Err(LazyError::InvalidSignature);
        }
        if self.owners.contains_key(&voucher.token_id) {
            return Err(LazyError::VoucherAlreadyUsed);
        }
        if self.total_supply >= max {
            return Err(LazyError::MaxSupplyReached);
        }
        let id = voucher.token_id;
        let ghost prev = *self;
        self.owners.insert(id, buyer);
        self.uris.insert(id, voucher.uri);
        self.total_supply = self.total_supply + 1;
        proof {
            assert(self.owners@.dom() == prev.owners@.dom().insert(id));
            assert(self.uris@.dom() =~= self.owners@.dom());
        }
        Ok(id)
    }
}

} // verus!
