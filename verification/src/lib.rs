//! Verified rules of an NFT launchpad: the collections it deploys
//! (a plain ERC-721 style collection and a lazily minted one) and the
//! launchpad's own registry, fee configuration and deploy validation.
//!
//! Accounts and contracts are identified by `AccountId` values; whatever
//! the ledger host decides (signatures, contract deployment, token
//! transfers) reaches these functions as plain arguments.

pub mod common;
pub mod ledger;
pub mod collection;
pub mod launchpad;
pub mod lazy;
pub mod salt;
