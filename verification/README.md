# launchpad

Verified rules of an NFT launchpad on a Soroban-style ledger.

- `src/collection.rs`: a non-fungible token collection (mint, transfer,
  approvals, operators, burn) whose balances and supply provably agree
  with the owners of its tokens.
- `src/lazy.rs`: a collection minted on demand from signed vouchers.
- `src/launchpad.rs`: the launchpad's configuration (admin, platform fee,
  code hashes, approved currencies), the rules a deploy must pass, and the
  registry of deployed collections and staking pools.
- `src/salt.rs`: the per-creator deploy salt, the host's SHA-256 of the
  creator's address encoding followed by the raw salt.
- `src/ledger.rs`: counting lemmas over token ownership.
- `src/common.rs`: account ids, signatures and byte helpers.

The library decides; the ledger host acts. A deploy is decided by
`Launchpad::deploy` (or one of the `deploy_*` entry points), which returns
a plan: the code to deploy, the salt, the fee to collect and the
settings the new collection is initialised with. The host carries the
plan out (`Collection721::from_init` and `LazyCollection721::from_init`
give the collection it leaves) and reports the new address to
`record_deploy`, which holds the request to the deploy rules again before
registering it; staking pools go the same way through
`deploy_staking_pool` and `record_staking_pool`.
Signatures reach the library as an `Auth` value; a voucher's signature
reaches `redeem` as a flag, which the host computes only where
`needs_signature` says the collection reads it.

The launchpad's state lives in plain `Vec` and `HashMap` values: the
ledger's own storage maps exist only inside a running host environment,
which the host keeps and the library does not see.

`app/` holds the Soroban-facing pieces: the ledger forms of the voucher
and error types, the mapping between ledger addresses and account ids,
and the host work (fee transfer, salted deploy, initialising the new
collection, deploy events, voucher signatures).

Everything in `src/` is checked by Verus; `tests/` exercise the library on
concrete scenarios.
