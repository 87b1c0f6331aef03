use vstd::prelude::*;

use crate::common::Bytes32;

verus! {

broadcast use vstd::array::group_array_axioms;

/// The longest byte string the ledger host hashes here: a fresh host's
/// default budget covers hashing and copying it with a wide margin.
pub const MAX_HASHED_LEN: usize = 65536;

/// The SHA-256 digest of a byte string.
pub uninterp spec fn sha256_digest(data: Seq<u8>) -> Seq<u8>;

/// Hashes `data` with the ledger host's SHA-256 (`Crypto::sha256` of
/// soroban-sdk, run on a fresh host environment). The contract names the
/// digest and says nothing more of it: a digest depends on the bytes
/// alone. The bound keeps the work within the fresh host's budget, whose
/// exhaustion would panic.
#[verifier::external_body]
fn sha256(data: &Vec<u8>) -> (r: Bytes32)
    requires
        data.len() <= MAX_HASHED_LEN,
    ensures
        r@ == sha256_digest(data@),
{
    let env = soroban_sdk::Env::default();
    let bytes = soroban_sdk::Bytes::from_slice(&env, data.as_slice());
    env.crypto().sha256(&bytes).to_array()
}

/// The bytes a creator's deploy salt is the digest of: the encoding of
/// the creator's ledger address followed by the raw salt.
pub fn salt_preimage(creator_address: &Vec<u8>, salt: &Bytes32) -> (r: Vec<u8>)
    ensures
        r@ == creator_address@ + salt@,
{
    let mut data: Vec<u8> = Vec::new();
    let mut i: usize = 0;
    while i < creator_address.len()
        invariant
            i <= creator_address.len(),
            data@ == creator_address@.subrange(0, i as int),
        decreases creator_address.len() - i,
    {
        data.push(creator_address[i]);
        i = i + 1;
        assert(data@ =~= creator_address@.subrange(0, i as int));
    }
    assert(data@ =~= creator_address@);
    let mut j: usize = 0;
    while j < 32
        invariant
            j <= 32,
            salt@.len() == 32,
            data@ == creator_address@ + salt@.subrange(0, j as int),
        decreases 32 - j,
    {
        data.push(salt[j]);
        j = j + 1;
        assert(data@ =~= creator_address@ + salt@.subrange(0, j as int));
    }
    assert(salt@.subrange(0, 32) =~= salt@);
    data
}

/// A salt preimage determines the creator's address encoding and the raw
/// salt it was built from: distinct pairs hash distinct byte strings.
pub proof fn law_preimage_determines_creator_and_salt(
    address1: Seq<u8>,
    salt1: Seq<u8>,
    address2: Seq<u8>,
    salt2: Seq<u8>,
)
    requires
        salt1.len() == 32,
        salt2.len() == 32,
        address1 + salt1 == address2 + salt2,
    ensures
        address1 == address2,
        salt1 == salt2,
{
    let joined = address1 + salt1;
    assert(joined.len() == (address2 + salt2).len());
    assert(address1.len() == address2.len());
    assert(address1 =~= joined.subrange(0, address1.len() as int));
    assert(address2 =~= (address2 + salt2).subrange(0, address2.len() as int));
    assert(salt1 =~= joined.subrange(address1.len() as int, joined.len() as int));
    assert(salt2 =~= (address2 + salt2).subrange(address2.len() as int, joined.len() as int));
}

/// The salt a creator's contracts are deployed under: the digest of the
/// creator's address encoding followed by the raw salt, so that equal raw
/// salts of different creators lead to different contract addresses.
pub fn deploy_salt(creator_address: &Vec<u8>, salt: &Bytes32) -> (r: Bytes32)
    requires
        creator_address.len() + 32 <= MAX_HASHED_LEN,
    ensures
        r@ == sha256_digest(creator_address@ + salt@),
{
    let data = salt_preimage(creator_address, salt);
    sha256(&data)
}

} // verus!
