use vstd::prelude::*;

verus! {

/// An account or contract on the ledger.
pub type AccountId = u64;

/// A 32-byte value: a wasm hash, a salt or a public key.
pub type Bytes32 = [u8; 32];

/// Which accounts have signed the current invocation.
///
/// `All` stands for a context in which every authorisation request is
/// granted; `Signers` lists the accounts whose signatures are present.
pub enum Auth {
    All,
    Signers(Vec<AccountId>),
}

impl Auth {
    /// `account` has authorised the current invocation.
    pub open spec fn signed(&self, account: AccountId) -> bool {
        match self {
            Auth::All => true,
            Auth::Signers(v) => v@.contains(account),
        }
    }

    /// Checks whether `account` has authorised the current invocation.
    pub fn has_signed(&self, account: AccountId) -> (r: bool)
        ensures
            r == self.signed(account),
    {
        match self {
            Auth::All => true,
            Auth::Signers(v) => {
                let mut i: usize = 0;
                while i < v.len()
                    invariant
                        0 <= i <= v.len(),
                        self.signed(account) == v@.contains(account),
                        forall|j: int| 0 <= j < i ==> v@[j] != account,
                    decreases v.len() - i,
                {
                    if v[i] == account {
                        assert(v@[i as int] == account);
                        return true;
                    }
                    i = i + 1;
                }
                false
            },
        }
    }
}

/// Byte-wise equality of two 32-byte values.
pub fn same_bytes32(a: &Bytes32, b: &Bytes32) -> (r: bool)
    ensures
        r == (a@ == b@),
{
    let mut i: usize = 0;
    while i < 32
        invariant
            0 <= i <= 32,
            a@.len() == 32,
            b@.len() == 32,
            forall|j: int| 0 <= j < i ==> a@[j] == b@[j],
        decreases 32 - i,
    {
        if a[i] != b[i] {
            return false;
        }
        i = i + 1;
    }
    assert(a@ =~= b@);
    true
}

} // verus!
