use crate::address::Address;
use vstd::prelude::*;

verus! {

/// An account that an instruction touches, with how it is touched.
#[derive(Clone, Copy, Debug, PartialEq, Eq)]
pub struct AccountMeta {
    pub pubkey: Address,
    pub is_signer: bool,
    pub is_writable: bool,
}

impl AccountMeta {
    /// A writable account.
    pub fn new(pubkey: Address, is_signer: bool) -> (r: AccountMeta)
        ensures
            r == (AccountMeta { pubkey, is_signer, is_writable: true }),
    {
        AccountMeta { pubkey, is_signer, is_writable: true }
    }

    /// A read-only account.
    pub fn new_readonly(pubkey: Address, is_signer: bool) -> (r: AccountMeta)
        ensures
            r == (AccountMeta { pubkey, is_signer, is_writable: false }),
    {
        AccountMeta { pubkey, is_signer, is_writable: false }
    }
}

/// A call of `program_id` over `accounts`, with `data` as its payload.
#[derive(Clone, Debug, PartialEq, Eq)]
pub struct Instruction {
    pub program_id: Address,
    pub accounts: Vec<AccountMeta>,
    pub data: Vec<u8>,
}

/// Whether `key` stands among `accounts` flagged as a signer.
pub open spec fn is_signer_among(accounts: Seq<AccountMeta>, key: Seq<u8>) -> bool {
    exists|i: int| 0 <= i < accounts.len() && accounts[i].is_signer && accounts[i].pubkey@ == key
}

/// Whether `key` stands among `accounts` flagged as a signer.
pub fn has_signer(accounts: &Vec<AccountMeta>, key: &Address) -> (r: bool)
    ensures
        r == is_signer_among(accounts@, key@),
{
    let mut i: usize = 0;
    while i < accounts.len()
        invariant
            0 <= i <= accounts@.len(),
            forall|k: int|
                0 <= k < i ==> !(accounts@[k].is_signer && accounts@[k].pubkey@ == key@),
        decreases accounts@.len() - i,
    {
        let a = accounts[i];
        if a.is_signer && a.pubkey.same(key) {
            return true;
        }
        i = i + 1;
    }
    false
}

} // verus!
