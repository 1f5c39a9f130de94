use crate::address::Address;
use crate::client::{vault_authority_of, Instance};
use crate::error::ClientError;
use vstd::prelude::*;

verus! {

/// What an authority change signed by `signer` does to an instance: with the
/// current authority's signature only the authority field changes; without it
/// the change is refused and nothing changes.
pub open spec fn set_authority_effect(
    before: Instance,
    after: Instance,
    signer: Address,
    new_authority: Address,
    r: Result<(), ClientError>,
) -> bool {
    if signer@ == before.authority@ {
        &&& r is Ok
        &&& after == Instance { authority: new_authority, ..before }
    } else {
        &&& r == Err::<(), ClientError>(ClientError::UnauthorizedSigner(before.authority))
        &&& after == before
    }
}

/// What a migration signed by `signer` does to the balances of the vault and
/// of the receiver: with the current authority's signature the whole vault
/// moves to the receiver; otherwise, or where the receiver's balance would
/// overflow, it is refused and neither balance changes.
pub open spec fn migrate_effect(
    instance: Instance,
    signer: Address,
    vault_before: u64,
    receiver_before: u64,
    vault_after: u64,
    receiver_after: u64,
    r: Result<(), ClientError>,
) -> bool {
    if signer@ != instance.authority@ {
        &&& r == Err::<(), ClientError>(ClientError::UnauthorizedSigner(instance.authority))
        &&& vault_after == vault_before
        &&& receiver_after == receiver_before
    } else if vault_before + receiver_before > u64::MAX {
        &&& r == Err::<(), ClientError>(ClientError::Overflow)
        &&& vault_after == vault_before
        &&& receiver_after == receiver_before
    } else {
        &&& r is Ok
        &&& vault_after == 0
        &&& receiver_after == receiver_before + vault_before
    }
}

impl Instance {
    /// Hands the instance to `new_authority`, where `signer` is its current
    /// authority.
    pub fn apply_set_authority(&mut self, signer: &Address, new_authority: Address) -> (r: Result<
        (),
        ClientError,
    >)
        ensures
            set_authority_effect(*old(self), *final(self), *signer, new_authority, r),
    {
        if !signer.same(&self.authority) {
            return Err(ClientError::UnauthorizedSigner(self.authority));
        }
        self.authority = new_authority;
        Ok(())
    }

    /// Empties the vault, whose balance is `vault_balance`, into the receiver,
    /// whose balance is `receiver_balance`, where `signer` is the instance's
    /// current authority. The instance itself is left as it is.
    pub fn apply_migrate(&self, signer: &Address, vault_balance: &mut u64, receiver_balance: &mut u64) -> (r:
        Result<(), ClientError>)
        ensures
            migrate_effect(
                *self,
                *signer,
                *old(vault_balance),
                *old(receiver_balance),
                *final(vault_balance),
                *final(receiver_balance),
                r,
            ),
    {
        if !signer.same(&self.authority) {
            return Err(ClientError::UnauthorizedSigner(self.authority));
        }
        if *receiver_balance > u64::MAX - *vault_balance {
            return Err(ClientError::Overflow);
        }
        *receiver_balance = *receiver_balance + *vault_balance;
        *vault_balance = 0;
        Ok(())
    }
}

/// An authority change, accepted or refused, leaves the vault, the registrar,
/// the nonce and so the derived vault authority as they were.
pub proof fn lemma_set_authority_isolation(
    before: Instance,
    after: Instance,
    signer: Address,
    new_authority: Address,
    r: Result<(), ClientError>,
    instance: Seq<u8>,
    program_id: Seq<u8>,
)
    requires
        set_authority_effect(before, after, signer, new_authority, r),
    ensures
        after.vault == before.vault,
        after.registrar == before.registrar,
        after.nonce == before.nonce,
        vault_authority_of(instance, after, program_id) == vault_authority_of(
            instance,
            before,
            program_id,
        ),
{
}

/// A migration either moves the whole vault to the receiver or changes
/// neither balance, and the total of the two balances is kept either way.
pub proof fn lemma_migrate_all_or_nothing(
    instance: Instance,
    signer: Address,
    vault_before: u64,
    receiver_before: u64,
    vault_after: u64,
    receiver_after: u64,
    r: Result<(), ClientError>,
)
    requires
        migrate_effect(
            instance,
            signer,
            vault_before,
            receiver_before,
            vault_after,
            receiver_after,
            r,
        ),
    ensures
        vault_after + receiver_after == vault_before + receiver_before,
        r is Ok ==> vault_after == 0,
        r is Err ==> vault_after == vault_before && receiver_after == receiver_before,
{
}

} // verus!
