use crate::address::Address;
use crate::derivation::{
    derive_address, program_address, seeds_view, vesting_seeds, vesting_signer_seeds,
};
use crate::error::ClientError;
use crate::instruction::{has_signer, is_signer_among, Instruction};
use vstd::prelude::*;

verus! {

/// What checking `instruction` against a derivation `derived` returns: the
/// derivation's failure, the derived address where the instruction flags it
/// as a signer, else `DerivationMismatch` with that address.
pub open spec fn invocation_signer_outcome(
    r: Result<Address, ClientError>,
    instruction: Instruction,
    derived: Result<Address, ClientError>,
) -> bool {
    match derived {
        Err(e) => r == Err::<Address, ClientError>(e),
        Ok(a) => if is_signer_among(instruction.accounts@, a@) {
            r == Ok::<Address, ClientError>(a)
        } else {
            r == Err::<Address, ClientError>(ClientError::DerivationMismatch(a))
        },
    }
}

/// The address that signs `instruction` by derivation, where `derived` is the
/// derivation of the signing seeds.
pub fn invocation_signer(instruction: &Instruction, derived: Result<Address, ClientError>) -> (r:
    Result<Address, ClientError>)
    ensures
        invocation_signer_outcome(r, *instruction, derived),
{
    match derived {
        Err(e) => Err(e),
        Ok(a) => if has_signer(&instruction.accounts, &a) {
            Ok(a)
        } else {
            Err(ClientError::DerivationMismatch(a))
        },
    }
}

/// The authority of the vault of the vesting account `safe` held for
/// `beneficiary`, which a whitelisted call `instruction` made by `program_id`
/// is signed with; fails where the seeds cannot be derived, or where the call
/// does not flag the derived authority as a signer.
pub fn whitelist_cpi_signer(
    instruction: &Instruction,
    safe: &Address,
    beneficiary: &Address,
    nonce: u8,
    program_id: &Address,
) -> (r: Result<Address, ClientError>)
    ensures
        match program_address(vesting_seeds(safe@, beneficiary@, nonce), program_id@) {
            None => r == Err::<Address, ClientError>(ClientError::DerivationError),
            Some(a) => if is_signer_among(instruction.accounts@, a) {
                r is Ok && r->Ok_0@ == a
            } else {
                r is Err && (r->Err_0 matches ClientError::DerivationMismatch(x) && x@ == a)
            },
        },
{
    let seeds = vesting_signer_seeds(safe, beneficiary, nonce);
    let derived = derive_address(&seeds, program_id);
    assert(seeds_view(seeds@) == vesting_seeds(safe@, beneficiary@, nonce));
    invocation_signer(instruction, derived)
}

} // verus!
