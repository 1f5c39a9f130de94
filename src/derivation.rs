use crate::address::Address;
use crate::error::ClientError;
use vstd::prelude::*;

verus! {

/// The most seeds a program address may be derived from.
pub const MAX_SEEDS: usize = 16;

/// The most bytes a single seed may hold.
pub const MAX_SEED_LEN: usize = 32;

#[verifier::external_type_specification]
#[verifier::external_body]
pub struct ExPubkeyError(solana_sdk::pubkey::PubkeyError);

/// The program address that the runtime derives from `seeds` under
/// `program_id`, or `None` where it refuses them.
pub uninterp spec fn program_address(seeds: Seq<Seq<u8>>, program_id: Seq<u8>) -> Option<Seq<u8>>;

/// The seeds as byte sequences.
pub open spec fn seeds_view(seeds: Seq<Vec<u8>>) -> Seq<Seq<u8>> {
    seeds.map_values(|s: Vec<u8>| s@)
}

/// Whether the seeds break the runtime's limits on their number or size.
pub open spec fn seeds_exceed_limits(seeds: Seq<Seq<u8>>) -> bool {
    seeds.len() > MAX_SEEDS || exists|i: int| 0 <= i < seeds.len() && seeds[i].len() > MAX_SEED_LEN
}

/// Relies on solana_sdk::pubkey::Pubkey::create_program_address: it refuses
/// more than `MAX_SEEDS` seeds or a seed longer than `MAX_SEED_LEN`; otherwise
/// it hashes the seeds with the program id and refuses a hash that lies on the
/// ed25519 curve. The result depends on the arguments alone.
#[verifier::external_body]
fn create_program_address(seeds: &Vec<Vec<u8>>, program_id: &Address) -> (r: Result<
    Address,
    solana_sdk::pubkey::PubkeyError,
>)
    ensures
        match r {
            Ok(a) => program_address(seeds_view(seeds@), program_id@) == Some(a@),
            Err(_) => program_address(seeds_view(seeds@), program_id@) is None,
        },
        seeds_exceed_limits(seeds_view(seeds@)) ==> r is Err,
{
    let slices: Vec<&[u8]> = seeds.iter().map(|s| s.as_slice()).collect();
    let program = solana_sdk::pubkey::Pubkey::new_from_array(program_id.bytes);
    solana_sdk::pubkey::Pubkey::create_program_address(&slices, &program).map(
        |k| Address { bytes: k.to_bytes() },
    )
}

/// The seeds naming the authority of a rewards vault: the instance address,
/// then the nonce as a single byte.
pub open spec fn vault_seeds(instance: Seq<u8>, nonce: u8) -> Seq<Seq<u8>> {
    seq![instance, seq![nonce]]
}

/// The seeds naming the authority of a vesting vault: the safe address, the
/// beneficiary address, then the nonce as a single byte.
pub open spec fn vesting_seeds(safe: Seq<u8>, beneficiary: Seq<u8>, nonce: u8) -> Seq<Seq<u8>> {
    seq![safe, beneficiary, seq![nonce]]
}

/// Whether `candidate` is the address derived from `seeds` under `program_id`.
pub open spec fn is_derived_from(candidate: Seq<u8>, seeds: Seq<Seq<u8>>, program_id: Seq<u8>) -> bool {
    program_address(seeds, program_id) == Some(candidate)
}

/// What a derivation of `seeds` under `program_id` returns.
pub open spec fn derivation_outcome(
    r: Result<Address, ClientError>,
    seeds: Seq<Seq<u8>>,
    program_id: Seq<u8>,
) -> bool {
    match r {
        Ok(a) => program_address(seeds, program_id) == Some(a@),
        Err(e) => e == ClientError::DerivationError && program_address(seeds, program_id) is None,
    }
}

fn address_bytes(a: &Address) -> (r: Vec<u8>)
    ensures
        r@ == a@,
{
    let mut r: Vec<u8> = Vec::new();
    let mut i: usize = 0;
    while i < 32
        invariant
            0 <= i <= 32,
            a@.len() == 32,
            r@ == a@.subrange(0, i as int),
        decreases 32 - i,
    {
        r.push(a.bytes[i]);
        i = i + 1;
    }
    assert(r@ =~= a@);
    r
}

/// The seeds of the authority over the vault of the rewards instance at
/// `instance`.
pub fn vault_signer_seeds(instance: &Address, nonce: u8) -> (r: Vec<Vec<u8>>)
    ensures
        seeds_view(r@) == vault_seeds(instance@, nonce),
{
    let mut r: Vec<Vec<u8>> = Vec::new();
    r.push(address_bytes(instance));
    let tail: Vec<u8> = vec![nonce];
    assert(tail@ =~= seq![nonce]);
    r.push(tail);
    assert(seeds_view(r@) =~= vault_seeds(instance@, nonce));
    r
}

/// The seeds of the authority over the vault of the vesting account `safe`
/// held for `beneficiary`.
pub fn vesting_signer_seeds(safe: &Address, beneficiary: &Address, nonce: u8) -> (r: Vec<Vec<u8>>)
    ensures
        seeds_view(r@) == vesting_seeds(safe@, beneficiary@, nonce),
{
    let mut r: Vec<Vec<u8>> = Vec::new();
    r.push(address_bytes(safe));
    r.push(address_bytes(beneficiary));
    let tail: Vec<u8> = vec![nonce];
    assert(tail@ =~= seq![nonce]);
    r.push(tail);
    assert(seeds_view(r@) =~= vesting_seeds(safe@, beneficiary@, nonce));
    r
}

/// The program address derived from `seeds` under `program_id`.
pub fn derive_address(seeds: &Vec<Vec<u8>>, program_id: &Address) -> (r: Result<Address, ClientError>)
    ensures
        derivation_outcome(r, seeds_view(seeds@), program_id@),
{
    match create_program_address(seeds, program_id) {
        Ok(a) => Ok(a),
        Err(_) => Err(ClientError::DerivationError),
    }
}

/// The authority over the vault of the rewards instance at `instance`.
pub fn vault_authority(instance: &Address, nonce: u8, program_id: &Address) -> (r: Result<
    Address,
    ClientError,
>)
    ensures
        derivation_outcome(r, vault_seeds(instance@, nonce), program_id@),
{
    let seeds = vault_signer_seeds(instance, nonce);
    derive_address(&seeds, program_id)
}

/// Whether `candidate` is the address that a derivation returned.
pub fn matches_derivation(candidate: &Address, derived: &Result<Address, ClientError>) -> (r: bool)
    ensures
        r == (derived matches Ok(a) && a@ == candidate@),
{
    match derived {
        Ok(a) => a.same(candidate),
        Err(_) => false,
    }
}

/// Whether `candidate` is the address derived from `seeds` under `program_id`.
pub fn validate_authority(candidate: &Address, seeds: &Vec<Vec<u8>>, program_id: &Address) -> (r: bool)
    ensures
        r == is_derived_from(candidate@, seeds_view(seeds@), program_id@),
{
    let derived = derive_address(seeds, program_id);
    matches_derivation(candidate, &derived)
}

/// Accepts `candidate` as the authority derived from `seeds` under
/// `program_id`, or fails with `DerivationMismatch`.
pub fn check_authority(candidate: &Address, seeds: &Vec<Vec<u8>>, program_id: &Address) -> (r: Result<
    (),
    ClientError,
>)
    ensures
        r is Ok <==> is_derived_from(candidate@, seeds_view(seeds@), program_id@),
        r is Err ==> r == Err::<(), ClientError>(ClientError::DerivationMismatch(*candidate)),
{
    if validate_authority(candidate, seeds, program_id) {
        Ok(())
    } else {
        Err(ClientError::DerivationMismatch(*candidate))
    }
}

/// Deriving an authority is deterministic: two derivations from the same
/// seeds under the same program either both fail or give the same address.
pub proof fn lemma_derivation_deterministic(
    r1: Result<Address, ClientError>,
    r2: Result<Address, ClientError>,
    seeds: Seq<Seq<u8>>,
    program_id: Seq<u8>,
)
    requires
        derivation_outcome(r1, seeds, program_id),
        derivation_outcome(r2, seeds, program_id),
    ensures
        r1 is Ok <==> r2 is Ok,
        r1 is Err ==> r1 == r2,
        r1 is Ok && r2 is Ok ==> r1->Ok_0@ == r2->Ok_0@,
{
}

/// An address that is not the derivation of the seeds under the program is
/// never accepted as their authority.
pub proof fn lemma_non_forgeable(candidate: Seq<u8>, seeds: Seq<Seq<u8>>, program_id: Seq<u8>)
    requires
        program_address(seeds, program_id) != Some(candidate),
    ensures
        !is_derived_from(candidate, seeds, program_id),
{
}

/// Distinct instances or nonces give distinct vault seeds, so one seed tuple
/// names one vault.
pub proof fn lemma_vault_seeds_injective(i1: Seq<u8>, n1: u8, i2: Seq<u8>, n2: u8)
    requires
        vault_seeds(i1, n1) == vault_seeds(i2, n2),
    ensures
        i1 == i2,
        n1 == n2,
{
    assert(vault_seeds(i1, n1)[0] == i1);
    assert(vault_seeds(i1, n1)[1][0] == n1);
    assert(vault_seeds(i2, n2)[1][0] == n2);
}

/// Distinct safes, beneficiaries or nonces give distinct vesting seeds.
pub proof fn lemma_vesting_seeds_injective(
    s1: Seq<u8>,
    b1: Seq<u8>,
    n1: u8,
    s2: Seq<u8>,
    b2: Seq<u8>,
    n2: u8,
)
    requires
        vesting_seeds(s1, b1, n1) == vesting_seeds(s2, b2, n2),
    ensures
        s1 == s2,
        b1 == b2,
        n1 == n2,
{
    assert(vesting_seeds(s1, b1, n1)[0] == s1);
    assert(vesting_seeds(s1, b1, n1)[1] == b1);
    assert(vesting_seeds(s1, b1, n1)[2][0] == n1);
    assert(vesting_seeds(s2, b2, n2)[2][0] == n2);
}

} // verus!
