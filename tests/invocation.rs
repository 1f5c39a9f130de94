use rewards_client::invocation::whitelist_cpi_signer;
use rewards_client::instruction::{has_signer, AccountMeta, Instruction};
use rewards_client::{Address, ClientError};
use solana_sdk::pubkey::Pubkey;

fn addr(b: u8) -> Address {
    Address::new([b; 32])
}

fn vesting_authority(safe: &Address, beneficiary: &Address, program: &Address) -> (Address, u8) {
    let (key, bump) = Pubkey::find_program_address(
        &[&safe.bytes[..], &beneficiary.bytes[..]],
        &Pubkey::new_from_array(program.bytes),
    );
    (Address::new(key.to_bytes()), bump)
}

fn transfer(signer: Address, flagged: bool) -> Instruction {
    Instruction {
        program_id: addr(9),
        accounts: vec![
            AccountMeta::new(addr(7), false),
            AccountMeta::new(addr(8), false),
            AccountMeta::new_readonly(signer, flagged),
        ],
        data: vec![3],
    }
}

#[test]
fn whitelisted_call_signed_by_the_vault_authority() {
    let (authority, bump) = vesting_authority(&addr(1), &addr(2), &addr(3));
    let ix = transfer(authority, true);
    assert_eq!(whitelist_cpi_signer(&ix, &addr(1), &addr(2), bump, &addr(3)), Ok(authority));
}

#[test]
fn whitelisted_call_without_the_authority_as_signer() {
    let (authority, bump) = vesting_authority(&addr(1), &addr(2), &addr(3));
    let ix = transfer(authority, false);
    let r = whitelist_cpi_signer(&ix, &addr(1), &addr(2), bump, &addr(3));
    assert_eq!(r, Err(ClientError::DerivationMismatch(authority)));
}

#[test]
fn whitelisted_call_under_another_program() {
    let (authority, bump) = vesting_authority(&addr(1), &addr(2), &addr(3));
    let ix = transfer(authority, true);
    let r = whitelist_cpi_signer(&ix, &addr(1), &addr(2), bump, &addr(4));
    assert!(matches!(r, Err(ClientError::DerivationMismatch(_)) | Err(ClientError::DerivationError)));
}

#[test]
fn signer_lookup() {
    let ix = transfer(addr(5), true);
    assert!(has_signer(&ix.accounts, &addr(5)));
    assert!(!has_signer(&ix.accounts, &addr(7)));
}

#[test]
fn addresses_compare_by_bytes() {
    let mut a = addr(1);
    assert!(a.same(&addr(1)));
    a.bytes[31] = 2;
    assert!(!a.same(&addr(1)));
}
