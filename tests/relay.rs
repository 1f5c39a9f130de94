use rewards_client::client::{
    Client, CrankRelayRequest, Instance, MigrateRequest, SetAuthorityRequest,
};
use rewards_client::derivation::vault_authority;
use rewards_client::instruction::{AccountMeta, Instruction};
use rewards_client::{Address, ClientError};
use solana_sdk::pubkey::Pubkey;

fn addr(b: u8) -> Address {
    Address::new([b; 32])
}

fn token_program() -> Address {
    Address::new(spl_token::ID.to_bytes())
}

fn setup() -> (Client, Address, Instance, Address) {
    let program = addr(100);
    let instance_addr = addr(101);
    let (key, bump) = Pubkey::find_program_address(
        &[&instance_addr.bytes[..]],
        &Pubkey::new_from_array(program.bytes),
    );
    let instance = Instance {
        authority: addr(102),
        vault: addr(103),
        registrar: addr(104),
        nonce: bump,
    };
    (Client::new(program, addr(105)), instance_addr, instance, Address::new(key.to_bytes()))
}

fn refused_nonce(instance_addr: &Address, program: &Address) -> u8 {
    (0u8..=255).find(|n| vault_authority(instance_addr, *n, program).is_err()).unwrap()
}

fn inner(target: Address) -> Instruction {
    Instruction {
        program_id: target,
        accounts: vec![
            AccountMeta::new(addr(1), false),
            AccountMeta::new_readonly(addr(2), true),
            AccountMeta::new(addr(3), true),
        ],
        data: vec![9, 8, 7],
    }
}

fn request(instance_addr: Address, target: Address) -> CrankRelayRequest {
    CrankRelayRequest {
        instance: instance_addr,
        token_account: addr(110),
        entity: addr(111),
        dex_event_q: addr(112),
        consume_events_instr: inner(target),
    }
}

#[test]
fn relay_prefix_is_fixed_and_inner_accounts_follow() {
    let (client, instance_addr, instance, authority) = setup();
    let ix = client.crank_relay_ix(&instance, request(instance_addr, addr(120))).unwrap();
    assert_eq!(ix.program_id, addr(100));
    assert_eq!(ix.data, vec![9, 8, 7]);
    let expected_prefix = vec![
        AccountMeta::new_readonly(instance_addr, false),
        AccountMeta::new(addr(103), false),
        AccountMeta::new_readonly(authority, false),
        AccountMeta::new_readonly(addr(104), false),
        AccountMeta::new(addr(110), false),
        AccountMeta::new_readonly(addr(111), false),
        AccountMeta::new_readonly(addr(105), true),
        AccountMeta::new_readonly(token_program(), false),
        AccountMeta::new_readonly(addr(120), false),
        AccountMeta::new(addr(112), false),
    ];
    assert_eq!(ix.accounts.len(), 13);
    assert_eq!(ix.accounts[..10].to_vec(), expected_prefix);
    assert_eq!(ix.accounts[10..].to_vec(), inner(addr(120)).accounts);
}

#[test]
fn relay_prefix_does_not_depend_on_inner_content() {
    let (client, instance_addr, instance, _) = setup();
    let a = client.crank_relay_ix(&instance, request(instance_addr, addr(120))).unwrap();
    let mut other = request(instance_addr, addr(120));
    other.consume_events_instr.accounts = vec![AccountMeta::new_readonly(addr(50), false)];
    other.consume_events_instr.data = vec![];
    let b = client.crank_relay_ix(&instance, other).unwrap();
    assert_eq!(a.accounts[..10].to_vec(), b.accounts[..10].to_vec());
    assert_eq!(b.accounts[10..].to_vec(), vec![AccountMeta::new_readonly(addr(50), false)]);
    assert!(b.data.is_empty());
}

#[test]
fn relay_with_no_inner_accounts_is_the_prefix_alone() {
    let (client, instance_addr, instance, _) = setup();
    let mut req = request(instance_addr, addr(120));
    req.consume_events_instr.accounts = vec![];
    let ix = client.crank_relay_ix(&instance, req).unwrap();
    assert_eq!(ix.accounts.len(), 10);
}

#[test]
fn relay_to_an_unvetted_program_is_built_and_left_to_the_ledger() {
    let (client, instance_addr, instance, _) = setup();
    let ix = client.crank_relay_ix(&instance, request(instance_addr, addr(121))).unwrap();
    assert_eq!(ix.accounts[8], AccountMeta::new_readonly(addr(121), false));
}

#[test]
fn relay_fails_when_the_seeds_are_refused() {
    let (client, instance_addr, mut instance, _) = setup();
    instance.nonce = refused_nonce(&instance_addr, &client.program());
    let r = client.crank_relay_ix(&instance, request(instance_addr, addr(120)));
    assert_eq!(r, Err(ClientError::DerivationError));
}

#[test]
fn set_authority_lists_current_authority_and_instance() {
    let (client, instance_addr, instance, _) = setup();
    let req = SetAuthorityRequest {
        new_authority: addr(130),
        instance: instance_addr,
        authority: addr(102),
    };
    let call = client.set_authority(&instance, req).unwrap();
    assert_eq!(
        call.accounts,
        vec![AccountMeta::new_readonly(addr(102), false), AccountMeta::new(instance_addr, false)]
    );
    assert_eq!(call.signers, vec![addr(102), addr(105)]);
}

#[test]
fn set_authority_needs_the_current_authority() {
    let (client, instance_addr, instance, _) = setup();
    let req = SetAuthorityRequest {
        new_authority: addr(130),
        instance: instance_addr,
        authority: addr(131),
    };
    let r = client.set_authority(&instance, req);
    assert_eq!(r.unwrap_err(), ClientError::UnauthorizedSigner(addr(102)));
}

#[test]
fn migrate_lists_vault_authority_and_receiver() {
    let (client, instance_addr, instance, authority) = setup();
    let req = MigrateRequest { authority: addr(102), instance: instance_addr, receiver: addr(140) };
    let call = client.migrate(&instance, req).unwrap();
    assert_eq!(
        call.accounts,
        vec![
            AccountMeta::new_readonly(addr(102), true),
            AccountMeta::new(instance_addr, false),
            AccountMeta::new(addr(103), false),
            AccountMeta::new_readonly(authority, false),
            AccountMeta::new(addr(140), false),
            AccountMeta::new_readonly(token_program(), false),
        ]
    );
    assert_eq!(call.signers, vec![addr(102), addr(105)]);
}

#[test]
fn migrate_needs_the_current_authority() {
    let (client, instance_addr, instance, _) = setup();
    let req = MigrateRequest { authority: addr(141), instance: instance_addr, receiver: addr(140) };
    let r = client.migrate(&instance, req);
    assert_eq!(r.unwrap_err(), ClientError::UnauthorizedSigner(addr(102)));
}

#[test]
fn migrate_fails_when_the_seeds_are_refused() {
    let (client, instance_addr, mut instance, _) = setup();
    instance.nonce = refused_nonce(&instance_addr, &client.program());
    let req = MigrateRequest { authority: addr(102), instance: instance_addr, receiver: addr(140) };
    assert_eq!(client.migrate(&instance, req).unwrap_err(), ClientError::DerivationError);
}

#[test]
fn client_getters() {
    let client = Client::new(addr(1), addr(2));
    assert_eq!(client.program(), addr(1));
    assert_eq!(client.payer(), addr(2));
}
