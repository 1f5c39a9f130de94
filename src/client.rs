use crate::address::Address;
use crate::derivation::{program_address, vault_authority, vault_seeds};
use crate::error::ClientError;
use crate::instruction::{AccountMeta, Instruction};
use crate::token::{
    token_account, token_account_outcome, token_program_bytes, token_program_id, TokenAccount,
};
use vstd::prelude::*;

verus! {

/// The number of privileged accounts ahead of a relayed instruction's own.
pub const RELAY_PREFIX_LEN: usize = 10;

/// What the client reads of a rewards instance: the vault it manages, the
/// authority that may reconfigure it, its registrar, and the nonce of the
/// vault authority's seeds.
#[derive(Clone, Copy, Debug, PartialEq, Eq)]
pub struct Instance {
    pub authority: Address,
    pub vault: Address,
    pub registrar: Address,
    pub nonce: u8,
}

/// A client of the rewards program `program_id`, paying with `payer`.
#[derive(Clone, Copy, Debug)]
pub struct Client {
    pub program_id: Address,
    pub payer: Address,
}

/// The parameters of a new rewards instance.
#[derive(Clone, Copy, Debug)]
pub struct InitializeRequest {
    pub registry_program_id: Address,
    pub registrar: Address,
    pub reward_mint: Address,
    pub dex_program_id: Address,
    pub authority: Address,
    pub fee_rate: u64,
}

/// A matching-engine instruction to relay through the vault of `instance`.
#[derive(Clone, Debug)]
pub struct CrankRelayRequest {
    pub instance: Address,
    pub token_account: Address,
    pub entity: Address,
    pub dex_event_q: Address,
    pub consume_events_instr: Instruction,
}

pub type CrankRelayIxRequest = CrankRelayRequest;

/// A change of the authority of `instance` to `new_authority`, signed by
/// `authority`.
#[derive(Clone, Copy, Debug)]
pub struct SetAuthorityRequest {
    pub new_authority: Address,
    pub instance: Address,
    pub authority: Address,
}

/// An emptying of the vault of `instance` into `receiver`, signed by
/// `authority`.
#[derive(Clone, Copy, Debug)]
pub struct MigrateRequest {
    pub authority: Address,
    pub instance: Address,
    pub receiver: Address,
}

/// The accounts of an administrative call and the keys that must sign it.
#[derive(Clone, Debug)]
pub struct SignedCall {
    pub accounts: Vec<AccountMeta>,
    pub signers: Vec<Address>,
}

/// An account meta as its address, signer flag and writable flag.
pub open spec fn meta_view(m: AccountMeta) -> (Seq<u8>, bool, bool) {
    (m.pubkey@, m.is_signer, m.is_writable)
}

/// The account metas as addresses and flags.
pub open spec fn metas_view(s: Seq<AccountMeta>) -> Seq<(Seq<u8>, bool, bool)> {
    s.map_values(|m: AccountMeta| meta_view(m))
}

/// The addresses of the keys.
pub open spec fn keys_view(s: Seq<Address>) -> Seq<Seq<u8>> {
    s.map_values(|a: Address| a@)
}

/// The privileged accounts that lead a relay of `req` by `leader`, in order:
/// the instance, its vault, the vault authority, the registrar, the token
/// account, the entity, the leader as signer, the token program, the relayed
/// program and the event queue.
pub open spec fn relay_prefix(
    leader: Seq<u8>,
    acc: Instance,
    authority: Seq<u8>,
    req: CrankRelayRequest,
) -> Seq<(Seq<u8>, bool, bool)> {
    seq![
        (req.instance@, false, false),
        (acc.vault@, false, true),
        (authority, false, false),
        (acc.registrar@, false, false),
        (req.token_account@, false, true),
        (req.entity@, false, false),
        (leader, true, false),
        (token_program_bytes(), false, false),
        (req.consume_events_instr.program_id@, false, false),
        (req.dex_event_q@, false, true),
    ]
}

/// Whether `accounts` is `prefix` followed by `inner`, unchanged.
pub open spec fn relay_layout(
    accounts: Seq<AccountMeta>,
    prefix: Seq<(Seq<u8>, bool, bool)>,
    inner: Seq<AccountMeta>,
) -> bool {
    &&& accounts.len() == prefix.len() + inner.len()
    &&& metas_view(accounts.subrange(0, prefix.len() as int)) == prefix
    &&& accounts.subrange(prefix.len() as int, accounts.len() as int) == inner
}

/// The vault authority of the instance at `instance` under `program_id`, where
/// it can be derived.
pub open spec fn vault_authority_of(instance: Seq<u8>, acc: Instance, program_id: Seq<u8>) -> Option<
    Seq<u8>,
> {
    program_address(vault_seeds(instance, acc.nonce), program_id)
}

/// The accounts of an authority change, in order: the current authority and
/// the instance.
pub open spec fn set_authority_accounts(acc: Instance, req: SetAuthorityRequest) -> Seq<
    (Seq<u8>, bool, bool),
> {
    seq![(acc.authority@, false, false), (req.instance@, false, true)]
}

/// The accounts of a migration, in order: the authority as signer, the
/// instance, the vault, the vault authority, the receiver and the token
/// program.
pub open spec fn migrate_accounts(acc: Instance, authority: Seq<u8>, req: MigrateRequest) -> Seq<
    (Seq<u8>, bool, bool),
> {
    seq![
        (req.authority@, true, false),
        (req.instance@, false, true),
        (acc.vault@, false, true),
        (authority, false, false),
        (req.receiver@, false, true),
        (token_program_bytes(), false, false),
    ]
}

/// Whatever the inner instruction, the accounts of a relay open with the same
/// privileged prefix, which depends on the inner instruction only through the
/// program it targets, and go on with the inner instruction's accounts in
/// their order and with their flags.
pub proof fn lemma_relay_prefix_invariance(
    leader: Seq<u8>,
    acc: Instance,
    authority: Seq<u8>,
    req1: CrankRelayRequest,
    req2: CrankRelayRequest,
    accounts1: Seq<AccountMeta>,
    accounts2: Seq<AccountMeta>,
)
    requires
        relay_layout(
            accounts1,
            relay_prefix(leader, acc, authority, req1),
            req1.consume_events_instr.accounts@,
        ),
        relay_layout(
            accounts2,
            relay_prefix(leader, acc, authority, req2),
            req2.consume_events_instr.accounts@,
        ),
        req1.instance == req2.instance,
        req1.token_account == req2.token_account,
        req1.entity == req2.entity,
        req1.dex_event_q == req2.dex_event_q,
        req1.consume_events_instr.program_id == req2.consume_events_instr.program_id,
    ensures
        metas_view(accounts1.subrange(0, RELAY_PREFIX_LEN as int)) == metas_view(
            accounts2.subrange(0, RELAY_PREFIX_LEN as int),
        ),
        accounts1.subrange(RELAY_PREFIX_LEN as int, accounts1.len() as int)
            == req1.consume_events_instr.accounts@,
        accounts2.subrange(RELAY_PREFIX_LEN as int, accounts2.len() as int)
            == req2.consume_events_instr.accounts@,
{
    assert(relay_prefix(leader, acc, authority, req1) =~= relay_prefix(leader, acc, authority, req2));
}

impl Client {
    /// A client of `program_id` that pays with `payer`.
    pub fn new(program_id: Address, payer: Address) -> (r: Client)
        ensures
            r.program_id == program_id,
            r.payer == payer,
    {
        Client { program_id, payer }
    }

    /// The program this client calls.
    pub fn program(&self) -> (r: Address)
        ensures
            r == self.program_id,
    {
        self.program_id
    }

    /// The key that pays for and leads this client's calls.
    pub fn payer(&self) -> (r: Address)
        ensures
            r == self.payer,
    {
        self.payer
    }

    /// The relay of `req` through the vault of `instance_acc`, whose authority
    /// is `vault_authority`: the privileged prefix, then the inner
    /// instruction's accounts unchanged, addressed to this client's program
    /// with the inner instruction's data as payload.
    pub fn relay_instruction(
        &self,
        instance_acc: &Instance,
        vault_authority: &Address,
        req: CrankRelayIxRequest,
    ) -> (r: Instruction)
        ensures
            r.program_id == self.program_id,
            relay_layout(
                r.accounts@,
                relay_prefix(self.payer@, *instance_acc, vault_authority@, req),
                req.consume_events_instr.accounts@,
            ),
            r.data@ == req.consume_events_instr.data@,
    {
        let ghost req0 = req;
        let CrankRelayRequest { instance, token_account, entity, dex_event_q, consume_events_instr } =
            req;
        let Instruction { program_id: inner_program, accounts: inner_accounts, data } =
            consume_events_instr;
        let mut accounts: Vec<AccountMeta> = vec![
            AccountMeta::new_readonly(instance, false),
            AccountMeta::new(instance_acc.vault, false),
            AccountMeta::new_readonly(*vault_authority, false),
            AccountMeta::new_readonly(instance_acc.registrar, false),
            AccountMeta::new(token_account, false),
            AccountMeta::new_readonly(entity, false),
            AccountMeta::new_readonly(self.payer, true),
            AccountMeta::new_readonly(token_program_id(), false),
            AccountMeta::new_readonly(inner_program, false),
            AccountMeta::new(dex_event_q, false),
        ];
        let ghost prefix = accounts@;
        assert(metas_view(prefix) =~= relay_prefix(self.payer@, *instance_acc, vault_authority@, req0));
        let mut i: usize = 0;
        while i < inner_accounts.len()
            invariant
                0 <= i <= inner_accounts@.len(),
                inner_accounts@ == req0.consume_events_instr.accounts@,
                accounts@ == prefix + inner_accounts@.subrange(0, i as int),
            decreases inner_accounts@.len() - i,
        {
            accounts.push(inner_accounts[i]);
            i = i + 1;
            assert(accounts@ =~= prefix + inner_accounts@.subrange(0, i as int));
        }
        assert(accounts@.subrange(0, 10) =~= prefix);
        assert(accounts@.subrange(10, accounts@.len() as int) =~= inner_accounts@);
        Instruction { program_id: self.program_id, accounts, data }
    }

    /// The relay of `req` through the vault of `instance_acc`, after deriving
    /// the vault authority from the instance address and nonce; fails with
    /// `DerivationError` where the runtime refuses those seeds.
    pub fn crank_relay_ix(&self, instance_acc: &Instance, req: CrankRelayIxRequest) -> (r: Result<
        Instruction,
        ClientError,
    >)
        ensures
            r is Ok <==> vault_authority_of(req.instance@, *instance_acc, self.program_id@) is Some,
            match r {
                Ok(ix) => {
                    &&& ix.program_id == self.program_id
                    &&& relay_layout(
                        ix.accounts@,
                        relay_prefix(
                            self.payer@,
                            *instance_acc,
                            vault_authority_of(req.instance@, *instance_acc, self.program_id@)->Some_0,
                            req,
                        ),
                        req.consume_events_instr.accounts@,
                    )
                    &&& ix.data@ == req.consume_events_instr.data@
                },
                Err(e) => e == ClientError::DerivationError,
            },
    {
        match vault_authority(&req.instance, instance_acc.nonce, &self.program_id) {
            Ok(authority) => Ok(self.relay_instruction(instance_acc, &authority, req)),
            Err(e) => Err(e),
        }
    }

    /// The call that hands the instance at `req.instance` to
    /// `req.new_authority`; fails with `UnauthorizedSigner` unless
    /// `req.authority` is the instance's current authority.
    pub fn set_authority(&self, instance_acc: &Instance, req: SetAuthorityRequest) -> (r: Result<
        SignedCall,
        ClientError,
    >)
        ensures
            r is Ok <==> req.authority@ == instance_acc.authority@,
            match r {
                Ok(call) => {
                    &&& metas_view(call.accounts@) == set_authority_accounts(*instance_acc, req)
                    &&& keys_view(call.signers@) == seq![req.authority@, self.payer@]
                },
                Err(e) => e == ClientError::UnauthorizedSigner(instance_acc.authority),
            },
    {
        if !req.authority.same(&instance_acc.authority) {
            return Err(ClientError::UnauthorizedSigner(instance_acc.authority));
        }
        let accounts: Vec<AccountMeta> = vec![
            AccountMeta::new_readonly(instance_acc.authority, false),
            AccountMeta::new(req.instance, false),
        ];
        let signers: Vec<Address> = vec![req.authority, self.payer];
        assert(metas_view(accounts@) =~= set_authority_accounts(*instance_acc, req));
        assert(keys_view(signers@) =~= seq![req.authority@, self.payer@]);
        Ok(SignedCall { accounts, signers })
    }

    /// The call that empties the vault of the instance at `req.instance` into
    /// `req.receiver`; fails with `UnauthorizedSigner` unless `req.authority`
    /// is the instance's current authority, and with `DerivationError` where
    /// the vault authority cannot be derived.
    pub fn migrate(&self, instance_acc: &Instance, req: MigrateRequest) -> (r: Result<
        SignedCall,
        ClientError,
    >)
        ensures
            r is Ok <==> req.authority@ == instance_acc.authority@ && vault_authority_of(
                req.instance@,
                *instance_acc,
                self.program_id@,
            ) is Some,
            match r {
                Ok(call) => {
                    &&& metas_view(call.accounts@) == migrate_accounts(
                        *instance_acc,
                        vault_authority_of(req.instance@, *instance_acc, self.program_id@)->Some_0,
                        req,
                    )
                    &&& keys_view(call.signers@) == seq![req.authority@, self.payer@]
                },
                Err(e) => if req.authority@ != instance_acc.authority@ {
                    e == ClientError::UnauthorizedSigner(instance_acc.authority)
                } else {
                    e == ClientError::DerivationError
                },
            },
    {
        if !req.authority.same(&instance_acc.authority) {
            return Err(ClientError::UnauthorizedSigner(instance_acc.authority));
        }
        let authority = match vault_authority(&req.instance, instance_acc.nonce, &self.program_id) {
            Ok(a) => a,
            Err(e) => {
                return Err(e);
            },
        };
        let accounts: Vec<AccountMeta> = vec![
            AccountMeta::new_readonly(req.authority, true),
            AccountMeta::new(req.instance, false),
            AccountMeta::new(instance_acc.vault, false),
            AccountMeta::new_readonly(authority, false),
            AccountMeta::new(req.receiver, false),
            AccountMeta::new_readonly(token_program_id(), false),
        ];
        let signers: Vec<Address> = vec![req.authority, self.payer];
        assert(metas_view(accounts@) =~= migrate_accounts(*instance_acc, authority@, req));
        assert(keys_view(signers@) =~= seq![req.authority@, self.payer@]);
        Ok(SignedCall { accounts, signers })
    }

    /// The token account of the vault of `instance_acc`, read from `vault_data`,
    /// the vault account's data where the account exists.
    pub fn vault(&self, instance_acc: &Instance, vault_data: &Option<Vec<u8>>) -> (r: Result<
        TokenAccount,
        ClientError,
    >)
        ensures
            token_account_outcome(r, instance_acc.vault, *vault_data),
    {
        token_account(&instance_acc.vault, vault_data)
    }
}

} // verus!
