use crate::address::Address;
use crate::error::ClientError;
use spl_token::solana_program::program_pack::Pack;
use vstd::prelude::*;

verus! {

/// The byte length of a token account.
pub const TOKEN_ACCOUNT_LEN: usize = 165;

/// The address of the token program.
pub open spec fn token_program_bytes() -> Seq<u8> {
    seq![
        6u8, 221u8, 246u8, 225u8, 215u8, 101u8, 161u8, 147u8, 217u8, 203u8, 225u8, 70u8, 206u8,
        235u8, 121u8, 172u8, 28u8, 180u8, 133u8, 237u8, 95u8, 91u8, 55u8, 145u8, 58u8, 140u8,
        245u8, 133u8, 126u8, 255u8, 0u8, 169u8,
    ]
}

/// Relies on spl_token::ID: the address of the token program.
#[verifier::external_body]
pub(crate) fn token_program_id() -> (r: Address)
    ensures
        r@ == token_program_bytes(),
{
    Address { bytes: spl_token::ID.to_bytes() }
}

/// What the logic reads of a token account.
#[derive(Clone, Copy, Debug, PartialEq, Eq)]
pub struct TokenAccount {
    pub mint: Address,
    pub owner: Address,
    pub amount: u64,
}

#[verifier::external_type_specification]
#[verifier::external_body]
pub struct ExProgramError(spl_token::solana_program::program_error::ProgramError);

/// The unsigned integer that eight bytes spell, least significant first.
pub open spec fn le_u64(b: Seq<u8>) -> int {
    b[0] + 256 * (b[1] + 256 * (b[2] + 256 * (b[3] + 256 * (b[4] + 256 * (b[5] + 256 * (b[6]
        + 256 * b[7]))))))
}

/// Whether four bytes are the tag of an absent or of a present optional field.
pub open spec fn option_tag_ok(t: Seq<u8>) -> bool {
    t == seq![0u8, 0u8, 0u8, 0u8] || t == seq![1u8, 0u8, 0u8, 0u8]
}

/// Whether `d` is the layout of an initialized token account: its length,
/// a state byte of initialized or frozen, and well-formed optional fields.
pub open spec fn token_account_layout_ok(d: Seq<u8>) -> bool {
    &&& d.len() == TOKEN_ACCOUNT_LEN
    &&& (d[108] == 1 || d[108] == 2)
    &&& option_tag_ok(d.subrange(72, 76))
    &&& option_tag_ok(d.subrange(109, 113))
    &&& option_tag_ok(d.subrange(129, 133))
}

/// The token account that the layout `d` holds.
pub open spec fn token_account_of(t: TokenAccount, d: Seq<u8>) -> bool {
    &&& t.mint@ == d.subrange(0, 32)
    &&& t.owner@ == d.subrange(32, 64)
    &&& t.amount == le_u64(d.subrange(64, 72))
}

/// Relies on spl_token::state::Account::unpack: it accepts exactly the
/// initialized layouts, with the mint, the owner and the little-endian amount
/// at the front.
#[verifier::external_body]
fn unpack_token_account(data: &[u8]) -> (r: Result<
    TokenAccount,
    spl_token::solana_program::program_error::ProgramError,
>)
    ensures
        r is Ok <==> token_account_layout_ok(data@),
        r matches Ok(t) ==> token_account_of(t, data@),
{
    #[allow(deprecated)]
    let unpacked = spl_token::state::Account::unpack(data);
    unpacked.map(
        |a| TokenAccount {
            mint: Address { bytes: a.mint.to_bytes() },
            owner: Address { bytes: a.owner.to_bytes() },
            amount: a.amount,
        },
    )
}

/// What reading the token account at `address` from `data` returns: not
/// found where the account does not exist, invalid where its data is not an
/// initialized token account, else the account that the data holds.
pub open spec fn token_account_outcome(
    r: Result<TokenAccount, ClientError>,
    address: Address,
    data: Option<Vec<u8>>,
) -> bool {
    match data {
        None => r == Err::<TokenAccount, ClientError>(ClientError::AccountNotFound(address)),
        Some(d) => match r {
            Ok(t) => token_account_layout_ok(d@) && token_account_of(t, d@),
            Err(e) => !token_account_layout_ok(d@) && e == ClientError::InvalidAccountData(address),
        },
    }
}

/// The token account stored at `address`, whose data is `data` where the
/// account exists.
pub fn token_account(address: &Address, data: &Option<Vec<u8>>) -> (r: Result<
    TokenAccount,
    ClientError,
>)
    ensures
        token_account_outcome(r, *address, *data),
{
    match data {
        None => Err(ClientError::AccountNotFound(*address)),
        Some(d) => match unpack_token_account(d.as_slice()) {
            Ok(t) => Ok(t),
            Err(_) => Err(ClientError::InvalidAccountData(*address)),
        },
    }
}

} // verus!
