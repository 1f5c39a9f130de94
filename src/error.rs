use crate::address::Address;
use vstd::prelude::*;

verus! {

/// Why a client operation could not be carried out.
#[derive(Clone, Copy, Debug, PartialEq, Eq)]
pub enum ClientError {
    /// The account at this address does not exist.
    AccountNotFound(Address),
    /// The account at this address does not hold the expected layout.
    InvalidAccountData(Address),
    /// The runtime refuses the seeds: no program address can be derived.
    DerivationError,
    /// This address is not the one derived from the seeds.
    DerivationMismatch(Address),
    /// The operation needs the signature of this address, which was not given.
    UnauthorizedSigner(Address),
    /// A token balance would exceed its range.
    Overflow,
}

} // verus!
