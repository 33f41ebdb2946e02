//! The ways in which a request is turned down.

use vstd::prelude::*;

verus! {

/// What is wrong with the arguments of a request.
#[derive(Clone, Copy, Debug, PartialEq, Eq)]
pub enum StealthError {
    /// A chunk of ciphertext is too long, or runs past the end of the
    /// ciphertext from its offset.
    InvalidCiphertextLength,
    /// A transfer moves nothing.
    ZeroTransferAmount,
}

/// What is wrong with the accounts that a request comes with.
#[derive(Clone, Copy, Debug, PartialEq, Eq)]
pub enum AccountsError {
    /// The party that must authorize the request has not signed it.
    UnauthorizedSigner,
    /// A record is already stored at the address.
    RecordAlreadyExists,
    /// No record is stored at the address.
    RecordNotFound,
    /// The address of the record is not the one that the owner derives.
    DerivationMismatch,
}

/// Why a request was turned down. Nothing is committed for such a request.
#[derive(Clone, Copy, Debug, PartialEq, Eq)]
pub enum Rejection {
    /// The arguments are not acceptable, whatever the accounts.
    Program(StealthError),
    /// The arguments are acceptable and the accounts are not.
    Accounts(AccountsError),
}

} // verus!
