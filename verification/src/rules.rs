//! The rules of the four requests, given what the owner's address derives.
//!
//! Each function here decides one request and carries it out on the accounts
//! it was given. The address in `derived` is taken as the outcome of the
//! derivation for these accounts: the requests in `program` derive it
//! themselves and are the ones to call.
//!
//! A request checks its arguments first and its accounts second, and commits
//! nothing unless both are in order.

use vstd::prelude::*;
use crate::accounts::{CompleteCiphertext, ReclaimRent, RecordSlot, StealthTransfer, TransferToStealth};
use crate::address::{address_view, derivation_view, same_address};
use crate::error::{AccountsError, Rejection, StealthError};
use crate::record::{
    copy_chunk, write_chunk, zeros, CiphertextAccount, CiphertextAccountView, MAX_FIRST_CHUNK,
    MLKEM_CIPHERTEXT_SIZE,
};

verus! {

/// An order to the ledger to move `lamports` from one address to another.
#[derive(Clone, Copy, Debug, PartialEq, Eq)]
pub struct Transfer {
    /// The address that pays.
    pub from: [u8; 32],
    /// The address that receives.
    pub to: [u8; 32],
    /// The amount.
    pub lamports: u64,
}

/// An order to the ledger to hand the deposit of a removed record out.
#[derive(Clone, Copy, Debug, PartialEq, Eq)]
pub struct Refund {
    /// The address of the slot that held the record.
    pub from: [u8; 32],
    /// The address that receives the whole deposit.
    pub to: [u8; 32],
}

/// A rejection for the accounts, if something is wrong with them.
pub open spec fn for_accounts(fault: Option<AccountsError>) -> Option<Rejection> {
    match fault {
        Some(e) => Some(Rejection::Accounts(e)),
        None => None,
    }
}

/// Why the creation of a record with a first chunk of `chunk_len` bytes is
/// turned down, if it is.
pub open spec fn create_rejection(
    ctx: StealthTransfer,
    chunk_len: nat,
    derived: Option<(Seq<u8>, u8)>,
) -> Option<Rejection> {
    if chunk_len > MAX_FIRST_CHUNK {
        Some(Rejection::Program(StealthError::InvalidCiphertextLength))
    } else {
        for_accounts(ctx.fault_given(derived))
    }
}

/// The record that a creation stores: the owner, the ephemeral key, the
/// first chunk followed by zeros, the time, and the bump seed.
pub open spec fn created_record(
    owner: Seq<u8>,
    ephemeral_pubkey: Seq<u8>,
    chunk: Seq<u8>,
    unix_timestamp: i64,
    bump: u8,
) -> CiphertextAccountView {
    CiphertextAccountView {
        stealth_pubkey: owner,
        ephemeral_pubkey,
        mlkem_ciphertext: write_chunk(zeros(MLKEM_CIPHERTEXT_SIZE as nat), 0, chunk),
        created_at: unix_timestamp,
        bump,
    }
}

/// Why the writing of a chunk of `chunk_len` bytes at `offset` is turned
/// down, if it is.
pub open spec fn complete_rejection(
    ctx: CompleteCiphertext,
    chunk_len: nat,
    offset: u16,
    derived: Option<Seq<u8>>,
) -> Option<Rejection> {
    if offset + chunk_len > MLKEM_CIPHERTEXT_SIZE {
        Some(Rejection::Program(StealthError::InvalidCiphertextLength))
    } else {
        for_accounts(ctx.fault_given(derived))
    }
}

/// Why a transfer of `lamports` is turned down, if it is.
pub open spec fn transfer_rejection(
    ctx: TransferToStealth,
    lamports: u64,
    derived: Option<Seq<u8>>,
) -> Option<Rejection> {
    if lamports == 0 {
        Some(Rejection::Program(StealthError::ZeroTransferAmount))
    } else {
        for_accounts(ctx.fault_given(derived))
    }
}

/// Why the removal of a record is turned down, if it is.
pub open spec fn reclaim_rejection(ctx: ReclaimRent, derived: Option<Seq<u8>>) -> Option<
    Rejection,
> {
    for_accounts(ctx.fault_given(derived))
}

/// Checks a slot that should hold a record at the address `derived`.
fn check_slot(slot: &RecordSlot, derived: &Option<[u8; 32]>) -> (res: Result<(), AccountsError>)
    ensures
        match res {
            Ok(()) => slot.fault_given(address_view(*derived)) is None,
            Err(e) => slot.fault_given(address_view(*derived)) == Some(e),
        },
{
    if slot.record.is_none() {
        return Err(AccountsError::RecordNotFound);
    }
    match derived {
        Some(address) => {
            if same_address(address, &slot.key) {
                Ok(())
            } else {
                Err(AccountsError::DerivationMismatch)
            }
        },
        None => Err(AccountsError::DerivationMismatch),
    }
}

/// Creates the record of `ctx.stealth_address` in its slot, with the
/// ephemeral key and the first chunk of the ciphertext, of at most 512
/// bytes. The rest of the ciphertext is zero. `derived` is the address that
/// the stealth address derives, and the bump seed that goes into the record.
pub fn create(
    ctx: &mut StealthTransfer,
    ephemeral_pubkey: [u8; 32],
    ciphertext_part1: &[u8],
    unix_timestamp: i64,
    derived: Option<([u8; 32], u8)>,
) -> (res: Result<(), Rejection>)
    ensures
        match res {
            Ok(()) => {
                &&& create_rejection(*old(ctx), ciphertext_part1@.len(), derivation_view(derived))
                    is None
                &&& derived matches Some((_, bump))
                &&& final(ctx).sender == old(ctx).sender
                &&& final(ctx).stealth_address == old(ctx).stealth_address
                &&& final(ctx).ciphertext_account.key == old(ctx).ciphertext_account.key
                &&& final(ctx).ciphertext_account.record matches Some(record)
                &&& record@ == created_record(
                    old(ctx).stealth_address@,
                    ephemeral_pubkey@,
                    ciphertext_part1@,
                    unix_timestamp,
                    bump,
                )
            },
            Err(e) => {
                &&& create_rejection(*old(ctx), ciphertext_part1@.len(), derivation_view(derived))
                    == Some(e)
                &&& *final(ctx) == *old(ctx)
            },
        },
{
    if ciphertext_part1.len() > MAX_FIRST_CHUNK {
        return Err(Rejection::Program(StealthError::InvalidCiphertextLength));
    }
    if !ctx.sender.is_signer {
        return Err(Rejection::Accounts(AccountsError::UnauthorizedSigner));
    }
    let bump = match derived {
        Some((address, bump)) => {
            if !same_address(&address, &ctx.ciphertext_account.key) {
                return Err(Rejection::Accounts(AccountsError::DerivationMismatch));
            }
            bump
        },
        None => {
            return Err(Rejection::Accounts(AccountsError::DerivationMismatch));
        },
    };
    if ctx.ciphertext_account.record.is_some() {
        return Err(Rejection::Accounts(AccountsError::RecordAlreadyExists));
    }
    let mut record = CiphertextAccount::default();
    record.stealth_pubkey = ctx.stealth_address;
    record.ephemeral_pubkey = ephemeral_pubkey;
    copy_chunk(&mut record.mlkem_ciphertext, 0, ciphertext_part1);
    record.created_at = unix_timestamp;
    record.bump = bump;
    ctx.ciphertext_account.record = Some(record);
    Ok(())
}

/// Writes a further chunk of the ciphertext into the record, from `offset`
/// on. The chunk must end within the 1088 bytes of the ciphertext. Nothing
/// else in the record changes, and what the chunk does not cover stays as it
/// was. `derived` is the address that the owner stored in the record derives
/// under the stored bump seed.
pub fn complete(
    ctx: &mut CompleteCiphertext,
    ciphertext_part2: &[u8],
    offset: u16,
    derived: Option<[u8; 32]>,
) -> (res: Result<(), Rejection>)
    ensures
        match res {
            Ok(()) => {
                &&& complete_rejection(
                    *old(ctx),
                    ciphertext_part2@.len(),
                    offset,
                    address_view(derived),
                ) is None
                &&& final(ctx).sender == old(ctx).sender
                &&& final(ctx).ciphertext_account.key == old(ctx).ciphertext_account.key
                &&& old(ctx).ciphertext_account.record matches Some(before)
                &&& final(ctx).ciphertext_account.record matches Some(after)
                &&& after@ == (CiphertextAccountView {
                    mlkem_ciphertext: write_chunk(
                        before@.mlkem_ciphertext,
                        offset as int,
                        ciphertext_part2@,
                    ),
                    ..before@
                })
            },
            Err(e) => {
                &&& complete_rejection(
                    *old(ctx),
                    ciphertext_part2@.len(),
                    offset,
                    address_view(derived),
                ) == Some(e)
                &&& *final(ctx) == *old(ctx)
            },
        },
{
    let len = ciphertext_part2.len();
    if len > MLKEM_CIPHERTEXT_SIZE || offset as usize > MLKEM_CIPHERTEXT_SIZE - len {
        return Err(Rejection::Program(StealthError::InvalidCiphertextLength));
    }
    if !ctx.sender.is_signer {
        return Err(Rejection::Accounts(AccountsError::UnauthorizedSigner));
    }
    match check_slot(&ctx.ciphertext_account, &derived) {
        Ok(()) => {},
        Err(e) => {
            return Err(Rejection::Accounts(e));
        },
    }
    let mut record = ctx.ciphertext_account.record.unwrap();
    copy_chunk(&mut record.mlkem_ciphertext, offset as usize, ciphertext_part2);
    ctx.ciphertext_account.record = Some(record);
    Ok(())
}

/// Admits a transfer of `lamports` from the sender to a stealth address for
/// which a record exists, and returns the order that the ledger then carries
/// out. The amount must be positive. The record may still be incomplete: its
/// existence shows only that the delivery of a ciphertext was begun.
/// `derived` is the address that the receiving stealth address derives under
/// the bump seed stored in the record.
pub fn transfer(ctx: &TransferToStealth, lamports: u64, derived: Option<[u8; 32]>) -> (res: Result<
    Transfer,
    Rejection,
>)
    ensures
        match res {
            Ok(order) => {
                &&& transfer_rejection(*ctx, lamports, address_view(derived)) is None
                &&& order == (Transfer {
                    from: ctx.sender.key,
                    to: ctx.stealth_address,
                    lamports,
                })
            },
            Err(e) => transfer_rejection(*ctx, lamports, address_view(derived)) == Some(e),
        },
{
    if lamports == 0 {
        return Err(Rejection::Program(StealthError::ZeroTransferAmount));
    }
    if !ctx.sender.is_signer {
        return Err(Rejection::Accounts(AccountsError::UnauthorizedSigner));
    }
    match check_slot(&ctx.ciphertext_account, &derived) {
        Ok(()) => {},
        Err(e) => {
            return Err(Rejection::Accounts(e));
        },
    }
    Ok(Transfer { from: ctx.sender.key, to: ctx.stealth_address, lamports })
}

/// Removes the record from its slot on behalf of the holder of the stealth
/// address, and returns the order that hands the whole deposit to that
/// holder. The caller must have signed. `derived` is the address that the
/// caller's own address derives under the bump seed stored in the record: the
/// record is removed only if it is the address of the slot.
pub fn reclaim(ctx: &mut ReclaimRent, derived: Option<[u8; 32]>) -> (res: Result<Refund, Rejection>)
    ensures
        match res {
            Ok(refund) => {
                &&& reclaim_rejection(*old(ctx), address_view(derived)) is None
                &&& *final(ctx) == (ReclaimRent {
                    ciphertext_account: RecordSlot {
                        key: old(ctx).ciphertext_account.key,
                        record: None,
                    },
                    ..*old(ctx)
                })
                &&& refund == (Refund {
                    from: old(ctx).ciphertext_account.key,
                    to: old(ctx).stealth_signer.key,
                })
            },
            Err(e) => {
                &&& reclaim_rejection(*old(ctx), address_view(derived)) == Some(e)
                &&& *final(ctx) == *old(ctx)
            },
        },
{
    if !ctx.stealth_signer.is_signer {
        return Err(Rejection::Accounts(AccountsError::UnauthorizedSigner));
    }
    match check_slot(&ctx.ciphertext_account, &derived) {
        Ok(()) => {},
        Err(e) => {
            return Err(Rejection::Accounts(e));
        },
    }
    ctx.ciphertext_account.record = None;
    Ok(Refund { from: ctx.ciphertext_account.key, to: ctx.stealth_signer.key })
}

} // verus!
