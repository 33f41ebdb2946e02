//! The four requests: create a record, write a further chunk, move value to
//! the stealth address, remove the record.
//!
//! Each request derives the address of the record from the owner's address,
//! never taking the address of the slot on trust, and then applies the rules.

use vstd::prelude::*;
use crate::accounts::{CompleteCiphertext, ReclaimRent, RecordSlot, StealthTransfer, TransferToStealth};
use crate::address::{
    address_view, canonical_bump, canonical_record_address, ciphertext_address_with_bump,
    find_ciphertext_address,
};
use crate::error::Rejection;
use crate::record::{write_chunk, CiphertextAccountView};
use crate::rules::{
    complete, complete_rejection, create, create_rejection, created_record, reclaim,
    reclaim_rejection, transfer, transfer_rejection, Refund, Transfer,
};

verus! {

/// Derives the address of the slot's record again from `owner` and the bump
/// seed stored in the record.
fn rederive(slot: &RecordSlot, owner: &[u8; 32]) -> (res: Option<[u8; 32]>)
    ensures
        address_view(res) == slot.rederived(owner@),
{
    match &slot.record {
        Some(record) => ciphertext_address_with_bump(owner, record.bump),
        None => None,
    }
}

/// Why the creation of a record with a first chunk of `chunk_len` bytes is
/// turned down, if it is.
pub open spec fn init_rejection(ctx: StealthTransfer, chunk_len: nat) -> Option<Rejection> {
    create_rejection(ctx, chunk_len, canonical_record_address(ctx.stealth_address@))
}

/// Creates the record of `ctx.stealth_address` in the slot that the stealth
/// address derives, with the ephemeral key and the first chunk of the
/// ciphertext, of at most 512 bytes. The rest of the ciphertext is zero until
/// further chunks are written. The record keeps the time it is given and the
/// bump seed of the derivation.
pub fn init_ciphertext(
    ctx: &mut StealthTransfer,
    ephemeral_pubkey: [u8; 32],
    ciphertext_part1: Vec<u8>,
    unix_timestamp: i64,
) -> (res: Result<(), Rejection>)
    ensures
        match res {
            Ok(()) => {
                &&& init_rejection(*old(ctx), ciphertext_part1@.len()) is None
                &&& canonical_bump(old(ctx).stealth_address@) matches Some(bump)
                &&& final(ctx).sender == old(ctx).sender
                &&& final(ctx).stealth_address == old(ctx).stealth_address
                &&& final(ctx).ciphertext_account.key == old(ctx).ciphertext_account.key
                &&& final(ctx).ciphertext_account.record matches Some(record)
                &&& record@ == created_record(
                    old(ctx).stealth_address@,
                    ephemeral_pubkey@,
                    ciphertext_part1@,
                    unix_timestamp,
                    bump,
                )
            },
            Err(e) => {
                &&& init_rejection(*old(ctx), ciphertext_part1@.len()) == Some(e)
                &&& *final(ctx) == *old(ctx)
            },
        },
{
    let derived = find_ciphertext_address(&ctx.stealth_address);
    create(ctx, ephemeral_pubkey, ciphertext_part1.as_slice(), unix_timestamp, derived)
}

/// Why the writing of a chunk of `chunk_len` bytes at `offset` is turned
/// down, if it is.
pub open spec fn completion_rejection(ctx: CompleteCiphertext, chunk_len: nat, offset: u16) -> Option<
    Rejection,
> {
    complete_rejection(ctx, chunk_len, offset, ctx.rederived())
}

/// Writes a further chunk of the ciphertext into the record, from `offset`
/// on. The chunk must end within the 1088 bytes of the ciphertext. Nothing
/// else in the record changes, and what the chunk does not cover stays as it
/// was. The record must lie at the address that the owner stored in it
/// derives.
pub fn complete_ciphertext(
    ctx: &mut CompleteCiphertext,
    ciphertext_part2: Vec<u8>,
    offset: u16,
) -> (res: Result<(), Rejection>)
    ensures
        match res {
            Ok(()) => {
                &&& completion_rejection(*old(ctx), ciphertext_part2@.len(), offset) is None
                &&& final(ctx).sender == old(ctx).sender
                &&& final(ctx).ciphertext_account.key == old(ctx).ciphertext_account.key
                &&& old(ctx).ciphertext_account.record matches Some(before)
                &&& final(ctx).ciphertext_account.record matches Some(after)
                &&& after@ == (CiphertextAccountView {
                    mlkem_ciphertext: write_chunk(
                        before@.mlkem_ciphertext,
                        offset as int,
                        ciphertext_part2@,
                    ),
                    ..before@
                })
            },
            Err(e) => {
                &&& completion_rejection(*old(ctx), ciphertext_part2@.len(), offset) == Some(e)
                &&& *final(ctx) == *old(ctx)
            },
        },
{
    let derived = match &ctx.ciphertext_account.record {
        Some(record) => rederive(&ctx.ciphertext_account, &record.stealth_pubkey),
        None => None,
    };
    complete(ctx, ciphertext_part2.as_slice(), offset, derived)
}

/// Why a transfer of `lamports` is turned down, if it is.
pub open spec fn transfer_to_stealth_rejection(ctx: TransferToStealth, lamports: u64) -> Option<
    Rejection,
> {
    transfer_rejection(ctx, lamports, ctx.rederived())
}

/// Admits a transfer of `lamports` from the sender to a stealth address for
/// which a record exists, and returns the order that the ledger then carries
/// out. The amount must be positive, and the record must lie at the address
/// that the receiving stealth address derives. The record may still be
/// incomplete: its existence shows only that the delivery of a ciphertext was
/// begun.
pub fn transfer_to_stealth(ctx: &TransferToStealth, lamports: u64) -> (res: Result<
    Transfer,
    Rejection,
>)
    ensures
        match res {
            Ok(order) => {
                &&& transfer_to_stealth_rejection(*ctx, lamports) is None
                &&& order == (Transfer {
                    from: ctx.sender.key,
                    to: ctx.stealth_address,
                    lamports,
                })
            },
            Err(e) => transfer_to_stealth_rejection(*ctx, lamports) == Some(e),
        },
{
    let derived = rederive(&ctx.ciphertext_account, &ctx.stealth_address);
    transfer(ctx, lamports, derived)
}

/// Why the removal of a record is turned down, if it is.
pub open spec fn reclaim_rent_rejection(ctx: ReclaimRent) -> Option<Rejection> {
    reclaim_rejection(ctx, ctx.rederived())
}

/// Removes the record from its slot on behalf of the holder of the stealth
/// address, and returns the order that hands the whole deposit to that
/// holder. The caller must have signed, and the caller's own address must
/// derive the slot's address under the bump seed stored in the record.
pub fn reclaim_rent(ctx: &mut ReclaimRent) -> (res: Result<Refund, Rejection>)
    ensures
        match res {
            Ok(refund) => {
                &&& reclaim_rent_rejection(*old(ctx)) is None
                &&& *final(ctx) == (ReclaimRent {
                    ciphertext_account: RecordSlot {
                        key: old(ctx).ciphertext_account.key,
                        record: None,
                    },
                    ..*old(ctx)
                })
                &&& refund == (Refund {
                    from: old(ctx).ciphertext_account.key,
                    to: old(ctx).stealth_signer.key,
                })
            },
            Err(e) => {
                &&& reclaim_rent_rejection(*old(ctx)) == Some(e)
                &&& *final(ctx) == *old(ctx)
            },
        },
{
    let derived = rederive(&ctx.ciphertext_account, &ctx.stealth_signer.key);
    reclaim(ctx, derived)
}

} // verus!
