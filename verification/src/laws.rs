//! What holds of the requests taken together.

use vstd::prelude::*;
use vstd::bytes::{
    lemma_auto_spec_u64_to_from_le_bytes, spec_u64_from_le_bytes, spec_u64_to_le_bytes,
};
use crate::accounts::{
    CompleteCiphertext, Party, ReclaimRent, RecordSlot, StealthTransfer, TransferToStealth,
};
use crate::address::{canonical_bump, canonical_record_address, derivation_view};
use crate::error::{AccountsError, Rejection, StealthError};
use crate::record::{
    decoding, encoding, write_chunk, zeros, CiphertextAccount, CiphertextAccountView,
    MAX_FIRST_CHUNK, MLKEM_CIPHERTEXT_SIZE,
};
use crate::rules::{complete_rejection, create_rejection, reclaim_rejection, transfer_rejection};

verus! {

/// Every record is stored in exactly 1161 bytes, and reading the stored bytes
/// gives the record back.
pub proof fn law_stored_record_reads_back(record: CiphertextAccountView)
    requires
        record.wf(),
    ensures
        encoding(record).len() == CiphertextAccount::SIZE == 1161,
        decoding(encoding(record)) == record,
{
    lemma_auto_spec_u64_to_from_le_bytes();
    let bytes = encoding(record);
    let time = record.created_at;
    assert((time as u64) as i64 == time) by (bit_vector);
    assert(bytes.subrange(0, 32) =~= record.stealth_pubkey);
    assert(bytes.subrange(32, 64) =~= record.ephemeral_pubkey);
    assert(bytes.subrange(64, 1152) =~= record.mlkem_ciphertext);
    assert(bytes.subrange(1152, 1160) =~= spec_u64_to_le_bytes(time as u64));
}

/// Any 1161 bytes are the stored bytes of the record that is read from them:
/// no two byte strings of that length hold the same record.
pub proof fn law_read_record_stores_back(bytes: Seq<u8>)
    requires
        bytes.len() == CiphertextAccount::SIZE,
    ensures
        decoding(bytes).wf(),
        encoding(decoding(bytes)) == bytes,
{
    lemma_auto_spec_u64_to_from_le_bytes();
    let time = spec_u64_from_le_bytes(bytes.subrange(1152, 1160));
    assert((time as i64) as u64 == time) by (bit_vector);
    assert(encoding(decoding(bytes)) =~= bytes);
}

/// The derivation is a function of the owner's address: two derivations for
/// one owner give the same address and the same bump seed.
pub proof fn law_derivation_is_deterministic(
    owner: Seq<u8>,
    first: Option<([u8; 32], u8)>,
    second: Option<([u8; 32], u8)>,
)
    requires
        derivation_view(first) == canonical_record_address(owner),
        derivation_view(second) == canonical_record_address(owner),
    ensures
        first == second,
{
    match (first, second) {
        (Some((a, _)), Some((b, _))) => {
            assert(a@ == b@);
            assert(a =~= b);
        },
        _ => {},
    }
}

/// A first chunk of more than 512 bytes is turned down as of invalid length,
/// whatever the accounts; one of 512 bytes or fewer is turned down only for
/// its accounts.
pub proof fn law_first_chunk_is_bounded(
    ctx: StealthTransfer,
    chunk_len: nat,
    derived: Option<(Seq<u8>, u8)>,
)
    ensures
        chunk_len > MAX_FIRST_CHUNK ==> create_rejection(ctx, chunk_len, derived) == Some(
            Rejection::Program(StealthError::InvalidCiphertextLength),
        ),
        chunk_len <= MAX_FIRST_CHUNK && ctx.fault_given(derived) is None ==> create_rejection(
            ctx,
            chunk_len,
            derived,
        ) is None,
{
}

/// A chunk that runs past the end of the ciphertext from its offset is
/// turned down as of invalid length, whatever the offset and whatever the
/// accounts.
pub proof fn law_chunk_must_end_within_ciphertext(
    ctx: CompleteCiphertext,
    chunk_len: nat,
    offset: u16,
    derived: Option<Seq<u8>>,
)
    requires
        offset + chunk_len > MLKEM_CIPHERTEXT_SIZE,
    ensures
        complete_rejection(ctx, chunk_len, offset, derived) == Some(
            Rejection::Program(StealthError::InvalidCiphertextLength),
        ),
{
}

/// A transfer of nothing is turned down as a zero amount, whatever the
/// accounts; a positive amount is turned down only for its accounts.
pub proof fn law_transfer_amount_must_be_positive(
    ctx: TransferToStealth,
    lamports: u64,
    derived: Option<Seq<u8>>,
)
    ensures
        lamports == 0 ==> transfer_rejection(ctx, lamports, derived) == Some(
            Rejection::Program(StealthError::ZeroTransferAmount),
        ),
        lamports > 0 && ctx.fault_given(derived) is None ==> transfer_rejection(
            ctx,
            lamports,
            derived,
        ) is None,
{
}

/// Writing the same chunk at the same offset a second time changes nothing.
pub proof fn law_write_is_idempotent(ciphertext: Seq<u8>, offset: int, chunk: Seq<u8>)
    ensures
        write_chunk(write_chunk(ciphertext, offset, chunk), offset, chunk) == write_chunk(
            ciphertext,
            offset,
            chunk,
        ),
{
    assert(write_chunk(write_chunk(ciphertext, offset, chunk), offset, chunk) =~= write_chunk(
        ciphertext,
        offset,
        chunk,
    ));
}

/// A write keeps the length of the ciphertext, puts the chunk at its offset,
/// and keeps every byte outside the range of the chunk.
pub proof fn law_write_stays_in_range(ciphertext: Seq<u8>, offset: int, chunk: Seq<u8>, i: int)
    requires
        0 <= i < ciphertext.len(),
    ensures
        write_chunk(ciphertext, offset, chunk).len() == ciphertext.len(),
        offset <= i < offset + chunk.len() ==> write_chunk(ciphertext, offset, chunk)[i] == chunk[i
            - offset],
        !(offset <= i < offset + chunk.len()) ==> write_chunk(ciphertext, offset, chunk)[i]
            == ciphertext[i],
{
}

/// A ciphertext that is cut in two, the first part written at creation and
/// the second written at the offset where the first ends, is stored whole.
pub proof fn law_two_writes_store_the_whole(ciphertext: Seq<u8>, cut: int)
    requires
        ciphertext.len() == MLKEM_CIPHERTEXT_SIZE,
        0 <= cut <= MLKEM_CIPHERTEXT_SIZE,
    ensures
        write_chunk(
            write_chunk(zeros(MLKEM_CIPHERTEXT_SIZE as nat), 0, ciphertext.take(cut)),
            cut,
            ciphertext.skip(cut),
        ) == ciphertext,
{
    assert(write_chunk(
        write_chunk(zeros(MLKEM_CIPHERTEXT_SIZE as nat), 0, ciphertext.take(cut)),
        cut,
        ciphertext.skip(cut),
    ) =~= ciphertext);
}

/// A record is never created over another: while a slot holds a record, no
/// creation for it succeeds.
pub proof fn law_creation_never_overwrites(
    ctx: StealthTransfer,
    chunk_len: nat,
    derived: Option<(Seq<u8>, u8)>,
)
    requires
        ctx.ciphertext_account.record is Some,
    ensures
        create_rejection(ctx, chunk_len, derived) is Some,
{
}

/// The record that a creation stores is found again by every later request:
/// a signed request to write a chunk, a signed transfer to the same stealth
/// address, and the removal signed by the holder of the stealth address all
/// find their accounts in order, whatever the ciphertext holds by then.
pub proof fn law_created_record_admits_later_requests(
    ctx: StealthTransfer,
    record: CiphertextAccount,
    sender: Party,
)
    requires
        ctx.fault() is None,
        record.stealth_pubkey == ctx.stealth_address,
        canonical_bump(ctx.stealth_address@) == Some(record.bump),
        sender.is_signer,
    ensures
        ({
            let slot = RecordSlot { key: ctx.ciphertext_account.key, record: Some(record) };
            let holder = Party { key: ctx.stealth_address, is_signer: true };
            &&& (CompleteCiphertext { sender, ciphertext_account: slot }).fault() is None
            &&& (TransferToStealth {
                sender,
                stealth_address: ctx.stealth_address,
                ciphertext_account: slot,
            }).fault() is None
            &&& (ReclaimRent { stealth_signer: holder, ciphertext_account: slot }).fault() is None
        }),
{
}

/// Writing a chunk leaves the record where every later request finds it: the
/// owner and the bump seed stay, so accounts that were in order before the
/// write are in order after it.
pub proof fn law_write_keeps_the_record_in_place(
    ctx: CompleteCiphertext,
    before: CiphertextAccount,
    after: CiphertextAccount,
    offset: int,
    chunk: Seq<u8>,
)
    requires
        ctx.ciphertext_account.record == Some(before),
        ctx.fault() is None,
        after@ == (CiphertextAccountView {
            mlkem_ciphertext: write_chunk(before@.mlkem_ciphertext, offset, chunk),
            ..before@
        }),
    ensures
        (CompleteCiphertext {
            ciphertext_account: RecordSlot { record: Some(after), ..ctx.ciphertext_account },
            ..ctx
        }).fault() is None,
{
}

/// Only a signer whose own address derives the address of the slot can
/// remove the record: one who has not signed is turned down as unauthorized,
/// one whose address derives another address or none is turned down for the
/// derivation, and the record of the one who passes both is removed.
pub proof fn law_removal_needs_the_derivation(ctx: ReclaimRent, derived: Option<Seq<u8>>)
    requires
        ctx.ciphertext_account.record is Some,
    ensures
        !ctx.stealth_signer.is_signer ==> reclaim_rejection(ctx, derived) == Some(
            Rejection::Accounts(AccountsError::UnauthorizedSigner),
        ),
        ctx.stealth_signer.is_signer && derived != Some(ctx.ciphertext_account.key@)
            ==> reclaim_rejection(ctx, derived) == Some(
            Rejection::Accounts(AccountsError::DerivationMismatch),
        ),
        ctx.stealth_signer.is_signer && derived == Some(ctx.ciphertext_account.key@)
            ==> reclaim_rejection(ctx, derived) is None,
{
}

} // verus!
