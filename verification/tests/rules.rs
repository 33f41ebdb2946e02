use stealth_pq::rules::{complete, create, reclaim, transfer};
use stealth_pq::{
    AccountsError, CiphertextAccount, CompleteCiphertext, Party, ReclaimRent, RecordSlot, Refund,
    Rejection, StealthError, StealthTransfer, Transfer, TransferToStealth,
};

const OWNER: [u8; 32] = [0xA1; 32];
const SENDER: [u8; 32] = [0xB2; 32];
const SLOT: [u8; 32] = [0xC3; 32];
const OTHER: [u8; 32] = [0xD4; 32];

fn signer(key: [u8; 32]) -> Party {
    Party { key, is_signer: true }
}

fn stored(bump: u8) -> RecordSlot {
    let mut record = CiphertextAccount::default();
    record.stealth_pubkey = OWNER;
    record.ephemeral_pubkey = [5; 32];
    record.mlkem_ciphertext[..4].copy_from_slice(&[1, 2, 3, 4]);
    record.created_at = 77;
    record.bump = bump;
    RecordSlot { key: SLOT, record: Some(record) }
}

fn creation() -> StealthTransfer {
    StealthTransfer {
        sender: signer(SENDER),
        stealth_address: OWNER,
        ciphertext_account: RecordSlot { key: SLOT, record: None },
    }
}

#[test]
fn create_stores_the_record_with_the_derived_bump() {
    let mut ctx = creation();
    assert_eq!(create(&mut ctx, [5; 32], &[1, 2, 3, 4], 77, Some((SLOT, 250))), Ok(()));
    assert_eq!(ctx.ciphertext_account, stored(250));
    assert_eq!(ctx.sender, signer(SENDER));
    assert_eq!(ctx.stealth_address, OWNER);
}

#[test]
fn create_checks_in_order_length_signer_address_vacancy() {
    let long = vec![0u8; 513];
    let mut ctx = creation();
    ctx.sender.is_signer = false;
    ctx.ciphertext_account = stored(1);
    let before = ctx;
    assert_eq!(
        create(&mut ctx, [5; 32], &long, 0, None),
        Err(Rejection::Program(StealthError::InvalidCiphertextLength))
    );
    assert_eq!(
        create(&mut ctx, [5; 32], &long[..512], 0, None),
        Err(Rejection::Accounts(AccountsError::UnauthorizedSigner))
    );
    ctx.sender.is_signer = true;
    assert_eq!(
        create(&mut ctx, [5; 32], &long[..512], 0, None),
        Err(Rejection::Accounts(AccountsError::DerivationMismatch))
    );
    assert_eq!(
        create(&mut ctx, [5; 32], &long[..512], 0, Some((OTHER, 255))),
        Err(Rejection::Accounts(AccountsError::DerivationMismatch))
    );
    assert_eq!(
        create(&mut ctx, [5; 32], &long[..512], 0, Some((SLOT, 255))),
        Err(Rejection::Accounts(AccountsError::RecordAlreadyExists))
    );
    assert_eq!(ctx.ciphertext_account, before.ciphertext_account);
}

#[test]
fn complete_overwrites_only_the_range_of_the_chunk() {
    let mut ctx = CompleteCiphertext { sender: signer(SENDER), ciphertext_account: stored(9) };
    assert_eq!(complete(&mut ctx, &[9, 9], 2, Some(SLOT)), Ok(()));
    let mut expected = stored(9);
    let mut record = expected.record.unwrap();
    record.mlkem_ciphertext[..4].copy_from_slice(&[1, 2, 9, 9]);
    expected.record = Some(record);
    assert_eq!(ctx.ciphertext_account, expected);
}

#[test]
fn complete_checks_in_order_range_signer_record_address() {
    let mut ctx = CompleteCiphertext {
        sender: Party { key: SENDER, is_signer: false },
        ciphertext_account: RecordSlot { key: SLOT, record: None },
    };
    assert_eq!(
        complete(&mut ctx, &[0; 500], 600, None),
        Err(Rejection::Program(StealthError::InvalidCiphertextLength))
    );
    assert_eq!(
        complete(&mut ctx, &[0; 488], 600, None),
        Err(Rejection::Accounts(AccountsError::UnauthorizedSigner))
    );
    ctx.sender.is_signer = true;
    assert_eq!(
        complete(&mut ctx, &[0; 488], 600, Some(SLOT)),
        Err(Rejection::Accounts(AccountsError::RecordNotFound))
    );
    ctx.ciphertext_account = stored(9);
    assert_eq!(
        complete(&mut ctx, &[0; 488], 600, None),
        Err(Rejection::Accounts(AccountsError::DerivationMismatch))
    );
    assert_eq!(
        complete(&mut ctx, &[0; 488], 600, Some(OTHER)),
        Err(Rejection::Accounts(AccountsError::DerivationMismatch))
    );
    assert_eq!(ctx.ciphertext_account, stored(9));
}

#[test]
fn transfer_orders_the_amount_from_sender_to_stealth_address() {
    let ctx = TransferToStealth {
        sender: signer(SENDER),
        stealth_address: OWNER,
        ciphertext_account: stored(9),
    };
    assert_eq!(
        transfer(&ctx, 1000, Some(SLOT)),
        Ok(Transfer { from: SENDER, to: OWNER, lamports: 1000 })
    );
    assert_eq!(
        transfer(&ctx, 0, Some(SLOT)),
        Err(Rejection::Program(StealthError::ZeroTransferAmount))
    );
    assert_eq!(
        transfer(&ctx, 1000, Some(OTHER)),
        Err(Rejection::Accounts(AccountsError::DerivationMismatch))
    );
    assert_eq!(
        transfer(&ctx, 1000, None),
        Err(Rejection::Accounts(AccountsError::DerivationMismatch))
    );
}

#[test]
fn reclaim_empties_the_slot_and_refunds_the_signer() {
    let mut ctx = ReclaimRent { stealth_signer: signer(OWNER), ciphertext_account: stored(9) };
    assert_eq!(reclaim(&mut ctx, Some(SLOT)), Ok(Refund { from: SLOT, to: OWNER }));
    assert_eq!(ctx.ciphertext_account, RecordSlot { key: SLOT, record: None });
    assert_eq!(
        reclaim(&mut ctx, Some(SLOT)),
        Err(Rejection::Accounts(AccountsError::RecordNotFound))
    );
}

#[test]
fn reclaim_leaves_the_record_when_it_is_turned_down() {
    let mut ctx = ReclaimRent {
        stealth_signer: Party { key: OWNER, is_signer: false },
        ciphertext_account: stored(9),
    };
    assert_eq!(
        reclaim(&mut ctx, Some(SLOT)),
        Err(Rejection::Accounts(AccountsError::UnauthorizedSigner))
    );
    ctx.stealth_signer.is_signer = true;
    assert_eq!(
        reclaim(&mut ctx, Some(OTHER)),
        Err(Rejection::Accounts(AccountsError::DerivationMismatch))
    );
    assert_eq!(
        reclaim(&mut ctx, None),
        Err(Rejection::Accounts(AccountsError::DerivationMismatch))
    );
    assert_eq!(ctx.ciphertext_account, stored(9));
}
