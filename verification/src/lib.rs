//! Ledger-side storage and access rules for the ciphertext of a hybrid
//! post-quantum stealth payment.
//!
//! A sender creates one record per one-time recipient address, fills its
//! 1088-byte ciphertext in bounded chunks, and may then forward value to the
//! recipient. Only the holder of the recipient address can later remove the
//! record. Every operation re-derives the record's address from the owner
//! address before it acts.

pub mod accounts;
pub mod address;
pub mod error;
pub mod laws;
pub mod program;
pub mod record;
pub mod rules;

pub use crate::accounts::{
    CompleteCiphertext, Party, ReclaimRent, RecordSlot, StealthTransfer, TransferToStealth,
};
pub use crate::address::{ciphertext_address_with_bump, find_ciphertext_address, DOMAIN_TAG, ID};
pub use crate::error::{AccountsError, Rejection, StealthError};
pub use crate::program::{complete_ciphertext, init_ciphertext, reclaim_rent, transfer_to_stealth};
pub use crate::rules::{Refund, Transfer};
pub use crate::record::{
    CiphertextAccount, EPHEMERAL_PUBKEY_SIZE, MAX_FIRST_CHUNK, MLKEM_CIPHERTEXT_SIZE,
};
