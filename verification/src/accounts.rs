//! The accounts that each request comes with, and what must hold of them
//! before the request is carried out.
//!
//! What is wrong with a set of accounts is stated twice: given the address
//! that the owner derives (`fault_given`), and with that address derived from
//! the accounts themselves (`fault`).

use vstd::prelude::*;
use crate::address::{canonical_record_address, record_address_with_bump};
use crate::error::AccountsError;
use crate::record::CiphertextAccount;

verus! {

/// A party to a request, as the ledger presents it.
#[derive(Clone, Copy, Debug, PartialEq, Eq)]
pub struct Party {
    /// The party's address.
    pub key: [u8; 32],
    /// Whether the request carries a signature that verifies under `key`.
    pub is_signer: bool,
}

/// The place of a record in the ledger, as the ledger presents it.
#[derive(Clone, Copy, Debug, PartialEq, Eq)]
pub struct RecordSlot {
    /// The address of the slot.
    pub key: [u8; 32],
    /// The record stored at the address, `None` while there is none.
    pub record: Option<CiphertextAccount>,
}

/// The accounts of the request that creates a record.
#[derive(Clone, Copy, Debug, PartialEq, Eq)]
pub struct StealthTransfer {
    /// The sender, who pays for the record.
    pub sender: Party,
    /// The one-time address that the record is created for.
    pub stealth_address: [u8; 32],
    /// The slot that the record goes to.
    pub ciphertext_account: RecordSlot,
}

/// The accounts of a request that writes a further chunk of ciphertext.
#[derive(Clone, Copy, Debug, PartialEq, Eq)]
pub struct CompleteCiphertext {
    /// The sender.
    pub sender: Party,
    /// The slot of the record that is written to.
    pub ciphertext_account: RecordSlot,
}

/// The accounts of a request that moves value to a stealth address.
#[derive(Clone, Copy, Debug, PartialEq, Eq)]
pub struct TransferToStealth {
    /// The sender, who pays.
    pub sender: Party,
    /// The one-time address that receives.
    pub stealth_address: [u8; 32],
    /// The slot of the record that was created for `stealth_address`.
    pub ciphertext_account: RecordSlot,
}

/// The accounts of the request that removes a record.
#[derive(Clone, Copy, Debug, PartialEq, Eq)]
pub struct ReclaimRent {
    /// The holder of the stealth address, who receives the deposit.
    pub stealth_signer: Party,
    /// The slot of the record that is removed.
    pub ciphertext_account: RecordSlot,
}

impl RecordSlot {
    /// What is wrong with a slot that should hold a record at the address
    /// `derived`, if anything: it is empty, or it lies at another address
    /// (or no address was derived).
    pub open spec fn fault_given(self, derived: Option<Seq<u8>>) -> Option<AccountsError> {
        if self.record is None {
            Some(AccountsError::RecordNotFound)
        } else if derived != Some(self.key@) {
            Some(AccountsError::DerivationMismatch)
        } else {
            None
        }
    }

    /// The address that `owner` derives under the bump seed stored in the
    /// slot's record, if the slot holds one.
    pub open spec fn rederived(self, owner: Seq<u8>) -> Option<Seq<u8>> {
        match self.record {
            Some(record) => record_address_with_bump(owner, record.bump),
            None => None,
        }
    }
}

impl StealthTransfer {
    /// The first thing wrong with the accounts, if anything, where the
    /// stealth address derives `derived`: the sender has not signed, the slot
    /// is not at the derived address (or none was derived), or the slot holds
    /// a record already.
    pub open spec fn fault_given(self, derived: Option<(Seq<u8>, u8)>) -> Option<AccountsError> {
        if !self.sender.is_signer {
            Some(AccountsError::UnauthorizedSigner)
        } else {
            match derived {
                Some((address, _)) => if address != self.ciphertext_account.key@ {
                    Some(AccountsError::DerivationMismatch)
                } else if self.ciphertext_account.record is Some {
                    Some(AccountsError::RecordAlreadyExists)
                } else {
                    None
                },
                None => Some(AccountsError::DerivationMismatch),
            }
        }
    }

    /// The first thing wrong with the accounts, if anything.
    pub open spec fn fault(self) -> Option<AccountsError> {
        self.fault_given(canonical_record_address(self.stealth_address@))
    }
}

impl CompleteCiphertext {
    /// The first thing wrong with the accounts, if anything, where the owner
    /// stored in the record derives `derived`: the sender has not signed, the
    /// slot is empty, or the slot is not at the derived address.
    pub open spec fn fault_given(self, derived: Option<Seq<u8>>) -> Option<AccountsError> {
        if !self.sender.is_signer {
            Some(AccountsError::UnauthorizedSigner)
        } else {
            self.ciphertext_account.fault_given(derived)
        }
    }

    /// The address that the owner stored in the record derives under the
    /// bump seed stored with it.
    pub open spec fn rederived(self) -> Option<Seq<u8>> {
        match self.ciphertext_account.record {
            Some(record) => self.ciphertext_account.rederived(record.stealth_pubkey@),
            None => None,
        }
    }

    /// The first thing wrong with the accounts, if anything.
    pub open spec fn fault(self) -> Option<AccountsError> {
        self.fault_given(self.rederived())
    }
}

impl TransferToStealth {
    /// The first thing wrong with the accounts, if anything, where the
    /// receiving stealth address derives `derived`: the sender has not
    /// signed, the slot is empty, or the slot is not at the derived address.
    pub open spec fn fault_given(self, derived: Option<Seq<u8>>) -> Option<AccountsError> {
        if !self.sender.is_signer {
            Some(AccountsError::UnauthorizedSigner)
        } else {
            self.ciphertext_account.fault_given(derived)
        }
    }

    /// The address that the receiving stealth address derives under the bump
    /// seed stored in the record.
    pub open spec fn rederived(self) -> Option<Seq<u8>> {
        self.ciphertext_account.rederived(self.stealth_address@)
    }

    /// The first thing wrong with the accounts, if anything.
    pub open spec fn fault(self) -> Option<AccountsError> {
        self.fault_given(self.rederived())
    }
}

impl ReclaimRent {
    /// The first thing wrong with the accounts, if anything, where the
    /// caller's own address derives `derived`: the caller has not signed, the
    /// slot is empty, or the slot is not at the derived address.
    pub open spec fn fault_given(self, derived: Option<Seq<u8>>) -> Option<AccountsError> {
        if !self.stealth_signer.is_signer {
            Some(AccountsError::UnauthorizedSigner)
        } else {
            self.ciphertext_account.fault_given(derived)
        }
    }

    /// The address that the caller's own address derives under the bump seed
    /// stored in the record.
    pub open spec fn rederived(self) -> Option<Seq<u8>> {
        self.ciphertext_account.rederived(self.stealth_signer.key@)
    }

    /// The first thing wrong with the accounts, if anything.
    pub open spec fn fault(self) -> Option<AccountsError> {
        self.fault_given(self.rederived())
    }
}

} // verus!
