//! The stored record and the writes into its ciphertext.

use vstd::prelude::*;
use vstd::bytes::{
    lemma_auto_spec_u64_to_from_le_bytes, spec_u64_from_le_bytes, spec_u64_to_le_bytes,
    u64_from_le_bytes, u64_to_le_bytes,
};

verus! {

/// The length in bytes of an ML-KEM-768 ciphertext.
pub const MLKEM_CIPHERTEXT_SIZE: usize = 1088;

/// The length in bytes of an X25519 ephemeral public key.
pub const EPHEMERAL_PUBKEY_SIZE: usize = 32;

/// The most ciphertext bytes that the request creating a record can carry.
pub const MAX_FIRST_CHUNK: usize = 512;

/// The record that carries the ciphertext of one stealth transfer from the
/// sender to the recipient.
#[derive(Clone, Copy, Debug, PartialEq, Eq)]
pub struct CiphertextAccount {
    /// The one-time address that the record belongs to.
    pub stealth_pubkey: [u8; 32],
    /// The sender's ephemeral key-exchange public value.
    pub ephemeral_pubkey: [u8; EPHEMERAL_PUBKEY_SIZE],
    /// The ciphertext; bytes that no chunk has covered yet are zero.
    pub mlkem_ciphertext: [u8; MLKEM_CIPHERTEXT_SIZE],
    /// The Unix time at which the record was created.
    pub created_at: i64,
    /// The bump seed that proves the derivation of the record's address.
    pub bump: u8,
}

/// A record as mathematical values: each byte field as the sequence of its
/// bytes.
pub struct CiphertextAccountView {
    /// The owner's address, 32 bytes.
    pub stealth_pubkey: Seq<u8>,
    /// The ephemeral key, 32 bytes.
    pub ephemeral_pubkey: Seq<u8>,
    /// The ciphertext, 1088 bytes.
    pub mlkem_ciphertext: Seq<u8>,
    /// The creation time.
    pub created_at: i64,
    /// The bump seed.
    pub bump: u8,
}

impl CiphertextAccountView {
    /// The three byte fields have the lengths of the stored record.
    pub open spec fn wf(self) -> bool {
        &&& self.stealth_pubkey.len() == 32
        &&& self.ephemeral_pubkey.len() == EPHEMERAL_PUBKEY_SIZE
        &&& self.mlkem_ciphertext.len() == MLKEM_CIPHERTEXT_SIZE
    }
}

impl View for CiphertextAccount {
    type V = CiphertextAccountView;

    open spec fn view(&self) -> CiphertextAccountView {
        CiphertextAccountView {
            stealth_pubkey: self.stealth_pubkey@,
            ephemeral_pubkey: self.ephemeral_pubkey@,
            mlkem_ciphertext: self.mlkem_ciphertext@,
            created_at: self.created_at,
            bump: self.bump,
        }
    }
}

/// `len` zero bytes.
pub open spec fn zeros(len: nat) -> Seq<u8> {
    Seq::new(len, |i: int| 0u8)
}

/// `ciphertext` after `chunk` has been written over it from `offset` on.
pub open spec fn write_chunk(ciphertext: Seq<u8>, offset: int, chunk: Seq<u8>) -> Seq<u8> {
    Seq::new(
        ciphertext.len(),
        |i: int|
            if offset <= i < offset + chunk.len() {
                chunk[i - offset]
            } else {
                ciphertext[i]
            },
    )
}

/// The stored bytes of a record: the owner's address, the ephemeral key, the
/// ciphertext, the creation time as eight bytes in little-endian two's
/// complement, and the bump seed, in this order.
pub open spec fn encoding(record: CiphertextAccountView) -> Seq<u8> {
    record.stealth_pubkey + record.ephemeral_pubkey + record.mlkem_ciphertext
        + spec_u64_to_le_bytes(record.created_at as u64) + seq![record.bump]
}

/// The record that stored bytes hold, field by field.
pub open spec fn decoding(bytes: Seq<u8>) -> CiphertextAccountView {
    CiphertextAccountView {
        stealth_pubkey: bytes.subrange(0, 32),
        ephemeral_pubkey: bytes.subrange(32, 64),
        mlkem_ciphertext: bytes.subrange(64, 1152),
        created_at: spec_u64_from_le_bytes(bytes.subrange(1152, 1160)) as i64,
        bump: bytes[1160],
    }
}

/// Copies `N` bytes of `bytes`, from `start` on, into an array.
fn read_array<const N: usize>(bytes: &[u8], start: usize) -> (out: [u8; N])
    requires
        start + N <= bytes@.len(),
    ensures
        out@ == bytes@.subrange(start as int, start + N),
{
    let mut out = [0u8; N];
    let len = bytes.len();
    let mut i: usize = 0;
    while i < N
        invariant
            i <= N,
            len == bytes@.len(),
            start + N <= len,
            forall|j: int| 0 <= j < i ==> out@[j] == bytes@[start + j],
        decreases N - i,
    {
        out[i] = bytes[start + i];
        i += 1;
    }
    assert(out@ =~= bytes@.subrange(start as int, start + N));
    out
}

impl CiphertextAccount {
    /// The size of a stored record in bytes, without the discriminator that
    /// the ledger puts in front of it: 32 (owner) + 32 (ephemeral key) + 1088
    /// (ciphertext) + 8 (time) + 1 (bump).
    pub const SIZE: usize = 32 + EPHEMERAL_PUBKEY_SIZE + MLKEM_CIPHERTEXT_SIZE + 8 + 1;

    /// The bytes under which the record is stored. Every record takes
    /// exactly `SIZE` bytes.
    pub fn to_bytes(&self) -> (out: Vec<u8>)
        ensures
            out@ == encoding(self@),
            out@.len() == Self::SIZE,
    {
        let mut out: Vec<u8> = Vec::with_capacity(Self::SIZE);
        out.extend_from_slice(self.stealth_pubkey.as_slice());
        out.extend_from_slice(self.ephemeral_pubkey.as_slice());
        out.extend_from_slice(self.mlkem_ciphertext.as_slice());
        let time = u64_to_le_bytes(self.created_at as u64);
        proof {
            lemma_auto_spec_u64_to_from_le_bytes();
        }
        out.extend_from_slice(time.as_slice());
        out.push(self.bump);
        out
    }

    /// Reads a record from its stored bytes. Any `SIZE` bytes hold a record;
    /// no other number of bytes does.
    pub fn from_bytes(bytes: &[u8]) -> (res: Option<Self>)
        ensures
            res is Some <==> bytes@.len() == Self::SIZE,
            res matches Some(record) ==> record@ == decoding(bytes@),
    {
        if bytes.len() != Self::SIZE {
            return None;
        }
        let time = u64_from_le_bytes(vstd::slice::slice_subrange(bytes, 1152, 1160));
        Some(
            Self {
                stealth_pubkey: read_array::<32>(bytes, 0),
                ephemeral_pubkey: read_array::<32>(bytes, 32),
                mlkem_ciphertext: read_array::<1088>(bytes, 64),
                created_at: time as i64,
                bump: bytes[1160],
            },
        )
    }
}

impl Default for CiphertextAccount {
    /// The record of a freshly allocated slot: every byte zero.
    fn default() -> (res: Self)
        ensures
            res@ == (CiphertextAccountView {
                stealth_pubkey: zeros(32),
                ephemeral_pubkey: zeros(32),
                mlkem_ciphertext: zeros(1088),
                created_at: 0,
                bump: 0,
            }),
    {
        let res = Self {
            stealth_pubkey: [0u8; 32],
            ephemeral_pubkey: [0u8; EPHEMERAL_PUBKEY_SIZE],
            mlkem_ciphertext: [0u8; MLKEM_CIPHERTEXT_SIZE],
            created_at: 0,
            bump: 0,
        };
        assert(res.stealth_pubkey@ =~= zeros(32));
        assert(res.ephemeral_pubkey@ =~= zeros(32));
        assert(res.mlkem_ciphertext@ =~= zeros(1088));
        res
    }
}

/// Writes `chunk` into `ciphertext` from `offset` on.
pub(crate) fn copy_chunk(ciphertext: &mut [u8; MLKEM_CIPHERTEXT_SIZE], offset: usize, chunk: &[u8])
    requires
        offset + chunk@.len() <= MLKEM_CIPHERTEXT_SIZE,
    ensures
        final(ciphertext)@ == write_chunk(old(ciphertext)@, offset as int, chunk@),
{
    let mut i: usize = 0;
    while i < chunk.len()
        invariant
            i <= chunk@.len(),
            offset + chunk@.len() <= MLKEM_CIPHERTEXT_SIZE,
            ciphertext@ == write_chunk(old(ciphertext)@, offset as int, chunk@.take(i as int)),
        decreases chunk@.len() - i,
    {
        ciphertext[offset + i] = chunk[i];
        i += 1;
        assert(ciphertext@ =~= write_chunk(
            old(ciphertext)@,
            offset as int,
            chunk@.take(i as int),
        ));
    }
    assert(chunk@.take(i as int) =~= chunk@);
}

} // verus!
