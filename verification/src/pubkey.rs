//! Account addresses.

use vstd::prelude::*;
use crate::encoding::{le_bytes, lemma_le_roundtrip, read_u64_le, u64_le};

verus! {

/// A 32-byte account address, held as four little-endian words so that
/// `==` between two addresses is plain field equality.
#[derive(Clone, Copy, Debug, PartialEq, Eq, Structural, Hash)]
pub struct Pubkey {
    w0: u64,
    w1: u64,
    w2: u64,
    w3: u64,
}

impl View for Pubkey {
    type V = Seq<u8>;

    /// The 32 bytes of the address.
    closed spec fn view(&self) -> Seq<u8> {
        le_bytes(self.w0) + le_bytes(self.w1) + le_bytes(self.w2) + le_bytes(self.w3)
    }
}

impl Pubkey {
    /// Builds the address whose bytes are `bytes`.
    pub fn new_from_array(bytes: [u8; 32]) -> (key: Pubkey)
        ensures
            key@ == bytes@,
    {
        let s = bytes.as_slice();
        let key = Pubkey {
            w0: read_u64_le(s, 0),
            w1: read_u64_le(s, 8),
            w2: read_u64_le(s, 16),
            w3: read_u64_le(s, 24),
        };
        proof {
            let b = bytes@;
            lemma_le_roundtrip(0, b.subrange(0, 8));
            lemma_le_roundtrip(0, b.subrange(8, 16));
            lemma_le_roundtrip(0, b.subrange(16, 24));
            lemma_le_roundtrip(0, b.subrange(24, 32));
            assert(key@ =~= b);
        }
        key
    }

    /// Reads the address stored at `data[offset..offset + 32]`.
    pub fn read_from(data: &[u8], offset: usize) -> (key: Pubkey)
        requires
            offset + 32 <= data@.len(),
        ensures
            key@ == data@.subrange(offset as int, offset + 32),
    {
        let len = data.len();
        assert(offset + 32 <= len);
        let key = Pubkey {
            w0: read_u64_le(data, offset),
            w1: read_u64_le(data, offset + 8),
            w2: read_u64_le(data, offset + 16),
            w3: read_u64_le(data, offset + 24),
        };
        proof {
            let b = data@.subrange(offset as int, offset + 32);
            assert(data@.subrange(offset as int, offset + 8) =~= b.subrange(0, 8));
            assert(data@.subrange(offset + 8, offset + 16) =~= b.subrange(8, 16));
            assert(data@.subrange(offset + 16, offset + 24) =~= b.subrange(16, 24));
            assert(data@.subrange(offset + 24, offset + 32) =~= b.subrange(24, 32));
            lemma_le_roundtrip(0, b.subrange(0, 8));
            lemma_le_roundtrip(0, b.subrange(8, 16));
            lemma_le_roundtrip(0, b.subrange(16, 24));
            lemma_le_roundtrip(0, b.subrange(24, 32));
            assert(key@ =~= b);
        }
        key
    }

    /// The all-zero address (the value of a never-written address field).
    pub fn default_key() -> (key: Pubkey)
        ensures
            key@ == Seq::new(32, |i: int| 0u8),
    {
        Self::new_from_array([0u8; 32])
    }

    /// The 32 bytes of the address.
    pub fn to_bytes(&self) -> (bytes: Vec<u8>)
        ensures
            bytes@ == self@,
            bytes@.len() == 32,
    {
        let mut out = u64_le(self.w0);
        let mut b1 = u64_le(self.w1);
        let mut b2 = u64_le(self.w2);
        let mut b3 = u64_le(self.w3);
        out.append(&mut b1);
        out.append(&mut b2);
        out.append(&mut b3);
        out
    }

    /// Two addresses are equal exactly when their bytes are.
    pub proof fn lemma_view_injective(a: Pubkey, b: Pubkey)
        ensures
            (a@ == b@) == (a == b),
    {
        lemma_le_roundtrip(a.w0, Seq::empty());
        lemma_le_roundtrip(a.w1, Seq::empty());
        lemma_le_roundtrip(a.w2, Seq::empty());
        lemma_le_roundtrip(a.w3, Seq::empty());
        lemma_le_roundtrip(b.w0, Seq::empty());
        lemma_le_roundtrip(b.w1, Seq::empty());
        lemma_le_roundtrip(b.w2, Seq::empty());
        lemma_le_roundtrip(b.w3, Seq::empty());
        if a@ == b@ {
            assert(a@.subrange(0, 8) =~= le_bytes(a.w0));
            assert(b@.subrange(0, 8) =~= le_bytes(b.w0));
            assert(a@.subrange(8, 16) =~= le_bytes(a.w1));
            assert(b@.subrange(8, 16) =~= le_bytes(b.w1));
            assert(a@.subrange(16, 24) =~= le_bytes(a.w2));
            assert(b@.subrange(16, 24) =~= le_bytes(b.w2));
            assert(a@.subrange(24, 32) =~= le_bytes(a.w3));
            assert(b@.subrange(24, 32) =~= le_bytes(b.w3));
        }
    }
}

/// An address is its bytes: the address `k2` built from `bytes` has 32
/// bytes, and it is the address `k` exactly when `bytes` are `k`'s bytes.
pub proof fn lemma_bytes_identify_address(k: Pubkey, bytes: [u8; 32], k2: Pubkey)
    requires
        k2@ == bytes@,
    ensures
        k2@.len() == 32,
        (k2 == k) == (bytes@ == k@),
{
    Pubkey::lemma_view_injective(k2, k);
}

} // verus!
