//! Little-endian integer encoding used by account layouts and PDA seeds.

use vstd::prelude::*;
use vstd::bytes::{spec_u64_from_le_bytes, spec_u64_to_le_bytes, u64_from_le_bytes, u64_to_le_bytes};

verus! {

/// The little-endian encoding of `x`, as a sequence of 8 bytes.
pub open spec fn le_bytes(x: u64) -> Seq<u8> {
    spec_u64_to_le_bytes(x)
}

/// The unsigned integer whose little-endian encoding is `s` (8 bytes).
pub open spec fn from_le(s: Seq<u8>) -> u64 {
    spec_u64_from_le_bytes(s)
}

/// Encoding then decoding gives the value back; an 8-byte sequence is the
/// encoding of its decoding.
pub proof fn lemma_le_roundtrip(x: u64, s: Seq<u8>)
    ensures
        le_bytes(x).len() == 8,
        from_le(le_bytes(x)) == x,
        s.len() == 8 ==> le_bytes(from_le(s)) == s,
{
    vstd::bytes::lemma_auto_spec_u64_to_from_le_bytes();
}

/// Number of bytes of the UTF-8 encoding of `s`, as `str::len` reports it.
pub open spec fn utf8_len(s: Seq<char>) -> usize {
    vstd::utf8::encode_utf8(s).len() as usize
}

/// The value held by `o`, or `d` when it holds none.
pub open spec fn opt_or<T>(o: Option<T>, d: T) -> T {
    match o {
        Some(v) => v,
        None => d,
    }
}

/// Returns the 8 little-endian bytes of `x`.
pub fn u64_le(x: u64) -> (bytes: Vec<u8>)
    ensures
        bytes@ == le_bytes(x),
        bytes@.len() == 8,
{
    u64_to_le_bytes(x)
}

/// Reads the little-endian `u64` stored at `data[offset..offset + 8]`.
pub fn read_u64_le(data: &[u8], offset: usize) -> (value: u64)
    requires
        offset + 8 <= data@.len(),
    ensures
        value == from_le(data@.subrange(offset as int, offset + 8)),
{
    let len = data.len();
    let end = offset + 8;
    let mut buf: Vec<u8> = Vec::new();
    let mut i = offset;
    while i < end
        invariant
            end == offset + 8,
            offset <= i <= end,
            end <= len,
            len == data@.len(),
            buf@ == data@.subrange(offset as int, i as int),
        decreases end - i,
    {
        buf.push(data[i]);
        i = i + 1;
    }
    u64_from_le_bytes(buf.as_slice())
}

} // verus!
