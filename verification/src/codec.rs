//! Little-endian fixed-width fields inside byte buffers.

use crate::address::{lemma_byte_bound, lemma_bytes_roundtrip, lemma_pack_word, pack_at, spec_from_bytes, word_byte, Pubkey};
use vstd::prelude::*;

verus! {

/// True when `s[o..o + 8]` holds the little-endian bytes of `x`.
pub open spec fn holds_u64(s: Seq<u8>, o: int, x: u64) -> bool {
    forall|j: int| 0 <= j < 8 ==> #[trigger] s[o + j] == word_byte(x, j as u64) as u8
}

/// The address whose 32-byte form starts at `o` in `s`.
pub open spec fn key_at(s: Seq<u8>, o: int) -> Pubkey {
    Pubkey { w0: pack_at(s, o), w1: pack_at(s, o + 8), w2: pack_at(s, o + 16), w3: pack_at(s, o + 24) }
}

/// True when `s[o..o + 32]` holds the 32-byte form of `k`.
pub open spec fn holds_key(s: Seq<u8>, o: int, k: Pubkey) -> bool {
    forall|j: int| 0 <= j < 32 ==> #[trigger] s[o + j] == k.bytes()[j]
}

/// Reading back eight written bytes gives the written word.
pub proof fn lemma_read_back_u64(s: Seq<u8>, o: int, x: u64)
    requires
        0 <= o,
        o + 8 <= s.len(),
        holds_u64(s, o, x),
    ensures
        pack_at(s, o) == x,
{
    assert forall|j: int| 0 <= j < 8 implies (#[trigger] s[o + j]) as u64 == word_byte(x, j as u64) by {
        lemma_byte_bound(x, j as u64);
    }
    assert(s[o + 0] == s[o]);
    lemma_pack_word(x);
}

/// Reading back a written address gives the written address.
pub proof fn lemma_read_back_key(s: Seq<u8>, o: int, k: Pubkey)
    requires
        0 <= o,
        o + 32 <= s.len(),
        holds_key(s, o, k),
    ensures
        key_at(s, o) == k,
{
    let b = k.bytes();
    lemma_bytes_roundtrip(k);
    assert forall|w: int| 0 <= w < 4 implies #[trigger] pack_at(s, o + 8 * w) == pack_at(b, 8 * w) by {
        assert(s[o + (8 * w + 0)] == b[8 * w + 0]);
        assert(s[o + (8 * w + 1)] == b[8 * w + 1]);
        assert(s[o + (8 * w + 2)] == b[8 * w + 2]);
        assert(s[o + (8 * w + 3)] == b[8 * w + 3]);
        assert(s[o + (8 * w + 4)] == b[8 * w + 4]);
        assert(s[o + (8 * w + 5)] == b[8 * w + 5]);
        assert(s[o + (8 * w + 6)] == b[8 * w + 6]);
        assert(s[o + (8 * w + 7)] == b[8 * w + 7]);
    }
    assert(pack_at(s, o + 0) == pack_at(b, 0int));
    assert(pack_at(s, o + 8) == pack_at(b, 8int));
    assert(pack_at(s, o + 16) == pack_at(b, 16int));
    assert(pack_at(s, o + 24) == pack_at(b, 24int));
}

/// Reads the little-endian word at `o`.
pub fn read_u64_le(data: &[u8], o: usize) -> (r: u64)
    requires
        o + 8 <= data@.len(),
    ensures
        r == pack_at(data@, o as int),
{
    let b0 = data[o] as u64;
    let b1 = data[o + 1] as u64;
    let b2 = data[o + 2] as u64;
    let b3 = data[o + 3] as u64;
    let b4 = data[o + 4] as u64;
    let b5 = data[o + 5] as u64;
    let b6 = data[o + 6] as u64;
    let b7 = data[o + 7] as u64;
    b0 | (b1 << 8) | (b2 << 16) | (b3 << 24) | (b4 << 32) | (b5 << 40) | (b6 << 48) | (b7 << 56)
}

/// Reads the address whose 32-byte form starts at `o`.
pub fn read_key(data: &[u8], o: usize) -> (r: Pubkey)
    requires
        o + 32 <= data@.len(),
    ensures
        r == key_at(data@, o as int),
{
    let n = data.len();
    assert(o + 32 <= n);
    Pubkey {
        w0: read_u64_le(data, o),
        w1: read_u64_le(data, o + 8),
        w2: read_u64_le(data, o + 16),
        w3: read_u64_le(data, o + 24),
    }
}

/// Writes the little-endian bytes of `x` at `o`, leaving every other byte.
pub fn write_u64_le<const N: usize>(out: &mut [u8; N], o: usize, x: u64)
    requires
        o + 8 <= N,
    ensures
        final(out)@.len() == N,
        holds_u64(final(out)@, o as int, x),
        forall|i: int|
            0 <= i < N && !(o <= i < o + 8) ==> #[trigger] final(out)@[i] == old(out)@[i],
{
    let mut j: usize = 0;
    while j < 8
        invariant
            o + 8 <= N,
            j <= 8,
            out@.len() == N,
            forall|k: int| 0 <= k < j ==> #[trigger] out@[o + k] == word_byte(x, k as u64) as u8,
            forall|i: int|
                0 <= i < N && !(o <= i < o + j) ==> #[trigger] out@[i] == old(out)@[i],
        decreases 8 - j,
    {
        let shift: u64 = 8 * (j as u64);
        let b: u64 = (x >> shift) & 0xff;
        proof {
            lemma_byte_bound(x, j as u64);
        }
        out[o + j] = b as u8;
        j = j + 1;
    }
}

/// Writes the 32-byte form of `k` at `o`, leaving every other byte.
pub fn write_key<const N: usize>(out: &mut [u8; N], o: usize, k: Pubkey)
    requires
        o + 32 <= N,
    ensures
        final(out)@.len() == N,
        holds_key(final(out)@, o as int, k),
        forall|i: int|
            0 <= i < N && !(o <= i < o + 32) ==> #[trigger] final(out)@[i] == old(out)@[i],
{
    let bytes = k.to_bytes();
    let mut j: usize = 0;
    while j < 32
        invariant
            o + 32 <= N,
            j <= 32,
            out@.len() == N,
            bytes@ == k.bytes(),
            forall|m: int| 0 <= m < j ==> #[trigger] out@[o + m] == k.bytes()[m],
            forall|i: int|
                0 <= i < N && !(o <= i < o + j) ==> #[trigger] out@[i] == old(out)@[i],
        decreases 32 - j,
    {
        out[o + j] = bytes[j];
        j = j + 1;
    }
}


/// Byte `m` of the address read at `o` is byte `o + m` of the buffer.
pub proof fn lemma_key_bytes_at(s: Seq<u8>, o: int, m: int)
    requires
        0 <= o,
        o + 32 <= s.len(),
        0 <= m < 32,
    ensures
        key_at(s, o).bytes()[m] == s[o + m],
{
    let w = m / 8;
    let j = m % 8;
    let b = o + 8 * w;
    crate::address::lemma_unpack_word(
        s[b] as u64,
        s[b + 1] as u64,
        s[b + 2] as u64,
        s[b + 3] as u64,
        s[b + 4] as u64,
        s[b + 5] as u64,
        s[b + 6] as u64,
        s[b + 7] as u64,
    );
    assert(key_at(s, o).word(w) == pack_at(s, b));
    assert(o + m == b + j);
}

/// The little-endian 16-bit word at `o`.
pub open spec fn pack_u16(s: Seq<u8>, o: int) -> u16 {
    ((s[o] as u16) | ((s[o + 1] as u16) << 8)) as u16
}

/// The little-endian 32-bit word at `o`.
pub open spec fn pack_u32(s: Seq<u8>, o: int) -> u32 {
    ((s[o] as u32) | ((s[o + 1] as u32) << 8) | ((s[o + 2] as u32) << 16) | ((s[o + 3] as u32) << 24)) as u32
}

/// Reads the little-endian 16-bit word at `o`.
pub fn read_u16_le(data: &[u8], o: usize) -> (r: u16)
    requires
        o + 2 <= data@.len(),
    ensures
        r == pack_u16(data@, o as int),
{
    (data[o] as u16) | ((data[o + 1] as u16) << 8)
}

/// Reads the little-endian 32-bit word at `o`.
pub fn read_u32_le(data: &[u8], o: usize) -> (r: u32)
    requires
        o + 4 <= data@.len(),
    ensures
        r == pack_u32(data@, o as int),
{
    (data[o] as u32) | ((data[o + 1] as u32) << 8) | ((data[o + 2] as u32) << 16) | ((data[o + 3] as u32) << 24)
}

} // verus!
