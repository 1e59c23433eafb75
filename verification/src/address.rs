//! Thirty-two-byte account addresses.
//!
//! The state model only compares addresses for equality and against the
//! all-zero default key, so an address is held as four little-endian 64-bit
//! words; conversion to and from the 32-byte form is exact in both directions.

use vstd::prelude::*;

verus! {

/// A 32-byte account address held as four little-endian 64-bit words.
#[derive(Clone, Copy, Debug, PartialEq, Eq, Structural, Hash)]
pub struct Pubkey {
    /// Little-endian words 0 through 3 of the 32-byte form.
    pub w0: u64,
    pub w1: u64,
    pub w2: u64,
    pub w3: u64,
}

/// Little-endian packing of eight byte values into one word.
pub open spec fn pack_word(b0: u64, b1: u64, b2: u64, b3: u64, b4: u64, b5: u64, b6: u64, b7: u64) -> u64 {
    b0 | (b1 << 8) | (b2 << 16) | (b3 << 24) | (b4 << 32) | (b5 << 40) | (b6 << 48) | (b7 << 56)
}

/// Byte `j` (little-endian) of a word.
pub open spec fn word_byte(x: u64, j: u64) -> u64 {
    (x >> (8 * j)) & 0xff
}

/// Packs eight bytes of `b` starting at `o`.
pub open spec fn pack_at(b: Seq<u8>, o: int) -> u64 {
    pack_word(
        b[o] as u64,
        b[o + 1] as u64,
        b[o + 2] as u64,
        b[o + 3] as u64,
        b[o + 4] as u64,
        b[o + 5] as u64,
        b[o + 6] as u64,
        b[o + 7] as u64,
    )
}

/// The address whose 32-byte form is `b`.
pub open spec fn spec_from_bytes(b: Seq<u8>) -> Pubkey {
    Pubkey { w0: pack_at(b, 0), w1: pack_at(b, 8), w2: pack_at(b, 16), w3: pack_at(b, 24) }
}

impl Pubkey {
    /// Word `i` of the address.
    pub open spec fn word(self, i: int) -> u64 {
        if i == 0 {
            self.w0
        } else if i == 1 {
            self.w1
        } else if i == 2 {
            self.w2
        } else {
            self.w3
        }
    }

    /// The 32-byte little-endian form of the address.
    pub open spec fn bytes(self) -> Seq<u8> {
        Seq::new(32, |i: int| word_byte(self.word(i / 8), (i % 8) as u64) as u8)
    }

    /// The all-zero default address.
    pub open spec fn spec_zero() -> Pubkey {
        Pubkey { w0: 0, w1: 0, w2: 0, w3: 0 }
    }

    /// True for the all-zero default address.
    pub open spec fn is_zero(self) -> bool {
        self == Pubkey::spec_zero()
    }

    /// Builds an address from its 32-byte form.
    pub fn new_from_array(bytes: [u8; 32]) -> (r: Pubkey)
        ensures
            r == spec_from_bytes(bytes@),
            r.bytes() == bytes@,
    {
        let w0 = pack_exec(&bytes, 0);
        let w1 = pack_exec(&bytes, 8);
        let w2 = pack_exec(&bytes, 16);
        let w3 = pack_exec(&bytes, 24);
        let r = Pubkey { w0, w1, w2, w3 };
        proof {
            assert forall|i: int| 0 <= i < 32 implies #[trigger] r.bytes()[i] == bytes@[i] by {
                let k = i / 8;
                let j = i % 8;
                let o = k * 8;
                lemma_unpack_word(
                    bytes@[o] as u64,
                    bytes@[o + 1] as u64,
                    bytes@[o + 2] as u64,
                    bytes@[o + 3] as u64,
                    bytes@[o + 4] as u64,
                    bytes@[o + 5] as u64,
                    bytes@[o + 6] as u64,
                    bytes@[o + 7] as u64,
                );
                assert(i == o + j);
            }
            assert(r.bytes() =~= bytes@);
        }
        r
    }

    /// The 32-byte form of the address.
    pub fn to_bytes(&self) -> (r: [u8; 32])
        ensures
            r@ == self.bytes(),
            spec_from_bytes(r@) == *self,
    {
        let mut out: [u8; 32] = [0u8; 32];
        let mut k: usize = 0;
        while k < 4
            invariant
                k <= 4,
                out@.len() == 32,
                forall|i: int| 0 <= i < 8 * k ==> #[trigger] out@[i] == self.bytes()[i],
            decreases 4 - k,
        {
            let x: u64 = if k == 0 {
                self.w0
            } else if k == 1 {
                self.w1
            } else if k == 2 {
                self.w2
            } else {
                self.w3
            };
            let mut j: usize = 0;
            while j < 8
                invariant
                    k < 4,
                    j <= 8,
                    x == self.word(k as int),
                    out@.len() == 32,
                    forall|i: int| 0 <= i < 8 * k + j ==> #[trigger] out@[i] == self.bytes()[i],
                decreases 8 - j,
            {
                let shift: u64 = 8 * (j as u64);
                let b: u64 = (x >> shift) & 0xff;
                proof {
                    assert(b == word_byte(x, j as u64));
                    lemma_byte_bound(x, j as u64);
                }
                out[8 * k + j] = b as u8;
                j = j + 1;
            }
            k = k + 1;
        }
        proof {
            assert(out@ =~= self.bytes());
            lemma_bytes_roundtrip(*self);
        }
        out
    }
}

/// The all-zero default address.
impl Default for Pubkey {
    fn default() -> (r: Pubkey)
        ensures
            r == Pubkey::spec_zero(),
    {
        Pubkey { w0: 0, w1: 0, w2: 0, w3: 0 }
    }
}

pub proof fn lemma_byte_bound(x: u64, j: u64)
    ensures
        word_byte(x, j) < 256,
{
    assert(((x >> (8 * j)) & 0xff) < 256) by (bit_vector);
}

/// Unpacking a packed word gives back each byte.
pub proof fn lemma_unpack_word(b0: u64, b1: u64, b2: u64, b3: u64, b4: u64, b5: u64, b6: u64, b7: u64)
    requires
        b0 < 256,
        b1 < 256,
        b2 < 256,
        b3 < 256,
        b4 < 256,
        b5 < 256,
        b6 < 256,
        b7 < 256,
    ensures
        word_byte(pack_word(b0, b1, b2, b3, b4, b5, b6, b7), 0) == b0,
        word_byte(pack_word(b0, b1, b2, b3, b4, b5, b6, b7), 1) == b1,
        word_byte(pack_word(b0, b1, b2, b3, b4, b5, b6, b7), 2) == b2,
        word_byte(pack_word(b0, b1, b2, b3, b4, b5, b6, b7), 3) == b3,
        word_byte(pack_word(b0, b1, b2, b3, b4, b5, b6, b7), 4) == b4,
        word_byte(pack_word(b0, b1, b2, b3, b4, b5, b6, b7), 5) == b5,
        word_byte(pack_word(b0, b1, b2, b3, b4, b5, b6, b7), 6) == b6,
        word_byte(pack_word(b0, b1, b2, b3, b4, b5, b6, b7), 7) == b7,
{
    let w = pack_word(b0, b1, b2, b3, b4, b5, b6, b7);
    assert(w == b0 | (b1 << 8) | (b2 << 16) | (b3 << 24) | (b4 << 32) | (b5 << 40) | (b6 << 48) | (
    b7 << 56));
    assert(((w >> 0) & 0xff) == b0 && ((w >> 8) & 0xff) == b1 && ((w >> 16) & 0xff) == b2 && ((w
        >> 24) & 0xff) == b3 && ((w >> 32) & 0xff) == b4 && ((w >> 40) & 0xff) == b5 && ((w >> 48)
        & 0xff) == b6 && ((w >> 56) & 0xff) == b7) by (bit_vector)
        requires
            b0 < 256,
            b1 < 256,
            b2 < 256,
            b3 < 256,
            b4 < 256,
            b5 < 256,
            b6 < 256,
            b7 < 256,
            w == b0 | (b1 << 8) | (b2 << 16) | (b3 << 24) | (b4 << 32) | (b5 << 40) | (b6 << 48) | (
            b7 << 56),
    ;
}

/// Packing the bytes of a word gives back the word.
pub proof fn lemma_pack_word(x: u64)
    ensures
        pack_word(
            word_byte(x, 0),
            word_byte(x, 1),
            word_byte(x, 2),
            word_byte(x, 3),
            word_byte(x, 4),
            word_byte(x, 5),
            word_byte(x, 6),
            word_byte(x, 7),
        ) == x,
{
    assert(((x >> 0) & 0xff) | (((x >> 8) & 0xff) << 8) | (((x >> 16) & 0xff) << 16) | (((x >> 24)
        & 0xff) << 24) | (((x >> 32) & 0xff) << 32) | (((x >> 40) & 0xff) << 40) | (((x >> 48)
        & 0xff) << 48) | (((x >> 56) & 0xff) << 56) == x) by (bit_vector);
}

proof fn lemma_byte_of(k: Pubkey, i: int)
    requires
        0 <= i < 32,
    ensures
        k.bytes()[i] as u64 == word_byte(k.word(i / 8), (i % 8) as u64),
{
    lemma_byte_bound(k.word(i / 8), (i % 8) as u64);
}

/// Building an address from its own bytes gives back the address.
pub proof fn lemma_bytes_roundtrip(k: Pubkey)
    ensures
        spec_from_bytes(k.bytes()) == k,
{
    let b = k.bytes();
    assert forall|w: int| 0 <= w < 4 implies pack_at(b, w * 8) == #[trigger] k.word(w) by {
        let x = k.word(w);
        let o = w * 8;
        lemma_byte_of(k, o);
        lemma_byte_of(k, o + 1);
        lemma_byte_of(k, o + 2);
        lemma_byte_of(k, o + 3);
        lemma_byte_of(k, o + 4);
        lemma_byte_of(k, o + 5);
        lemma_byte_of(k, o + 6);
        lemma_byte_of(k, o + 7);
        lemma_pack_word(x);
    }
    assert(pack_at(b, 0) == k.word(0));
    assert(pack_at(b, 8) == k.word(1));
    assert(pack_at(b, 16) == k.word(2));
    assert(pack_at(b, 24) == k.word(3));
}

/// Two addresses are equal exactly when their 32-byte forms are equal.
pub proof fn lemma_bytes_injective(a: Pubkey, b: Pubkey)
    ensures
        (a.bytes() == b.bytes()) == (a == b),
{
    lemma_bytes_roundtrip(a);
    lemma_bytes_roundtrip(b);
}

fn pack_exec(bytes: &[u8; 32], o: usize) -> (r: u64)
    requires
        o + 8 <= 32,
    ensures
        r == pack_at(bytes@, o as int),
{
    let b0 = bytes[o] as u64;
    let b1 = bytes[o + 1] as u64;
    let b2 = bytes[o + 2] as u64;
    let b3 = bytes[o + 3] as u64;
    let b4 = bytes[o + 4] as u64;
    let b5 = bytes[o + 5] as u64;
    let b6 = bytes[o + 6] as u64;
    let b7 = bytes[o + 7] as u64;
    b0 | (b1 << 8) | (b2 << 16) | (b3 << 24) | (b4 << 32) | (b5 << 40) | (b6 << 48) | (b7 << 56)
}

/// `a` orders strictly before `b` by their 32-byte forms, lexicographically.
pub open spec fn key_lt(a: Pubkey, b: Pubkey) -> bool {
    exists|i: int|
        0 <= i < 32 && (forall|j: int| 0 <= j < i ==> a.bytes()[j] == b.bytes()[j]) && #[trigger] a.bytes()[i]
            < b.bytes()[i]
}

/// Whether `a` orders strictly before `b` by their 32-byte forms.
pub fn key_less(a: &Pubkey, b: &Pubkey) -> (r: bool)
    ensures
        r == key_lt(*a, *b),
{
    let x = a.to_bytes();
    let y = b.to_bytes();
    let mut i: usize = 0;
    while i < 32
        invariant
            i <= 32,
            x@ == a.bytes(),
            y@ == b.bytes(),
            forall|j: int| 0 <= j < i ==> a.bytes()[j] == b.bytes()[j],
        decreases 32 - i,
    {
        if x[i] < y[i] {
            assert(a.bytes()[i as int] < b.bytes()[i as int]);
            return true;
        }
        if x[i] > y[i] {
            assert forall|k: int| 0 <= k < 32 && (forall|j: int| 0 <= j < k ==> a.bytes()[j] == b.bytes()[j])
                implies !(a.bytes()[k] < b.bytes()[k]) by {
                if k > i as int {
                    assert(a.bytes()[i as int] == b.bytes()[i as int]);
                }
            }
            return false;
        }
        i = i + 1;
    }
    assert forall|k: int| 0 <= k < 32 && (forall|j: int| 0 <= j < k ==> a.bytes()[j] == b.bytes()[j])
        implies !(a.bytes()[k] < b.bytes()[k]) by {
    }
    false
}

} // verus!
