//! Little-endian reads and writes over byte buffers.
//!
//! Kernel records arrive with no alignment guarantee at record
//! boundaries, so every multi-byte field is assembled explicitly
//! from single bytes rather than read through an overlaid structure.

use vstd::prelude::*;

verus! {

/// The unsigned 32-bit value stored little-endian at offset `i` of `b`.
pub open spec fn spec_u32_at(b: Seq<u8>, i: int) -> u32
    recommends
        0 <= i,
        i + 4 <= b.len(),
{
    (b[i] as u32) | ((b[i + 1] as u32) << 8) | ((b[i + 2] as u32) << 16) | ((b[i + 3] as u32)
        << 24)
}

/// The unsigned 64-bit value stored little-endian at offset `i` of `b`.
pub open spec fn spec_u64_at(b: Seq<u8>, i: int) -> u64
    recommends
        0 <= i,
        i + 8 <= b.len(),
{
    (spec_u32_at(b, i) as u64) | ((spec_u32_at(b, i + 4) as u64) << 32)
}

/// The signed 32-bit value stored little-endian at offset `i` of `b`,
/// read as the two's-complement reinterpretation of the unsigned value.
pub open spec fn spec_i32_at(b: Seq<u8>, i: int) -> i32
    recommends
        0 <= i,
        i + 4 <= b.len(),
{
    spec_u32_at(b, i) as i32
}

/// The four little-endian bytes of `x`.
pub open spec fn spec_u32_le_bytes(x: u32) -> Seq<u8> {
    seq![
        (x & 0xff) as u8,
        ((x >> 8) & 0xff) as u8,
        ((x >> 16) & 0xff) as u8,
        ((x >> 24) & 0xff) as u8,
    ]
}

/// Read the little-endian `u32` at offset `i`.
pub fn u32_at(b: &[u8], i: usize) -> (r: u32)
    requires
        i + 4 <= b@.len(),
    ensures
        r == spec_u32_at(b@, i as int),
{
    let b0: u32 = b[i] as u32;
    let b1: u32 = b[i + 1] as u32;
    let b2: u32 = b[i + 2] as u32;
    let b3: u32 = b[i + 3] as u32;
    b0 | (b1 << 8) | (b2 << 16) | (b3 << 24)
}

/// Read the little-endian `u64` at offset `i`.
pub fn u64_at(b: &[u8], i: usize) -> (r: u64)
    requires
        i + 8 <= b@.len(),
    ensures
        r == spec_u64_at(b@, i as int),
{
    proof {
        // A slice is no longer than the address space, so `i + 4`
        // below cannot overflow.
        assert(b@.len() == vstd::slice::spec_slice_len(b));
    }
    let lo: u32 = u32_at(b, i);
    let hi: u32 = u32_at(b, i + 4);
    (lo as u64) | ((hi as u64) << 32)
}

/// Read the little-endian `i32` at offset `i`.
pub fn i32_at(b: &[u8], i: usize) -> (r: i32)
    requires
        i + 4 <= b@.len(),
    ensures
        r == spec_i32_at(b@, i as int),
{
    let raw: u32 = u32_at(b, i);
    #[verifier::truncate] (raw as i32)
}

/// Serialize `x` as its four little-endian bytes.
pub fn u32_le_bytes(x: u32) -> (r: Vec<u8>)
    ensures
        r@ == spec_u32_le_bytes(x),
{
    proof {
        assert((x & 0xff) < 256 && ((x >> 8) & 0xff) < 256 && ((x >> 16) & 0xff) < 256 && ((x
            >> 24) & 0xff) < 256) by (bit_vector);
    }
    let mut r: Vec<u8> = Vec::new();
    r.push((x & 0xff) as u8);
    r.push(((x >> 8) & 0xff) as u8);
    r.push(((x >> 16) & 0xff) as u8);
    r.push(((x >> 24) & 0xff) as u8);
    proof {
        assert(r@ =~= spec_u32_le_bytes(x));
    }
    r
}

/// A read lying inside the prefix of a concatenation sees only the
/// prefix.
pub proof fn lemma_u32_at_prefix(s: Seq<u8>, t: Seq<u8>, i: int)
    requires
        0 <= i,
        i + 4 <= s.len(),
    ensures
        spec_u32_at(s + t, i) == spec_u32_at(s, i),
{
    assert((s + t)[i] == s[i]);
    assert((s + t)[i + 1] == s[i + 1]);
    assert((s + t)[i + 2] == s[i + 2]);
    assert((s + t)[i + 3] == s[i + 3]);
}

/// A read lying inside the suffix of a concatenation sees only the
/// suffix, shifted by the prefix length.
pub proof fn lemma_u32_at_shift(s: Seq<u8>, t: Seq<u8>, i: int)
    requires
        0 <= i,
        i + 4 <= t.len(),
    ensures
        spec_u32_at(s + t, s.len() + i) == spec_u32_at(t, i),
{
    assert((s + t)[s.len() + i] == t[i]);
    assert((s + t)[s.len() + i + 1] == t[i + 1]);
    assert((s + t)[s.len() + i + 2] == t[i + 2]);
    assert((s + t)[s.len() + i + 3] == t[i + 3]);
}

/// As [`lemma_u32_at_prefix`], for 64-bit reads.
pub proof fn lemma_u64_at_prefix(s: Seq<u8>, t: Seq<u8>, i: int)
    requires
        0 <= i,
        i + 8 <= s.len(),
    ensures
        spec_u64_at(s + t, i) == spec_u64_at(s, i),
{
    lemma_u32_at_prefix(s, t, i);
    lemma_u32_at_prefix(s, t, i + 4);
}

/// As [`lemma_u32_at_shift`], for 64-bit reads.
pub proof fn lemma_u64_at_shift(s: Seq<u8>, t: Seq<u8>, i: int)
    requires
        0 <= i,
        i + 8 <= t.len(),
    ensures
        spec_u64_at(s + t, s.len() + i) == spec_u64_at(t, i),
{
    lemma_u32_at_shift(s, t, i);
    lemma_u32_at_shift(s, t, i + 4);
    assert(s.len() + (i + 4) == (s.len() + i) + 4);
}

/// Serializing a `u32` and reading it back returns the original value:
/// the little-endian write and read directions agree.
pub proof fn lemma_u32_le_round_trip(x: u32)
    ensures
        spec_u32_at(spec_u32_le_bytes(x), 0) == x,
{
    let b = spec_u32_le_bytes(x);
    assert(b[0] == (x & 0xff) as u8);
    assert(b[1] == ((x >> 8) & 0xff) as u8);
    assert(b[2] == ((x >> 16) & 0xff) as u8);
    assert(b[3] == ((x >> 24) & 0xff) as u8);
    assert((((x & 0xff) as u8) as u32) | (((((x >> 8) & 0xff) as u8) as u32) << 8) | (((((x >> 16)
        & 0xff) as u8) as u32) << 16) | (((((x >> 24) & 0xff) as u8) as u32) << 24) == x)
        by (bit_vector);
}

} // verus!
