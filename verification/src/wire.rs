//! Little-endian byte arithmetic and 16-bit wrapping offsets.

use vstd::prelude::*;

verus! {

/// The `u16` encoded little-endian by two bytes.
pub open spec fn spec_le16(lo: u8, hi: u8) -> u16 {
    (lo as u16) | ((hi as u16) << 8)
}

/// Assemble a `u16` from its little-endian bytes.
pub fn le16(lo: u8, hi: u8) -> (r: u16)
    ensures
        r == spec_le16(lo, hi),
{
    (lo as u16) | ((hi as u16) << 8)
}

/// The `u32` encoded little-endian by four bytes.
pub open spec fn spec_le32(b0: u8, b1: u8, b2: u8, b3: u8) -> u32 {
    (b0 as u32) | ((b1 as u32) << 8) | ((b2 as u32) << 16) | ((b3 as u32) << 24)
}

/// Assemble a `u32` from its little-endian bytes.
pub fn le32(b0: u8, b1: u8, b2: u8, b3: u8) -> (r: u32)
    ensures
        r == spec_le32(b0, b1, b2, b3),
{
    (b0 as u32) | ((b1 as u32) << 8) | ((b2 as u32) << 16) | ((b3 as u32) << 24)
}

/// The low byte of a `u16`.
pub open spec fn spec_lo8(x: u16) -> u8 {
    (x & 0xFF) as u8
}

/// The high byte of a `u16`.
pub open spec fn spec_hi8(x: u16) -> u8 {
    ((x >> 8) & 0xFF) as u8
}

/// Split a `u16` into its little-endian bytes.
pub fn le16_bytes(x: u16) -> (r: (u8, u8))
    ensures
        r.0 == spec_lo8(x),
        r.1 == spec_hi8(x),
        spec_le16(r.0, r.1) == x,
{
    proof {
        assert(spec_le16(spec_lo8(x), spec_hi8(x)) == x) by (bit_vector);
        assert(x >> 8 < 256 ==> ((x >> 8) & 0xFF) == (x >> 8)) by (bit_vector);
    }
    ((x & 0xFF) as u8, ((x >> 8) & 0xFF) as u8)
}

/// Byte 0 (lowest) of a `u32` in little-endian order.
pub open spec fn spec_u32_b0(x: u32) -> u8 {
    (x & 0xFF) as u8
}

/// Byte 1 of a `u32` in little-endian order.
pub open spec fn spec_u32_b1(x: u32) -> u8 {
    ((x >> 8) & 0xFF) as u8
}

/// Byte 2 of a `u32` in little-endian order.
pub open spec fn spec_u32_b2(x: u32) -> u8 {
    ((x >> 16) & 0xFF) as u8
}

/// Byte 3 (highest) of a `u32` in little-endian order.
pub open spec fn spec_u32_b3(x: u32) -> u8 {
    ((x >> 24) & 0xFF) as u8
}

/// Splitting a little-endian `u16` recovers the bytes it was read from.
pub proof fn lemma_le16_bytes(lo: u8, hi: u8)
    ensures
        spec_lo8(spec_le16(lo, hi)) == lo,
        spec_hi8(spec_le16(lo, hi)) == hi,
{
    assert(((((lo as u16) | ((hi as u16) << 8)) & 0xFF) as u8) == lo) by (bit_vector);
    assert((((((lo as u16) | ((hi as u16) << 8)) >> 8) & 0xFF) as u8) == hi) by (bit_vector);
}

/// Splitting a little-endian `u32` recovers the bytes it was read from.
pub proof fn lemma_le32_bytes(b0: u8, b1: u8, b2: u8, b3: u8)
    ensures
        spec_u32_b0(spec_le32(b0, b1, b2, b3)) == b0,
        spec_u32_b1(spec_le32(b0, b1, b2, b3)) == b1,
        spec_u32_b2(spec_le32(b0, b1, b2, b3)) == b2,
        spec_u32_b3(spec_le32(b0, b1, b2, b3)) == b3,
{
    assert(((((b0 as u32) | ((b1 as u32) << 8) | ((b2 as u32) << 16) | ((b3 as u32) << 24))
        & 0xFF) as u8) == b0) by (bit_vector);
    assert((((((b0 as u32) | ((b1 as u32) << 8) | ((b2 as u32) << 16) | ((b3 as u32) << 24)) >> 8)
        & 0xFF) as u8) == b1) by (bit_vector);
    assert((((((b0 as u32) | ((b1 as u32) << 8) | ((b2 as u32) << 16) | ((b3 as u32) << 24)) >> 16)
        & 0xFF) as u8) == b2) by (bit_vector);
    assert((((((b0 as u32) | ((b1 as u32) << 8) | ((b2 as u32) << 16) | ((b3 as u32) << 24)) >> 24)
        & 0xFF) as u8) == b3) by (bit_vector);
}

/// A 16-bit register offset advanced by `i`, wrapping at the address-space
/// boundary.
pub open spec fn wrap_add(addr: u16, i: int) -> u16 {
    ((addr + i) % 0x10000) as u16
}

/// Advance a register offset by `i` with 16-bit wrap-around.
pub fn wrap_offset(addr: u16, i: usize) -> (r: u16)
    ensures
        r == wrap_add(addr, i as int),
{
    let im: u64 = (i as u64) % 0x10000;
    proof {
        vstd::arithmetic::div_mod::lemma_add_mod_noop_right(addr as int, i as int, 0x10000);
    }
    (((addr as u64) + im) % 0x10000) as u16
}

/// A buffer with the little-endian `u16` at offset `o` incremented by one,
/// wrapping at the 16-bit boundary.
pub open spec fn spec_inc16_at(s: Seq<u8>, o: int) -> Seq<u8> {
    let w = wrap_add(spec_le16(s[o], s[o + 1]), 1);
    s.update(o, spec_lo8(w)).update(o + 1, spec_hi8(w))
}

/// Increment the little-endian `u16` at offset `o` in place, with 16-bit
/// wrap-around.
pub fn inc16_at(data: &mut Vec<u8>, o: usize)
    requires
        o + 1 < old(data)@.len(),
    ensures
        final(data)@ == spec_inc16_at(old(data)@, o as int),
        final(data)@.len() == old(data)@.len(),
{
    let n = data.len();
    proof {
        assert(o + 1 < n);
    }
    let w = le16(data[o], data[o + 1]);
    let w2 = wrap_offset(w, 1);
    let (lo, hi) = le16_bytes(w2);
    data.set(o, lo);
    data.set(o + 1, hi);
}

} // verus!
