//! Bit-level specification functions, trusted wrappers around the
//! `bit_field` crate, and the lemmas that relate setting a field of a
//! register byte to reading it back.
//!
//! Bit index 0 is the least significant bit. A range `lo..hi` selects the
//! bits at positions `lo` up to, but not including, `hi`, exactly as the
//! `bit_field` crate does.

use bit_field::BitField;
use vstd::prelude::*;

verus! {

/// Bit `i` of `x`, as a boolean.
pub open spec fn get_bit8(x: u8, i: u8) -> bool {
    (x >> i) & 1 == 1
}

/// `x` with bit `i` forced to `b`.
pub open spec fn set_bit8(x: u8, i: u8, b: bool) -> u8 {
    if b {
        x | (1u8 << i)
    } else {
        x & !(1u8 << i)
    }
}

/// The field `lo..hi` of `x`, shifted down to the low bits. Written in the
/// same shift-away form that the `bit_field` crate computes.
pub open spec fn get_bits8(x: u8, lo: u8, hi: u8) -> u8 {
    ((x << ((8 - hi) as u8)) >> ((8 - hi) as u8)) >> lo
}

/// A mask selecting exactly the bits `lo..hi`.
pub open spec fn bits_mask8(lo: u8, hi: u8) -> u8 {
    ((((!0u8) << ((8 - hi) as u8)) >> ((8 - hi) as u8)) >> lo) << lo
}

/// `x` with the field `lo..hi` replaced by the low bits of `v`.
pub open spec fn set_bits8(x: u8, lo: u8, hi: u8, v: u8) -> u8 {
    (x & !bits_mask8(lo, hi)) | (v << lo)
}

/// `v` occupies no bits at position `w` or above.
pub open spec fn fits8(v: u8, w: u8) -> bool {
    v >> w == 0
}

/// The field `lo..hi` of a 16-bit word, shifted down to the low bits.
pub open spec fn get_bits16(x: u16, lo: u16, hi: u16) -> u16 {
    ((x << ((16 - hi) as u16)) >> ((16 - hi) as u16)) >> lo
}

/// Bit `i` of a 32-bit word, as a boolean.
pub open spec fn get_bit32(x: u32, i: u32) -> bool {
    (x >> i) & 1 == 1
}

// ---------------------------------------------------------------------------
// Trusted wrappers around the `bit_field` crate.
// ---------------------------------------------------------------------------

/// Relies on `<u8 as bit_field::BitField>::get_bit`: returns bit `i` of `x`.
/// The callee panics for `i >= 8`, so the contract excludes those.
#[verifier::external_body]
pub(crate) fn bf_get_bit8(x: u8, i: usize) -> (b: bool)
    requires
        i < 8,
    ensures
        b == get_bit8(x, i as u8),
{
    x.get_bit(i)
}

/// Relies on `<u8 as bit_field::BitField>::set_bit`: forces bit `i` of `x`
/// to `b`. The callee panics for `i >= 8`, so the contract excludes those.
#[verifier::external_body]
pub(crate) fn bf_set_bit8(x: u8, i: usize, b: bool) -> (r: u8)
    requires
        i < 8,
    ensures
        r == set_bit8(x, i as u8, b),
{
    let mut y = x;
    y.set_bit(i, b);
    y
}

/// Relies on `<u8 as bit_field::BitField>::get_bits`: returns the field
/// `lo..hi` of `x`, shifted down. The callee panics when the range is out
/// of bounds, so the contract excludes those.
#[verifier::external_body]
pub(crate) fn bf_get_bits8(x: u8, lo: usize, hi: usize) -> (r: u8)
    requires
        lo < hi <= 8,
    ensures
        r == get_bits8(x, lo as u8, hi as u8),
{
    x.get_bits(lo..hi)
}

/// Relies on `<u8 as bit_field::BitField>::set_bits`: replaces the field
/// `lo..hi` of `x` with `v`. The callee panics when the range is out of
/// bounds or `v` does not fit the field, so the contract excludes those.
#[verifier::external_body]
pub(crate) fn bf_set_bits8(x: u8, lo: usize, hi: usize, v: u8) -> (r: u8)
    requires
        lo < hi <= 8,
        fits8(v, (hi - lo) as u8),
    ensures
        r == set_bits8(x, lo as u8, hi as u8, v),
{
    let mut y = x;
    y.set_bits(lo..hi, v);
    y
}

/// Relies on `<u16 as bit_field::BitField>::get_bits`: returns the field
/// `lo..hi` of `x`, shifted down. The callee panics when the range is out
/// of bounds, so the contract excludes those.
#[verifier::external_body]
pub(crate) fn bf_get_bits16(x: u16, lo: usize, hi: usize) -> (r: u16)
    requires
        lo < hi <= 16,
    ensures
        r == get_bits16(x, lo as u16, hi as u16),
{
    x.get_bits(lo..hi)
}

// ---------------------------------------------------------------------------
// Lemmas about reading fields back.
// ---------------------------------------------------------------------------

/// Values below a power of two fit the field of that width.
pub proof fn lemma_fits8_of_bound(v: u8)
    ensures
        v < 2 ==> fits8(v, 1),
        v < 4 ==> fits8(v, 2),
        v < 8 ==> fits8(v, 3),
        v < 16 ==> fits8(v, 4),
        v < 32 ==> fits8(v, 5),
        v < 64 ==> fits8(v, 6),
        fits8(v, 8),
{
    assert((v < 2 ==> v >> 1 == 0) && (v < 4 ==> v >> 2 == 0) && (v < 8 ==> v >> 3 == 0) && (v
        < 16 ==> v >> 4 == 0) && (v < 32 ==> v >> 5 == 0) && (v < 64 ==> v >> 6 == 0) && v >> 8
        == 0) by (bit_vector);
}

/// A value that fits a field of some width is below the matching power of
/// two.
pub proof fn lemma_bound_of_fits8(v: u8)
    ensures
        fits8(v, 1) ==> v < 2,
        fits8(v, 2) ==> v < 4,
        fits8(v, 3) ==> v < 8,
        fits8(v, 4) ==> v < 16,
        fits8(v, 5) ==> v < 32,
        fits8(v, 6) ==> v < 64,
{
    assert((v >> 1 == 0 ==> v < 2) && (v >> 2 == 0 ==> v < 4) && (v >> 3 == 0 ==> v < 8) && (v
        >> 4 == 0 ==> v < 16) && (v >> 5 == 0 ==> v < 32) && (v >> 6 == 0 ==> v < 64)) by (bit_vector);
}

/// Reading a field back directly after writing it yields the written value.
pub proof fn lemma_set_bits8_read_same(x: u8, lo: u8, hi: u8, v: u8)
    requires
        lo < hi <= 8,
        fits8(v, (hi - lo) as u8),
    ensures
        get_bits8(set_bits8(x, lo, hi, v), lo, hi) == v,
{
    assert(((((x & !(((((!0u8) << ((8 - hi) as u8)) >> ((8 - hi) as u8)) >> lo) << lo)) | (v << lo)) << ((8 - hi) as u8))
        >> ((8 - hi) as u8)) >> lo == v) by (bit_vector)
        requires
            lo < hi,
            hi <= 8,
            v >> ((hi - lo) as u8) == 0,
    ;
}

/// Writing one field leaves every disjoint field unchanged.
pub proof fn lemma_set_bits8_read_other(x: u8, lo: u8, hi: u8, v: u8, lo2: u8, hi2: u8)
    requires
        lo < hi <= 8,
        lo2 < hi2 <= 8,
        hi2 <= lo || hi <= lo2,
        fits8(v, (hi - lo) as u8),
    ensures
        get_bits8(set_bits8(x, lo, hi, v), lo2, hi2) == get_bits8(x, lo2, hi2),
{
    assert(((((x & !(((((!0u8) << ((8 - hi) as u8)) >> ((8 - hi) as u8)) >> lo) << lo)) | (v << lo)) << ((8 - hi2) as u8))
        >> ((8 - hi2) as u8)) >> lo2 == ((x << ((8 - hi2) as u8)) >> ((8 - hi2) as u8)) >> lo2) by (bit_vector)
        requires
            lo < hi,
            hi <= 8,
            lo2 < hi2,
            hi2 <= 8,
            hi2 <= lo || hi <= lo2,
            v >> ((hi - lo) as u8) == 0,
    ;
}

/// Writing a field leaves every bit outside it unchanged.
pub proof fn lemma_set_bits8_read_bit(x: u8, lo: u8, hi: u8, v: u8, i: u8)
    requires
        lo < hi <= 8,
        i < 8,
        i < lo || hi <= i,
        fits8(v, (hi - lo) as u8),
    ensures
        get_bit8(set_bits8(x, lo, hi, v), i) == get_bit8(x, i),
{
    assert((((x & !(((((!0u8) << ((8 - hi) as u8)) >> ((8 - hi) as u8)) >> lo) << lo)) | (v << lo)) >> i) & 1 == (
    x >> i) & 1) by (bit_vector)
        requires
            lo < hi,
            hi <= 8,
            i < 8,
            i < lo || hi <= i,
            v >> ((hi - lo) as u8) == 0,
    ;
}

/// Reading a bit back directly after setting it yields the set value.
pub proof fn lemma_set_bit8_read_same(x: u8, i: u8, b: bool)
    requires
        i < 8,
    ensures
        get_bit8(set_bit8(x, i, b), i) == b,
{
    assert((((if b {
        x | (1u8 << i)
    } else {
        x & !(1u8 << i)
    }) >> i) & 1 == 1) == b) by (bit_vector)
        requires
            i < 8,
    ;
}

/// Setting one bit leaves every other bit unchanged.
pub proof fn lemma_set_bit8_read_other(x: u8, i: u8, b: bool, j: u8)
    requires
        i < 8,
        j < 8,
        j != i,
    ensures
        get_bit8(set_bit8(x, i, b), j) == get_bit8(x, j),
{
    assert(((if b {
        x | (1u8 << i)
    } else {
        x & !(1u8 << i)
    }) >> j) & 1 == (x >> j) & 1) by (bit_vector)
        requires
            i < 8,
            j < 8,
            j != i,
    ;
}

/// Setting a bit outside a field leaves the field unchanged.
pub proof fn lemma_set_bit8_read_bits(x: u8, i: u8, b: bool, lo: u8, hi: u8)
    requires
        i < 8,
        lo < hi <= 8,
        i < lo || hi <= i,
    ensures
        get_bits8(set_bit8(x, i, b), lo, hi) == get_bits8(x, lo, hi),
{
    assert((((if b {
        x | (1u8 << i)
    } else {
        x & !(1u8 << i)
    }) << ((8 - hi) as u8)) >> ((8 - hi) as u8)) >> lo == ((x << ((8 - hi) as u8)) >> ((8 - hi) as u8)) >> lo) by (bit_vector)
        requires
            i < 8,
            lo < hi,
            hi <= 8,
            i < lo || hi <= i,
    ;
}

/// Every field read fits its own width.
pub proof fn lemma_get_bits8_fits(x: u8, lo: u8, hi: u8)
    requires
        lo < hi <= 8,
    ensures
        fits8(get_bits8(x, lo, hi), (hi - lo) as u8),
{
    assert((((x << ((8 - hi) as u8)) >> ((8 - hi) as u8)) >> lo) >> ((hi - lo) as u8) == 0) by (bit_vector)
        requires
            lo < hi,
            hi <= 8,
    ;
}

/// A 16-bit field read fits its own width; in particular a field of at most
/// eight bits is below 256.
pub proof fn lemma_get_bits16_bounds(x: u16, lo: u16, hi: u16)
    requires
        lo < hi <= 16,
    ensures
        get_bits16(x, lo, hi) >> ((hi - lo) as u16) == 0,
        hi - lo <= 8 ==> get_bits16(x, lo, hi) < 256,
{
    assert(((((x << ((16 - hi) as u16)) >> ((16 - hi) as u16)) >> lo) >> ((hi - lo) as u16) == 0) && (hi - lo <= 8
        ==> (((x << ((16 - hi) as u16)) >> ((16 - hi) as u16)) >> lo) < 256)) by (bit_vector)
        requires
            lo < hi,
            hi <= 16,
    ;
}

/// Or-ing in a one-bit mask sets that bit and changes no other.
pub proof fn lemma_or_bit32(x: u32, i: u32, j: u32)
    requires
        i < 32,
        j < 32,
    ensures
        get_bit32(x | (1u32 << i), i),
        j != i ==> get_bit32(x | (1u32 << i), j) == get_bit32(x, j),
{
    assert((((x | (1u32 << i)) >> i) & 1 == 1) && (j != i ==> ((x | (1u32 << i)) >> j) & 1 == (x
        >> j) & 1)) by (bit_vector)
        requires
            i < 32,
            j < 32,
    ;
}

/// And-ing with a one-bit mask's complement clears that bit and changes no
/// other.
pub proof fn lemma_andnot_bit32(x: u32, i: u32, j: u32)
    requires
        i < 32,
        j < 32,
    ensures
        !get_bit32(x & !(1u32 << i), i),
        j != i ==> get_bit32(x & !(1u32 << i), j) == get_bit32(x, j),
{
    assert((!(((x & !(1u32 << i)) >> i) & 1 == 1)) && (j != i ==> ((x & !(1u32 << i)) >> j) & 1
        == (x >> j) & 1)) by (bit_vector)
        requires
            i < 32,
            j < 32,
    ;
}

} // verus!
