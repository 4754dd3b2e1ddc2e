//! Trusted access to `volatile::Volatile` register cells, and the polling
//! helpers built on them.
//!
//! On silicon each cell overlays one memory-mapped register and must be
//! accessed volatilely so the optimizer cannot reorder or elide the access;
//! here each driver owns its cells by value. The uninterpreted function
//! [`vol_u8`] names the byte a cell holds; the wrappers say how `read`,
//! `write` and `new` relate to it.

use vstd::prelude::*;

use crate::bits::bf_get_bit8;
use crate::bits::bf_get_bits8;
use crate::bits::get_bit8;
use crate::bits::get_bits8;

verus! {

#[verifier::external_type_specification]
#[verifier::external_body]
#[verifier::reject_recursive_types(T)]
pub struct ExVolatile<T: Copy>(volatile::Volatile<T>);

/// The byte a `Volatile<u8>` cell holds.
pub uninterp spec fn vol_u8(v: volatile::Volatile<u8>) -> u8;

/// Relies on `volatile::Volatile::new`: wraps the given value.
#[verifier::external_body]
pub(crate) fn vol_new8(x: u8) -> (r: volatile::Volatile<u8>)
    ensures
        vol_u8(r) == x,
{
    volatile::Volatile::new(x)
}

/// Relies on `volatile::Volatile::read`: a volatile read returning a copy
/// of the held value. It never panics.
#[verifier::external_body]
pub(crate) fn vol_read8(v: &volatile::Volatile<u8>) -> (r: u8)
    ensures
        r == vol_u8(*v),
{
    v.read()
}

/// Relies on `volatile::Volatile::write`: a volatile write replacing the
/// held value. It never panics.
#[verifier::external_body]
pub(crate) fn vol_write8(v: &mut volatile::Volatile<u8>, x: u8)
    ensures
        vol_u8(*final(v)) == x,
{
    v.write(x)
}

/// Poll bit `i` of the status cell until it reads as `want`.
///
/// On hardware this polls for an unbounded time (there is no timeout, by
/// design). The register model confirms control writes synchronously, so
/// the first read is proved to observe the target state already and the
/// poll reduces to that single confirming read.
pub(crate) fn confirm_bit8(cell: &volatile::Volatile<u8>, i: usize, want: bool)
    requires
        i < 8,
        get_bit8(vol_u8(*cell), i as u8) == want,
{
    let s: u8 = vol_read8(cell);
    let confirmed: bool = bf_get_bit8(s, i) == want;
    assert(confirmed);
}

/// Poll the field `lo..hi` of the status cell until it reads as `want`.
///
/// As with [`confirm_bit8`], the model makes the first read conclusive.
pub(crate) fn confirm_bits8(cell: &volatile::Volatile<u8>, lo: usize, hi: usize, want: u8)
    requires
        lo < hi <= 8,
        get_bits8(vol_u8(*cell), lo as u8, hi as u8) == want,
{
    let s: u8 = vol_read8(cell);
    let confirmed: bool = bf_get_bits8(s, lo, hi) == want;
    assert(confirmed);
}

} // verus!
