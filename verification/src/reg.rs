//! Register cells and bit-field access.
//!
//! Hardware registers are modelled as [`volatile::Volatile`] cells owned by
//! the component structs. All reads and writes go through the small trusted
//! functions below, and all field extraction and insertion goes through
//! `bit_field`, with the bit arithmetic specified by the `field_*` and
//! `bit_*` spec functions.

use vstd::prelude::*;

verus! {

/// A mask with the `width` low bits set.
pub open spec fn field_mask(width: u32) -> u32
    recommends
        0 < width < 32,
{
    ((1u32 << width) - 1) as u32
}

/// The `width`-bit field of `v` that starts at bit `lo`.
pub open spec fn field_get(v: u32, lo: u32, width: u32) -> u32
    recommends
        0 < width < 32,
        lo + width <= 32,
{
    (v >> lo) & field_mask(width)
}

/// `v` with the `width`-bit field at bit `lo` replaced by `x`, all other
/// bits preserved.
pub open spec fn field_set(v: u32, lo: u32, width: u32, x: u32) -> u32
    recommends
        0 < width < 32,
        lo + width <= 32,
{
    (v & !(field_mask(width) << lo)) | ((x & field_mask(width)) << lo)
}

/// Bit `i` of `v`.
pub open spec fn bit_get(v: u32, i: u32) -> bool
    recommends
        i < 32,
{
    v & (1u32 << i) != 0
}

/// Reading a field just written returns the written value.
pub proof fn lemma_field_set_get(v: u32, lo: u32, width: u32, x: u32)
    by (bit_vector)
    requires
        0 < width < 32,
        lo + width <= 32,
        x <= field_mask(width),
    ensures
        field_get(field_set(v, lo, width, x), lo, width) == x,
{
}

/// Writing one field leaves every disjoint field unchanged.
pub proof fn lemma_field_set_frame(v: u32, lo1: u32, w1: u32, x: u32, lo2: u32, w2: u32)
    by (bit_vector)
    requires
        0 < w1 < 32,
        lo1 + w1 <= 32,
        0 < w2 < 32,
        lo2 + w2 <= 32,
        lo1 + w1 <= lo2 || lo2 + w2 <= lo1,
    ensures
        field_get(field_set(v, lo1, w1, x), lo2, w2) == field_get(v, lo2, w2),
{
}

/// A field value always fits its mask.
pub proof fn lemma_field_get_bound(v: u32, lo: u32, width: u32)
    by (bit_vector)
    requires
        0 < width < 32,
        lo + width <= 32,
    ensures
        field_get(v, lo, width) <= field_mask(width),
{
}

#[verifier::external_type_specification]
#[verifier::external_body]
#[verifier::reject_recursive_types(T)]
pub struct ExVolatile<T: Copy>(volatile::Volatile<T>);

/// The value a register cell holds.
pub uninterp spec fn vol_val(cell: volatile::Volatile<u32>) -> u32;

/// Relies on volatile::Volatile::new: wraps the given value in a cell.
#[verifier::external_body]
pub(crate) fn vol_new(value: u32) -> (cell: volatile::Volatile<u32>)
    ensures
        vol_val(cell) == value,
{
    volatile::Volatile::new(value)
}

/// Relies on volatile::Volatile::read: a volatile read returns the value the
/// cell holds.
#[verifier::external_body]
pub(crate) fn vol_read(cell: &volatile::Volatile<u32>) -> (value: u32)
    ensures
        value == vol_val(*cell),
{
    cell.read()
}

/// Relies on volatile::Volatile::write: a volatile write replaces the value
/// the cell holds.
#[verifier::external_body]
pub(crate) fn vol_write(cell: &mut volatile::Volatile<u32>, value: u32)
    ensures
        vol_val(*final(cell)) == value,
{
    cell.write(value)
}

/// Relies on bit_field::BitField::get_bits on u32: returns the `width`-bit
/// field starting at bit `lo`, shifted down to the low bits.
#[verifier::external_body]
pub(crate) fn get_bits_u32(v: u32, lo: u32, width: u32) -> (r: u32)
    requires
        0 < width < 32,
        lo + width <= 32,
    ensures
        r == field_get(v, lo, width),
{
    bit_field::BitField::get_bits(&v, (lo as usize)..((lo + width) as usize))
}

/// Relies on bit_field::BitField::set_bits on u32: replaces the `width`-bit
/// field starting at bit `lo` with `x` and preserves all other bits. The
/// bound on `x` keeps the call on the path where `set_bits` does not panic.
#[verifier::external_body]
pub(crate) fn set_bits_u32(v: u32, lo: u32, width: u32, x: u32) -> (r: u32)
    requires
        0 < width < 32,
        lo + width <= 32,
        x <= field_mask(width),
    ensures
        r == field_set(v, lo, width, x),
{
    let mut out = v;
    bit_field::BitField::set_bits(&mut out, (lo as usize)..((lo + width) as usize), x);
    out
}

/// Relies on bit_field::BitField::get_bit on u32: returns bit `i`.
#[verifier::external_body]
pub(crate) fn get_bit_u32(v: u32, i: u32) -> (r: bool)
    requires
        i < 32,
    ensures
        r == bit_get(v, i),
{
    bit_field::BitField::get_bit(&v, i as usize)
}

/// Relies on bit_field::BitField::set_bit on u32: sets or clears bit `i` and
/// preserves all other bits.
#[verifier::external_body]
pub(crate) fn set_bit_u32(v: u32, i: u32, b: bool) -> (r: u32)
    requires
        i < 32,
    ensures
        b ==> r == (v | (1u32 << i)),
        !b ==> r == (v & !(1u32 << i)),
{
    let mut out = v;
    bit_field::BitField::set_bit(&mut out, i as usize, b);
    out
}

} // verus!
