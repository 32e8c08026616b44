//! Shift helpers for line searches.
//!
//! A bracketing or refinement step keeps an ordered tuple of working points
//! (and their function values) and, on each pass, discards the oldest entry
//! while appending a new one.  These helpers perform that shift-by-one-slot
//! rotation in place.

use vstd::prelude::*;

verus! {

/// Shift a pair one slot: the first value is discarded, the second moves
/// into its place, and `c` becomes the new second value.
pub fn shft2<T: Copy>(a: &mut T, b: &mut T, c: T)
    ensures
        *final(a) == *old(b),
        *final(b) == c,
{
    *a = *b;
    *b = c;
}

/// Shift a triple one slot: the first value is discarded, the remaining
/// two move up, and `d` becomes the new third value.
pub fn shft3<T: Copy>(a: &mut T, b: &mut T, c: &mut T, d: T)
    ensures
        *final(a) == *old(b),
        *final(b) == *old(c),
        *final(c) == d,
{
    *a = *b;
    *b = *c;
    *c = d;
}

/// Overwrite three slots at once with the three given values.
pub fn mov3<T: Copy>(a: &mut T, b: &mut T, c: &mut T, d: T, e: T, f: T)
    ensures
        *final(a) == d,
        *final(b) == e,
        *final(c) == f,
{
    *a = d;
    *b = e;
    *c = f;
}

} // verus!
