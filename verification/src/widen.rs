//! Lifetime coercion helpers: reassign the validity window a reference
//! is used under. Only coercions the borrow checker can justify are
//! expressible here — a window may be handed on to any window it
//! provably outlives. An unchecked widening beyond that relationship is
//! unsound and has no verified form; treating an address as a callable
//! of an asserted signature is likewise left to unverified callers.

use vstd::prelude::*;

verus! {

/// Hands `val_b` on under the lifetime `'a`. Sound on its own: the
/// `&'a &'b ()` witness forces `'b` to outlive `'a`, so the result can
/// never dangle.
#[inline(never)]
pub fn lifetime_translator<'a, 'b, T: ?Sized>(_val_a: &'a &'b (), val_b: &'b T) -> (r: &'a T)
    ensures
        r == val_b,
{
    val_b
}

/// The same coercion for mutable references.
#[inline(never)]
pub fn lifetime_translator_mut<'a, 'b, T>(
    _val_a: &'a &'b (),
    val_b: &'b mut T,
) -> (r: &'a mut T)
    ensures
        *r == *old(val_b),
        *final(val_b) == *final(r),
{
    val_b
}

/// Moves a reference from the window `'a` to the window `'b`, which `'a`
/// must outlive. The value behind the reference is untouched.
pub fn expand<'a, 'b, T: ?Sized>(x: &'a T) -> (r: &'b T) where 'a: 'b
    ensures
        r == x,
{
    lifetime_translator(&&(), x)
}

/// The same window move for mutable references.
pub fn expand_mut<'a, 'b, T>(x: &'a mut T) -> (r: &'b mut T) where 'a: 'b
    ensures
        *r == *old(x),
        *final(x) == *final(r),
{
    lifetime_translator_mut(&&(), x)
}

} // verus!
