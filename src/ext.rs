//! The extension traits on slices: widen, narrow, take one group.
use vstd::prelude::*;

use crate::layout::{flatten, is_grouping, lemma_flatten_is_grouping};
use crate::sliceomorphic::IsSliceomorphic;

verus! {

/// Views a slice of groups as a flat slice of their elements.
///
/// Available on `[V]` for every `V: IsSliceomorphic`, so on any slice of
/// arrays `[[T; n]]`, `n == 0` included (such a slice flattens to an empty
/// slice, however many groups it has).
pub trait SliceFlatExt<T> {
    /// The elements of all groups, group after group.
    spec fn flattened(&self) -> Seq<T>;

    /// Views `&[[T; n]]` as `&[T]`. The number of elements must fit in a
    /// `usize` (it always does unless `T` is zero-sized).
    fn flat(&self) -> (r: &[T])
        requires
            self.flattened().len() <= usize::MAX,
        ensures
            r@ == self.flattened(),
    ;

    /// Views `&mut [[T; n]]` as `&mut [T]`; writes through the result land in
    /// the groups. The number of elements must fit in a `usize` (it always
    /// does unless `T` is zero-sized).
    fn flat_mut(&mut self) -> (r: &mut [T])
        requires
            old(self).flattened().len() <= usize::MAX,
        ensures
            r@ == old(self).flattened(),
            final(r)@ == final(self).flattened(),
    ;
}

/// Views a flat slice as a slice of groups.
///
/// Available on `[T]` for every `T`. The group type `V` is often inferred;
/// otherwise name it: `.nest::<[_; 3]>()`. The group size must not be zero and
/// must divide the length of the slice (see `validate_nest_assumptions`).
pub trait SliceNestExt<T> {
    /// The elements of the flat slice.
    spec fn nest_source(&self) -> Seq<T>;

    /// Views `&[T]` as `&[[T; n]]` without copying.
    fn nest<V: IsSliceomorphic<Element = T>>(&self) -> (r: &[V])
        requires
            V::LEN != 0,
            self.nest_source().len() % (V::LEN as nat) == 0,
        ensures
            is_grouping(self.nest_source(), r@),
    ;

    /// Views `&mut [T]` as `&mut [[T; n]]` without copying; writes through the
    /// result land in the flat slice.
    fn nest_mut<V: IsSliceomorphic<Element = T>>(&mut self) -> (r: &mut [V])
        requires
            V::LEN != 0,
            old(self).nest_source().len() % (V::LEN as nat) == 0,
        ensures
            is_grouping(old(self).nest_source(), r@),
            is_grouping(final(self).nest_source(), final(r)@),
    ;
}

/// Views a flat slice of exactly `n` elements as one group of `n`.
///
/// Available on `[T]` for every `T`. The length of the slice must equal the
/// group size (see `validate_as_array_assumptions`); a group size of zero is
/// allowed only for an empty slice.
pub trait SliceArrayExt<T> {
    /// The elements of the flat slice.
    spec fn array_source(&self) -> Seq<T>;

    /// Views `&[T]` as `&[T; n]`.
    fn as_array<V: IsSliceomorphic<Element = T>>(&self) -> (r: &V)
        requires
            self.array_source().len() == V::LEN,
        ensures
            r.elements() == self.array_source(),
    ;

    /// Views `&mut [T]` as `&mut [T; n]`; writes through the result land in
    /// the flat slice.
    fn as_mut_array<V: IsSliceomorphic<Element = T>>(&mut self) -> (r: &mut V)
        requires
            old(self).array_source().len() == V::LEN,
        ensures
            r.elements() == old(self).array_source(),
            final(r).elements() == final(self).array_source(),
    ;

    /// Clones `&[T]` into an owned `[T; n]`: a clone of the group that
    /// `as_array` views.
    fn to_array<V: IsSliceomorphic<Element = T>>(&self) -> (r: V) where V: Clone
        requires
            self.array_source().len() == V::LEN,
        ensures
            exists|g: V| g.elements() == self.array_source() && cloned(g, r),
    {
        self.as_array::<V>().clone()
    }
}

impl<V: IsSliceomorphic> SliceFlatExt<V::Element> for [V] {
    open spec fn flattened(&self) -> Seq<V::Element> {
        flatten(self@)
    }

    fn flat(&self) -> (r: &[V::Element])
        ensures
            r@.len() == self@.len() * V::LEN,
            is_grouping(r@, self@),
    {
        proof {
            lemma_flatten_is_grouping(self@);
        }
        V::flatten_slice(self)
    }

    fn flat_mut(&mut self) -> (r: &mut [V::Element])
        ensures
            r@.len() == old(self)@.len() * V::LEN,
            is_grouping(r@, old(self)@),
            final(self)@.len() == old(self)@.len(),
            is_grouping(final(r)@, final(self)@),
    {
        proof {
            lemma_flatten_is_grouping(old(self)@);
            lemma_flatten_is_grouping(final(self)@);
        }
        V::flatten_slice_mut(self)
    }
}

impl<T> SliceNestExt<T> for [T] {
    open spec fn nest_source(&self) -> Seq<T> {
        self@
    }

    fn nest<V: IsSliceomorphic<Element = T>>(&self) -> (r: &[V])
        ensures
            r@.len() == self@.len() / (V::LEN as nat),
    {
        let r = V::group_slice(self);
        proof {
            lemma_groups_cover::<V>(self@.len() as int, r@.len() as int);
        }
        r
    }

    fn nest_mut<V: IsSliceomorphic<Element = T>>(&mut self) -> (r: &mut [V])
        ensures
            r@.len() == old(self)@.len() / (V::LEN as nat),
            final(self)@.len() == old(self)@.len(),
    {
        proof {
            let len = old(self)@.len() as int;
            lemma_groups_cover::<V>(len, len / (V::LEN as int));
        }
        V::group_slice_mut(self)
    }
}

impl<T> SliceArrayExt<T> for [T] {
    open spec fn array_source(&self) -> Seq<T> {
        self@
    }

    fn as_array<V: IsSliceomorphic<Element = T>>(&self) -> (r: &V) {
        V::from_exact(self)
    }

    fn as_mut_array<V: IsSliceomorphic<Element = T>>(&mut self) -> (r: &mut V) {
        V::from_exact_mut(self)
    }
}

/// Cutting `len` elements into `len / LEN` groups of `LEN` leaves nothing over
/// when `LEN` divides `len`.
proof fn lemma_groups_cover<V: IsSliceomorphic>(len: int, count: int)
    requires
        V::LEN != 0,
        len >= 0,
        len % (V::LEN as int) == 0,
        count == len / (V::LEN as int),
    ensures
        count * V::LEN == len,
{
    vstd::arithmetic::div_mod::lemma_fundamental_div_mod(len, V::LEN as int);
    assert(count * V::LEN == len) by (nonlinear_arith)
        requires
            len == (V::LEN as int) * (len / (V::LEN as int)) + len % (V::LEN as int),
            len % (V::LEN as int) == 0,
            count == len / (V::LEN as int),
    ;
}

} // verus!
