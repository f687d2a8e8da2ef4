//! The capability of a type to stand for a fixed run of elements, and its
//! implementation for arrays on top of std's safe slice conversions.
use vstd::prelude::*;

verus! {

/// Capability of a type that stands for exactly `LEN` consecutive values of
/// `Element`, so that a run of such values and a run of `LEN` times as many
/// elements are two views of the same data.
///
/// `elements` is the abstract content of one group. The conversions between
/// runs of groups and runs of elements are part of the capability: each
/// implementation supplies them, and each states in its contract that it keeps
/// the elements, their order and their number.
///
/// Every fixed-size array `[T; N]` has this capability. A layout-compatible
/// wrapper type may opt in by implementing it, and must then prove the same
/// contracts.
pub trait IsSliceomorphic: Sized {
    type Element;

    /// Number of elements in one group.
    const LEN: usize;

    /// The elements held by one group, in order.
    spec fn elements(&self) -> Seq<Self::Element>;

    /// A group holds exactly `LEN` elements.
    proof fn lemma_elements_len(&self)
        ensures
            self.elements().len() == Self::LEN,
    ;

    /// A group is determined by its elements.
    proof fn lemma_elements_injective(a: &Self, b: &Self)
        requires
            a.elements() == b.elements(),
        ensures
            *a == *b,
    ;

    /// Views a run of groups as the run of their elements, in order. The
    /// number of elements must fit in a `usize`.
    fn flatten_slice(groups: &[Self]) -> (r: &[Self::Element])
        requires
            groups@.len() * Self::LEN <= usize::MAX,
        ensures
            r@ == groups@.map_values(|g: Self| g.elements()).flatten(),
    ;

    /// Views a run of groups, held exclusively, as the run of their elements.
    /// Writes through the result land in the groups. The number of elements
    /// must fit in a `usize`.
    fn flatten_slice_mut(groups: &mut [Self]) -> (r: &mut [Self::Element])
        requires
            old(groups)@.len() * Self::LEN <= usize::MAX,
        ensures
            r@ == old(groups)@.map_values(|g: Self| g.elements()).flatten(),
            final(groups)@.len() == old(groups)@.len(),
            final(r)@ == final(groups)@.map_values(|g: Self| g.elements()).flatten(),
    ;

    /// Views a run of elements as consecutive groups of `LEN`.
    fn group_slice(flat: &[Self::Element]) -> (r: &[Self])
        requires
            Self::LEN != 0,
            flat@.len() % (Self::LEN as nat) == 0,
        ensures
            r@.len() == flat@.len() / (Self::LEN as nat),
            forall|i: int|
                0 <= i < r@.len() ==> (#[trigger] r@[i]).elements() == flat@.subrange(
                    i * Self::LEN,
                    i * Self::LEN + Self::LEN,
                ),
    ;

    /// Views a run of elements, held exclusively, as consecutive groups of
    /// `LEN`. Writes through the result land in the elements.
    fn group_slice_mut(flat: &mut [Self::Element]) -> (r: &mut [Self])
        requires
            Self::LEN != 0,
            old(flat)@.len() % (Self::LEN as nat) == 0,
        ensures
            r@.len() == old(flat)@.len() / (Self::LEN as nat),
            forall|i: int|
                0 <= i < r@.len() ==> (#[trigger] r@[i]).elements() == old(flat)@.subrange(
                    i * Self::LEN,
                    i * Self::LEN + Self::LEN,
                ),
            final(r)@.len() == r@.len(),
            final(flat)@.len() == old(flat)@.len(),
            forall|i: int|
                0 <= i < final(r)@.len() ==> (#[trigger] final(r)@[i]).elements()
                    == final(flat)@.subrange(i * Self::LEN, i * Self::LEN + Self::LEN),
    ;

    /// Views a run of exactly `LEN` elements as one group.
    fn from_exact(flat: &[Self::Element]) -> (r: &Self)
        requires
            flat@.len() == Self::LEN,
        ensures
            r.elements() == flat@,
    ;

    /// Views a run of exactly `LEN` elements, held exclusively, as one group.
    /// Writes through the result land in the elements.
    fn from_exact_mut(flat: &mut [Self::Element]) -> (r: &mut Self)
        requires
            old(flat)@.len() == Self::LEN,
        ensures
            r.elements() == old(flat)@,
            final(flat)@ == final(r).elements(),
    ;
}

/// The elements of a run of arrays, in order.
pub open spec fn flatten_arrays<T, const N: usize>(groups: Seq<[T; N]>) -> Seq<T> {
    groups.map_values(|a: [T; N]| a@).flatten()
}

/// Relies on `<[[T; N]]>::as_flattened`: the same data as one slice of the
/// arrays' elements, in order (it panics when the number of elements
/// overflows `usize`, which only zero-sized `T` allows).
#[verifier::external_body]
fn arrays_as_flattened<T, const N: usize>(groups: &[[T; N]]) -> (r: &[T])
    requires
        groups@.len() * N <= usize::MAX,
    ensures
        r@ == flatten_arrays(groups@),
{
    groups.as_flattened()
}

/// Relies on `<[[T; N]]>::as_flattened_mut`: the same data as one mutable
/// slice of the arrays' elements, in order (it panics when the number of
/// elements overflows `usize`, which only zero-sized `T` allows).
#[verifier::external_body]
fn arrays_as_flattened_mut<T, const N: usize>(groups: &mut [[T; N]]) -> (r: &mut [T])
    requires
        old(groups)@.len() * N <= usize::MAX,
    ensures
        r@ == flatten_arrays(old(groups)@),
        final(groups)@.len() == old(groups)@.len(),
        final(r)@ == flatten_arrays(final(groups)@),
{
    groups.as_flattened_mut()
}

/// Relies on `<[T]>::as_chunks`: the slice split from its start into arrays of
/// `N` elements (it panics for `N == 0`; the remainder is empty here).
#[verifier::external_body]
fn slice_as_chunks<T, const N: usize>(flat: &[T]) -> (r: &[[T; N]])
    requires
        N != 0,
        flat@.len() % (N as nat) == 0,
    ensures
        r@.len() == flat@.len() / (N as nat),
        forall|i: int|
            0 <= i < r@.len() ==> (#[trigger] r@[i])@ == flat@.subrange(i * N, i * N + N),
{
    flat.as_chunks::<N>().0
}

/// Relies on `<[T]>::as_chunks_mut`: the mutable slice split from its start
/// into arrays of `N` elements (it panics for `N == 0`; the remainder is empty
/// here).
#[verifier::external_body]
fn slice_as_chunks_mut<T, const N: usize>(flat: &mut [T]) -> (r: &mut [[T; N]])
    requires
        N != 0,
        old(flat)@.len() % (N as nat) == 0,
    ensures
        r@.len() == old(flat)@.len() / (N as nat),
        forall|i: int|
            0 <= i < r@.len() ==> (#[trigger] r@[i])@ == old(flat)@.subrange(i * N, i * N + N),
        final(r)@.len() == r@.len(),
        final(flat)@.len() == old(flat)@.len(),
        forall|i: int|
            0 <= i < final(r)@.len() ==> (#[trigger] final(r)@[i])@ == final(flat)@.subrange(
                i * N,
                i * N + N,
            ),
{
    flat.as_chunks_mut::<N>().0
}

/// Relies on `<&[T; N] as TryFrom<&[T]>>::try_from`: succeeds exactly when the
/// slice has `N` elements, and then views the same elements.
#[verifier::external_body]
fn slice_to_array_ref<T, const N: usize>(flat: &[T]) -> (r: Option<&[T; N]>)
    ensures
        r is Some <==> flat@.len() == N,
        r is Some ==> r.unwrap()@ == flat@,
{
    <&[T; N]>::try_from(flat).ok()
}

/// Relies on `<&mut [T; N] as TryFrom<&mut [T]>>::try_from`: succeeds exactly
/// when the slice has `N` elements, and then views the same elements.
#[verifier::external_body]
fn slice_to_array_mut<T, const N: usize>(flat: &mut [T]) -> (r: Option<&mut [T; N]>)
    ensures
        r is Some <==> old(flat)@.len() == N,
        r is Some ==> (*r.unwrap())@ == old(flat)@,
        r is Some ==> final(flat)@ == (*final(r.unwrap()))@,
{
    <&mut [T; N]>::try_from(flat).ok()
}

/// The group size of an array type is its length.
pub broadcast proof fn lemma_array_group_len<T, const N: usize>()
    ensures
        #[trigger] <[T; N] as IsSliceomorphic>::LEN == N,
{
}

impl<T, const N: usize> IsSliceomorphic for [T; N] {
    type Element = T;

    const LEN: usize = N;

    open spec fn elements(&self) -> Seq<T> {
        self@
    }

    proof fn lemma_elements_len(&self) {
    }

    proof fn lemma_elements_injective(a: &Self, b: &Self) {
        assert(a@ =~= b@);
    }

    fn flatten_slice(groups: &[Self]) -> (r: &[T]) {
        assert(groups@.map_values(|g: Self| g.elements()) =~= groups@.map_values(|a: [T; N]| a@));
        arrays_as_flattened(groups)
    }

    fn flatten_slice_mut(groups: &mut [Self]) -> (r: &mut [T]) {
        assert(old(groups)@.map_values(|g: Self| g.elements()) =~= old(groups)@.map_values(
            |a: [T; N]| a@,
        ));
        assert(final(groups)@.map_values(|g: Self| g.elements()) =~= final(groups)@.map_values(
            |a: [T; N]| a@,
        ));
        arrays_as_flattened_mut(groups)
    }

    fn group_slice(flat: &[T]) -> (r: &[Self]) {
        slice_as_chunks(flat)
    }

    fn group_slice_mut(flat: &mut [T]) -> (r: &mut [Self]) {
        slice_as_chunks_mut(flat)
    }

    fn from_exact(flat: &[T]) -> (r: &Self) {
        slice_to_array_ref(flat).unwrap()
    }

    fn from_exact_mut(flat: &mut [T]) -> (r: &mut Self) {
        slice_to_array_mut(flat).unwrap()
    }
}

} // verus!
