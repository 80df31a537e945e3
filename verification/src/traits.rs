//! Capability traits that let containers expose their backing storage as a
//! contiguous region of item slots.

use vstd::prelude::*;

verus! {

/// A capability for containers that expose their backing storage as one
/// contiguous region of items.
///
/// The spec function [`Initialize::region`] is the mathematical view of the
/// storage; every accessor is tied to it by its `ensures`, so a conforming
/// container necessarily returns a view of the same contents, with the same
/// length, on every call. The region's length is fixed: no operation of this
/// crate changes it, and [`Initialize::write`] must keep it.
///
/// Slots beyond whatever cursor a tracker maintains hold values about which
/// the tracker promises nothing; the trait itself draws no line between
/// meaningful and junk contents.
pub trait Initialize: Sized {
    type Item;

    /// The contents of the backing region, as a sequence of its items.
    spec fn region(&self) -> Seq<Self::Item>;

    /// Borrow the whole region immutably.
    fn as_region(&self) -> (s: &[Self::Item])
        ensures
            s@ == self.region(),
    ;

    /// Borrow the whole region mutably.
    fn as_region_mut(&mut self) -> (s: &mut [Self::Item])
        ensures
            s@ == old(self).region(),
            final(self).region() == final(s)@,
    ;

    /// Overwrite the slot at index `i` with `value`.
    fn write(&mut self, i: usize, value: Self::Item)
        requires
            i < old(self).region().len(),
        ensures
            final(self).region() == old(self).region().update(i as int, value),
    ;
}

/// The same capability for containers whose elements are themselves
/// initializable regions: scatter-gather lists.
///
/// As with [`Initialize`], the accessors are tied to the spec function
/// [`InitializeVectored::vectors`], so the element count and the per-element
/// identity are the same on every call.
pub trait InitializeVectored: Sized {
    /// The possibly uninitialized vector type, itself a region.
    type UninitVector: Initialize;

    /// The list of regions, as a sequence.
    spec fn vectors(&self) -> Seq<Self::UninitVector>;

    /// Borrow all the vectors immutably.
    fn as_vectors(&self) -> (s: &[Self::UninitVector])
        ensures
            s@ == self.vectors(),
    ;

    /// Borrow all the vectors mutably.
    fn as_vectors_mut(&mut self) -> (s: &mut [Self::UninitVector])
        ensures
            s@ == old(self).vectors(),
            final(self).vectors() == final(s)@,
    ;
}

impl<V: Initialize> InitializeVectored for Vec<V> {
    type UninitVector = V;

    open spec fn vectors(&self) -> Seq<V> {
        self@
    }

    fn as_vectors(&self) -> (s: &[V]) {
        self.as_slice()
    }

    fn as_vectors_mut(&mut self) -> (s: &mut [V]) {
        self.as_mut_slice()
    }
}

impl<T> Initialize for Vec<T> {
    type Item = T;

    open spec fn region(&self) -> Seq<T> {
        self@
    }

    fn as_region(&self) -> (s: &[T]) {
        self.as_slice()
    }

    fn as_region_mut(&mut self) -> (s: &mut [T]) {
        self.as_mut_slice()
    }

    fn write(&mut self, i: usize, value: T) {
        self[i] = value;
    }
}

impl<'a, T> Initialize for &'a mut [T] {
    type Item = T;

    open spec fn region(&self) -> Seq<T> {
        (**self)@
    }

    fn as_region(&self) -> (s: &[T]) {
        &**self
    }

    fn as_region_mut(&mut self) -> (s: &mut [T]) {
        &mut **self
    }

    fn write(&mut self, i: usize, value: T) {
        (**self)[i] = value;
    }
}

impl<T, const N: usize> Initialize for [T; N] {
    type Item = T;

    open spec fn region(&self) -> Seq<T> {
        self@
    }

    fn as_region(&self) -> (s: &[T]) {
        self.as_slice()
    }

    fn as_region_mut(&mut self) -> (s: &mut [T]) {
        vstd::array::ref_mut_array_unsizing_coercion(self)
    }

    fn write(&mut self, i: usize, value: T) {
        self[i] = value;
    }
}

} // verus!
