//! Wrapper types: the proof-carrying [`AssertInit`] for fully initialized
//! containers, and adapters that give ordinary containers the region
//! capability.

use vstd::prelude::*;

use crate::traits::Initialize;

verus! {

/// A wrapper over `T` that records that all of `T`'s region is initialized.
///
/// It carries no extra state: it is a capability upgrade, handed out by
/// [`crate::initializer::BufferInitializer::try_into_init`] once the
/// initialization cursor has reached the capacity, and unwrapped into the
/// underlying container with [`AssertInit::into_inner`].
///
/// Equality, ordering and hashing go by the wrapped container, whose
/// contents are exactly the initialized region.
#[derive(Clone, Copy, Debug, PartialEq, Eq, PartialOrd, Ord, Hash)]
pub struct AssertInit<T> {
    pub inner: T,
}

impl<T> AssertInit<T> {
    /// Wrap a container whose whole region is taken as initialized.
    ///
    /// Every slot of a container holds a value of the item type, so wrapping
    /// is always possible; the wrapper records the caller's claim that those
    /// values are all meaningful.
    pub fn new(inner: T) -> (r: Self)
        ensures
            r.inner == inner,
    {
        Self { inner }
    }

    /// The wrapped container, by shared reference.
    pub fn inner(&self) -> (r: &T)
        ensures
            *r == self.inner,
    {
        &self.inner
    }

    /// The wrapped container, by mutable reference.
    pub fn inner_mut(&mut self) -> (r: &mut T)
        ensures
            *r == old(self).inner,
            final(self).inner == *final(r),
    {
        &mut self.inner
    }

    /// Unwrap into the underlying container.
    pub fn into_inner(self) -> (r: T)
        ensures
            r == self.inner,
    {
        self.inner
    }
}

impl<T: Initialize> AssertInit<T> {
    /// The contents of the wrapped region.
    pub open spec fn region(&self) -> Seq<T::Item> {
        self.inner.region()
    }

    /// Borrow the initialized contents as a slice of items.
    pub fn get_init_ref(&self) -> (s: &[T::Item])
        ensures
            s@ == self.region(),
    {
        self.inner.as_region()
    }

    /// Borrow the initialized contents mutably, as a slice of items.
    pub fn get_init_mut(&mut self) -> (s: &mut [T::Item])
        ensures
            s@ == old(self).region(),
            final(self).region() == final(s)@,
    {
        self.inner.as_region_mut()
    }

    /// Borrow the region view of the wrapped container, the same slice that
    /// [`AssertInit::get_init_ref`] returns.
    pub fn get_uninit_ref(&self) -> (s: &[T::Item])
        ensures
            s@ == self.region(),
    {
        self.inner.as_region()
    }
}

impl<T: Initialize> core::ops::Deref for AssertInit<T> {
    type Target = [T::Item];

    /// Dereference to the initialized contents, as
    /// [`AssertInit::get_init_ref`] does.
    fn deref(&self) -> (r: &[T::Item])
        ensures
            r@ == self.region(),
    {
        self.inner.as_region()
    }
}

/// An extension for any region-bearing container: wrap it directly in
/// [`AssertInit`], taking its whole region as initialized.
pub trait InitializeExt: Initialize {
    /// Wrap this container in [`AssertInit`], the equivalent of calling
    /// [`AssertInit::new`].
    fn into_asserted(self) -> (r: AssertInit<Self>)
        ensures
            r.inner == self,
    ;
}

impl<T: Initialize> InitializeExt for T {
    fn into_asserted(self) -> (r: AssertInit<Self>) {
        AssertInit::new(self)
    }
}

/// A wrapper over a scatter-gather list `I` that records that every region
/// in the list is fully initialized.
pub struct AssertInitVectors<I> {
    pub inner: I,
}

impl<I> AssertInitVectors<I> {
    /// Wrap a list of regions, all of whose contents are taken as
    /// initialized.
    pub fn new(inner: I) -> (r: Self)
        ensures
            r.inner == inner,
    {
        Self { inner }
    }

    /// Unwrap into the underlying list.
    pub fn into_inner(self) -> (r: I)
        ensures
            r == self.inner,
    {
        self.inner
    }
}

/// A wrapper that treats one contiguous container as a list with a single
/// element, for interfaces that work over sequences of regions.
#[derive(Clone, Copy, Debug, Default, Eq, Hash, Ord, PartialEq, PartialOrd)]
pub struct SingleVector<T>(pub T);

impl<T: Initialize> Initialize for SingleVector<T> {
    type Item = <T as Initialize>::Item;

    open spec fn region(&self) -> Seq<Self::Item> {
        self.0.region()
    }

    fn as_region(&self) -> (s: &[Self::Item]) {
        self.0.as_region()
    }

    fn as_region_mut(&mut self) -> (s: &mut [Self::Item]) {
        self.0.as_region_mut()
    }

    fn write(&mut self, i: usize, value: Self::Item) {
        self.0.write(i, value)
    }
}

/// An adapter that exposes an already-initialized growable container as a
/// region of items.
///
/// A container of plain items carries no record of which slots matter;
/// wrapping it keeps that distinction in the type while the tracker's
/// cursor supplies the record.
#[derive(Debug)]
pub struct AsUninit<T>(pub T);

impl<T> Initialize for AsUninit<Vec<T>> {
    type Item = T;

    open spec fn region(&self) -> Seq<T> {
        self.0@
    }

    fn as_region(&self) -> (s: &[T]) {
        self.0.as_slice()
    }

    fn as_region_mut(&mut self) -> (s: &mut [T]) {
        self.0.as_mut_slice()
    }

    fn write(&mut self, i: usize, value: T) {
        self.0[i] = value;
    }
}

} // verus!
