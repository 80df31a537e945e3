//! The initialization tracker: one container plus a cursor recording how many
//! of its leading slots hold meaningful values.

use vstd::prelude::*;

use crate::traits::Initialize;
use crate::wrappers::AssertInit;

verus! {

/// Wraps a region-bearing container together with an `items_initialized`
/// cursor. The invariant [`BufferInitializer::wf`] says the cursor never
/// exceeds the capacity; slots before the cursor hold meaningful values,
/// slots at or past it carry no guarantee about their contents.
///
/// The cursor only grows, except through [`BufferInitializer::uninit`], which
/// starts a fresh tracker at zero.
#[derive(Debug)]
pub struct BufferInitializer<T> {
    pub inner: T,
    pub items_initialized: usize,
}

impl<T: Initialize> BufferInitializer<T> {
    /// The contents of the whole backing region.
    pub open spec fn region(&self) -> Seq<T::Item> {
        self.inner.region()
    }

    /// The fixed capacity of the backing region.
    pub open spec fn spec_capacity(&self) -> nat {
        self.region().len()
    }

    /// The initialization cursor, as a mathematical value.
    pub open spec fn spec_initialized(&self) -> nat {
        self.items_initialized as nat
    }

    /// Well-formedness: the cursor stays within the capacity.
    pub open spec fn wf(&self) -> bool {
        self.spec_initialized() <= self.spec_capacity()
    }

    /// The initialized prefix of the region.
    pub open spec fn init_seq(&self) -> Seq<T::Item> {
        self.region().take(self.items_initialized as int)
    }

    /// The rest of the region, past the initialization cursor.
    pub open spec fn uninit_seq(&self) -> Seq<T::Item> {
        self.region().skip(self.items_initialized as int)
    }

    /// Wrap a container, tracking none of its slots as initialized.
    pub fn uninit(inner: T) -> (r: Self)
        ensures
            r.region() == inner.region(),
            r.spec_initialized() == 0,
            r.wf(),
    {
        Self { inner, items_initialized: 0 }
    }

    /// Wrap a container that is already fully initialized, placing the cursor
    /// at the capacity.
    pub fn new(inner: T) -> (r: Self)
        ensures
            r.region() == inner.region(),
            r.spec_initialized() == r.spec_capacity(),
            r.wf(),
    {
        let len = inner.as_region().len();
        Self { inner, items_initialized: len }
    }

    /// The region's length, which never changes for the tracker's lifetime.
    pub fn capacity(&self) -> (n: usize)
        ensures
            n == self.spec_capacity(),
    {
        self.inner.as_region().len()
    }

    /// How many leading slots hold meaningful values.
    pub fn items_initialized(&self) -> (n: usize)
        ensures
            n == self.spec_initialized(),
    {
        self.items_initialized
    }

    /// How many slots remain to be initialized.
    pub fn remaining(&self) -> (n: usize)
        requires
            self.wf(),
        ensures
            n == self.spec_capacity() - self.spec_initialized(),
    {
        self.capacity() - self.items_initialized
    }

    /// Whether every slot is initialized.
    pub fn is_completely_init(&self) -> (r: bool)
        requires
            self.wf(),
        ensures
            r == (self.spec_initialized() == self.spec_capacity()),
    {
        self.items_initialized == self.capacity()
    }

    /// Whether no slot is initialized.
    pub fn is_completely_uninit(&self) -> (r: bool)
        ensures
            r == (self.spec_initialized() == 0),
    {
        self.items_initialized == 0
    }

    /// Borrow the initialized prefix.
    pub fn init_part(&self) -> (s: &[T::Item])
        requires
            self.wf(),
        ensures
            s@ == self.init_seq(),
    {
        let all = self.inner.as_region();
        &all[0..self.items_initialized]
    }

    /// Borrow the rest of the region, past the initialization cursor; its
    /// contents carry no guarantee.
    pub fn uninit_part(&self) -> (s: &[T::Item])
        requires
            self.wf(),
        ensures
            s@ == self.uninit_seq(),
    {
        let all = self.inner.as_region();
        &all[self.items_initialized..all.len()]
    }

    /// Borrow the initialized prefix and the uninitialized rest at once.
    pub fn init_uninit_parts(&self) -> (parts: (&[T::Item], &[T::Item]))
        requires
            self.wf(),
        ensures
            parts.0@ == self.init_seq(),
            parts.1@ == self.uninit_seq(),
    {
        let all = self.inner.as_region();
        let (init, uninit) = all.split_at(self.items_initialized);
        (init, uninit)
    }

    /// Borrow the initialized prefix mutably. Writing ordinary values through
    /// it cannot disturb the cursor, so this is unrestricted.
    pub fn init_part_mut(&mut self) -> (s: &mut [T::Item])
        requires
            old(self).wf(),
        ensures
            s@ == old(self).init_seq(),
            final(self).region() == final(s)@ + old(self).uninit_seq(),
            final(self).items_initialized == old(self).items_initialized,
    {
        let all = self.inner.as_region_mut();
        let (init, _uninit) = all.split_at_mut(self.items_initialized);
        init
    }

    /// Borrow the uninitialized rest mutably. Writing values here is how new
    /// data enters the region, though the cursor moves only through the
    /// explicit advancing operations.
    pub fn uninit_part_mut(&mut self) -> (s: &mut [T::Item])
        requires
            old(self).wf(),
        ensures
            s@ == old(self).uninit_seq(),
            final(self).region() == old(self).init_seq() + final(s)@,
            final(self).items_initialized == old(self).items_initialized,
    {
        let all = self.inner.as_region_mut();
        let (_init, uninit) = all.split_at_mut(self.items_initialized);
        uninit
    }

    /// Borrow both the initialized prefix and the uninitialized rest,
    /// mutably and disjointly.
    pub fn init_uninit_parts_mut(&mut self) -> (parts: (&mut [T::Item], &mut [T::Item]))
        requires
            old(self).wf(),
        ensures
            parts.0@ == old(self).init_seq(),
            parts.1@ == old(self).uninit_seq(),
            final(self).region() == final(parts.0)@ + final(parts.1)@,
            final(self).items_initialized == old(self).items_initialized,
    {
        let all = self.inner.as_region_mut();
        let (init, uninit) = all.split_at_mut(self.items_initialized);
        (init, uninit)
    }

    /// Write `value` into the next `count` uninitialized slots and advance
    /// the cursor past them. Never initializes fewer slots than requested:
    /// the bound on `count` is a precondition.
    pub fn partially_fill_uninit_part(&mut self, count: usize, value: T::Item) where
        T::Item: Copy,

        requires
            old(self).wf(),
            count <= old(self).spec_capacity() - old(self).spec_initialized(),
        ensures
            final(self).wf(),
            final(self).spec_initialized() == old(self).spec_initialized() + count,
            final(self).region() == old(self).region().take(
                old(self).items_initialized as int,
            ) + Seq::new(count as nat, |i: int| value) + old(self).region().skip(
                old(self).items_initialized + count,
            ),
    {
        let cap = self.capacity();
        let start = self.items_initialized;
        let mut i: usize = 0;
        while i < count
            invariant
                start == old(self).items_initialized,
                i <= count,
                start + count <= cap,
                cap == old(self).spec_capacity(),
                self.items_initialized == start,
                self.region().len() == old(self).region().len(),
                forall|j: int|
                    0 <= j < self.region().len() && !(start <= j < start + i)
                        ==> self.region()[j] == old(self).region()[j],
                forall|j: int| start <= j < start + i ==> self.region()[j] == value,
            decreases count - i,
        {
            self.inner.write(start + i, value);
            i += 1;
        }
        self.items_initialized = start + count;
        proof {
            assert(final(self).region() =~= old(self).region().take(
                old(self).items_initialized as int,
            ) + Seq::new(count as nat, |i: int| value) + old(self).region().skip(
                old(self).items_initialized + count,
            ));
        }
    }

    /// Move the cursor to the end of the region without writing anything,
    /// for containers whose contents are already known to be meaningful.
    pub fn advance_to_end(&mut self)
        ensures
            final(self).region() == old(self).region(),
            final(self).spec_initialized() == final(self).spec_capacity(),
            final(self).wf(),
    {
        self.items_initialized = self.capacity();
    }

    /// Consume the tracker. Yields the fully initialized container exactly
    /// when the cursor has reached the capacity; otherwise hands the tracker
    /// back unchanged, so no progress is lost.
    pub fn try_into_init(self) -> (r: Result<AssertInit<T>, Self>)
        requires
            self.wf(),
        ensures
            r is Ok <==> self.spec_initialized() == self.spec_capacity(),
            (r matches Ok(a) ==> a.inner == self.inner),
            (r matches Err(b) ==> b == self),
    {
        if self.items_initialized == self.capacity() {
            Ok(AssertInit::new(self.inner))
        } else {
            Err(self)
        }
    }

    /// Move out the inner container, losing the cursor.
    pub fn into_inner(self) -> (r: T)
        ensures
            r == self.inner,
    {
        self.inner
    }
}

impl<T: Initialize<Item = u8>> BufferInitializer<T> {
    /// Write zero into the next `count` uninitialized slots and advance the
    /// cursor past them.
    pub fn partially_zero_uninit_part(&mut self, count: usize)
        requires
            old(self).wf(),
            count <= old(self).spec_capacity() - old(self).spec_initialized(),
        ensures
            final(self).wf(),
            final(self).spec_initialized() == old(self).spec_initialized() + count,
            final(self).region() == old(self).region().take(
                old(self).items_initialized as int,
            ) + Seq::new(count as nat, |i: int| 0u8) + old(self).region().skip(
                old(self).items_initialized + count,
            ),
    {
        self.partially_fill_uninit_part(count, 0u8)
    }
}

} // verus!
