//! The buffer: an initialization tracker plus a "filled" cursor recording how
//! much of the initialized region the consumer has committed.

use vstd::prelude::*;

use vstd::string::StringExecFns;

use crate::initializer::BufferInitializer;
use crate::summary::append_decimal;
use crate::summary::append_percent;
use crate::summary::spec_counts_detailed_text;
use crate::summary::spec_counts_text;
use crate::traits::Initialize;
use crate::wrappers::AssertInit;
use crate::wrappers::AsUninit;

verus! {

/// A region-bearing container wrapped with two cursors: `items_filled` below,
/// and the tracker's `items_initialized` above, with
/// `items_filled <= items_initialized <= capacity` in every reachable state.
///
/// "Filled" means a higher-level protocol considers the data logically
/// present (say, bytes actually read so far); "initialized" only means the
/// slot holds a meaningful value. Every operation either keeps or grows the
/// cursors, except [`Buffer::revert_to_start`], which moves the filled cursor
/// back to zero while the initialized region stays readable.
pub struct Buffer<T> {
    pub initializer: BufferInitializer<T>,
    pub items_filled: usize,
}

impl<T: Initialize> Buffer<T> {
    /// The contents of the whole backing region.
    pub open spec fn region(&self) -> Seq<T::Item> {
        self.initializer.region()
    }

    /// The fixed capacity of the backing region.
    pub open spec fn spec_capacity(&self) -> nat {
        self.region().len()
    }

    /// The filled cursor, as a mathematical value.
    pub open spec fn spec_filled(&self) -> nat {
        self.items_filled as nat
    }

    /// The initialization cursor, as a mathematical value.
    pub open spec fn spec_initialized(&self) -> nat {
        self.initializer.spec_initialized()
    }

    /// Well-formedness: `filled <= initialized <= capacity`.
    pub open spec fn wf(&self) -> bool {
        &&& self.spec_filled() <= self.spec_initialized()
        &&& self.initializer.wf()
    }

    /// The filled prefix of the region.
    pub open spec fn filled_seq(&self) -> Seq<T::Item> {
        self.region().take(self.items_filled as int)
    }

    /// Everything past the filled cursor, initialized or not.
    pub open spec fn unfilled_seq(&self) -> Seq<T::Item> {
        self.region().skip(self.items_filled as int)
    }

    /// The initialized part of the unfilled region.
    pub open spec fn unfilled_init_seq(&self) -> Seq<T::Item> {
        self.region().subrange(
            self.items_filled as int,
            self.initializer.items_initialized as int,
        )
    }

    /// The part of the region past the initialization cursor; its contents
    /// carry no guarantee.
    pub open spec fn unfilled_uninit_seq(&self) -> Seq<T::Item> {
        self.initializer.uninit_seq()
    }
}

impl<T: Initialize> Buffer<T> {
    /// Wrap a tracker, with nothing filled yet.
    pub fn from_initializer(initializer: BufferInitializer<T>) -> (r: Self)
        requires
            initializer.wf(),
        ensures
            r.initializer == initializer,
            r.spec_filled() == 0,
            r.wf(),
    {
        Self { initializer, items_filled: 0 }
    }

    /// Wrap a container, with nothing tracked as initialized nor filled.
    pub fn uninit(inner: T) -> (r: Self)
        ensures
            r.region() == inner.region(),
            r.spec_filled() == 0,
            r.spec_initialized() == 0,
            r.wf(),
    {
        Self::from_initializer(BufferInitializer::uninit(inner))
    }

    /// Move out the tracker and the filled cursor.
    pub fn into_raw_parts(self) -> (r: (BufferInitializer<T>, usize))
        ensures
            r.0 == self.initializer,
            r.1 == self.items_filled,
    {
        let Self { initializer, items_filled } = self;
        (initializer, items_filled)
    }

    /// Move out the tracker, which holds the container and the
    /// initialization cursor.
    pub fn into_initializer(self) -> (r: BufferInitializer<T>)
        ensures
            r == self.initializer,
    {
        self.initializer
    }

    /// Move out the inner container, losing both cursors.
    pub fn into_inner(self) -> (r: T)
        ensures
            r == self.initializer.inner,
    {
        self.into_initializer().into_inner()
    }

    /// How many items are filled. Distinct from the number of initialized
    /// items, which [`BufferInitializer::items_initialized`] reports.
    pub fn items_filled(&self) -> (n: usize)
        ensures
            n == self.spec_filled(),
    {
        self.items_filled
    }

    /// Hand out a restricted borrow of this buffer, for passive writers.
    pub fn by_ref(&mut self) -> (r: BufferRef<'_, T>)
        ensures
            *r.inner == *old(self),
            *final(self) == *final(r.inner),
    {
        BufferRef { inner: self }
    }

    /// Borrow the tracker.
    pub fn initializer(&self) -> (r: &BufferInitializer<T>)
        ensures
            *r == self.initializer,
    {
        &self.initializer
    }

    /// Borrow the tracker mutably.
    pub fn initializer_mut(&mut self) -> (r: &mut BufferInitializer<T>)
        ensures
            *r == old(self).initializer,
            final(self).initializer == *final(r),
            final(self).items_filled == old(self).items_filled,
    {
        &mut self.initializer
    }

    /// The region's length, fixed for the buffer's lifetime.
    pub fn capacity(&self) -> (n: usize)
        ensures
            n == self.spec_capacity(),
    {
        self.initializer.capacity()
    }

    /// How many items may be filled before the buffer is full.
    pub fn remaining(&self) -> (n: usize)
        requires
            self.wf(),
        ensures
            n == self.spec_capacity() - self.spec_filled(),
    {
        self.capacity() - self.items_filled
    }

    /// Whether the buffer is completely filled, and thus also initialized.
    pub fn is_full(&self) -> (r: bool)
        requires
            self.wf(),
        ensures
            r == (self.spec_filled() == self.spec_capacity()),
    {
        self.items_filled == self.capacity()
    }

    /// Whether nothing is filled. The region may still be partially or fully
    /// initialized.
    pub fn is_empty(&self) -> (r: bool)
        ensures
            r == (self.spec_filled() == 0),
    {
        self.items_filled == 0
    }

    /// Move the filled cursor back to zero. The initialized region is
    /// untouched: data filled before stays readable through the
    /// unfilled-but-initialized accessors until overwritten.
    pub fn revert_to_start(&mut self)
        requires
            old(self).wf(),
        ensures
            final(self).region() == old(self).region(),
            final(self).spec_filled() == 0,
            final(self).spec_initialized() == old(self).spec_initialized(),
            final(self).wf(),
    {
        self.items_filled = 0;
    }

    /// Move the filled cursor forward over `count` already-initialized
    /// items. The bound on `count` is a precondition: filling may never
    /// outrun initialization.
    pub fn advance(&mut self, count: usize)
        requires
            old(self).wf(),
            count <= old(self).spec_initialized() - old(self).spec_filled(),
        ensures
            final(self).region() == old(self).region(),
            final(self).spec_filled() == old(self).spec_filled() + count,
            final(self).spec_initialized() == old(self).spec_initialized(),
            final(self).wf(),
    {
        self.items_filled = self.items_filled + count;
    }

    /// Move the filled cursor up to the initialization cursor.
    pub fn advance_to_init_part(&mut self)
        requires
            old(self).wf(),
        ensures
            final(self).region() == old(self).region(),
            final(self).spec_filled() == old(self).spec_initialized(),
            final(self).spec_initialized() == old(self).spec_initialized(),
            final(self).wf(),
    {
        self.items_filled = self.initializer.items_initialized;
    }

    /// Move the filled cursor forward by `count`, and raise the
    /// initialization cursor to at least the new filled value. This is the
    /// bookkeeping step for data written through the raw unfilled accessors.
    pub fn advance_init(&mut self, count: usize)
        requires
            old(self).wf(),
            old(self).spec_filled() + count <= old(self).spec_capacity(),
        ensures
            final(self).region() == old(self).region(),
            final(self).spec_filled() == old(self).spec_filled() + count,
            final(self).spec_initialized() == (if old(self).spec_filled() + count
                > old(self).spec_initialized() {
                old(self).spec_filled() + count
            } else {
                old(self).spec_initialized() as int
            }),
            final(self).wf(),
    {
        let _cap = self.capacity();
        self.items_filled = self.items_filled + count;
        if self.items_filled > self.initializer.items_initialized {
            self.initializer.items_initialized = self.items_filled;
        }
    }

    /// Mark the whole region as filled and initialized, without writing.
    pub fn advance_init_all(&mut self)
        ensures
            final(self).region() == old(self).region(),
            final(self).spec_filled() == final(self).spec_capacity(),
            final(self).spec_initialized() == final(self).spec_capacity(),
            final(self).wf(),
    {
        let cap = self.capacity();
        self.items_filled = cap;
        self.initializer.items_initialized = cap;
    }
}

impl<T> Buffer<AsUninit<Vec<T>>> {
    /// Wrap an already-initialized growable container: both cursors start at
    /// the capacity.
    pub fn new(init: Vec<T>) -> (r: Self)
        ensures
            r.region() == init@,
            r.spec_filled() == r.spec_capacity(),
            r.spec_initialized() == r.spec_capacity(),
            r.wf(),
    {
        let initializer = BufferInitializer::new(AsUninit(init));
        let cap = initializer.capacity();
        Self { initializer, items_filled: cap }
    }
}

/// The three-way partition of a buffer's region, borrowed immutably:
/// the filled prefix, the initialized-but-unfilled middle, and the
/// uninitialized rest, whose contents carry no guarantee.
#[derive(Clone, Copy, Debug)]
pub struct BufferParts<'a, I> {
    pub filled_part: &'a [I],
    pub unfilled_init_part: &'a [I],
    pub unfilled_uninit_part: &'a [I],
}

/// The three-way partition of a buffer's region, borrowed mutably and
/// disjointly.
#[derive(Debug)]
pub struct BufferPartsMut<'a, I> {
    pub filled_part: &'a mut [I],
    pub unfilled_init_part: &'a mut [I],
    pub unfilled_uninit_part: &'a mut [I],
}

impl<T: Initialize> Buffer<T> {
    /// Borrow the filled part of the buffer.
    pub fn filled_part(&self) -> (s: &[T::Item])
        requires
            self.wf(),
        ensures
            s@ == self.filled_seq(),
    {
        let all = self.initializer.inner.as_region();
        &all[0..self.items_filled]
    }

    /// Borrow the unfilled part, whose tail past the initialization cursor
    /// carries no content guarantee.
    pub fn unfilled_part(&self) -> (s: &[T::Item])
        requires
            self.wf(),
        ensures
            s@ == self.unfilled_seq(),
    {
        let all = self.initializer.inner.as_region();
        &all[self.items_filled..all.len()]
    }

    /// Borrow the initialized part of the unfilled region, if there is any.
    pub fn unfilled_init_part(&self) -> (s: &[T::Item])
        requires
            self.wf(),
        ensures
            s@ == self.unfilled_init_seq(),
    {
        let all = self.initializer.inner.as_region();
        &all[self.items_filled..self.initializer.items_initialized]
    }

    /// Borrow the uninitialized part of the unfilled region; its contents
    /// carry no guarantee.
    pub fn unfilled_uninit_part(&self) -> (s: &[T::Item])
        requires
            self.wf(),
        ensures
            s@ == self.unfilled_uninit_seq(),
    {
        self.initializer.uninit_part()
    }

    /// Borrow both the filled and the unfilled parts.
    pub fn filled_unfilled_parts(&self) -> (parts: (&[T::Item], &[T::Item]))
        requires
            self.wf(),
        ensures
            parts.0@ == self.filled_seq(),
            parts.1@ == self.unfilled_seq(),
    {
        (self.filled_part(), self.unfilled_part())
    }

    /// Borrow the filled part, the unfilled-but-initialized part, and the
    /// unfilled-and-uninitialized part as one value.
    pub fn all_parts(&self) -> (parts: BufferParts<'_, T::Item>)
        requires
            self.wf(),
        ensures
            parts.filled_part@ == self.filled_seq(),
            parts.unfilled_init_part@ == self.unfilled_init_seq(),
            parts.unfilled_uninit_part@ == self.unfilled_uninit_seq(),
    {
        BufferParts {
            filled_part: self.filled_part(),
            unfilled_init_part: self.unfilled_init_part(),
            unfilled_uninit_part: self.unfilled_uninit_part(),
        }
    }

    /// Borrow the unfilled-but-initialized and unfilled-and-uninitialized
    /// parts, immutably.
    pub fn unfilled_parts(&mut self) -> (parts: (&[T::Item], &[T::Item]))
        requires
            old(self).wf(),
        ensures
            parts.0@ == old(self).unfilled_init_seq(),
            parts.1@ == old(self).unfilled_uninit_seq(),
            *final(self) == *old(self),
    {
        (self.unfilled_init_part(), self.unfilled_uninit_part())
    }

    /// Borrow the filled part mutably.
    pub fn filled_part_mut(&mut self) -> (s: &mut [T::Item])
        requires
            old(self).wf(),
        ensures
            s@ == old(self).filled_seq(),
            final(self).region() == final(s)@ + old(self).unfilled_seq(),
            final(self).items_filled == old(self).items_filled,
            final(self).initializer.items_initialized == old(
                self,
            ).initializer.items_initialized,
    {
        let all = self.initializer.inner.as_region_mut();
        let (filled, _rest) = all.split_at_mut(self.items_filled);
        filled
    }

    /// Borrow the unfilled part mutably. This region overlaps the
    /// initialized-but-unfilled zone, so writes here can replace data that
    /// is initialized but not yet filled; the cursors are untouched.
    pub fn unfilled_part_mut(&mut self) -> (s: &mut [T::Item])
        requires
            old(self).wf(),
        ensures
            s@ == old(self).unfilled_seq(),
            final(self).region() == old(self).filled_seq() + final(s)@,
            final(self).items_filled == old(self).items_filled,
            final(self).initializer.items_initialized == old(
                self,
            ).initializer.items_initialized,
    {
        let all = self.initializer.inner.as_region_mut();
        let (_filled, rest) = all.split_at_mut(self.items_filled);
        rest
    }

    /// Borrow the initialized part of the unfilled region mutably.
    pub fn unfilled_init_part_mut(&mut self) -> (s: &mut [T::Item])
        requires
            old(self).wf(),
        ensures
            s@ == old(self).unfilled_init_seq(),
            final(self).region() == old(self).filled_seq() + final(s)@ + old(
                self,
            ).unfilled_uninit_seq(),
            final(self).items_filled == old(self).items_filled,
            final(self).initializer.items_initialized == old(
                self,
            ).initializer.items_initialized,
    {
        let mid = self.initializer.items_initialized - self.items_filled;
        let all = self.initializer.inner.as_region_mut();
        let (_filled, rest) = all.split_at_mut(self.items_filled);
        let (init, _uninit) = rest.split_at_mut(mid);
        init
    }

    /// Borrow the uninitialized part of the unfilled region mutably; writing
    /// values here is how new data enters the buffer.
    pub fn unfilled_uninit_part_mut(&mut self) -> (s: &mut [T::Item])
        requires
            old(self).wf(),
        ensures
            s@ == old(self).unfilled_uninit_seq(),
            final(self).region() == old(self).region().take(
                old(self).initializer.items_initialized as int,
            ) + final(s)@,
            final(self).items_filled == old(self).items_filled,
            final(self).initializer.items_initialized == old(
                self,
            ).initializer.items_initialized,
    {
        self.initializer.uninit_part_mut()
    }

    /// Borrow both the filled and the unfilled parts, mutably and
    /// disjointly.
    pub fn filled_unfilled_parts_mut(&mut self) -> (parts: (&mut [T::Item], &mut [T::Item]))
        requires
            old(self).wf(),
        ensures
            parts.0@ == old(self).filled_seq(),
            parts.1@ == old(self).unfilled_seq(),
            final(self).region() == final(parts.0)@ + final(parts.1)@,
            final(self).items_filled == old(self).items_filled,
            final(self).initializer.items_initialized == old(
                self,
            ).initializer.items_initialized,
    {
        let all = self.initializer.inner.as_region_mut();
        let (filled, rest) = all.split_at_mut(self.items_filled);
        (filled, rest)
    }

    /// Borrow the unfilled-but-initialized and unfilled-and-uninitialized
    /// parts, mutably and disjointly.
    pub fn unfilled_parts_mut(&mut self) -> (parts: (&mut [T::Item], &mut [T::Item]))
        requires
            old(self).wf(),
        ensures
            parts.0@ == old(self).unfilled_init_seq(),
            parts.1@ == old(self).unfilled_uninit_seq(),
            final(self).region() == old(self).filled_seq() + final(parts.0)@
                + final(parts.1)@,
            final(self).items_filled == old(self).items_filled,
            final(self).initializer.items_initialized == old(
                self,
            ).initializer.items_initialized,
    {
        let mid = self.initializer.items_initialized - self.items_filled;
        let all = self.initializer.inner.as_region_mut();
        let (_filled, rest) = all.split_at_mut(self.items_filled);
        let (init, uninit) = rest.split_at_mut(mid);
        (init, uninit)
    }

    /// Borrow the three-way partition, mutably and disjointly, as one value.
    pub fn all_parts_mut(&mut self) -> (parts: BufferPartsMut<'_, T::Item>)
        requires
            old(self).wf(),
        ensures
            parts.filled_part@ == old(self).filled_seq(),
            parts.unfilled_init_part@ == old(self).unfilled_init_seq(),
            parts.unfilled_uninit_part@ == old(self).unfilled_uninit_seq(),
            final(self).region() == final(parts.filled_part)@
                + final(parts.unfilled_init_part)@
                + final(parts.unfilled_uninit_part)@,
            final(self).items_filled == old(self).items_filled,
            final(self).initializer.items_initialized == old(
                self,
            ).initializer.items_initialized,
    {
        let mid = self.initializer.items_initialized - self.items_filled;
        let all = self.initializer.inner.as_region_mut();
        let (filled, rest) = all.split_at_mut(self.items_filled);
        let (init, uninit) = rest.split_at_mut(mid);
        BufferPartsMut { filled_part: filled, unfilled_init_part: init, unfilled_uninit_part: uninit }
    }
}

impl<T: Initialize> Buffer<T> {
    /// Copy `slice` in at the unfilled boundary, then move both cursors past
    /// it. Data that was initialized but not filled is overwritten where the
    /// two regions overlap. The bound on the slice's length is a
    /// precondition: appending never writes fewer items than given.
    pub fn append(&mut self, slice: &[T::Item]) where T::Item: Copy
        requires
            old(self).wf(),
            slice@.len() <= old(self).spec_capacity() - old(self).spec_filled(),
        ensures
            final(self).wf(),
            final(self).spec_filled() == old(self).spec_filled() + slice@.len(),
            final(self).spec_initialized() == (if old(self).spec_filled() + slice@.len()
                > old(self).spec_initialized() {
                old(self).spec_filled() + slice@.len()
            } else {
                old(self).spec_initialized() as nat
            }),
            final(self).region() == old(self).filled_seq() + slice@ + old(
                self,
            ).region().skip(old(self).items_filled + slice@.len()),
            final(self).filled_seq() == old(self).filled_seq() + slice@,
    {
        let cap = self.capacity();
        let start = self.items_filled;
        let len = slice.len();
        let mut i: usize = 0;
        while i < len
            invariant
                start == old(self).items_filled,
                len == slice@.len(),
                i <= len,
                start + len <= cap,
                cap == old(self).spec_capacity(),
                self.items_filled == start,
                self.initializer.items_initialized == old(
                    self,
                ).initializer.items_initialized,
                self.region().len() == old(self).region().len(),
                forall|j: int|
                    0 <= j < self.region().len() && !(start <= j < start + i)
                        ==> self.region()[j] == old(self).region()[j],
                forall|j: int| 0 <= j < i ==> self.region()[start + j] == slice@[j],
            decreases len - i,
        {
            self.initializer.inner.write(start + i, slice[i]);
            i += 1;
        }
        self.items_filled = start + len;
        if self.items_filled > self.initializer.items_initialized {
            self.initializer.items_initialized = self.items_filled;
        }
        proof {
            assert(final(self).region() =~= old(self).filled_seq() + slice@ + old(
                self,
            ).region().skip(old(self).items_filled + slice@.len()));
            assert(final(self).filled_seq() =~= old(self).filled_seq() + slice@);
        }
    }

    /// Append `slice` if it fits in the remaining space, and say whether it
    /// did. When it does not fit, neither the cursors nor any slot of the
    /// region change.
    pub fn try_append(&mut self, slice: &[T::Item]) -> (r: bool) where T::Item: Copy
        requires
            old(self).wf(),
        ensures
            r == (slice@.len() <= old(self).spec_capacity() - old(self).spec_filled()),
            r ==> final(self).spec_filled() == old(self).spec_filled() + slice@.len()
                && final(self).filled_seq() == old(self).filled_seq() + slice@
                && final(self).region() == old(self).filled_seq() + slice@ + old(
                self,
            ).region().skip(old(self).items_filled + slice@.len()),
            !r ==> *final(self) == *old(self),
            final(self).wf(),
    {
        if slice.len() <= self.remaining() {
            self.append(slice);
            true
        } else {
            false
        }
    }

    /// Write `item` into every slot of the unfilled region and mark the
    /// whole buffer filled and initialized: the all-at-once opposite of
    /// incremental appending.
    pub fn fill_by_repeating(&mut self, item: T::Item) where T::Item: Copy
        requires
            old(self).wf(),
        ensures
            final(self).wf(),
            final(self).spec_filled() == final(self).spec_capacity(),
            final(self).spec_initialized() == final(self).spec_capacity(),
            final(self).region() == old(self).filled_seq() + Seq::new(
                (old(self).spec_capacity() - old(self).spec_filled()) as nat,
                |i: int| item,
            ),
    {
        let cap = self.capacity();
        let start = self.items_filled;
        let mut i: usize = start;
        while i < cap
            invariant
                start == old(self).items_filled,
                start <= i <= cap,
                cap == old(self).spec_capacity(),
                self.items_filled == start,
                self.initializer.items_initialized == old(
                    self,
                ).initializer.items_initialized,
                self.region().len() == old(self).region().len(),
                forall|j: int|
                    0 <= j < start ==> self.region()[j] == old(self).region()[j],
                forall|j: int| start <= j < i ==> self.region()[j] == item,
                forall|j: int|
                    i <= j < self.region().len()
                        ==> self.region()[j] == old(self).region()[j],
            decreases cap - i,
        {
            self.initializer.inner.write(i, item);
            i += 1;
        }
        self.items_filled = cap;
        self.initializer.items_initialized = cap;
        proof {
            assert(final(self).region() =~= old(self).filled_seq() + Seq::new(
                (old(self).spec_capacity() - old(self).spec_filled()) as nat,
                |i: int| item,
            ));
        }
    }
}

impl<T: Initialize<Item = u8>> Buffer<T> {
    /// Write zero into every slot of the unfilled region and mark the whole
    /// buffer filled and initialized.
    pub fn fill_by_zeroing(&mut self)
        requires
            old(self).wf(),
        ensures
            final(self).wf(),
            final(self).spec_filled() == final(self).spec_capacity(),
            final(self).spec_initialized() == final(self).spec_capacity(),
            final(self).region() == old(self).filled_seq() + Seq::new(
                (old(self).spec_capacity() - old(self).spec_filled()) as nat,
                |i: int| 0u8,
            ),
    {
        self.fill_by_repeating(0u8)
    }
}

/// A restricted borrow of a [`Buffer`], offering a reduced operation set: a
/// holder can fill the buffer and inspect the unfilled region, but can
/// neither read the filled part nor swap the buffer out for another.
pub struct BufferRef<'buffer, T> {
    pub inner: &'buffer mut Buffer<T>,
}

impl<'buffer, T: Initialize> BufferRef<'buffer, T> {
    /// The borrowed buffer, as a spec-level value.
    pub open spec fn buf(&self) -> Buffer<T> {
        *self.inner
    }

    /// How many items are filled.
    pub fn items_filled(&self) -> (n: usize)
        ensures
            n == self.buf().spec_filled(),
    {
        self.inner.items_filled()
    }

    /// How many items may be filled before the buffer is full.
    pub fn remaining(&self) -> (n: usize)
        requires
            self.buf().wf(),
        ensures
            n == self.buf().spec_capacity() - self.buf().spec_filled(),
    {
        self.inner.remaining()
    }

    /// Reborrow, getting a buffer reference with a shorter lifetime.
    pub fn by_ref(&mut self) -> (r: BufferRef<'_, T>)
        ensures
            *r.inner == *old(self).inner,
            *final(self).inner == *final(r.inner),
            *final(final(self).inner) == *final(old(self).inner),
    {
        BufferRef { inner: self.inner }
    }

    /// Borrow the unfilled-but-initialized and unfilled-and-uninitialized
    /// parts, mutably and disjointly.
    pub fn unfilled_parts(&mut self) -> (parts: (&mut [T::Item], &mut [T::Item]))
        requires
            old(self).buf().wf(),
        ensures
            parts.0@ == old(self).buf().unfilled_init_seq(),
            parts.1@ == old(self).buf().unfilled_uninit_seq(),
            final(self).buf().region() == old(self).buf().filled_seq() + final(parts.0)@
                + final(parts.1)@,
            final(self).buf().items_filled == old(self).buf().items_filled,
            final(self).buf().initializer.items_initialized == old(
                self,
            ).buf().initializer.items_initialized,
            *final(final(self).inner) == *final(old(self).inner),
    {
        self.inner.unfilled_parts_mut()
    }

    /// Move the filled cursor forward by `count` and raise the
    /// initialization cursor to at least the new filled value, as
    /// [`Buffer::advance_init`] does: the bookkeeping step for data the
    /// holder wrote through the unfilled accessors.
    pub fn advance(&mut self, count: usize)
        requires
            old(self).buf().wf(),
            old(self).buf().spec_filled() + count <= old(self).buf().spec_capacity(),
        ensures
            final(self).buf().wf(),
            final(self).buf().region() == old(self).buf().region(),
            final(self).buf().spec_filled() == old(self).buf().spec_filled() + count,
            final(self).buf().spec_initialized() == (if old(self).buf().spec_filled()
                + count > old(self).buf().spec_initialized() {
                old(self).buf().spec_filled() + count
            } else {
                old(self).buf().spec_initialized() as int
            }),
            *final(final(self).inner) == *final(old(self).inner),
    {
        self.inner.advance_init(count)
    }

    /// Mark the whole buffer filled and initialized, without writing.
    pub fn advance_all(&mut self)
        ensures
            final(self).buf().wf(),
            final(self).buf().region() == old(self).buf().region(),
            final(self).buf().spec_filled() == final(self).buf().spec_capacity(),
            final(self).buf().spec_initialized() == final(self).buf().spec_capacity(),
            *final(final(self).inner) == *final(old(self).inner),
    {
        self.inner.advance_init_all()
    }

    /// Move the filled cursor back to zero, as [`Buffer::revert_to_start`]
    /// does.
    pub fn revert_to_start(&mut self)
        requires
            old(self).buf().wf(),
        ensures
            final(self).buf().wf(),
            final(self).buf().region() == old(self).buf().region(),
            final(self).buf().spec_filled() == 0,
            final(self).buf().spec_initialized() == old(self).buf().spec_initialized(),
            *final(final(self).inner) == *final(old(self).inner),
    {
        self.inner.revert_to_start()
    }

    /// Fill the whole unfilled region with `item`, as
    /// [`Buffer::fill_by_repeating`] does.
    pub fn fill_by_repeating(&mut self, item: T::Item) where T::Item: Copy
        requires
            old(self).buf().wf(),
        ensures
            final(self).buf().wf(),
            final(self).buf().spec_filled() == final(self).buf().spec_capacity(),
            final(self).buf().spec_initialized() == final(self).buf().spec_capacity(),
            final(self).buf().region() == old(self).buf().filled_seq() + Seq::new(
                (old(self).buf().spec_capacity() - old(self).buf().spec_filled()) as nat,
                |i: int| item,
            ),
            *final(final(self).inner) == *final(old(self).inner),
    {
        self.inner.fill_by_repeating(item)
    }

    /// Append `slice` at the unfilled boundary, as [`Buffer::append`] does.
    pub fn append(&mut self, slice: &[T::Item]) where T::Item: Copy
        requires
            old(self).buf().wf(),
            slice@.len() <= old(self).buf().spec_capacity() - old(self).buf().spec_filled(),
        ensures
            final(self).buf().wf(),
            final(self).buf().spec_filled() == old(self).buf().spec_filled() + slice@.len(),
            final(self).buf().filled_seq() == old(self).buf().filled_seq() + slice@,
            final(self).buf().region() == old(self).buf().filled_seq() + slice@ + old(
                self,
            ).buf().region().skip(old(self).buf().items_filled + slice@.len()),
            *final(final(self).inner) == *final(old(self).inner),
    {
        self.inner.append(slice);
    }
}

impl<'buffer, T: Initialize<Item = u8>> BufferRef<'buffer, T> {
    /// Fill the whole unfilled region with zero, as [`Buffer::fill_by_zeroing`]
    /// does.
    pub fn fill_by_zeroing(&mut self)
        requires
            old(self).buf().wf(),
        ensures
            final(self).buf().wf(),
            final(self).buf().spec_filled() == final(self).buf().spec_capacity(),
            final(self).buf().spec_initialized() == final(self).buf().spec_capacity(),
            final(self).buf().region() == old(self).buf().filled_seq() + Seq::new(
                (old(self).buf().spec_capacity() - old(self).buf().spec_filled()) as nat,
                |i: int| 0u8,
            ),
            *final(final(self).inner) == *final(old(self).inner),
    {
        self.inner.fill_by_zeroing()
    }
}

impl<'a> Buffer<&'a mut [u8]> {
    /// Wrap a borrowed region whose contents are already meaningful: the
    /// initialization cursor starts at the capacity, the filled cursor at
    /// zero.
    pub fn from_slice_mut(slice: &'a mut [u8]) -> (r: Self)
        ensures
            r.region() == old(slice)@,
            r.spec_filled() == 0,
            r.spec_initialized() == r.spec_capacity(),
            r.wf(),
    {
        let mut initializer = BufferInitializer::uninit(slice);
        initializer.advance_to_end();
        Self::from_initializer(initializer)
    }

    /// Wrap a borrowed region, tracking nothing as initialized nor filled.
    pub fn from_uninit_slice_mut(slice: &'a mut [u8]) -> (r: Self)
        ensures
            r.region() == old(slice)@,
            r.spec_filled() == 0,
            r.spec_initialized() == 0,
            r.wf(),
    {
        Self::uninit(slice)
    }
}

impl<T: Initialize> Buffer<T> {
    /// A short textual summary of the cursors:
    /// `filled/initialized/capacity`, each in decimal.
    pub fn summary(&self) -> (r: String)
        requires
            self.wf(),
        ensures
            r@ == spec_counts_text(
                self.spec_filled(),
                self.spec_initialized(),
                self.spec_capacity(),
            ),
    {
        let mut out = String::new();
        append_decimal(&mut out, self.items_filled);
        out.append("/");
        append_decimal(&mut out, self.initializer.items_initialized);
        out.append("/");
        append_decimal(&mut out, self.capacity());
        proof {
            assert(out@ =~= spec_counts_text(
                self.spec_filled(),
                self.spec_initialized(),
                self.spec_capacity(),
            ));
        }
        out
    }

    /// A detailed textual summary of the cursors, with each cursor's share
    /// of the capacity as a percentage with one decimal place, rounded to
    /// the nearest with ties to even (shown as zero when the capacity is
    /// zero).
    pub fn summary_detailed(&self) -> (r: String)
        requires
            self.wf(),
        ensures
            r@ == spec_counts_detailed_text(
                self.spec_filled(),
                self.spec_initialized(),
                self.spec_capacity(),
            ),
    {
        let cap = self.capacity();
        let mut out = String::new();
        append_decimal(&mut out, self.items_filled);
        out.append(" B filled (");
        append_percent(&mut out, self.items_filled, cap);
        out.append("%), ");
        append_decimal(&mut out, self.initializer.items_initialized);
        out.append(" B init (");
        append_percent(&mut out, self.initializer.items_initialized, cap);
        out.append("%), ");
        append_decimal(&mut out, cap);
        out.append(" B total");
        proof {
            assert(out@ =~= spec_counts_detailed_text(
                self.spec_filled(),
                self.spec_initialized(),
                self.spec_capacity(),
            ));
        }
        out
    }
}

/// Partition completeness: for any well-formed buffer, the filled part, the
/// unfilled-but-initialized part and the unfilled-and-uninitialized part
/// concatenate back to the whole region of exactly `capacity` slots, with
/// the first `filled` slots from the filled part and the next
/// `initialized - filled` from the unfilled-but-initialized part.
pub proof fn lemma_partition_complete<T: Initialize>(b: Buffer<T>)
    requires
        b.wf(),
    ensures
        b.region() == b.filled_seq() + b.unfilled_init_seq() + b.unfilled_uninit_seq(),
        b.filled_seq().len() == b.spec_filled(),
        b.unfilled_init_seq().len() == b.spec_initialized() - b.spec_filled(),
        b.unfilled_uninit_seq().len() == b.spec_capacity() - b.spec_initialized(),
{
    assert(b.region() =~= b.filled_seq() + b.unfilled_init_seq() + b.unfilled_uninit_seq());
}

/// View stability: calling an immutable accessor twice in a row, with no
/// mutation in between, yields the same contents both times. Shown here for
/// the filled part; [`all_parts_twice`] covers the three-way partition.
pub fn filled_part_twice<'a, T: Initialize>(b: &'a Buffer<T>) -> (r: (&'a [T::Item], &'a [T::Item]))
    requires
        b.wf(),
    ensures
        r.0@ == r.1@,
{
    (b.filled_part(), b.filled_part())
}

/// View stability for the three-way partition: two calls of
/// [`Buffer::all_parts`] with no mutation in between agree on every part.
pub fn all_parts_twice<'a, T: Initialize>(b: &'a Buffer<T>) -> (r: (
    BufferParts<'a, T::Item>,
    BufferParts<'a, T::Item>,
))
    requires
        b.wf(),
    ensures
        r.0.filled_part@ == r.1.filled_part@,
        r.0.unfilled_init_part@ == r.1.unfilled_init_part@,
        r.0.unfilled_uninit_part@ == r.1.unfilled_uninit_part@,
{
    (b.all_parts(), b.all_parts())
}

/// Round-trip: a buffer filled to its capacity can advance its filled
/// cursor over the initialized region and extract the fully initialized
/// container, whose contents are exactly the filled data, in order.
pub fn extract_filled<T: Initialize>(b: Buffer<T>) -> (r: Result<
    AssertInit<T>,
    BufferInitializer<T>,
>)
    requires
        b.wf(),
        b.spec_filled() == b.spec_capacity(),
    ensures
        r is Ok,
        (r matches Ok(a) ==> a.inner.region() == b.filled_seq()),
{
    let mut b = b;
    b.advance_to_init_part();
    proof {
        assert(b.filled_seq() =~= b.region());
    }
    b.into_initializer().try_into_init()
}

/// Writing through a restricted reference reaches the borrowed buffer: once
/// the reference is dropped, the buffer's filled part has grown by exactly
/// the appended data.
pub fn append_through_ref<T: Initialize>(buffer: &mut Buffer<T>, data: &[T::Item]) where
    T::Item: Copy,

    requires
        old(buffer).wf(),
        data@.len() <= old(buffer).spec_capacity() - old(buffer).spec_filled(),
    ensures
        final(buffer).wf(),
        final(buffer).spec_filled() == old(buffer).spec_filled() + data@.len(),
        final(buffer).filled_seq() == old(buffer).filled_seq() + data@,
{
    let mut r = buffer.by_ref();
    r.append(data);
    proof {
        assert(has_resolved(r));
    }
}

} // verus!
