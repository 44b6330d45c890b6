//! The reusable block and the typed handle over it.
//!
//! A [`Growable`] tracks a block of reusable storage: its capacity in bytes
//! and its alignment. It carries no type information. Consuming a value
//! turns the block into a [`Reusable`], an owned handle that stores the
//! value and remembers the block's shape so that freeing the handle hands
//! the block back for reuse, possibly with a value of a different type.

use crate::model::{consumed, grown, valid_shape, BlockShape, HandleShape};
use vstd::arithmetic::power2::is_pow2;
use vstd::layout::{align_of, layout_for_type_is_valid, size_of, valid_layout};
use vstd::pervasive::cloned;
use vstd::prelude::*;

verus! {

/// A block of reusable storage with a known capacity and alignment and no
/// type information. Growth is lazy and monotone: the block only ever gets
/// longer, so a block cycling through many consume/free rounds converges to
/// the high-water mark of the sizes it has held.
#[derive(Debug)]
pub struct Growable {
    len: usize,
    ptr_alignment: usize,
}

impl View for Growable {
    type V = BlockShape;

    closed spec fn view(&self) -> BlockShape {
        BlockShape { len: self.len as nat, align: self.ptr_alignment as nat }
    }
}

impl Clone for Growable {
    /// Cloning a block clones its capacity, not its bytes: the clone has the
    /// same length and alignment and fresh storage.
    fn clone(&self) -> (r: Self)
        ensures
            r@ == self@,
    {
        proof {
            use_type_invariant(self);
        }
        Growable { len: self.len, ptr_alignment: self.ptr_alignment }
    }
}

impl Default for Growable {
    fn default() -> (r: Self)
        ensures
            r@ == (BlockShape { len: 0, align: 1 }),
    {
        Growable::new()
    }
}

impl Growable {
    /// The block's shape is always one the allocator could hold: the
    /// alignment a power of two, the length within the address-space bound
    /// for that alignment.
    #[verifier::type_invariant]
    spec fn inv(self) -> bool {
        valid_layout(self.len, self.ptr_alignment)
    }

    /// Returns a block that holds no storage, with alignment one.
    pub fn new() -> (g: Self)
        ensures
            g@ == (BlockShape { len: 0, align: 1 }),
    {
        proof {
            assert(is_pow2(1int)) by {
                reveal(is_pow2);
            }
        }
        Growable::with_capacity(0, 1)
    }

    /// Returns a block sized and aligned for a value of type `T`.
    pub fn with_capacity_for_type<T>() -> (g: Self)
        ensures
            g@ == (BlockShape { len: size_of::<T>(), align: align_of::<T>() }),
    {
        layout_for_type_is_valid::<T>();
        Growable::with_capacity(core::mem::size_of::<T>(), core::mem::align_of::<T>())
    }

    /// Returns a block of exactly `len` bytes at alignment `ptr_alignment`.
    ///
    /// The caller must supply a valid layout: the alignment a power of two,
    /// and the length no larger than the address-space bound once rounded to
    /// the alignment. Anything else is a contract violation, never a
    /// recoverable condition; [`crate::model::layout_is_valid`] reports
    /// whether a combination is acceptable.
    pub fn with_capacity(len: usize, ptr_alignment: usize) -> (g: Self)
        requires
            valid_layout(len, ptr_alignment),
        ensures
            g@ == (BlockShape { len: len as nat, align: ptr_alignment as nat }),
    {
        Growable { len, ptr_alignment }
    }

    /// Returns true if the block holds no storage.
    pub fn is_empty(&self) -> (r: bool)
        ensures
            r == (self@.len == 0),
    {
        self.len == 0
    }

    /// Returns the amount of storage the block holds, in bytes.
    pub fn len(&self) -> (n: usize)
        ensures
            n == self@.len,
    {
        self.len
    }

    /// Returns the block's alignment.
    pub fn alignment(&self) -> (n: usize)
        ensures
            n == self@.align,
    {
        self.ptr_alignment
    }

    /// Stores `t` in the block, growing it only if it is not yet large
    /// enough or aligned enough, and returns the owning handle.
    ///
    /// The grown shape must stay within the allocator's address-space
    /// bound; a block already near the bound cannot take a value of a more
    /// aligned type, and asking it to is a contract violation.
    pub fn consume<T>(self, t: T) -> (r: Reusable<T>)
        requires
            valid_shape(grown(self@, size_of::<T>(), align_of::<T>())),
        ensures
            r@ == consumed(self@, t, size_of::<T>(), align_of::<T>()),
            r.wf(),
    {
        layout_for_type_is_valid::<T>();
        let mut block = self;
        block.grow(core::mem::size_of::<T>(), core::mem::align_of::<T>());
        block.copy(t)
    }

    /// Grows the block to hold at least `len` bytes at alignment at least
    /// `ptr_alignment`, following the policy of [`grown`]: an empty block
    /// takes the requested length, a sufficient block is kept, and
    /// otherwise the length becomes the maximum of the current and
    /// requested lengths; the alignment always becomes the maximum of the
    /// current and requested alignments. The old contents never survive a
    /// growth step; the block is grown only right before it is overwritten.
    fn grow(&mut self, len: usize, ptr_alignment: usize)
        requires
            valid_layout(len, ptr_alignment),
            valid_shape(grown(old(self)@, len as nat, ptr_alignment as nat)),
        ensures
            final(self)@ == grown(old(self)@, len as nat, ptr_alignment as nat),
    {
        let new_alignment = if self.ptr_alignment >= ptr_alignment {
            self.ptr_alignment
        } else {
            ptr_alignment
        };
        if self.len == 0 {
            *self = Growable::with_capacity(len, new_alignment);
            return;
        }
        if self.len >= len && self.ptr_alignment >= ptr_alignment {
            return;
        }
        let new_len = if self.len >= len {
            self.len
        } else {
            len
        };
        *self = Growable { len: new_len, ptr_alignment: new_alignment };
    }

    /// Writes `t` into the block and wraps the result in a handle. The block
    /// must already be large enough and aligned enough for `T`.
    fn copy<T>(self, t: T) -> (r: Reusable<T>)
        requires
            self@.len >= size_of::<T>(),
            self@.align >= align_of::<T>(),
        ensures
            r@ == (HandleShape { value: t, block: self@ }),
            r.wf(),
    {
        proof {
            use_type_invariant(&self);
        }
        Reusable { value: t, len: self.len, ptr_alignment: self.ptr_alignment }
    }
}

/// An owned, box-like handle: a value of type `T` living in a block of
/// reusable storage. Dropping the handle drops the value and releases the
/// storage; [`Reusable::free`] instead recovers the block for reuse.
#[derive(Debug)]
pub struct Reusable<T> {
    value: T,
    len: usize,
    ptr_alignment: usize,
}

impl<T> View for Reusable<T> {
    type V = HandleShape<T>;

    closed spec fn view(&self) -> HandleShape<T> {
        HandleShape {
            value: self.value,
            block: BlockShape { len: self.len as nat, align: self.ptr_alignment as nat },
        }
    }
}

impl<T: Clone> Clone for Reusable<T> {
    /// Cloning a handle allocates a new block sized exactly for `T` and
    /// clones the value into it; the original block is not reused.
    fn clone(&self) -> (r: Self)
        ensures
            r@.block == (BlockShape { len: size_of::<T>(), align: align_of::<T>() }),
            cloned::<T>(self@.value, r@.value),
            r.wf(),
    {
        layout_for_type_is_valid::<T>();
        let g = Growable::with_capacity_for_type::<T>();
        g.consume(self.value.clone())
    }
}

impl<T> Reusable<T> {
    /// Well-formedness: the backing block is large enough and aligned
    /// enough for `T`, and its shape is one the allocator could hold. Every
    /// handle that [`Growable::consume`] or a pool hands out is
    /// well-formed.
    pub closed spec fn wf(&self) -> bool {
        &&& self@.block.len >= size_of::<T>()
        &&& self@.block.align >= align_of::<T>()
        &&& valid_shape(self@.block)
    }

    /// Returns a reference to the stored value.
    pub fn value(&self) -> (r: &T)
        ensures
            *r == self@.value,
    {
        &self.value
    }

    /// Returns a mutable reference to the stored value. The backing block
    /// is untouched, whatever the caller writes.
    pub fn value_mut(&mut self) -> (r: &mut T)
        ensures
            *r == old(self)@.value,
            final(self)@.value == *final(r),
            final(self)@.block == old(self)@.block,
            old(self).wf() ==> final(self).wf(),
    {
        &mut self.value
    }

    /// Drops the stored value and returns the backing block for reuse. This
    /// is the only way to recover the block while the value is live; the
    /// value is destroyed here, exactly once.
    pub fn free(this: Self) -> (g: Growable)
        requires
            this.wf(),
        ensures
            g@ == this@.block,
    {
        let Reusable { value: _, len, ptr_alignment } = this;
        Growable { len, ptr_alignment }
    }

    /// Moves the stored value out without dropping it, and returns it
    /// together with the backing block.
    pub fn free_move(this: Self) -> (r: (T, Growable))
        requires
            this.wf(),
        ensures
            r.0 == this@.value,
            r.1@ == this@.block,
    {
        let Reusable { value, len, ptr_alignment } = this;
        (value, Growable { len, ptr_alignment })
    }
}

/// Replaces the handle's value, dropping the old one but keeping the
/// storage: the same as freeing the handle and consuming the new value into
/// the recovered block (which must stay within the allocator's
/// address-space bound once grown for the new type).
pub fn replace<T, U>(this: Reusable<T>, u: U) -> (r: Reusable<U>)
    requires
        this.wf(),
        valid_shape(grown(this@.block, size_of::<U>(), align_of::<U>())),
    ensures
        r@ == consumed(this@.block, u, size_of::<U>(), align_of::<U>()),
        r.wf(),
{
    Reusable::free(this).consume(u)
}

} // verus!
