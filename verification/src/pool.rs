//! A pool of idle blocks with a configurable reuse policy.
//!
//! The pool keeps a reservoir of idle [`Growable`] blocks. Allocation takes
//! the block at the front and consumes the value into it; freeing a handle
//! recovers its block and puts it back at the front. Because both ends are
//! the front, the pool is a last-in-first-out stack of idle blocks: the most
//! recently freed block is the first one reused. That order is observable
//! behaviour and part of the contract, not an implementation detail.

use crate::block::{Growable, Reusable};
use crate::model::{consumed, grown, valid_shape, BlockShape};
use std::collections::VecDeque;
use vstd::layout::{align_of, size_of, valid_layout};
use vstd::prelude::*;

verus! {

/// The configuration of a pool: the target number of idle blocks, the shape
/// of freshly manufactured blocks, and whether the idle count may exceed
/// the target.
pub struct PoolConfig {
    /// Desired number of idle blocks.
    pub target: nat,
    /// Capacity, in bytes, of each freshly manufactured block.
    pub block_len: nat,
    /// Alignment of each freshly manufactured block.
    pub block_align: nat,
    /// Whether the idle count may grow beyond `target` when handles are
    /// freed back into the pool.
    pub overgrow: bool,
}

/// The shape of a pool: its configuration and the shapes of its idle
/// blocks, front first.
pub struct PoolShape {
    /// The configuration the pool was built from.
    pub config: PoolConfig,
    /// The idle blocks, front of the pool first.
    pub idle: Seq<BlockShape>,
}

/// The shape of a block freshly manufactured under configuration `c`.
pub open spec fn fresh_block(c: PoolConfig) -> BlockShape {
    BlockShape { len: c.block_len, align: c.block_align }
}

/// How many blocks the pool manufactures in one bulk top-up when it runs
/// dry: the target, but at least one.
pub open spec fn refill_count(c: PoolConfig) -> nat {
    if c.target == 0 {
        1
    } else {
        c.target
    }
}

/// The shape of the block an allocation draws from: the front idle block,
/// or a freshly manufactured one if the pool is empty.
pub open spec fn idle_source(idle: Seq<BlockShape>, c: PoolConfig) -> BlockShape {
    if idle.len() > 0 {
        idle[0]
    } else {
        fresh_block(c)
    }
}

/// The idle blocks after one allocation: the front block is removed; if the
/// pool was empty, a bulk top-up of [`refill_count`] fresh blocks happens
/// first, so all but one of them remain.
pub open spec fn idle_after_allocate(idle: Seq<BlockShape>, c: PoolConfig) -> Seq<BlockShape> {
    if idle.len() > 0 {
        idle.drop_first()
    } else {
        Seq::new((refill_count(c) - 1) as nat, |i: int| fresh_block(c))
    }
}

/// Whether a freed block is stored rather than discarded: always when
/// overgrow is enabled, otherwise only while the pool is below its target.
pub open spec fn stores_on_free(idle: Seq<BlockShape>, c: PoolConfig) -> bool {
    c.overgrow || idle.len() < c.target
}

/// The idle blocks after freeing a handle whose block has shape `b`: the
/// block is pushed at the front, or discarded when the pool is full and
/// overgrow is disabled.
pub open spec fn idle_after_free(idle: Seq<BlockShape>, c: PoolConfig, b: BlockShape) -> Seq<
    BlockShape,
> {
    if stores_on_free(idle, c) {
        seq![b] + idle
    } else {
        idle
    }
}

/// A customizable [`GrowablePool`] builder.
#[derive(Debug, PartialEq, Eq)]
pub struct GrowablePoolBuilder {
    len: usize,
    per_growable_len: usize,
    per_growable_ptr_alignment: usize,
    overgrow: bool,
}

impl Clone for GrowablePoolBuilder {
    fn clone(&self) -> (r: Self)
        ensures
            r == *self,
    {
        GrowablePoolBuilder {
            len: self.len,
            per_growable_len: self.per_growable_len,
            per_growable_ptr_alignment: self.per_growable_ptr_alignment,
            overgrow: self.overgrow,
        }
    }
}

impl View for GrowablePoolBuilder {
    type V = PoolConfig;

    closed spec fn view(&self) -> PoolConfig {
        PoolConfig {
            target: self.len as nat,
            block_len: self.per_growable_len as nat,
            block_align: self.per_growable_ptr_alignment as nat,
            overgrow: self.overgrow,
        }
    }
}

impl Default for GrowablePoolBuilder {
    fn default() -> (r: Self)
        ensures
            r@ == (PoolConfig { target: 0, block_len: 8, block_align: 8, overgrow: true }),
    {
        GrowablePoolBuilder::new()
    }
}

impl GrowablePoolBuilder {
    /// Creates a new pool builder with default options: no idle blocks yet,
    /// eight bytes at alignment eight per block, and overgrow enabled.
    pub fn new() -> (r: Self)
        ensures
            r@ == (PoolConfig { target: 0, block_len: 8, block_align: 8, overgrow: true }),
    {
        GrowablePoolBuilder { len: 0, per_growable_len: 8, per_growable_ptr_alignment: 8, overgrow: true }
    }

    /// If set to `false`, a freed block is dropped instead of stored
    /// whenever the pool already holds its target number of idle blocks.
    pub fn enable_overgrow(&mut self, enable: bool) -> (r: &mut Self)
        ensures
            (*r)@ == (PoolConfig { overgrow: enable, ..old(self)@ }),
            *final(self) == *final(r),
    {
        self.overgrow = enable;
        self
    }

    /// Sets the default capacity, in bytes, of each freshly manufactured
    /// block.
    pub fn with_default_capacity(&mut self, len: usize) -> (r: &mut Self)
        ensures
            (*r)@ == (PoolConfig { block_len: len as nat, ..old(self)@ }),
            *final(self) == *final(r),
    {
        self.per_growable_len = len;
        self
    }

    /// Sets the alignment of each freshly manufactured block.
    pub fn with_default_ptr_alignment(&mut self, ptr_alignment: usize) -> (r: &mut Self)
        ensures
            (*r)@ == (PoolConfig { block_align: ptr_alignment as nat, ..old(self)@ }),
            *final(self) == *final(r),
    {
        self.per_growable_ptr_alignment = ptr_alignment;
        self
    }

    /// Sets the target number of idle blocks. The pool is pre-populated to
    /// this count, and every bulk top-up restores it; with overgrow enabled
    /// the pool may still grow beyond it. Zero means the pool allocates
    /// nothing until the first allocation request.
    pub fn with_capacity(&mut self, capacity: usize) -> (r: &mut Self)
        ensures
            (*r)@ == (PoolConfig { target: capacity as nat, ..old(self)@ }),
            *final(self) == *final(r),
    {
        self.len = capacity;
        self
    }

    /// Creates a new [`GrowablePool`] from this builder, pre-populated with
    /// the target number of idle blocks, each of the configured shape.
    ///
    /// The configured block length and alignment must form a valid layout
    /// (see [`Growable::with_capacity`]); anything else is a contract
    /// violation.
    pub fn build(&self) -> (p: GrowablePool)
        requires
            valid_layout(self@.block_len as usize, self@.block_align as usize),
        ensures
            p@.config == self@,
            p@.idle == Seq::new(self@.target, |i: int| fresh_block(self@)),
    {
        let mut vec: VecDeque<Growable> = VecDeque::with_capacity(self.len);
        let mut i: usize = 0;
        while i < self.len
            invariant
                i <= self.len,
                vec@.len() == i,
                forall|j: int| 0 <= j < i ==> (#[trigger] vec@[j])@ == fresh_block(self@),
                valid_layout(self.per_growable_len, self.per_growable_ptr_alignment),
            decreases self.len - i,
        {
            vec.push_back(
                Growable::with_capacity(self.per_growable_len, self.per_growable_ptr_alignment),
            );
            i = i + 1;
        }
        let p = GrowablePool {
            len: self.len,
            per_growable_len: self.per_growable_len,
            per_growable_ptr_alignment: self.per_growable_ptr_alignment,
            overgrow: self.overgrow,
            vec,
        };
        proof {
            assert(p@.idle =~= Seq::new(self@.target, |k: int| fresh_block(self@)));
        }
        p
    }
}

/// A pool of [`Growable`] blocks. It reduces the total number of
/// allocations in an amortized way by reusing the same blocks to store
/// different values over time. It is not internally synchronized.
#[derive(Debug)]
pub struct GrowablePool {
    len: usize,
    per_growable_len: usize,
    per_growable_ptr_alignment: usize,
    overgrow: bool,
    vec: VecDeque<Growable>,
}

impl View for GrowablePool {
    type V = PoolShape;

    closed spec fn view(&self) -> PoolShape {
        PoolShape {
            config: PoolConfig {
                target: self.len as nat,
                block_len: self.per_growable_len as nat,
                block_align: self.per_growable_ptr_alignment as nat,
                overgrow: self.overgrow,
            },
            idle: self.vec@.map_values(|g: Growable| g@),
        }
    }
}

impl Clone for GrowablePool {
    /// Cloning a pool rebuilds a fresh pool from the same configuration; the
    /// current idle blocks are not copied.
    fn clone(&self) -> (r: Self)
        ensures
            r@.config == self@.config,
            r@.idle == Seq::new(self@.config.target, |i: int| fresh_block(self@.config)),
    {
        proof {
            use_type_invariant(self);
        }
        let mut builder = GrowablePoolBuilder::new();
        builder.with_default_capacity(self.per_growable_len);
        builder.with_default_ptr_alignment(self.per_growable_ptr_alignment);
        builder.with_capacity(self.len);
        builder.enable_overgrow(self.overgrow);
        builder.build()
    }
}

impl Default for GrowablePool {
    fn default() -> (r: Self)
        ensures
            r@.config == (PoolConfig { target: 0, block_len: 8, block_align: 8, overgrow: true }),
            r@.idle == Seq::<BlockShape>::empty(),
    {
        GrowablePool::new()
    }
}

impl GrowablePool {
    /// The manufactured block shape is always a valid layout, and with
    /// overgrow disabled the idle count never exceeds the target.
    #[verifier::type_invariant]
    spec fn inv(self) -> bool {
        &&& valid_layout(self.per_growable_len, self.per_growable_ptr_alignment)
        &&& (!self.overgrow ==> self.vec@.len() <= self.len)
    }

    /// Creates a new pool with default options: it holds no idle blocks and
    /// allocates nothing until the first allocation request.
    pub fn new() -> (p: Self)
        ensures
            p@.config == (PoolConfig { target: 0, block_len: 8, block_align: 8, overgrow: true }),
            p@.idle == Seq::<BlockShape>::empty(),
    {
        proof {
            lemma_default_config_layout();
        }
        let builder = GrowablePoolBuilder::new();
        let p = builder.build();
        proof {
            assert(p@.idle =~= Seq::<BlockShape>::empty());
        }
        p
    }

    /// Creates a new pool builder with default options.
    pub fn builder() -> (r: GrowablePoolBuilder)
        ensures
            r@ == (PoolConfig { target: 0, block_len: 8, block_align: 8, overgrow: true }),
    {
        GrowablePoolBuilder::default()
    }

    /// Returns true if the next allocation will need a bulk top-up.
    pub fn is_empty(&self) -> (r: bool)
        ensures
            r == (self@.idle.len() == 0),
    {
        self.len() == 0
    }

    /// Returns the number of allocations the pool can serve without
    /// manufacturing new blocks. With overgrow disabled this never exceeds
    /// the configured target.
    pub fn len(&self) -> (n: usize)
        ensures
            n == self@.idle.len(),
            !self@.config.overgrow ==> n <= self@.config.target,
    {
        proof {
            use_type_invariant(self);
        }
        self.vec.len()
    }

    /// Allocates a handle from the pool: the front idle block is removed
    /// and `t` is consumed into it. If no idle block is available, the pool
    /// first manufactures [`refill_count`] fresh blocks in bulk, amortizing
    /// the cost of exhaustion over many subsequent allocations.
    ///
    /// The drawn block, once grown for `T`, must stay within the
    /// allocator's address-space bound (see [`Growable::consume`]).
    pub fn allocate<T>(&mut self, t: T) -> (r: Reusable<T>)
        requires
            valid_shape(
                grown(
                    idle_source(old(self)@.idle, old(self)@.config),
                    size_of::<T>(),
                    align_of::<T>(),
                ),
            ),
        ensures
            final(self)@.config == old(self)@.config,
            final(self)@.idle == idle_after_allocate(old(self)@.idle, old(self)@.config),
            r@ == consumed(
                idle_source(old(self)@.idle, old(self)@.config),
                t,
                size_of::<T>(),
                align_of::<T>(),
            ),
            r.wf(),
    {
        proof {
            use_type_invariant(&*self);
        }
        let mut vec: VecDeque<Growable> = VecDeque::new();
        core::mem::swap(&mut vec, &mut self.vec);
        let popped = vec.pop_front();
        let g = match popped {
            Some(g) => g,
            None => {
                let g = Growable::with_capacity(
                    self.per_growable_len,
                    self.per_growable_ptr_alignment,
                );
                let count = if self.len >= 1 {
                    self.len
                } else {
                    1
                };
                let mut i: usize = 1;
                while i < count
                    invariant
                        1 <= i <= count,
                        count == refill_count(old(self)@.config),
                        self.per_growable_len == old(self).per_growable_len,
                        self.per_growable_ptr_alignment == old(self).per_growable_ptr_alignment,
                        vec@.len() == i - 1,
                        forall|j: int|
                            0 <= j < i - 1 ==> (#[trigger] vec@[j])@ == fresh_block(
                                old(self)@.config,
                            ),
                        valid_layout(self.per_growable_len, self.per_growable_ptr_alignment),
                    decreases count - i,
                {
                    vec.push_back(
                        Growable::with_capacity(
                            self.per_growable_len,
                            self.per_growable_ptr_alignment,
                        ),
                    );
                    i = i + 1;
                }
                g
            },
        };
        core::mem::swap(&mut vec, &mut self.vec);
        proof {
            assert(self@.idle =~= idle_after_allocate(old(self)@.idle, old(self)@.config));
        }
        g.consume(t)
    }

    /// Returns the handle's block to the pool: the value is dropped and the
    /// recovered block is stored at the front, making it the first block
    /// reused. With overgrow disabled, a block freed into a pool already at
    /// its target is dropped instead of stored.
    pub fn free<T>(&mut self, t: Reusable<T>)
        requires
            t.wf(),
        ensures
            final(self)@.config == old(self)@.config,
            final(self)@.idle == idle_after_free(old(self)@.idle, old(self)@.config, t@.block),
    {
        proof {
            use_type_invariant(&*self);
        }
        if !self.overgrow && self.vec.len() >= self.len {
            return;
        }
        let g = Reusable::free(t);
        let mut vec: VecDeque<Growable> = VecDeque::new();
        core::mem::swap(&mut vec, &mut self.vec);
        vec.push_front(g);
        core::mem::swap(&mut vec, &mut self.vec);
        proof {
            assert(self@.idle =~= seq![t@.block] + old(self)@.idle);
        }
    }
}

/// The default block shape of eight bytes at alignment eight is a valid
/// layout.
proof fn lemma_default_config_layout()
    ensures
        valid_layout(8, 8),
{
    assert(vstd::arithmetic::power2::is_pow2(8int)) by {
        reveal_with_fuel(vstd::arithmetic::power2::is_pow2, 4);
    }
}

/// Law: pool invariant. With overgrow disabled, a pool whose idle count is
/// within its target stays within it across every allocation and every
/// free.
pub proof fn lemma_pool_bounded(idle: Seq<BlockShape>, c: PoolConfig, b: BlockShape)
    requires
        !c.overgrow,
        idle.len() <= c.target,
    ensures
        idle_after_allocate(idle, c).len() <= c.target,
        idle_after_free(idle, c, b).len() <= c.target,
{
}

/// Law: pool stack order. Freeing a block and then allocating hands back
/// exactly that block (the pool is a last-in-first-out stack), and leaves
/// the idle blocks as they were.
pub proof fn lemma_pool_lifo(idle: Seq<BlockShape>, c: PoolConfig, b: BlockShape)
    requires
        stores_on_free(idle, c),
    ensures
        idle_source(idle_after_free(idle, c, b), c) == b,
        idle_after_allocate(idle_after_free(idle, c, b), c) == idle,
{
    assert((seq![b] + idle).drop_first() =~= idle);
}

/// Law: overgrow semantics, disabled. With a target of zero and overgrow
/// disabled, an empty pool stays empty: allocation leaves nothing behind
/// and every freed block is discarded.
pub proof fn lemma_overgrow_disabled_stays_empty(idle: Seq<BlockShape>, c: PoolConfig, b: BlockShape)
    requires
        !c.overgrow,
        c.target == 0,
        idle.len() == 0,
    ensures
        idle_after_allocate(idle, c).len() == 0,
        idle_after_free(idle, c, b).len() == 0,
{
}

/// Law: overgrow semantics, enabled. With overgrow enabled every free
/// stores the recovered block at the front, growing the idle count by one.
pub proof fn lemma_overgrow_enabled_free_stores(idle: Seq<BlockShape>, c: PoolConfig, b: BlockShape)
    requires
        c.overgrow,
    ensures
        idle_after_free(idle, c, b).len() == idle.len() + 1,
        idle_after_free(idle, c, b)[0] == b,
{
}

} // verus!
