//! The mathematical model of blocks and handles.
//!
//! A block is modelled by its [`BlockShape`]: the number of bytes it can hold
//! and its alignment. Growing a block is the pure function [`grown`];
//! consuming a value into a block is [`consumed`]. The laws at the end of
//! this module state the guarantees of the growth policy: capacity is
//! monotone, zero-sized requests never allocate, and a consumed value is
//! returned unchanged.

use vstd::arithmetic::power2::is_pow2;
use vstd::layout::valid_layout;
use vstd::prelude::*;

verus! {

/// The shape of a block of storage: its capacity in bytes and its alignment.
pub struct BlockShape {
    /// Number of bytes the block can hold. Zero means no storage is held.
    pub len: nat,
    /// Alignment of the block's storage, always a power of two.
    pub align: nat,
}

/// The shape of a typed handle: the live value it owns together with the
/// shape of the block that backs it.
pub struct HandleShape<T> {
    /// The value stored in the handle.
    pub value: T,
    /// The shape of the backing block.
    pub block: BlockShape,
}

/// The growth policy. A block grows lazily and monotonically in both
/// dimensions:
/// * an empty block takes the requested length outright;
/// * a block already long enough and aligned enough is left alone;
/// * otherwise the length becomes the maximum of the current and the
///   requested length;
/// and in every case the alignment becomes the maximum of the current and
/// the requested alignment, so neither dimension ever shrinks.
pub open spec fn grown(b: BlockShape, len: nat, align: nat) -> BlockShape {
    let max_align = if b.align >= align {
        b.align
    } else {
        align
    };
    if b.len == 0 {
        BlockShape { len, align: max_align }
    } else if b.len >= len && b.align >= align {
        b
    } else {
        BlockShape { len: if b.len >= len { b.len } else { len }, align: max_align }
    }
}

/// Whether a block of this shape is one the allocator could hold: the
/// alignment is a power of two and the length, rounded up to the alignment,
/// stays within the address space. The same condition as
/// [`valid_layout`], over a shape.
pub open spec fn valid_shape(b: BlockShape) -> bool {
    is_pow2(b.align as int) && b.len <= isize::MAX as int - (isize::MAX as int % b.align as int)
}

/// The shape of the handle produced by consuming `value` into a block of
/// shape `b`, where the value's type needs `size` bytes at alignment `align`:
/// the block grows to fit and the handle owns exactly `value`.
pub open spec fn consumed<T>(b: BlockShape, value: T, size: nat, align: nat) -> HandleShape<T> {
    HandleShape { value, block: grown(b, size, align) }
}

/// The shape of a block after a whole sequence of growth requests, each a
/// `(length, alignment)` pair, applied in order.
pub open spec fn grown_all(b: BlockShape, reqs: Seq<(nat, nat)>) -> BlockShape
    decreases reqs.len(),
{
    if reqs.len() == 0 {
        b
    } else {
        grown_all(grown(b, reqs[0].0, reqs[0].1), reqs.drop_first())
    }
}

/// Reports whether `len` bytes at alignment `align` form a layout the
/// allocator accepts: the alignment is a power of two and the length, rounded
/// up to the alignment, stays within the address space. Creating a block with
/// any other combination is a contract violation.
pub fn layout_is_valid(len: usize, align: usize) -> (r: bool)
    ensures
        r == valid_layout(len, align),
{
    if !power_of_two(align) {
        return false;
    }
    let bound: usize = isize::MAX as usize;
    proof {
        lemma_pow2_positive(align as int);
        vstd::arithmetic::div_mod::lemma_mod_decreases(bound as nat, align as nat);
    }
    len <= bound - bound % align
}

/// A power of two is at least one.
proof fn lemma_pow2_positive(n: int)
    requires
        is_pow2(n),
    ensures
        n >= 1,
{
    reveal(is_pow2);
}

/// Reports whether `n` is a power of two, by repeated halving.
fn power_of_two(n: usize) -> (r: bool)
    ensures
        r == is_pow2(n as int),
{
    proof {
        reveal(is_pow2);
    }
    if n == 0 {
        return false;
    }
    let mut m: usize = n;
    while m > 1
        invariant
            1 <= m,
            is_pow2(n as int) == is_pow2(m as int),
        decreases m,
    {
        proof {
            reveal(is_pow2);
        }
        if m % 2 == 1 {
            return false;
        }
        m = m / 2;
    }
    proof {
        reveal(is_pow2);
    }
    true
}

/// A single growth request is honoured at once: the resulting block is long
/// enough for the request, aligned enough for the request, and no shorter
/// or less aligned than before.
pub proof fn lemma_grow_meets_request(b: BlockShape, len: nat, align: nat)
    ensures
        grown(b, len, align).len >= len,
        grown(b, len, align).len >= b.len,
        grown(b, len, align).align >= align,
        grown(b, len, align).align >= b.align,
{
}

/// Law: capacity monotonicity. Across any sequence of growth requests the
/// block never shrinks in either dimension: the final length is at least
/// the starting length and every length ever requested, and the final
/// alignment is at least the starting alignment and every alignment ever
/// requested.
pub proof fn lemma_capacity_monotone(b: BlockShape, reqs: Seq<(nat, nat)>)
    ensures
        grown_all(b, reqs).len >= b.len,
        grown_all(b, reqs).align >= b.align,
        forall|i: int| 0 <= i < reqs.len() ==> grown_all(b, reqs).len >= (#[trigger] reqs[i]).0,
        forall|i: int| 0 <= i < reqs.len() ==> grown_all(b, reqs).align >= (#[trigger] reqs[i]).1,
    decreases reqs.len(),
{
    if reqs.len() > 0 {
        let b1 = grown(b, reqs[0].0, reqs[0].1);
        lemma_grow_meets_request(b, reqs[0].0, reqs[0].1);
        lemma_capacity_monotone(b1, reqs.drop_first());
        assert forall|i: int| 0 <= i < reqs.len() implies grown_all(b, reqs).len >= (
        #[trigger] reqs[i]).0 && grown_all(b, reqs).align >= reqs[i].1 by {
            if i > 0 {
                assert(reqs.drop_first()[i - 1] == reqs[i]);
            }
        }
    }
}

/// Law: alignment rejection. An alignment that is not a power of two makes
/// a valid layout with no length at all, zero included: asking for a block
/// with such an alignment is a contract violation whatever the length.
pub proof fn lemma_invalid_alignment_rejected(len: usize, align: usize)
    requires
        !is_pow2(align as int),
    ensures
        !valid_layout(len, align),
{
}

/// Law: zero-size handling. A block that holds no storage, given only
/// zero-length requests, never allocates: its length stays zero throughout.
pub proof fn lemma_zero_size_never_allocates(b: BlockShape, reqs: Seq<(nat, nat)>)
    requires
        b.len == 0,
        forall|i: int| 0 <= i < reqs.len() ==> (#[trigger] reqs[i]).0 == 0,
    ensures
        grown_all(b, reqs).len == 0,
    decreases reqs.len(),
{
    if reqs.len() > 0 {
        let b1 = grown(b, reqs[0].0, reqs[0].1);
        assert(b1.len == 0);
        assert forall|i: int| 0 <= i < reqs.drop_first().len() implies (#[trigger] reqs.drop_first()[i]).0
            == 0 by {
            assert(reqs.drop_first()[i] == reqs[i + 1]);
        }
        lemma_zero_size_never_allocates(b1, reqs.drop_first());
    }
}

/// Law: round-trip of value. Consuming a value into a block of any shape
/// yields a handle that holds exactly that value.
pub proof fn lemma_consume_round_trip<T>(b: BlockShape, value: T, size: nat, align: nat)
    ensures
        consumed(b, value, size, align).value == value,
{
}

} // verus!
