use growable::model::layout_is_valid;
use growable::{replace, Growable, GrowablePool, GrowablePoolBuilder, Reusable};

/// A zero-sized value for allocation tests.
#[derive(Debug, Clone, Copy, PartialEq, Eq)]
struct Nothing;

#[test]
fn grow_never_shrinks() {
    // Capacity is monotone: a block keeps the high-water mark of the sizes
    // it has held.
    let g = Growable::new();
    let h = g.consume([0u8; 100]);
    let g = Reusable::free(h);
    assert_eq!(g.len(), 100);
    assert_eq!(g.alignment(), 1);
    let h = g.consume(7u8);
    let g = Reusable::free(h);
    assert_eq!(g.len(), 100);
    assert_eq!(g.alignment(), 1);
}

#[test]
fn grow_to_alignment() {
    // A block too small for the new value grows to the larger length and
    // the larger alignment.
    let g = Growable::with_capacity(2, 1);
    let h = g.consume(0u64);
    let g = Reusable::free(h);
    assert_eq!(g.len(), 8);
    assert_eq!(g.alignment(), 8);
}

#[test]
fn pool_stack_order() {
    // The pool hands back the most recently freed block first.
    let mut pool = GrowablePoolBuilder::default()
        .with_default_capacity(8)
        .with_default_ptr_alignment(8)
        .with_capacity(2)
        .enable_overgrow(true)
        .build();
    let a = pool.allocate([0u8; 100]);
    let b = pool.allocate(5u8);
    pool.free(b);
    pool.free(a);
    // The front of the pool is now the block that backed `a`, grown to 100
    // bytes; last in, first out.
    let c = pool.allocate(1u8);
    let g = Reusable::free(c);
    assert_eq!(g.len(), 100);
}

#[test]
fn pool_capacity_bound() {
    // With overgrow disabled the idle count never exceeds the target.
    let mut pool = GrowablePoolBuilder::default()
        .with_capacity(2)
        .enable_overgrow(false)
        .build();
    assert_eq!(pool.len(), 2);
    let a = pool.allocate(1u32);
    let b = pool.allocate(2u32);
    let c = pool.allocate(3u32);
    assert_eq!(pool.len(), 1);
    pool.free(a);
    assert_eq!(pool.len(), 2);
    pool.free(b);
    assert_eq!(pool.len(), 2);
    pool.free(c);
    assert_eq!(pool.len(), 2);
}

#[test]
fn zero_size_never_allocates() {
    // A zero-capacity block stays empty through any number of zero-sized
    // consume/free rounds.
    let mut g = Growable::with_capacity(0, 1);
    for _ in 0..4 {
        assert!(g.is_empty());
        assert_eq!(g.len(), 0);
        let h = g.consume(Nothing);
        assert_eq!(*h.value(), Nothing);
        g = Reusable::free(h);
    }
    assert_eq!(g.len(), 0);
}

#[test]
fn layout_validity() {
    // Only a power-of-two alignment makes a valid layout; any length with
    // alignment three is rejected, whatever the length.
    assert!(!layout_is_valid(8, 3));
    assert!(!layout_is_valid(0, 3));
    assert!(!layout_is_valid(4, 0));
    assert!(!layout_is_valid(17, 6));
    assert!(layout_is_valid(0, 1));
    assert!(layout_is_valid(1, 1));
    assert!(layout_is_valid(256, 16));
}

#[test]
fn replace_keeps_storage() {
    // Replacing the value drops the old one but reuses the storage.
    let h = Growable::new().consume(5u64);
    let h = replace(h, [1u8, 2, 3]);
    assert_eq!(h.value(), &[1, 2, 3]);
    let g = Reusable::free(h);
    // The block keeps the eight bytes it grew to for the first value.
    assert_eq!(g.len(), 8);
    assert_eq!(g.alignment(), 8);
}

#[test]
fn value_mut_updates() {
    let mut h = Growable::new().consume(10u32);
    *h.value_mut() = 20;
    assert_eq!(*h.value(), 20);
}

#[test]
fn pool_clone_rebuilds() {
    // Cloning a pool rebuilds it from its configuration; the clone starts
    // with the full target of idle blocks again.
    let mut pool = GrowablePoolBuilder::default().with_capacity(3).build();
    let a = pool.allocate(1u8);
    assert_eq!(pool.len(), 2);
    let copy = pool.clone();
    assert_eq!(copy.len(), 3);
    assert!(!copy.is_empty());
    pool.free(a);
    assert_eq!(pool.len(), 3);
}

#[test]
fn pool_default_is_lazy() {
    // A default pool holds nothing until the first allocation.
    let mut pool = GrowablePool::default();
    assert!(pool.is_empty());
    assert_eq!(pool.len(), 0);
    let a = pool.allocate(9i64);
    assert_eq!(*a.value(), 9);
    // Default blocks hold eight bytes at alignment eight.
    let g = Reusable::free(a);
    assert_eq!(g.len(), 8);
    assert_eq!(g.alignment(), 8);
}

#[test]
fn growable_default_is_empty() {
    let g = Growable::default();
    assert!(g.is_empty());
    assert_eq!(g.len(), 0);
    assert_eq!(g.alignment(), 1);
}

#[test]
fn builder_clone_equal() {
    let mut builder = GrowablePool::builder();
    builder.with_default_capacity(32).with_capacity(4);
    let copy = builder.clone();
    assert_eq!(builder, copy);
    let built = copy.build();
    assert_eq!(built.len(), 4);
}

#[test]
fn alignment_never_shrinks() {
    // Growing the length with a less-aligned request keeps the block's
    // alignment: both dimensions are monotone.
    let g = Growable::with_capacity(8, 8);
    let h = g.consume([0u8; 16]);
    let g = Reusable::free(h);
    assert_eq!(g.len(), 16);
    assert_eq!(g.alignment(), 8);
}
