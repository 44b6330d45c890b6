//! A growable, reusable memory block abstraction with a pool allocator on top.
//!
//! A [`Growable`] tracks a block of reusable storage: how many bytes it can
//! hold and the alignment it was created with. Consuming a value into a block
//! yields a [`Reusable`], an owned, box-like handle; freeing the handle drops
//! the value and recovers the block, which can then hold a value of a
//! *different* type without growing unless the new type needs more room.
//! A [`GrowablePool`] keeps a last-in-first-out reservoir of idle blocks so
//! that repeated allocate/free cycles converge to a steady state.
//!
//! Every operation carries a contract over a small mathematical model
//! (see [`model`]): the block's shape (length and alignment), the handle's
//! shape (value plus block), and the pool's shape (configuration plus the
//! sequence of idle block shapes).

pub mod block;
pub mod model;
pub mod pool;

pub use block::replace;
pub use block::Growable;
pub use block::Reusable;
pub use pool::GrowablePool;
pub use pool::GrowablePoolBuilder;
