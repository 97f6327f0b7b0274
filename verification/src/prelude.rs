//! What rendered worlds import.

pub use crate::allocators::{Component, FixedAllocator, GenAllocator};
pub use crate::ids::{GenId, Id, Valid};
pub use crate::traits::{Insert, Link};
