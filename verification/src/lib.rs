//! Entity storage schema for an ECS-style data layer: identifier spaces,
//! slot allocators, arena declarations and the lifetime-safety validator
//! over their ownership and reference graph.

pub mod allocators;
pub mod arenas;
pub mod bits;
pub mod components;
pub mod compound_entity;
pub mod errors;
pub mod ids;
pub mod implementations;
pub mod link_map;
pub mod links;
pub mod names;
pub mod pool;
pub mod prelude;
pub mod structs;
pub mod traits;
pub mod validate;
pub mod world;

pub use crate::allocators::{Component, FixedAllocator, GenAllocator};
pub use crate::arenas::Arena;
pub use crate::components::{ComponentType, StaticComponent, Storage};
pub use crate::compound_entity::CompoundEntity;
pub use crate::errors::SchemaError;
pub use crate::ids::{Allocator, GenId, Generation, Id, Valid};
pub use crate::implementations::LinkImplementation;
pub use crate::link_map::{Edge, LinkMap};
pub use crate::links::{LinkRole, LinkType};
pub use crate::names::{is_valid_name, parse_name};
pub use crate::structs::{Field, Struct, Visibility};
pub use crate::traits::Insert;
pub use crate::validate::Rule;
pub use crate::world::{LinkEntry, World};
