//! Memory components and the address space processors see them through.
use vstd::prelude::*;

pub mod address_space;
pub mod mirror;
pub mod null;
pub mod range;
pub mod rom;
pub mod standard;

pub use address_space::{AddressSpace, MemoryError};
