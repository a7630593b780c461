//! Memory that answers to a range of addresses and denies every access.
use std::ops::RangeInclusive;
use vstd::prelude::*;

use super::range::range_is_empty;
use super::standard::MemoryBuildError;
use super::MemoryError;

verus! {

/// How a null memory is set up.
#[derive(Debug)]
pub struct NullMemoryConfig {
    pub readable: bool,
    pub writable: bool,
    /// The addresses it answers to.
    pub assigned_range: RangeInclusive<usize>,
}

/// Always denies accesses; it exists for machines that need it.
#[derive(Debug)]
pub struct NullMemory;

impl NullMemory {
    /// Every read is refused.
    pub fn memory_read(&self, address: usize, length: usize) -> (r: Result<Vec<u8>, MemoryError>)
        ensures
            r == Err::<Vec<u8>, MemoryError>(MemoryError::Denied),
    {
        Err(MemoryError::Denied)
    }

    /// Every write is refused.
    pub fn memory_write(&self, address: usize, data: &[u8]) -> (r: Result<(), MemoryError>)
        ensures
            r == Err::<(), MemoryError>(MemoryError::Denied),
    {
        Err(MemoryError::Denied)
    }
}

impl NullMemoryConfig {
    /// Builds the memory; refused for an empty range.
    pub fn build_component(self) -> (r: Result<NullMemory, MemoryBuildError>)
        ensures
            r is Err <==> (self.assigned_range@.start > self.assigned_range@.end
                || self.assigned_range@.exhausted),
            r is Err ==> r == Err::<NullMemory, MemoryBuildError>(MemoryBuildError::EmptyRange),
    {
        if range_is_empty(&self.assigned_range) {
            Err(MemoryBuildError::EmptyRange)
        } else {
            Ok(NullMemory)
        }
    }
}

} // verus!
