//! Memory that shows another range of addresses, possibly of another
//! address space.
use std::ops::RangeInclusive;
use vstd::prelude::*;

use super::address_space::AddressSpace;
use super::range::{range_end, range_is_empty, range_start};
use super::standard::MemoryBuildError;
use super::MemoryError;

verus! {

/// How a mirror is set up.
#[derive(Debug)]
pub struct MirrorMemoryConfig {
    pub readable: bool,
    pub writable: bool,
    /// The addresses the mirror answers to.
    pub source_addresses: RangeInclusive<usize>,
    /// The addresses it shows, in the destination address space.
    pub destination_addresses: RangeInclusive<usize>,
}

/// A mirror of a range of addresses.
#[derive(Debug)]
pub struct MirrorMemory {
    pub config: MirrorMemoryConfig,
}

/// Number of addresses in a range, zero when it holds none.
pub open spec fn range_count(r: RangeInclusive<usize>) -> int {
    if r@.start > r@.end || r@.exhausted {
        0
    } else {
        r@.end - r@.start + 1
    }
}

fn count(r: &RangeInclusive<usize>) -> (n: usize)
    requires
        range_count(*r) <= usize::MAX,
    ensures
        n == range_count(*r),
{
    if range_is_empty(r) {
        0
    } else {
        range_end(r) - range_start(r) + 1
    }
}

impl MirrorMemory {
    /// The destination address an address of the source range shows.
    pub open spec fn adjusted(&self, address: int) -> int {
        self.config.destination_addresses@.start + (address - self.config.source_addresses@.start)
    }

    fn adjust(&self, address: usize) -> (r: usize)
        requires
            self.config.source_addresses@.start <= address,
            self.adjusted(address as int) <= usize::MAX,
        ensures
            r == self.adjusted(address as int),
    {
        range_start(&self.config.destination_addresses) + (address - range_start(
            &self.config.source_addresses,
        ))
    }

    /// Reads `length` bytes from `address` on: what the destination space
    /// holds at the matching addresses.
    pub fn read_memory(&self, address: usize, length: usize, destination: &AddressSpace) -> (r: Result<
        Vec<u8>,
        MemoryError,
    >)
        requires
            destination.wf(),
            self.config.source_addresses@.start <= address,
            self.adjusted(address as int) + length <= usize::MAX,
        ensures
            r is Ok <==> forall|i: int|
                0 <= i < length ==> #[trigger] destination.spec_read(self.adjusted(address as int) + i)
                    is Some,
            r matches Ok(v) ==> v@.len() == length && forall|i: int|
                0 <= i < length ==> Some(#[trigger] v@[i]) == destination.spec_read(
                    self.adjusted(address as int) + i,
                ),
    {
        let adjusted = self.adjust(address);
        destination.read(adjusted, length)
    }

    /// Reads as `read_memory` does, for a debugger's view.
    pub fn preview_memory(&self, address: usize, length: usize, destination: &AddressSpace) -> (r:
        Result<Vec<u8>, MemoryError>)
        requires
            destination.wf(),
            self.config.source_addresses@.start <= address,
            self.adjusted(address as int) + length <= usize::MAX,
        ensures
            r is Ok <==> forall|i: int|
                0 <= i < length ==> #[trigger] destination.spec_read(self.adjusted(address as int) + i)
                    is Some,
            r matches Ok(v) ==> v@.len() == length && forall|i: int|
                0 <= i < length ==> Some(#[trigger] v@[i]) == destination.spec_read(
                    self.adjusted(address as int) + i,
                ),
    {
        self.read_memory(address, length, destination)
    }

    /// Writes `data` from `address` on into the destination space at the
    /// matching addresses.
    pub fn write_memory(&self, address: usize, data: &[u8], destination: &mut AddressSpace) -> (r: Result<
        (),
        MemoryError,
    >)
        requires
            old(destination).wf(),
            self.config.source_addresses@.start <= address,
            self.adjusted(address as int) + data@.len() <= usize::MAX,
        ensures
            final(destination).wf(),
            old(destination).same_mapping(final(destination)),
            r is Ok <==> forall|i: int|
                0 <= i < data@.len() ==> #[trigger] old(destination).spec_can_write(
                    self.adjusted(address as int) + i,
                ),
            r is Ok ==> final(destination).cells() == old(destination).write_all_in(
                old(destination).cells(),
                self.adjusted(address as int),
                data@,
            ),
            r is Err ==> final(destination).cells() == old(destination).cells(),
    {
        let adjusted = self.adjust(address);
        destination.write(adjusted, data)
    }
}

impl MirrorMemoryConfig {
    /// Builds the mirror; refused when the two ranges differ in length or
    /// the source range is empty.
    pub fn build_component(self) -> (r: Result<MirrorMemory, MemoryBuildError>)
        requires
            range_count(self.source_addresses) <= usize::MAX,
            range_count(self.destination_addresses) <= usize::MAX,
        ensures
            range_count(self.source_addresses) != range_count(self.destination_addresses) ==> r
                == Err::<MirrorMemory, MemoryBuildError>(MemoryBuildError::LengthMismatch),
            range_count(self.source_addresses) == range_count(self.destination_addresses)
                && range_count(self.source_addresses) == 0 ==> r == Err::<
                MirrorMemory,
                MemoryBuildError,
            >(MemoryBuildError::EmptyRange),
            r is Ok <==> range_count(self.source_addresses) == range_count(
                self.destination_addresses,
            ) && range_count(self.source_addresses) > 0,
            r matches Ok(m) ==> m.config == self,
    {
        if count(&self.source_addresses) != count(&self.destination_addresses) {
            return Err(MemoryBuildError::LengthMismatch);
        }
        if range_is_empty(&self.source_addresses) {
            return Err(MemoryBuildError::EmptyRange);
        }
        Ok(MirrorMemory { config: self })
    }
}

} // verus!
