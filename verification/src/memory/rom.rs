//! Read-only memory showing a bank of a ROM image; the bank can be
//! switched.
use std::ops::RangeInclusive;
use vstd::prelude::*;

use super::range::{range_end, range_is_empty, range_start};
use super::standard::MemoryBuildError;

verus! {

/// How a ROM is set up.
#[derive(Debug)]
pub struct RomMemoryConfig {
    /// The ROM image.
    pub rom: Vec<u8>,
    /// The addresses it answers to; a bank is as long as this range.
    pub assigned_range: RangeInclusive<usize>,
    /// The bank shown at first.
    pub initial_bank: usize,
    /// The part of the image, by offset, that the memory is given.
    pub rom_range: RangeInclusive<usize>,
}

/// Number of values a range holds: none for an empty one.
pub open spec fn range_count(r: RangeInclusive<usize>) -> int {
    if r@.start > r@.end || r@.exhausted {
        0
    } else {
        r@.end - r@.start + 1
    }
}

fn count(r: &RangeInclusive<usize>) -> (n: usize)
    requires
        range_count(*r) <= usize::MAX,
    ensures
        n == range_count(*r),
{
    if range_is_empty(r) {
        0
    } else {
        range_end(r) - range_start(r) + 1
    }
}

/// A bank switched ROM.
#[derive(Debug)]
pub struct RomMemory {
    config: RomMemoryConfig,
    bank: usize,
}

impl RomMemory {
    pub closed spec fn bank_view(&self) -> usize {
        self.bank
    }

    pub closed spec fn config_view(&self) -> RomMemoryConfig {
        self.config
    }

    /// Bytes per bank: the length of the assigned range.
    pub open spec fn bank_size(&self) -> int {
        self.config_view().assigned_range@.end - self.config_view().assigned_range@.start + 1
    }

    /// Offset in the image that `address` shows.
    pub open spec fn offset(&self, address: int) -> int {
        (address - self.config_view().assigned_range@.start) + self.bank_view() * self.bank_size()
    }

    /// The bank shown.
    pub fn bank(&self) -> (r: usize)
        ensures
            r == self.bank_view(),
    {
        self.bank
    }

    /// Shows bank `bank` from now on.
    pub fn swap_banks(&mut self, bank: usize)
        ensures
            final(self).bank_view() == bank,
            final(self).config_view() == old(self).config_view(),
    {
        self.bank = bank;
    }

    /// Gives the memory another part of the image; the new range must hold
    /// as many offsets as the old one.
    pub fn set_rom_range(&mut self, range: RangeInclusive<usize>)
        requires
            range_count(old(self).config_view().rom_range) == range_count(range),
            range_count(range) <= usize::MAX,
        ensures
            final(self).config_view() == (RomMemoryConfig {
                rom_range: range,
                ..old(self).config_view()
            }),
            final(self).bank_view() == old(self).bank_view(),
    {
        self.config.rom_range = range;
    }

    /// Whether `range` holds as many offsets as the memory's part of the
    /// image: what `set_rom_range` asks.
    pub fn same_rom_range_length(&self, range: &RangeInclusive<usize>) -> (r: bool)
        requires
            range_count(self.config_view().rom_range) <= usize::MAX,
            range_count(*range) <= usize::MAX,
        ensures
            r == (range_count(self.config_view().rom_range) == range_count(*range)),
    {
        count(&self.config.rom_range) == count(range)
    }

    /// Reads `length` bytes from `address` on, out of the current bank.
    pub fn read_memory(&self, address: usize, length: usize) -> (r: Vec<u8>)
        requires
            self.config_view().assigned_range@.start <= address,
            self.config_view().assigned_range@.start <= self.config_view().assigned_range@.end,
            self.bank_size() <= usize::MAX,
            self.offset(address as int) + length <= self.config_view().rom@.len(),
        ensures
            r@ == self.config_view().rom@.subrange(
                self.offset(address as int),
                self.offset(address as int) + length,
            ),
    {
        let start = range_start(&self.config.assigned_range);
        let bank_size = range_end(&self.config.assigned_range) - start + 1;
        let n = self.config.rom.len();
        assert(self.offset(address as int) + length <= n);
        proof {
            assert(self.bank * bank_size <= self.offset(address as int)) by (nonlinear_arith)
                requires
                    self.offset(address as int) == (address - start) + self.bank * bank_size,
                    address >= start,
            ;
        }
        let offset = (address - start) + self.bank * bank_size;
        let mut out: Vec<u8> = Vec::new();
        let mut i: usize = 0;
        while i < length
            invariant
                offset == self.offset(address as int),
                n == self.config.rom@.len(),
                offset + length <= n,
                i <= length,
                out@ == self.config.rom@.subrange(offset as int, offset + i),
            decreases length - i,
        {
            out.push(self.config.rom[offset + i]);
            i = i + 1;
            assert(out@ =~= self.config.rom@.subrange(offset as int, offset + i));
        }
        out
    }

    /// Reads as `read_memory` does, for a debugger's view.
    pub fn preview_memory(&self, address: usize, length: usize) -> (r: Vec<u8>)
        requires
            self.config_view().assigned_range@.start <= address,
            self.config_view().assigned_range@.start <= self.config_view().assigned_range@.end,
            self.bank_size() <= usize::MAX,
            self.offset(address as int) + length <= self.config_view().rom@.len(),
        ensures
            r@ == self.config_view().rom@.subrange(
                self.offset(address as int),
                self.offset(address as int) + length,
            ),
    {
        self.read_memory(address, length)
    }
}

impl RomMemoryConfig {
    /// Builds the ROM showing its initial bank; refused for an empty range.
    pub fn build_component(self) -> (r: Result<RomMemory, MemoryBuildError>)
        ensures
            r is Err <==> (self.assigned_range@.start > self.assigned_range@.end
                || self.assigned_range@.exhausted),
            r is Err ==> r == Err::<RomMemory, MemoryBuildError>(MemoryBuildError::EmptyRange),
            r matches Ok(m) ==> m.config_view() == self && m.bank_view() == self.initial_bank,
    {
        if range_is_empty(&self.assigned_range) {
            return Err(MemoryBuildError::EmptyRange);
        }
        let bank = self.initial_bank;
        Ok(RomMemory { config: self, bank })
    }
}

} // verus!
