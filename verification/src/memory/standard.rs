//! Plain read/write memory: a buffer covering an assigned address range,
//! filled at power on from a map of initial contents or from a save.
use rangemap::RangeInclusiveMap;
use std::ops::RangeInclusive;
use vstd::prelude::*;

use super::address_space::AddressSpace;
use super::range::{range_end, range_is_empty, range_length, range_start};
use super::MemoryError;
use crate::random::random_bytes;

verus! {

#[verifier::external_type_specification]
#[verifier::external_body]
#[verifier::reject_recursive_types(K)]
#[verifier::reject_recursive_types(V)]
#[verifier::reject_recursive_types(StepFnsT)]
pub struct ExRangeInclusiveMap<K, V, StepFnsT>(RangeInclusiveMap<K, V, StepFnsT>);

/// Version of the snapshot and save format: the raw buffer.
pub const MEMORY_SNAPSHOT_VERSION: u32 = 0;

/// What a range of memory holds at power on.
#[derive(Debug, Clone, PartialEq, Eq)]
pub enum StandardMemoryInitialContents {
    /// Every byte the same value.
    Value(u8),
    /// Exactly these bytes, one per address of the range.
    Array(Vec<u8>),
    /// The start of a ROM image, as much of it as fits.
    Rom(Vec<u8>),
    /// Random bytes.
    Random,
}

/// What a map of initial contents holds: its ranges, each as its first
/// and last address, with their contents, in increasing order.
pub uninterp spec fn initial_entries(m: RangeInclusiveMap<usize, StandardMemoryInitialContents>) -> Seq<
    (usize, usize, StandardMemoryInitialContents),
>;

/// The entries of a map of initial contents (`RangeInclusiveMap::iter`),
/// each range as its bounds and each value cloned, in the map's order: by
/// range, the ranges disjoint and each with its first address at most its
/// last.
#[verifier::external_body]
fn content_entries(m: &RangeInclusiveMap<usize, StandardMemoryInitialContents>) -> (r: Vec<
    (usize, usize, StandardMemoryInitialContents),
>)
    ensures
        r@ == initial_entries(*m),
        forall|i: int| 0 <= i < r@.len() ==> #[trigger] r@[i].0 <= r@[i].1,
        forall|i: int, j: int| 0 <= i < j < r@.len() ==> #[trigger] r@[i].1 < #[trigger] r@[j].0,
{
    m.iter().map(|(range, value)| (*range.start(), *range.end(), value.clone())).collect()
}

/// How a block of memory is set up.
#[derive(Debug)]
pub struct StandardMemoryConfig {
    pub readable: bool,
    pub writable: bool,
    /// The addresses the memory answers to.
    pub assigned_range: RangeInclusive<usize>,
    /// What the memory holds at power on, by address.
    pub initial_contents: RangeInclusiveMap<usize, StandardMemoryInitialContents>,
    /// Whether the memory is battery backed and kept in a save.
    pub sram: bool,
}

/// Why a memory component could not be built.
#[derive(Debug, Clone, Copy, PartialEq, Eq, Structural)]
pub enum MemoryBuildError {
    /// The assigned range holds no address.
    EmptyRange,
    /// The save is of a version this component does not read.
    InvalidSaveVersion,
    /// Source and destination of a mirror differ in length.
    LengthMismatch,
}

/// Why a snapshot or save could not be restored.
#[derive(Debug, Clone, Copy, PartialEq, Eq, Structural)]
pub enum MemorySnapshotError {
    /// The snapshot is shorter than the memory.
    Truncated,
}

/// A block of read/write memory.
#[derive(Debug)]
pub struct StandardMemory {
    config: StandardMemoryConfig,
    buffer: Vec<u8>,
}

/// The buffer after the entry `(first, last, contents)` is applied to it,
/// addresses counted from `base`; `random` gives the bytes of a random
/// range, by buffer index.
pub open spec fn apply_entry(
    buffer: Seq<u8>,
    base: int,
    entry: (usize, usize, StandardMemoryInitialContents),
    random: Seq<u8>,
) -> Seq<u8> {
    let low = entry.0 - base;
    let high = entry.1 - base;
    Seq::new(
        buffer.len(),
        |k: int|
            if low <= k <= high {
                match entry.2 {
                    StandardMemoryInitialContents::Value(v) => v,
                    StandardMemoryInitialContents::Array(a) => a@[k - low],
                    StandardMemoryInitialContents::Rom(rom) => if k - low < rom@.len() {
                        rom@[k - low]
                    } else {
                        buffer[k]
                    },
                    StandardMemoryInitialContents::Random => random[k],
                }
            } else {
                buffer[k]
            },
    )
}

/// The buffer after the entries are applied in order.
pub open spec fn apply_entries(
    buffer: Seq<u8>,
    base: int,
    entries: Seq<(usize, usize, StandardMemoryInitialContents)>,
    random: Seq<u8>,
) -> Seq<u8>
    decreases entries.len(),
{
    if entries.len() == 0 {
        buffer
    } else {
        apply_entry(
            apply_entries(buffer, base, entries.drop_last(), random),
            base,
            entries.last(),
            random,
        )
    }
}

/// The buffer with `data` written from index `start` on.
pub open spec fn overwritten(buffer: Seq<u8>, start: int, data: Seq<u8>) -> Seq<u8> {
    Seq::new(
        buffer.len(),
        |k: int|
            if start <= k < start + data.len() {
                data[k - start]
            } else {
                buffer[k]
            },
    )
}

/// Reading back what was just written gives the written bytes; the rest of
/// the buffer is untouched.
pub proof fn lemma_read_back(buffer: Seq<u8>, start: int, data: Seq<u8>)
    requires
        0 <= start,
        start + data.len() <= buffer.len(),
    ensures
        overwritten(buffer, start, data).subrange(start, start + data.len()) == data,
        forall|k: int|
            0 <= k < buffer.len() && !(start <= k < start + data.len()) ==> #[trigger] overwritten(
                buffer,
                start,
                data,
            )[k] == buffer[k],
{
    assert(overwritten(buffer, start, data).subrange(start, start + data.len()) =~= data);
}

/// Reads give back the last bytes written. In a memory whose buffer holds
/// one byte per address of its assigned range, a write of `data` that lies
/// inside the range is one `memory_write` takes; a read of as many bytes at
/// the same address is then one `memory_read` takes, and it gives `data`.
/// The write keeps the buffer's length, so the memory stays well formed.
pub proof fn lemma_read_after_write(m: StandardMemory, address: int, data: Seq<u8>)
    requires
        m.wf(),
        data.len() >= 1,
        m.config_view().assigned_range@.start <= address,
        address + data.len() - 1 <= m.config_view().assigned_range@.end,
    ensures
        m.base() <= address,
        address - m.base() + data.len() <= m.buffer_view().len(),
        ({
            let written = overwritten(m.buffer_view(), address - m.base(), data);
            &&& written.len() == m.buffer_view().len()
            &&& written.subrange(address - m.base(), address - m.base() + data.len()) == data
        }),
{
    lemma_read_back(m.buffer_view(), address - m.base(), data);
}

/// Applying entries keeps the buffer's length.
proof fn lemma_apply_entries_len(
    buffer: Seq<u8>,
    base: int,
    entries: Seq<(usize, usize, StandardMemoryInitialContents)>,
    random: Seq<u8>,
)
    ensures
        apply_entries(buffer, base, entries, random).len() == buffer.len(),
    decreases entries.len(),
{
    if entries.len() > 0 {
        lemma_apply_entries_len(buffer, base, entries.drop_last(), random);
    }
}

/// Whether an entry fits a buffer of `length` bytes for addresses from
/// `base` on: it lies inside, and an array has one byte per address.
pub open spec fn entry_fits(entry: (usize, usize, StandardMemoryInitialContents), base: int, length: int) -> bool {
    &&& base <= entry.0 <= entry.1
    &&& entry.1 - base < length
    &&& entry.2 matches StandardMemoryInitialContents::Array(a) ==> a@.len() == entry.1 - entry.0 + 1
}

impl StandardMemory {
    pub closed spec fn buffer_view(&self) -> Seq<u8> {
        self.buffer@
    }

    pub closed spec fn config_view(&self) -> StandardMemoryConfig {
        self.config
    }

    /// First address the memory answers to.
    pub open spec fn base(&self) -> int {
        self.config_view().assigned_range@.start as int
    }

    /// The buffer holds one byte for each address of the assigned range:
    /// so the builder makes every memory, and writes and snapshot loads keep
    /// the buffer's length and the setup.
    pub open spec fn wf(&self) -> bool {
        self.buffer_view().len() == self.config_view().size()
    }

    /// The memory's contents.
    pub fn buffer(&self) -> (r: &Vec<u8>)
        ensures
            r@ == self.buffer_view(),
    {
        &self.buffer
    }

    /// Applies the entries in order to the buffer; `random` gives the bytes
    /// of random ranges, by buffer index.
    pub fn initialize_buffer_with(
        &mut self,
        entries: &Vec<(usize, usize, StandardMemoryInitialContents)>,
        random: &Vec<u8>,
    )
        requires
            random@.len() == old(self).buffer_view().len(),
            forall|i: int|
                0 <= i < entries@.len() ==> entry_fits(
                    #[trigger] entries@[i],
                    old(self).base(),
                    old(self).buffer_view().len() as int,
                ),
        ensures
            final(self).config_view() == old(self).config_view(),
            final(self).buffer_view() == apply_entries(
                old(self).buffer_view(),
                old(self).base(),
                entries@,
                random@,
            ),
    {
        let base = range_start(&self.config.assigned_range);
        let mut i: usize = 0;
        while i < entries.len()
            invariant
                self.config == old(self).config,
                base == old(self).base(),
                random@.len() == self.buffer@.len(),
                self.buffer@.len() == old(self).buffer@.len(),
                i <= entries@.len(),
                forall|j: int|
                    0 <= j < entries@.len() ==> entry_fits(
                        #[trigger] entries@[j],
                        base as int,
                        old(self).buffer@.len() as int,
                    ),
                self.buffer@ == apply_entries(
                    old(self).buffer@,
                    base as int,
                    entries@.subrange(0, i as int),
                    random@,
                ),
            decreases entries@.len() - i,
        {
            let ghost before = self.buffer@;
            let entry = &entries[i];
            assert(entry_fits(entries@[i as int], base as int, old(self).buffer@.len() as int));
            let low = entry.0 - base;
            let high = entry.1 - base;
            let length = self.buffer.len();
            assert(high < length);
            let mut k = low;
            while k <= high
                invariant
                    self.config == old(self).config,
                    high < usize::MAX,
                    low <= k <= high + 1,
                    high < self.buffer@.len(),
                    high == entry.1 - base,
                    low == entry.0 - base,
                    random@.len() == self.buffer@.len(),
                    self.buffer@.len() == before.len(),
                    *entry == entries@[i as int],
                    entry.2 matches StandardMemoryInitialContents::Array(a) ==> a@.len() == high - low
                        + 1,
                    forall|m: int|
                        0 <= m < self.buffer@.len() ==> #[trigger] self.buffer@[m] == if low <= m < k {
                            apply_entry(before, base as int, *entry, random@)[m]
                        } else {
                            before[m]
                        },
                decreases high + 1 - k,
            {
                match &entry.2 {
                    StandardMemoryInitialContents::Value(v) => {
                        self.buffer.set(k, *v);
                    },
                    StandardMemoryInitialContents::Array(a) => {
                        self.buffer.set(k, a[k - low]);
                    },
                    StandardMemoryInitialContents::Rom(rom) => {
                        if k - low < rom.len() {
                            self.buffer.set(k, rom[k - low]);
                        }
                    },
                    StandardMemoryInitialContents::Random => {
                        self.buffer.set(k, random[k]);
                    },
                }
                k = k + 1;
            }
            assert(self.buffer@ =~= apply_entry(before, base as int, *entry, random@));
            assert(entries@.subrange(0, i + 1).drop_last() =~= entries@.subrange(0, i as int));
            i = i + 1;
        }
        assert(entries@.subrange(0, entries@.len() as int) =~= entries@);
    }

    /// Fills the buffer from the configured initial contents, in the map's
    /// order; random ranges get bytes drawn from the thread-local generator.
    pub fn initialize_buffer(&mut self)
        requires
            forall|i: int|
                0 <= i < initial_entries(old(self).config_view().initial_contents).len()
                    ==> entry_fits(
                    #[trigger] initial_entries(old(self).config_view().initial_contents)[i],
                    old(self).base(),
                    old(self).buffer_view().len() as int,
                ),
        ensures
            final(self).config_view() == old(self).config_view(),
            exists|random: Seq<u8>|
                {
                    &&& random.len() == old(self).buffer_view().len()
                    &&& final(self).buffer_view() == apply_entries(
                        old(self).buffer_view(),
                        old(self).base(),
                        initial_entries(old(self).config_view().initial_contents),
                        random,
                    )
                },
    {
        let entries = content_entries(&self.config.initial_contents);
        let random = random_bytes(self.buffer.len());
        self.initialize_buffer_with(&entries, &random);
    }
}

impl StandardMemory {
    /// Reads `length` bytes from `address` on.
    pub fn memory_read(&self, address: usize, length: usize) -> (r: Result<Vec<u8>, MemoryError>)
        requires
            self.base() <= address,
            address - self.base() + length <= self.buffer_view().len(),
            address - self.base() + length >= 1,
        ensures
            r matches Ok(v) && v@ == self.buffer_view().subrange(
                address - self.base(),
                address - self.base() + length,
            ),
    {
        let start = address - range_start(&self.config.assigned_range);
        let n = self.buffer.len();
        let mut out: Vec<u8> = Vec::new();
        let mut i: usize = 0;
        while i < length
            invariant
                n == self.buffer@.len(),
                start + length <= n,
                i <= length,
                out@ == self.buffer@.subrange(start as int, start + i),
            decreases length - i,
        {
            out.push(self.buffer[start + i]);
            i = i + 1;
            assert(out@ =~= self.buffer@.subrange(start as int, start + i));
        }
        Ok(out)
    }

    /// Writes `data` from `address` on.
    pub fn memory_write(&mut self, address: usize, data: &[u8]) -> (r: Result<(), MemoryError>)
        requires
            old(self).base() <= address,
            address - old(self).base() + data@.len() <= old(self).buffer_view().len(),
            address - old(self).base() + data@.len() >= 1,
        ensures
            r is Ok,
            final(self).config_view() == old(self).config_view(),
            final(self).buffer_view() == overwritten(
                old(self).buffer_view(),
                address - old(self).base(),
                data@,
            ),
    {
        let start = address - range_start(&self.config.assigned_range);
        let n = self.buffer.len();
        let mut i: usize = 0;
        while i < data.len()
            invariant
                self.config == old(self).config,
                n == self.buffer@.len(),
                start + data@.len() <= n,
                self.buffer@.len() == old(self).buffer@.len(),
                i <= data@.len(),
                forall|k: int|
                    0 <= k < self.buffer@.len() ==> #[trigger] self.buffer@[k] == if start <= k < start
                        + i {
                        data@[k - start]
                    } else {
                        old(self).buffer@[k]
                    },
            decreases data@.len() - i,
        {
            self.buffer.set(start + i, data[i]);
            i = i + 1;
        }
        assert(self.buffer@ =~= overwritten(old(self).buffer@, address - old(self).base(), data@));
        Ok(())
    }

    /// The memory's state as a snapshot stores it: the raw buffer.
    pub fn store_snapshot(&self) -> (r: Vec<u8>)
        ensures
            r@ == self.buffer_view(),
    {
        let mut out: Vec<u8> = Vec::new();
        let mut i: usize = 0;
        while i < self.buffer.len()
            invariant
                i <= self.buffer@.len(),
                out@ == self.buffer@.subrange(0, i as int),
            decreases self.buffer@.len() - i,
        {
            out.push(self.buffer[i]);
            i = i + 1;
            assert(out@ =~= self.buffer@.subrange(0, i as int));
        }
        assert(out@ =~= self.buffer@);
        out
    }

    /// Restores the buffer from a snapshot of version `version`, which must
    /// hold at least as many bytes as the memory; extra bytes are left
    /// unread. Refused, with the memory unchanged, when it is shorter.
    pub fn load_snapshot(&mut self, version: u32, snapshot: &[u8]) -> (r: Result<(), MemorySnapshotError>)
        requires
            version == MEMORY_SNAPSHOT_VERSION,
        ensures
            final(self).config_view() == old(self).config_view(),
            r is Ok <==> snapshot@.len() >= old(self).buffer_view().len(),
            r is Ok ==> final(self).buffer_view() == snapshot@.subrange(
                0,
                old(self).buffer_view().len() as int,
            ),
            r is Err ==> final(self).buffer_view() == old(self).buffer_view(),
    {
        if snapshot.len() < self.buffer.len() {
            return Err(MemorySnapshotError::Truncated);
        }
        let mut i: usize = 0;
        while i < self.buffer.len()
            invariant
                self.config == old(self).config,
                self.buffer@.len() == old(self).buffer@.len(),
                snapshot@.len() >= self.buffer@.len(),
                i <= self.buffer@.len(),
                forall|k: int|
                    0 <= k < self.buffer@.len() ==> #[trigger] self.buffer@[k] == if k < i {
                        snapshot@[k]
                    } else {
                        old(self).buffer@[k]
                    },
            decreases self.buffer@.len() - i,
        {
            self.buffer.set(i, snapshot[i]);
            i = i + 1;
        }
        assert(self.buffer@ =~= snapshot@.subrange(0, old(self).buffer@.len() as int));
        Ok(())
    }

    /// The save format's version, for memory kept in saves.
    pub fn save_version(&self) -> (r: Option<u32>)
        ensures
            r == if self.config_view().sram {
                Some(MEMORY_SNAPSHOT_VERSION)
            } else {
                None
            },
    {
        if self.config.sram {
            Some(MEMORY_SNAPSHOT_VERSION)
        } else {
            None
        }
    }

    /// The save of battery backed memory: the same bytes as a snapshot.
    pub fn store_save(&self) -> (r: Vec<u8>)
        requires
            self.config_view().sram,
        ensures
            r@ == self.buffer_view(),
    {
        self.store_snapshot()
    }

    /// Maps the memory into an address space over its assigned range, with
    /// its permissions and contents.
    pub fn map_into(&self, space: &mut AddressSpace)
        requires
            old(space).wf(),
            self.base() + self.buffer_view().len() <= old(space).size(),
            self.buffer_view().len() >= 1,
        ensures
            final(space).wf(),
            final(space).spec_width() == old(space).spec_width(),
            forall|a: int|
                #![trigger final(space).cell(a)]
                self.base() <= a < self.base() + self.buffer_view().len() ==> final(space).cell(a) == a
                    && final(space).is_readable(a) == self.config_view().readable
                    && final(space).is_writable(a) == self.config_view().writable,
            forall|a: int|
                #![trigger final(space).cell(a)]
                0 <= a < final(space).size() && !(self.base() <= a < self.base()
                    + self.buffer_view().len()) ==> final(space).cell(a) == old(space).cell(a)
                    && final(space).is_readable(a) == old(space).is_readable(a)
                    && final(space).is_writable(a) == old(space).is_writable(a),
            forall|c: int|
                #![trigger final(space).cells()[c]]
                0 <= c < final(space).size() ==> final(space).cells()[c] == if self.base() <= c
                    < self.base() + self.buffer_view().len() {
                    self.buffer_view()[c - self.base()]
                } else {
                    old(space).cells()[c]
                },
    {
        proof {
            super::address_space::lemma_wf(space);
        }
        let start = range_start(&self.config.assigned_range);
        let end = start + (self.buffer.len() - 1);
        space.map_contents(
            start,
            end,
            self.config.readable,
            self.config.writable,
            self.buffer.as_slice(),
        );
    }
}

impl StandardMemoryConfig {
    /// Number of addresses the memory answers to, for an assigned range that
    /// holds some.
    pub open spec fn size(&self) -> int {
        range_length(self.assigned_range)
    }

    /// Whether every range of initial contents lies inside the assigned
    /// range and every array has one byte per address of its range: what
    /// filling the memory needs not to fail.
    pub fn initial_contents_fit(&self) -> (r: bool)
        requires
            !(self.assigned_range@.start > self.assigned_range@.end
                || self.assigned_range@.exhausted),
            self.size() <= usize::MAX,
        ensures
            r == forall|i: int|
                0 <= i < initial_entries(self.initial_contents).len() ==> entry_fits(
                    #[trigger] initial_entries(self.initial_contents)[i],
                    self.assigned_range@.start as int,
                    self.size(),
                ),
    {
        let entries = content_entries(&self.initial_contents);
        let base = range_start(&self.assigned_range);
        let size = range_end(&self.assigned_range) - base + 1;
        let mut i: usize = 0;
        while i < entries.len()
            invariant
                entries@ == initial_entries(self.initial_contents),
                base == self.assigned_range@.start,
                size == self.size(),
                i <= entries@.len(),
                forall|j: int|
                    0 <= j < i ==> entry_fits(#[trigger] entries@[j], base as int, size as int),
            decreases entries@.len() - i,
        {
            let entry = &entries[i];
            let fits_range = base <= entry.0 && entry.0 <= entry.1 && entry.1 - base < size;
            let fits_length = match &entry.2 {
                StandardMemoryInitialContents::Array(a) => fits_range && a.len() == entry.1
                    - entry.0 + 1,
                _ => true,
            };
            if !(fits_range && fits_length) {
                assert(!entry_fits(entries@[i as int], base as int, size as int));
                return false;
            }
            i = i + 1;
        }
        true
    }

    /// What building needs, for a nonempty range: a size that fits in a
    /// `usize`, and either initial contents that fit the range, or a save
    /// that the memory takes covering the whole memory.
    pub open spec fn build_ready(self, save: Option<(Vec<u8>, u32)>) -> bool {
        !(self.assigned_range@.start > self.assigned_range@.end || self.assigned_range@.exhausted)
            ==> {
            &&& self.size() <= usize::MAX
            &&& match save {
                Some((bytes, version)) => (version == 0 && self.sram) ==> bytes@.len()
                    >= self.size(),
                None => forall|i: int|
                    0 <= i < initial_entries(self.initial_contents).len() ==> entry_fits(
                        #[trigger] initial_entries(self.initial_contents)[i],
                        self.assigned_range@.start as int,
                        self.size(),
                    ),
            }
        }
    }

    /// What building gives: an empty range is refused, so is a save the
    /// memory does not take; otherwise the memory, its buffer the save's
    /// start or, without a save, zeros with the initial contents applied.
    pub open spec fn built(
        self,
        save: Option<(Vec<u8>, u32)>,
        r: Result<StandardMemory, MemoryBuildError>,
    ) -> bool {
        &&& r is Err <==> (self.assigned_range@.start > self.assigned_range@.end
            || self.assigned_range@.exhausted) || (save matches Some((_, version)) && !(version
            == 0 && self.sram))
        &&& (self.assigned_range@.start > self.assigned_range@.end
            || self.assigned_range@.exhausted) ==> r == Err::<StandardMemory, MemoryBuildError>(
            MemoryBuildError::EmptyRange,
        )
        &&& !(self.assigned_range@.start > self.assigned_range@.end
            || self.assigned_range@.exhausted) ==> (r matches Err(e) ==> e
            == MemoryBuildError::InvalidSaveVersion)
        &&& r matches Ok(m) ==> {
            &&& m.config_view() == self
            &&& m.buffer_view().len() == self.size()
            &&& match save {
                Some((bytes, _)) => m.buffer_view() == bytes@.subrange(0, self.size()),
                None => exists|random: Seq<u8>|
                    {
                        &&& random.len() == self.size()
                        &&& m.buffer_view() == apply_entries(
                            Seq::new(self.size() as nat, |k: int| 0u8),
                            self.assigned_range@.start as int,
                            initial_entries(self.initial_contents),
                            random,
                        )
                    },
            }
        }
    }

    /// Builds the memory after testing what building needs. Gives `None`
    /// where the test fails (initial contents outside the range, a save the
    /// memory takes that is shorter than it, or a range holding every
    /// address), where filling the buffer would fail; otherwise what
    /// `build_component` gives.
    pub fn build_checked(self, save: Option<(Vec<u8>, u32)>) -> (r: Option<
        Result<StandardMemory, MemoryBuildError>,
    >)
        ensures
            r is None <==> !self.build_ready(save),
            r matches Some(built) ==> self.built(save, built),
    {
        if range_is_empty(&self.assigned_range) {
            return Some(self.build_component(save));
        }
        let start = range_start(&self.assigned_range);
        let end = range_end(&self.assigned_range);
        if start == 0 && end == usize::MAX {
            return None;
        }
        let size = end - start + 1;
        let ready = match &save {
            Some((bytes, version)) => !(*version == 0 && self.sram) || bytes.len() >= size,
            None => self.initial_contents_fit(),
        };
        if ready {
            Some(self.build_component(save))
        } else {
            None
        }
    }

    /// Builds the memory: refused for an empty range. With a save of
    /// version 0 for battery backed memory the buffer is the save's start;
    /// any other save is refused; without one the buffer starts at zero and
    /// is filled from the initial contents.
    pub fn build_component(self, save: Option<(Vec<u8>, u32)>) -> (r: Result<
        StandardMemory,
        MemoryBuildError,
    >)
        requires
            self.build_ready(save),
        ensures
            self.built(save, r),
    {
        if range_is_empty(&self.assigned_range) {
            return Err(MemoryBuildError::EmptyRange);
        }
        let size = range_end(&self.assigned_range) - range_start(&self.assigned_range) + 1;
        let mut buffer: Vec<u8> = Vec::new();
        let mut i: usize = 0;
        while i < size
            invariant
                i <= size,
                buffer@ == Seq::new(i as nat, |k: int| 0u8),
            decreases size - i,
        {
            buffer.push(0);
            i = i + 1;
            assert(buffer@ =~= Seq::new(i as nat, |k: int| 0u8));
        }
        let sram = self.sram;
        let ghost old_range = self.assigned_range;
        let ghost given = self;
        let mut memory = StandardMemory { config: self, buffer };
        match save {
            Some((bytes, version)) => {
                if version == 0 && sram {
                    assert(bytes@.len() >= size);
                    let loaded = memory.load_snapshot(0, bytes.as_slice());
                    assert(loaded is Ok);
                    Ok(memory)
                } else {
                    Err(MemoryBuildError::InvalidSaveVersion)
                }
            },
            None => {
                memory.initialize_buffer();
                proof {
                    let random = choose|random: Seq<u8>|
                        {
                            &&& random.len() == size
                            &&& memory.buffer_view() == apply_entries(
                                Seq::new(size as nat, |k: int| 0u8),
                                old_range@.start as int,
                                initial_entries(given.initial_contents),
                                random,
                            )
                        };
                    lemma_apply_entries_len(
                        Seq::new(size as nat, |k: int| 0u8),
                        old_range@.start as int,
                        initial_entries(given.initial_contents),
                        random,
                    );
                }
                Ok(memory)
            },
        }
    }
}

} // verus!
