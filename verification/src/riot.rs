//! The MOS 6532 RAM-I/O-Timer: 128 bytes of RAM, two I/O ports handled by
//! callbacks, and interval timers counting processor cycles.
use rangemap::RangeInclusiveMap;
use vstd::prelude::*;

use crate::memory::standard::{
    MemoryBuildError, StandardMemory, StandardMemoryConfig, StandardMemoryInitialContents,
    initial_entries,
};
use crate::memory::MemoryError;

verus! {

/// The older model of the chip's state: its RAM and registers.
pub struct M6532Riot {
    ram: [u8; 128],
    swcha: u8,
    swacnt: u8,
    swchb: u8,
    swbcnt: u8,
    intim: u8,
    instat: u8,
}

/// The older model's setup, which holds nothing.
pub struct M6532RiotConfig {}

/// Version of the chip's snapshot format.
pub const RIOT_SNAPSHOT_VERSION: u32 = 0;
/// Bytes of RAM.
pub const RIOT_RAM_SIZE: usize = 128;

/// Port A: what `SWCHA` reads and writes go to.
pub trait SwchaCallback {
    fn read_register(&self) -> u8;

    fn write_register(&self, value: u8);
}

/// Port B: what `SWCHB` reads and writes go to.
pub trait SwchbCallback {
    fn read_register(&self) -> u8;

    fn write_register(&self, value: u8);
}

/// A timer that counts in steps of a number of cycles.
#[derive(Debug, Default, Clone, Copy, PartialEq, Eq, Structural)]
pub struct Counter {
    /// Cycle count at which the timer last stepped.
    pub last_updated: u64,
    pub value: u8,
}

/// What a snapshot of the chip holds.
#[derive(Debug, Clone, Copy, PartialEq, Eq, Structural)]
pub struct Snapshot {
    pub swacnt: bool,
    pub swbcnt: bool,
    pub intim: u8,
    pub instat: u8,
    pub tim1t: u8,
    pub tim8t: Counter,
    pub tim64t: Counter,
    pub t1024t: Counter,
}

/// How the chip is set up.
#[derive(Debug, Clone, Copy)]
pub struct Mos6532RiotConfig {
    /// Cycles per second.
    pub frequency: u32,
    /// First of the 32 register addresses.
    pub registers_assigned_address: usize,
    /// First of the 128 RAM addresses.
    pub ram_assigned_address: usize,
}

/// Why a snapshot could not be restored.
#[derive(Debug, Clone, Copy, PartialEq, Eq, Structural)]
pub enum RiotSnapshotError {
    UnsupportedVersion,
}

/// The chip.
pub struct Mos6532Riot {
    swcha: Option<Box<dyn SwchaCallback>>,
    swchb: Option<Box<dyn SwchbCallback>>,
    swacnt: bool,
    swbcnt: bool,
    intim: u8,
    instat: u8,
    tim1t: u8,
    tim8t: Counter,
    tim64t: Counter,
    t1024t: Counter,
    time_counter: u64,
    config: Mos6532RiotConfig,
}

/// A counter after `time` cycles when it steps every `period` cycles: it
/// takes all the steps due since it last stepped.
pub open spec fn counter_after(counter: Counter, time: u64, period: u64) -> Counter {
    let steps = (time - counter.last_updated) / (period as int);
    Counter {
        last_updated: (counter.last_updated + steps * period) as u64,
        value: ((counter.value + steps) % 256) as u8,
    }
}

/// The value a read of register `offset` gives, when it does not go to a
/// port; `None` where the read is refused or goes to a port.
pub open spec fn register_value(riot: Snapshot, offset: int) -> Option<u8> {
    if offset == 1 {
        Some(
            if riot.swacnt {
                1u8
            } else {
                0u8
            },
        )
    } else if offset == 3 {
        Some(
            if riot.swbcnt {
                1u8
            } else {
                0u8
            },
        )
    } else if offset == 4 {
        Some(riot.intim)
    } else if offset == 5 {
        Some(riot.instat)
    } else if offset == 0x14 {
        Some(riot.tim1t)
    } else if offset == 0x15 {
        Some(riot.tim8t.value)
    } else if offset == 0x16 {
        Some(riot.tim64t.value)
    } else if offset == 0x17 {
        Some(riot.t1024t.value)
    } else {
        None
    }
}

/// Whether a read of register `offset` goes to port A, and port B.
pub open spec fn reads_port_a(riot: Snapshot, offset: int, avoid_side_effects: bool) -> bool {
    offset == 0 && !avoid_side_effects && riot.swacnt
}

pub open spec fn reads_port_b(riot: Snapshot, offset: int, avoid_side_effects: bool) -> bool {
    offset == 2 && !avoid_side_effects && riot.swbcnt
}

/// Whether a read of register `offset` is answered.
pub open spec fn register_readable(riot: Snapshot, offset: int, avoid_side_effects: bool) -> bool {
    reads_port_a(riot, offset, avoid_side_effects) || reads_port_b(riot, offset, avoid_side_effects)
        || register_value(riot, offset) is Some
}

/// The registers after a write of `value` to register `offset`; `None`
/// where the write is refused. A write to a port leaves them as they are.
pub open spec fn register_write(riot: Snapshot, offset: int, value: u8) -> Option<Snapshot> {
    if offset == 0 && !riot.swacnt {
        Some(riot)
    } else if offset == 1 {
        Some(Snapshot { swacnt: value != 0, ..riot })
    } else if offset == 2 && !riot.swbcnt {
        Some(riot)
    } else if offset == 3 {
        Some(Snapshot { swbcnt: value != 0, ..riot })
    } else if offset == 0x14 {
        Some(Snapshot { tim1t: value, ..riot })
    } else if offset == 0x15 {
        Some(Snapshot { tim8t: Counter { value, ..riot.tim8t }, ..riot })
    } else if offset == 0x16 {
        Some(Snapshot { tim64t: Counter { value, ..riot.tim64t }, ..riot })
    } else if offset == 0x17 {
        Some(Snapshot { t1024t: Counter { value, ..riot.t1024t }, ..riot })
    } else {
        None
    }
}

/// The registers after the writes of `data`, byte `i` to register
/// `offset + i`, up to the first refused one; and whether all went through.
pub open spec fn registers_written(riot: Snapshot, offset: int, data: Seq<u8>) -> (Snapshot, bool)
    decreases data.len(),
{
    if data.len() == 0 {
        (riot, true)
    } else {
        match register_write(riot, offset, data[0]) {
            Some(next) => registers_written(next, offset + 1, data.drop_first()),
            None => (riot, false),
        }
    }
}

/// Whether every write of `data` to a port finds a callback installed for it.
pub open spec fn port_writes_defined(
    riot: Snapshot,
    offset: int,
    data: Seq<u8>,
    has_a: bool,
    has_b: bool,
) -> bool
    decreases data.len(),
{
    if data.len() == 0 {
        true
    } else {
        &&& (offset == 0 && !riot.swacnt ==> has_a)
        &&& (offset == 2 && !riot.swbcnt ==> has_b)
        &&& match register_write(riot, offset, data[0]) {
            Some(next) => port_writes_defined(next, offset + 1, data.drop_first(), has_a, has_b),
            None => true,
        }
    }
}

impl Mos6532Riot {
    /// The registers and timers, as a snapshot holds them.
    pub closed spec fn registers(&self) -> Snapshot {
        Snapshot {
            swacnt: self.swacnt,
            swbcnt: self.swbcnt,
            intim: self.intim,
            instat: self.instat,
            tim1t: self.tim1t,
            tim8t: self.tim8t,
            tim64t: self.tim64t,
            t1024t: self.t1024t,
        }
    }

    /// Cycles counted since power on.
    pub closed spec fn time(&self) -> u64 {
        self.time_counter
    }

    pub closed spec fn config_view(&self) -> Mos6532RiotConfig {
        self.config
    }

    pub closed spec fn has_swcha(&self) -> bool {
        self.swcha is Some
    }

    pub closed spec fn has_swchb(&self) -> bool {
        self.swchb is Some
    }

    /// First register address.
    pub open spec fn base(&self) -> int {
        self.config_view().registers_assigned_address as int
    }

    /// Cycles counted since power on.
    pub fn time_counter(&self) -> (r: u64)
        ensures
            r == self.time(),
    {
        self.time_counter
    }

    /// Installs port A's callback.
    pub fn install_swcha(&mut self, callback: Box<dyn SwchaCallback>)
        ensures
            final(self).registers() == old(self).registers(),
            final(self).time() == old(self).time(),
            final(self).config_view() == old(self).config_view(),
            final(self).has_swcha(),
            final(self).has_swchb() == old(self).has_swchb(),
    {
        self.swcha = Some(callback);
    }

    /// Installs port B's callback.
    pub fn install_swchb(&mut self, callback: Box<dyn SwchbCallback>)
        ensures
            final(self).registers() == old(self).registers(),
            final(self).time() == old(self).time(),
            final(self).config_view() == old(self).config_view(),
            final(self).has_swchb(),
            final(self).has_swcha() == old(self).has_swcha(),
    {
        self.swchb = Some(callback);
    }

    /// The byte a read of register `offset` gives, where `port_a` and
    /// `port_b` are what the ports' callbacks answer; refused where nothing
    /// readable is, and for the ports when side effects are to be avoided.
    pub fn read_register_value(
        &self,
        offset: usize,
        avoid_side_effects: bool,
        port_a: u8,
        port_b: u8,
    ) -> (r: Result<u8, MemoryError>)
        ensures
            r is Ok <==> register_readable(self.registers(), offset as int, avoid_side_effects),
            reads_port_a(self.registers(), offset as int, avoid_side_effects) ==> r == Ok::<
                u8,
                MemoryError,
            >(port_a),
            reads_port_b(self.registers(), offset as int, avoid_side_effects) ==> r == Ok::<
                u8,
                MemoryError,
            >(port_b),
            register_value(self.registers(), offset as int) matches Some(v) ==> r == Ok::<
                u8,
                MemoryError,
            >(v),
    {
        if (offset == 0 || offset == 2) && avoid_side_effects {
            return Err(MemoryError::Denied);
        }
        if offset == 0 && self.swacnt {
            Ok(port_a)
        } else if offset == 1 {
            Ok(
                if self.swacnt {
                    1
                } else {
                    0
                },
            )
        } else if offset == 2 && self.swbcnt {
            Ok(port_b)
        } else if offset == 3 {
            Ok(
                if self.swbcnt {
                    1
                } else {
                    0
                },
            )
        } else if offset == 4 {
            Ok(self.intim)
        } else if offset == 5 {
            Ok(self.instat)
        } else if offset == 0x14 {
            Ok(self.tim1t)
        } else if offset == 0x15 {
            Ok(self.tim8t.value)
        } else if offset == 0x16 {
            Ok(self.tim64t.value)
        } else if offset == 0x17 {
            Ok(self.t1024t.value)
        } else {
            Err(MemoryError::Denied)
        }
    }

    /// Reads `length` registers from `address` on. Port registers answer
    /// with what their callbacks give (0 where none is installed); the
    /// read is refused when any register is not readable.
    pub fn memory_read(&self, address: usize, length: usize, avoid_side_effects: bool) -> (r: Result<
        Vec<u8>,
        MemoryError,
    >)
        requires
            self.base() <= address,
            address + length <= usize::MAX,
        ensures
            r is Ok <==> forall|i: int|
                0 <= i < length ==> #[trigger] register_readable(
                    self.registers(),
                    address - self.base() + i,
                    avoid_side_effects,
                ),
            r matches Ok(v) ==> v@.len() == length && forall|i: int|
                0 <= i < length ==> (register_value(self.registers(), address - self.base() + i)
                    matches Some(x) ==> #[trigger] v@[i] == x),
    {
        let base = self.config.registers_assigned_address;
        let mut out: Vec<u8> = Vec::new();
        let mut i: usize = 0;
        while i < length
            invariant
                base == self.base(),
                base <= address,
                address + length <= usize::MAX,
                i <= length,
                out@.len() == i,
                forall|j: int|
                    0 <= j < i ==> #[trigger] register_readable(
                        self.registers(),
                        address - base + j,
                        avoid_side_effects,
                    ),
                forall|j: int|
                    0 <= j < i ==> (register_value(self.registers(), address - base + j) matches Some(
                        x,
                    ) ==> #[trigger] out@[j] == x),
            decreases length - i,
        {
            let offset = address + i - base;
            let port_a = if offset == 0 && self.swacnt && !avoid_side_effects {
                match &self.swcha {
                    Some(handler) => handler.read_register(),
                    None => 0,
                }
            } else {
                0
            };
            let port_b = if offset == 2 && self.swbcnt && !avoid_side_effects {
                match &self.swchb {
                    Some(handler) => handler.read_register(),
                    None => 0,
                }
            } else {
                0
            };
            match self.read_register_value(offset, avoid_side_effects, port_a, port_b) {
                Ok(value) => {
                    out.push(value);
                },
                Err(e) => {
                    assert(!register_readable(
                        self.registers(),
                        address - base + i,
                        avoid_side_effects,
                    ));
                    return Err(e);
                },
            }
            i = i + 1;
        }
        Ok(out)
    }

    /// Writes `data` to the registers from `address` on; a write to a port
    /// goes to its callback. Refused at the first register that does not
    /// take writes, with the bytes before it written.
    pub fn memory_write(&mut self, address: usize, data: &[u8]) -> (r: Result<(), MemoryError>)
        requires
            old(self).base() <= address,
            address + data@.len() <= usize::MAX,
            port_writes_defined(
                old(self).registers(),
                address - old(self).base(),
                data@,
                old(self).has_swcha(),
                old(self).has_swchb(),
            ),
        ensures
            final(self).registers() == registers_written(
                old(self).registers(),
                address - old(self).base(),
                data@,
            ).0,
            r is Ok <==> registers_written(old(self).registers(), address - old(self).base(), data@).1,
            final(self).time() == old(self).time(),
            final(self).config_view() == old(self).config_view(),
            final(self).has_swcha() == old(self).has_swcha(),
            final(self).has_swchb() == old(self).has_swchb(),
    {
        let base = self.config.registers_assigned_address;
        assert(data@.subrange(0, data@.len() as int) =~= data@);
        let mut i: usize = 0;
        while i < data.len()
            invariant
                base == old(self).base(),
                base == self.base(),
                base <= address,
                address + data@.len() <= usize::MAX,
                i <= data@.len(),
                self.time() == old(self).time(),
                self.config_view() == old(self).config_view(),
                self.has_swcha() == old(self).has_swcha(),
                self.has_swchb() == old(self).has_swchb(),
                registers_written(old(self).registers(), address - base, data@) == registers_written(
                    self.registers(),
                    address + i - base,
                    data@.subrange(i as int, data@.len() as int),
                ),
                port_writes_defined(
                    self.registers(),
                    address + i - base,
                    data@.subrange(i as int, data@.len() as int),
                    self.has_swcha(),
                    self.has_swchb(),
                ),
            decreases data@.len() - i,
        {
            let offset = address + i - base;
            let value = data[i];
            let ghost rest = data@.subrange(i as int, data@.len() as int);
            assert(rest[0] == value);
            assert(rest.drop_first() =~= data@.subrange(i + 1, data@.len() as int));
            if offset == 0 && !self.swacnt {
                match &self.swcha {
                    Some(handler) => handler.write_register(value),
                    None => {},
                }
            } else if offset == 1 {
                self.swacnt = value != 0;
            } else if offset == 2 && !self.swbcnt {
                match &self.swchb {
                    Some(handler) => handler.write_register(value),
                    None => {},
                }
            } else if offset == 3 {
                self.swbcnt = value != 0;
            } else if offset == 0x14 {
                self.tim1t = value;
            } else if offset == 0x15 {
                self.tim8t.value = value;
            } else if offset == 0x16 {
                self.tim64t.value = value;
            } else if offset == 0x17 {
                self.t1024t.value = value;
            } else {
                return Err(MemoryError::Denied);
            }
            i = i + 1;
        }
        assert(data@.subrange(data@.len() as int, data@.len() as int) =~= Seq::<u8>::empty());
        Ok(())
    }

    /// One cycle passes: the one-cycle timer steps, and each counter takes
    /// the steps due.
    pub fn tick(&mut self)
        requires
            old(self).time() < u64::MAX,
            old(self).registers().tim8t.last_updated <= old(self).time() + 1,
            old(self).registers().tim64t.last_updated <= old(self).time() + 1,
            old(self).registers().t1024t.last_updated <= old(self).time() + 1,
        ensures
            final(self).time() == old(self).time() + 1,
            final(self).registers() == (Snapshot {
                tim1t: ((old(self).registers().tim1t + 1) % 256) as u8,
                tim8t: counter_after(old(self).registers().tim8t, final(self).time(), 8),
                tim64t: counter_after(old(self).registers().tim64t, final(self).time(), 64),
                t1024t: counter_after(old(self).registers().t1024t, final(self).time(), 1024),
                ..old(self).registers()
            }),
            final(self).config_view() == old(self).config_view(),
            final(self).has_swcha() == old(self).has_swcha(),
            final(self).has_swchb() == old(self).has_swchb(),
    {
        self.time_counter = self.time_counter + 1;
        self.tim1t = self.tim1t.wrapping_add(1);
        self.tim8t = Self::step(self.tim8t, self.time_counter, 8);
        self.tim64t = Self::step(self.tim64t, self.time_counter, 64);
        self.t1024t = Self::step(self.t1024t, self.time_counter, 1024);
    }

    fn step(counter: Counter, time: u64, period: u64) -> (r: Counter)
        requires
            counter.last_updated <= time,
            period > 0,
        ensures
            r == counter_after(counter, time, period),
    {
        let steps = (time - counter.last_updated) / period;
        proof {
            assert(steps * period <= time - counter.last_updated) by (nonlinear_arith)
                requires
                    steps == (time - counter.last_updated) / (period as int),
                    period > 0,
                    time - counter.last_updated >= 0,
            ;
        }
        Counter {
            last_updated: counter.last_updated + steps * period,
            value: counter.value.wrapping_add((steps % 256) as u8),
        }
    }

    /// The registers and timers, as a snapshot stores them.
    pub fn store_snapshot(&self) -> (r: Snapshot)
        ensures
            r == self.registers(),
    {
        Snapshot {
            swacnt: self.swacnt,
            swbcnt: self.swbcnt,
            intim: self.intim,
            instat: self.instat,
            tim1t: self.tim1t,
            tim8t: self.tim8t,
            tim64t: self.tim64t,
            t1024t: self.t1024t,
        }
    }

    /// Restores registers and timers from a snapshot of version `version`;
    /// other versions are refused.
    pub fn load_snapshot(&mut self, version: u32, snapshot: Snapshot) -> (r: Result<(), RiotSnapshotError>)
        ensures
            r is Ok <==> version == RIOT_SNAPSHOT_VERSION,
            r is Ok ==> final(self).registers() == snapshot,
            r is Err ==> final(self).registers() == old(self).registers(),
            final(self).time() == old(self).time(),
            final(self).config_view() == old(self).config_view(),
            final(self).has_swcha() == old(self).has_swcha(),
            final(self).has_swchb() == old(self).has_swchb(),
    {
        if version != RIOT_SNAPSHOT_VERSION {
            return Err(RiotSnapshotError::UnsupportedVersion);
        }
        self.swacnt = snapshot.swacnt;
        self.swbcnt = snapshot.swbcnt;
        self.intim = snapshot.intim;
        self.instat = snapshot.instat;
        self.tim1t = snapshot.tim1t;
        self.tim8t = snapshot.tim8t;
        self.tim64t = snapshot.tim64t;
        self.t1024t = snapshot.t1024t;
        Ok(())
    }
}

/// A map of initial contents with one range (`RangeInclusiveMap::from_iter`
/// of one entry), which panics when `start > end`.
#[verifier::external_body]
fn single_range_map(start: usize, end: usize, contents: StandardMemoryInitialContents) -> (r:
    RangeInclusiveMap<usize, StandardMemoryInitialContents>)
    requires
        start <= end,
    ensures
        initial_entries(r) == seq![(start, end, contents)],
{
    RangeInclusiveMap::from_iter([(start..=end, contents)])
}

/// A range of addresses (`RangeInclusive::new`).
fn inclusive(start: usize, end: usize) -> (r: std::ops::RangeInclusive<usize>)
    ensures
        r@.start == start,
        r@.end == end,
        !r@.exhausted,
{
    std::ops::RangeInclusive::new(start, end)
}

impl Mos6532RiotConfig {
    /// Builds the chip with no ports installed, its registers and timers at
    /// zero, and its 128 bytes of RAM holding random bytes.
    pub fn build_component(self) -> (r: (Mos6532Riot, Result<StandardMemory, MemoryBuildError>))
        requires
            self.ram_assigned_address + 0x7f <= usize::MAX,
        ensures
            r.0.registers() == (Snapshot {
                swacnt: false,
                swbcnt: false,
                intim: 0,
                instat: 0,
                tim1t: 0,
                tim8t: Counter { last_updated: 0, value: 0 },
                tim64t: Counter { last_updated: 0, value: 0 },
                t1024t: Counter { last_updated: 0, value: 0 },
            }),
            r.0.time() == 0,
            r.0.config_view() == self,
            !r.0.has_swcha(),
            !r.0.has_swchb(),
            r.1 matches Ok(ram) && ram.base() == self.ram_assigned_address && ram.buffer_view().len()
                == RIOT_RAM_SIZE && ram.config_view().readable && ram.config_view().writable
                && !ram.config_view().sram,
    {
        let ram_start = self.ram_assigned_address;
        let ram_end = ram_start + 0x7f;
        let ram = StandardMemoryConfig {
            readable: true,
            writable: true,
            assigned_range: inclusive(ram_start, ram_end),
            initial_contents: single_range_map(ram_start, ram_end, StandardMemoryInitialContents::Random),
            sram: false,
        }.build_component(None);
        let riot = Mos6532Riot {
            swcha: None,
            swchb: None,
            swacnt: false,
            swbcnt: false,
            intim: 0,
            instat: 0,
            tim1t: 0,
            tim8t: Counter { last_updated: 0, value: 0 },
            tim64t: Counter { last_updated: 0, value: 0 },
            t1024t: Counter { last_updated: 0, value: 0 },
            time_counter: 0,
            config: self,
        };
        (riot, ram)
    }
}

/// A timer register reads back the value last written to it.
pub proof fn lemma_timer_write_read(riot: Snapshot, offset: int, value: u8)
    requires
        0x14 <= offset <= 0x17,
    ensures
        register_write(riot, offset, value) matches Some(after) && register_value(after, offset)
            == Some(value),
{
}

/// Writing the port direction registers is seen by reads of them: a
/// nonzero byte reads back as 1, zero as 0.
pub proof fn lemma_direction_write_read(riot: Snapshot, offset: int, value: u8)
    requires
        offset == 1 || offset == 3,
    ensures
        register_write(riot, offset, value) matches Some(after) && register_value(after, offset)
            == Some(
            if value != 0 {
                1u8
            } else {
                0u8
            },
        ),
{
}

} // verus!
