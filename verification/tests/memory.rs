use multiemu_definition::memory::mirror::MirrorMemoryConfig;
use multiemu_definition::memory::null::NullMemoryConfig;
use multiemu_definition::memory::rom::RomMemoryConfig;
use multiemu_definition::memory::standard::{
    MemoryBuildError, MemorySnapshotError, StandardMemory, StandardMemoryConfig,
    StandardMemoryInitialContents,
};
use multiemu_definition::memory::{AddressSpace, MemoryError};
use rangemap::RangeInclusiveMap;
use std::ops::RangeInclusive;

fn workram(
    range: RangeInclusive<usize>,
    contents: Vec<(RangeInclusive<usize>, StandardMemoryInitialContents)>,
) -> StandardMemory {
    StandardMemoryConfig {
        readable: true,
        writable: true,
        assigned_range: range,
        initial_contents: RangeInclusiveMap::from_iter(contents),
        sram: false,
    }
    .build_component(None)
    .unwrap()
}

fn machine(width: u8, memories: &[&StandardMemory]) -> AddressSpace {
    let mut space = AddressSpace::new(width);
    for memory in memories {
        memory.map_into(&mut space);
    }
    space
}

#[test]
fn read() {
    let memory = workram(0..=7, vec![(0..=7, StandardMemoryInitialContents::Value(0xff))]);
    let address_space = machine(16, &[&memory]);
    let buffer = address_space.read(0, 8).unwrap();
    assert_eq!(buffer, [0xff; 8]);
}

#[test]
fn write() {
    let memory = workram(0..=7, vec![(0..=7, StandardMemoryInitialContents::Value(0xff))]);
    let mut address_space = machine(16, &[&memory]);
    let buffer = [0; 8];
    address_space.write(0, &buffer).unwrap();
}

#[test]
fn read_write() {
    let memory = workram(0..=7, vec![(0..=7, StandardMemoryInitialContents::Value(0xff))]);
    let mut address_space = machine(16, &[&memory]);
    let mut buffer = [0xff; 8];
    address_space.write(0, &buffer).unwrap();
    buffer.fill(0);
    let buffer = address_space.read(0, 8).unwrap();
    assert_eq!(buffer, [0xff; 8]);
}

#[test]
fn wraparound() {
    let memory = workram(
        0x00..=0xff,
        vec![
            (0x00..=0x00, StandardMemoryInitialContents::Value(0xff)),
            (0x01..=0xff, StandardMemoryInitialContents::Value(0x00)),
        ],
    );
    let address_space = machine(8, &[&memory]);
    let buffer = address_space.read(0xff, 2).unwrap();
    assert_eq!(buffer, [0x00, 0xff]);
}

#[test]
fn mirror() {
    let memory = workram(
        0x00..=0xff,
        vec![
            (0x00..=0x00, StandardMemoryInitialContents::Value(0xfe)),
            (0x01..=0x01, StandardMemoryInitialContents::Value(0xff)),
        ],
    );
    let mut address_space = machine(8, &[&memory]);
    address_space.map_mirror(0x02, 0x02, 0x00, true, true);
    let buffer = address_space.read(0, 3).unwrap();
    assert_eq!(buffer, [0xfe, 0xff, 0xfe]);
}

fn counting(range: RangeInclusive<usize>) -> StandardMemory {
    let bytes: Vec<u8> = range.clone().map(|i| i as u8).collect();
    workram(range.clone(), vec![(range, StandardMemoryInitialContents::Array(bytes))])
}

fn workram_mirror() -> MirrorMemoryConfig {
    MirrorMemoryConfig {
        readable: true,
        writable: true,
        source_addresses: 8..=15,
        destination_addresses: 0..=7,
    }
}

#[test]
fn basic_read() {
    let memory = counting(0..=7);
    let cpu_address_space = machine(16, &[&memory]);
    let mirror = workram_mirror().build_component().unwrap();
    let buffer = mirror.read_memory(8, 8, &cpu_address_space).unwrap();
    assert_eq!(buffer, [0, 1, 2, 3, 4, 5, 6, 7]);
}

#[test]
fn basic_read_cross_space() {
    let memory = counting(0..=7);
    let _source_space = machine(16, &[]);
    let destination_space = machine(16, &[&memory]);
    let mirror = workram_mirror().build_component().unwrap();
    let buffer = mirror.read_memory(8, 8, &destination_space).unwrap();
    assert_eq!(buffer, [0, 1, 2, 3, 4, 5, 6, 7]);
}

#[test]
fn basic_write() {
    let memory = workram(0..=7, vec![(0..=7, StandardMemoryInitialContents::Value(0xff))]);
    let mut cpu_address_space = machine(16, &[&memory]);
    let mirror = workram_mirror().build_component().unwrap();
    let buffer = [0; 8];
    mirror.write_memory(8, &buffer, &mut cpu_address_space).unwrap();
}

#[test]
fn extensive_read_test() {
    let low = counting(0..=3);
    let high = counting(4..=7);
    let cpu_address_space = machine(16, &[&low, &high]);
    let mirror = workram_mirror().build_component().unwrap();
    let mut buffer = [0u8; 8];
    for (i, b) in buffer.iter_mut().enumerate() {
        *b = mirror.read_memory(i + 8, 1, &cpu_address_space).unwrap()[0];
    }
    assert_eq!(buffer, [0, 1, 2, 3, 4, 5, 6, 7]);
}

#[test]
fn mirror_writes_land_in_destination() {
    let memory = workram(0..=7, vec![(0..=7, StandardMemoryInitialContents::Value(0xff))]);
    let mut space = machine(16, &[&memory]);
    let mirror = workram_mirror().build_component().unwrap();
    mirror.write_memory(10, &[1, 2], &mut space).unwrap();
    assert_eq!(space.read(0, 4).unwrap(), [0xff, 0xff, 1, 2]);
    // Past the destination's memory nothing is mapped.
    assert_eq!(mirror.read_memory(15, 2, &space), Err(MemoryError::Denied));
}

#[test]
fn mirror_config_errors() {
    let mismatched = MirrorMemoryConfig {
        readable: true,
        writable: true,
        source_addresses: 8..=15,
        destination_addresses: 0..=6,
    };
    assert_eq!(mismatched.build_component().err(), Some(MemoryBuildError::LengthMismatch));
    #[allow(clippy::reversed_empty_ranges)]
    let empty = MirrorMemoryConfig {
        readable: true,
        writable: true,
        source_addresses: 8..=7,
        destination_addresses: 1..=0,
    };
    assert_eq!(empty.build_component().err(), Some(MemoryBuildError::EmptyRange));
}

#[test]
fn initial_contents_fill_in_order() {
    let memory = workram(
        0x10..=0x1f,
        vec![
            (0x10..=0x13, StandardMemoryInitialContents::Value(7)),
            (0x14..=0x15, StandardMemoryInitialContents::Array(vec![1, 2])),
            (0x18..=0x1f, StandardMemoryInitialContents::Rom(vec![9, 8, 7])),
        ],
    );
    assert_eq!(
        memory.buffer(),
        &vec![7, 7, 7, 7, 1, 2, 0, 0, 9, 8, 7, 0, 0, 0, 0, 0]
    );
    assert_eq!(memory.memory_read(0x14, 2).unwrap(), vec![1, 2]);
    let random = workram(0..=63, vec![(0..=63, StandardMemoryInitialContents::Random)]);
    assert_eq!(random.buffer().len(), 64);
}

#[test]
fn standard_memory_accesses_and_snapshots() {
    let mut memory = workram(0x100..=0x103, vec![]);
    assert_eq!(memory.memory_write(0x101, &[5, 6]), Ok(()));
    assert_eq!(memory.memory_read(0x100, 4).unwrap(), vec![0, 5, 6, 0]);
    let snapshot = memory.store_snapshot();
    assert_eq!(snapshot, vec![0, 5, 6, 0]);
    assert_eq!(memory.load_snapshot(0, &[1, 2, 3]), Err(MemorySnapshotError::Truncated));
    assert_eq!(memory.buffer(), &vec![0, 5, 6, 0]);
    assert_eq!(memory.load_snapshot(0, &[1, 2, 3, 4, 5]), Ok(()));
    assert_eq!(memory.buffer(), &vec![1, 2, 3, 4]);
    assert_eq!(memory.save_version(), None);
}

#[test]
fn standard_memory_saves() {
    let config = |sram| StandardMemoryConfig {
        readable: true,
        writable: false,
        assigned_range: 0..=3,
        initial_contents: RangeInclusiveMap::new(),
        sram,
    };
    let memory = config(true).build_component(Some((vec![4, 3, 2, 1], 0))).unwrap();
    assert_eq!(memory.buffer(), &vec![4, 3, 2, 1]);
    assert_eq!(memory.save_version(), Some(0));
    assert_eq!(memory.store_save(), vec![4, 3, 2, 1]);
    assert_eq!(
        config(true).build_component(Some((vec![4, 3, 2, 1], 1))).err(),
        Some(MemoryBuildError::InvalidSaveVersion)
    );
    assert_eq!(
        config(false).build_component(Some((vec![4, 3, 2, 1], 0))).err(),
        Some(MemoryBuildError::InvalidSaveVersion)
    );
    #[allow(clippy::reversed_empty_ranges)]
    let empty = StandardMemoryConfig {
        readable: true,
        writable: true,
        assigned_range: 4..=3,
        initial_contents: RangeInclusiveMap::new(),
        sram: false,
    };
    assert_eq!(empty.build_component(None).err(), Some(MemoryBuildError::EmptyRange));
    // Read only memory mapped into a space refuses writes.
    let mut space = machine(16, &[&memory]);
    assert_eq!(space.write(0, &[1]), Err(MemoryError::Denied));
    assert_eq!(space.read(0, 4).unwrap(), vec![4, 3, 2, 1]);
}

#[test]
fn null_memory_denies() {
    let null = NullMemoryConfig { readable: true, writable: true, assigned_range: 0..=3 }
        .build_component()
        .unwrap();
    assert_eq!(null.memory_read(0, 1), Err(MemoryError::Denied));
    assert_eq!(null.memory_write(0, &[1]), Err(MemoryError::Denied));
    #[allow(clippy::reversed_empty_ranges)]
    let empty = NullMemoryConfig { readable: true, writable: true, assigned_range: 3..=0 };
    assert_eq!(empty.build_component().err(), Some(MemoryBuildError::EmptyRange));
}

#[test]
fn rom_banks() {
    let image: Vec<u8> = (0..16).collect();
    let mut rom = RomMemoryConfig {
        rom: image,
        assigned_range: 0x1000..=0x1003,
        initial_bank: 1,
        rom_range: 0..=15,
    }
    .build_component()
    .unwrap();
    assert_eq!(rom.bank(), 1);
    assert_eq!(rom.read_memory(0x1000, 4), vec![4, 5, 6, 7]);
    rom.swap_banks(3);
    assert_eq!(rom.read_memory(0x1002, 2), vec![14, 15]);
    assert_eq!(rom.preview_memory(0x1001, 1), vec![13]);
}

#[test]
fn initial_contents_must_fit() {
    let config = |contents: Vec<(RangeInclusive<usize>, StandardMemoryInitialContents)>| StandardMemoryConfig {
        readable: true,
        writable: true,
        assigned_range: 0x10..=0x17,
        initial_contents: RangeInclusiveMap::from_iter(contents),
        sram: false,
    };
    assert!(config(vec![(0x10..=0x17, StandardMemoryInitialContents::Value(1))]).initial_contents_fit());
    assert!(config(vec![(0x12..=0x13, StandardMemoryInitialContents::Array(vec![1, 2]))]).initial_contents_fit());
    // An array one byte short.
    assert!(!config(vec![(0x12..=0x14, StandardMemoryInitialContents::Array(vec![1, 2]))]).initial_contents_fit());
    // A range past the memory's end, or before its start.
    assert!(!config(vec![(0x16..=0x18, StandardMemoryInitialContents::Value(1))]).initial_contents_fit());
    assert!(!config(vec![(0x0f..=0x10, StandardMemoryInitialContents::Value(1))]).initial_contents_fit());
}
#[test]
fn component_reads_back_the_last_write_in_its_range() {
    let mut memory = workram(0x100..=0x1ff, vec![(0x100..=0x1ff, StandardMemoryInitialContents::Value(0x11))]);
    memory.memory_write(0x1fe, &[0xab, 0xcd]).unwrap();
    assert_eq!(memory.memory_read(0x1fe, 2).unwrap(), vec![0xab, 0xcd]);
    assert_eq!(memory.memory_read(0x1fd, 1).unwrap(), vec![0x11]);
    memory.memory_write(0x100, &[0x01]).unwrap();
    assert_eq!(memory.memory_read(0x100, 3).unwrap(), vec![0x01, 0x11, 0x11]);
}

#[test]
fn rom_range_moves_to_one_as_long() {
    let image: Vec<u8> = (0..16).collect();
    let mut rom = RomMemoryConfig {
        rom: image,
        assigned_range: 0x1000..=0x1003,
        initial_bank: 0,
        rom_range: 0..=7,
    }
    .build_component()
    .unwrap();
    assert!(rom.same_rom_range_length(&(8..=15)));
    assert!(!rom.same_rom_range_length(&(8..=14)));
    rom.set_rom_range(8..=15);
    assert_eq!(rom.bank(), 0);
    assert_eq!(rom.read_memory(0x1000, 2), vec![0, 1]);
}

#[test]
fn checked_build_tests_before_building() {
    let config = |contents: Vec<(RangeInclusive<usize>, StandardMemoryInitialContents)>, sram: bool| {
        StandardMemoryConfig {
            readable: true,
            writable: true,
            assigned_range: 0x10..=0x17,
            initial_contents: RangeInclusiveMap::from_iter(contents),
            sram,
        }
    };
    let built = config(vec![(0x10..=0x17, StandardMemoryInitialContents::Value(7))], false)
        .build_checked(None)
        .unwrap()
        .unwrap();
    assert_eq!(built.memory_read(0x10, 8).unwrap(), vec![7; 8]);
    // Contents past the end, or a save shorter than the memory: nothing is built.
    assert!(config(vec![(0x16..=0x18, StandardMemoryInitialContents::Value(1))], false)
        .build_checked(None)
        .is_none());
    assert!(config(vec![], true).build_checked(Some((vec![1; 4], 0))).is_none());
    let saved = config(vec![], true).build_checked(Some((vec![3; 8], 0))).unwrap().unwrap();
    assert_eq!(saved.memory_read(0x17, 1).unwrap(), vec![3]);
    // A save of another version is refused by the build itself.
    assert_eq!(
        config(vec![], true).build_checked(Some((vec![3; 8], 1))).unwrap().err(),
        Some(MemoryBuildError::InvalidSaveVersion)
    );
}
