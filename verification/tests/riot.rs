use multiemu_definition::riot::{
    Counter, Mos6532RiotConfig, RiotSnapshotError, Snapshot, SwchaCallback, SwchbCallback,
};
use multiemu_definition::memory::MemoryError;
use std::cell::Cell;
use std::rc::Rc;

#[derive(Debug, Default)]
struct Port {
    value: u8,
    written: Rc<Cell<Option<u8>>>,
}

impl SwchaCallback for Port {
    fn read_register(&self) -> u8 {
        self.value
    }

    fn write_register(&self, value: u8) {
        self.written.set(Some(value));
    }
}

impl SwchbCallback for Port {
    fn read_register(&self) -> u8 {
        self.value
    }

    fn write_register(&self, value: u8) {
        self.written.set(Some(value));
    }
}

fn config() -> Mos6532RiotConfig {
    Mos6532RiotConfig { frequency: 1_193_182, registers_assigned_address: 0x280, ram_assigned_address: 0x80 }
}

#[test]
fn riot_registers_and_ports() {
    let (mut riot, ram) = config().build_component();
    let ram = ram.unwrap();
    assert_eq!(ram.buffer().len(), 128);
    // Timers read back what was written.
    assert_eq!(riot.memory_write(0x294, &[10, 20, 30, 40]), Ok(()));
    assert_eq!(riot.memory_read(0x294, 4, false), Ok(vec![10, 20, 30, 40]));
    // Port A is an output until SWACNT is set: writes go to the callback.
    let written = Rc::new(Cell::new(None));
    riot.install_swcha(Box::new(Port { value: 0x5a, written: written.clone() }));
    assert_eq!(riot.memory_write(0x280, &[0x33]), Ok(()));
    assert_eq!(written.get(), Some(0x33));
    // Reading port A needs SWACNT set.
    assert_eq!(riot.memory_read(0x280, 1, false), Err(MemoryError::Denied));
    assert_eq!(riot.memory_write(0x281, &[1]), Ok(()));
    assert_eq!(riot.memory_read(0x280, 2, false), Ok(vec![0x5a, 1]));
    // Without side effects the ports are not read.
    assert_eq!(riot.memory_read(0x280, 1, true), Err(MemoryError::Denied));
    // Port B reads 0 without a callback.
    assert_eq!(riot.memory_write(0x283, &[1]), Ok(()));
    assert_eq!(riot.memory_read(0x282, 2, false), Ok(vec![0, 1]));
    // Unknown registers refuse; earlier bytes of the write stay written.
    assert_eq!(riot.memory_write(0x296, &[7, 8, 9]), Err(MemoryError::Denied));
    assert_eq!(riot.memory_read(0x296, 2, false), Ok(vec![7, 8]));
    assert_eq!(riot.memory_read(0x286, 1, false), Err(MemoryError::Denied));
    let port_b_written = Rc::new(Cell::new(None));
    riot.install_swchb(Box::new(Port { value: 1, written: port_b_written.clone() }));
    assert_eq!(riot.memory_write(0x283, &[0, 0x44]), Err(MemoryError::Denied));
    assert_eq!(riot.memory_write(0x282, &[0x44]), Ok(()));
    assert_eq!(port_b_written.get(), Some(0x44));
}

#[test]
fn riot_timers_count() {
    let (mut riot, _) = config().build_component();
    for _ in 0..1024 {
        riot.tick();
    }
    let snapshot = riot.store_snapshot();
    assert_eq!(snapshot.tim1t, 0);
    assert_eq!(snapshot.tim8t, Counter { last_updated: 1024, value: 128 });
    assert_eq!(snapshot.tim64t, Counter { last_updated: 1024, value: 16 });
    assert_eq!(snapshot.t1024t, Counter { last_updated: 1024, value: 1 });
    riot.tick();
    assert_eq!(riot.store_snapshot().tim1t, 1);
    assert_eq!(riot.store_snapshot().tim8t.value, 128);
}

#[test]
fn riot_snapshots() {
    let (mut riot, _) = config().build_component();
    let snapshot = Snapshot {
        swacnt: true,
        swbcnt: false,
        intim: 3,
        instat: 4,
        tim1t: 5,
        tim8t: Counter { last_updated: 0, value: 6 },
        tim64t: Counter { last_updated: 0, value: 7 },
        t1024t: Counter { last_updated: 0, value: 8 },
    };
    assert_eq!(riot.load_snapshot(1, snapshot), Err(RiotSnapshotError::UnsupportedVersion));
    assert_eq!(riot.load_snapshot(0, snapshot), Ok(()));
    assert_eq!(riot.store_snapshot(), snapshot);
    assert_eq!(riot.memory_read(0x281, 1, false), Ok(vec![1]));
    assert_eq!(riot.memory_read(0x283, 3, false), Ok(vec![0, 3, 4]));
    // Port B is not an input while SWBCNT is clear.
    assert_eq!(riot.memory_read(0x282, 1, false), Err(MemoryError::Denied));
}
