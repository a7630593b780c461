use multiemu_definition::chip8::decoder::decode_instruction;
use multiemu_definition::chip8::display::{Chip8Display, Chip8DisplayConfig};
use multiemu_definition::chip8::instruction::{
    Chip8InstructionSet, Coordinates, InstructionSetChip8, InstructionSetSuperChip8, Register,
};
use multiemu_definition::chip8::machine::{chip8_font, Chip8, Chip8Machine, FrameClock};
use multiemu_definition::chip8::processor::{
    bcd_encode, Chip8Processor, Chip8ProcessorConfig, Chip8ProcessorRegisters, ExecutionState,
    PROGRAM_START,
};
use multiemu_definition::chip8::timer::{Chip8Timer, Chip8TimerConfig};
use multiemu_definition::chip8::{Chip8Mode, SnapshotError};
use multiemu_definition::memory::AddressSpace;

fn machine_with(program: &[u8]) -> Chip8Machine {
    Chip8.construct(program)
}

fn run(machine: &mut Chip8Machine, instruction: InstructionSetChip8, keys: u16, random: u8) -> Option<u8> {
    machine.processor.execute(
        Chip8InstructionSet::Chip8(instruction),
        &mut machine.memory,
        &mut machine.display,
        &mut machine.timer,
        keys,
        random,
    )
}

fn load(machine: &mut Chip8Machine, register: Register, value: u8) {
    run(machine, InstructionSetChip8::Load { register, immediate: value }, 0, 0);
}

#[test]
fn timer_counts_down_to_zero() {
    let mut timer = Chip8TimerConfig.build_component();
    assert_eq!(timer.get(), 0);
    timer.set(3);
    assert_eq!(timer.get(), 3);
    timer.tick();
    assert_eq!(timer.get(), 2);
    timer.synchronize(5);
    assert_eq!(timer.get(), 0);
    timer.tick();
    assert_eq!(timer.get(), 0);
}

#[test]
fn timer_snapshot_round_trip() {
    let mut timer = Chip8TimerConfig.build_component();
    timer.set(0x42);
    let snapshot = timer.store_snapshot();
    assert_eq!(snapshot, vec![0x42]);
    let mut other: Chip8Timer = Chip8TimerConfig.build_component();
    assert_eq!(other.load_snapshot(0, &snapshot), Ok(()));
    assert_eq!(other.get(), 0x42);
    assert_eq!(other.load_snapshot(0, &[]), Err(SnapshotError::Truncated));
    assert_eq!(other.get(), 0x42);
}

#[test]
fn bcd_digits() {
    assert_eq!(bcd_encode(0), [0, 0, 0]);
    assert_eq!(bcd_encode(7), [0, 0, 7]);
    assert_eq!(bcd_encode(42), [0, 4, 2]);
    assert_eq!(bcd_encode(255), [2, 5, 5]);
    for value in 0..=255u8 {
        let [h, t, o] = bcd_encode(value);
        assert_eq!(100 * h as u16 + 10 * t as u16 + o as u16, value as u16);
    }
}

#[test]
fn display_draws_and_reports_collisions() {
    let mut display: Chip8Display = Chip8DisplayConfig::default().build_component();
    assert_eq!(display.screen_width(), 64);
    assert_eq!(display.screen_height(), 32);
    let sprite = [0b1100_0000, 0b1000_0001];
    assert!(!display.draw_sprite(2, 3, &sprite));
    assert!(!display.vsync_occurred());
    assert!(display.staged_pixel(2, 3));
    assert!(display.staged_pixel(3, 3));
    assert!(!display.staged_pixel(4, 3));
    assert!(display.staged_pixel(2, 4));
    assert!(display.staged_pixel(9, 4));
    // Not shown before the frame ends.
    assert!(!display.pixel(2, 3));
    display.vsync();
    assert!(display.vsync_occurred());
    assert!(display.pixel(2, 3));
    // Drawing again erases it and reports the collision.
    assert!(display.draw_sprite(2, 3, &sprite));
    for y in 0..32 {
        for x in 0..64 {
            assert!(!display.staged_pixel(x, y));
        }
    }
}

#[test]
fn display_wraps_position_and_clips_sprite() {
    let mut display = Chip8DisplayConfig::default().build_component();
    // 66 wraps to column 2, 35 to row 3.
    assert!(!display.draw_sprite(66, 35, &[0x80]));
    assert!(display.staged_pixel(2, 3));
    // A sprite at the right edge is cut, not wrapped.
    assert!(!display.draw_sprite(62, 31, &[0xff, 0xff]));
    assert!(display.staged_pixel(62, 31));
    assert!(display.staged_pixel(63, 31));
    assert!(!display.staged_pixel(0, 31));
    assert!(!display.staged_pixel(0, 0));
    // An empty sprite draws nothing.
    assert!(!display.draw_sprite(0, 0, &[]));
    assert!(!display.staged_pixel(0, 0));
}

#[test]
fn display_wide_sprite_and_resolution() {
    let mut display = Chip8DisplayConfig::default().build_component();
    let mut sprite = [0u8; 32];
    sprite[0] = 0x80;
    sprite[1] = 0x01;
    sprite[31] = 0x01;
    assert!(!display.draw_supersized_sprite(0, 0, sprite));
    assert!(display.staged_pixel(0, 0));
    assert!(display.staged_pixel(15, 0));
    assert!(display.staged_pixel(15, 15));
    assert!(!display.staged_pixel(1, 0));
    display.set_hires(true);
    assert!(display.hires());
    assert_eq!(display.screen_width(), 128);
    assert_eq!(display.screen_height(), 64);
    // What fit in both resolutions stays, and is shown.
    assert!(display.staged_pixel(0, 0));
    assert!(display.pixel(15, 15));
    assert!(!display.staged_pixel(100, 60));
    display.clear_display();
    assert!(!display.staged_pixel(0, 0));
    assert!(display.pixel(0, 0));
}

#[test]
fn machine_loads_font_and_program() {
    let machine = machine_with(&[0x12, 0x34, 0xab]);
    let font = chip8_font();
    assert_eq!(font.len(), 80);
    for (address, byte) in font.iter().enumerate() {
        assert_eq!(machine.memory.read_byte(address), Some(*byte));
    }
    assert_eq!(machine.memory.read_byte(0x200), Some(0x12));
    assert_eq!(machine.memory.read_byte(0x201), Some(0x34));
    assert_eq!(machine.memory.read_byte(0x202), Some(0xab));
    assert_eq!(machine.memory.read_byte(0x203), Some(0));
    assert_eq!(machine.memory.read_byte(0x100), Some(0));
    assert_eq!(machine.processor.program(), PROGRAM_START);
    assert_eq!(machine.processor.mode(), Chip8Mode::Chip8);
    assert_eq!(machine.processor.frequency(), 1000);
    assert!(machine.processor.stack().is_empty());
    assert_eq!(machine.timer.get(), 0);
}

#[test]
fn machine_cuts_oversized_program() {
    let rom = vec![0x5a; 0x1000];
    let machine = machine_with(&rom);
    assert_eq!(machine.memory.read_byte(0xfff), Some(0x5a));
    assert_eq!(machine.memory.read_byte(0x1ff), Some(0));
    // The address space is 12 bits wide and wraps.
    assert_eq!(machine.memory.read_byte(0x1200), Some(0x5a));
}

#[test]
fn arithmetic_sets_flags() {
    let mut m = machine_with(&[]);
    load(&mut m, Register::V1, 200);
    load(&mut m, Register::V2, 100);
    run(&mut m, InstructionSetChip8::Addr { destination: Register::V1, source: Register::V2 }, 0, 0);
    assert_eq!(m.processor.register(Register::V1), 44);
    assert_eq!(m.processor.register(Register::VF), 1);
    run(&mut m, InstructionSetChip8::Sub { destination: Register::V1, source: Register::V2 }, 0, 0);
    assert_eq!(m.processor.register(Register::V1), 200);
    assert_eq!(m.processor.register(Register::VF), 0);
    run(&mut m, InstructionSetChip8::Subn { destination: Register::V2, source: Register::V1 }, 0, 0);
    assert_eq!(m.processor.register(Register::V2), 100);
    assert_eq!(m.processor.register(Register::VF), 1);
    load(&mut m, Register::V3, 0x81);
    run(&mut m, InstructionSetChip8::Shr { register: Register::V4, value: Register::V3 }, 0, 0);
    assert_eq!(m.processor.register(Register::V4), 0x40);
    assert_eq!(m.processor.register(Register::VF), 1);
    run(&mut m, InstructionSetChip8::Shl { register: Register::V5, value: Register::V3 }, 0, 0);
    assert_eq!(m.processor.register(Register::V5), 0x02);
    assert_eq!(m.processor.register(Register::VF), 1);
    load(&mut m, Register::V6, 0xf0);
    load(&mut m, Register::VF, 7);
    run(&mut m, InstructionSetChip8::Or { destination: Register::V6, source: Register::V3 }, 0, 0);
    assert_eq!(m.processor.register(Register::V6), 0xf1);
    assert_eq!(m.processor.register(Register::VF), 0);
    run(&mut m, InstructionSetChip8::Add { register: Register::V6, immediate: 0x20 }, 0, 0);
    assert_eq!(m.processor.register(Register::V6), 0x11);
    run(&mut m, InstructionSetChip8::Rand { register: Register::V7, immediate: 0x0f }, 0, 0xab);
    assert_eq!(m.processor.register(Register::V7), 0x0b);
}

#[test]
fn flow_calls_returns_and_skips() {
    let mut m = machine_with(&[]);
    run(&mut m, InstructionSetChip8::Call { address: 0x300 }, 0, 0);
    assert_eq!(m.processor.program(), 0x300);
    assert_eq!(m.processor.stack(), vec![0x200]);
    run(&mut m, InstructionSetChip8::Rtrn, 0, 0);
    assert_eq!(m.processor.program(), 0x200);
    assert!(m.processor.stack().is_empty());
    // Returning with an empty stack goes back to the program start.
    run(&mut m, InstructionSetChip8::Jump { address: 0x456 }, 0, 0);
    run(&mut m, InstructionSetChip8::Rtrn, 0, 0);
    assert_eq!(m.processor.program(), PROGRAM_START);
    load(&mut m, Register::V0, 5);
    run(&mut m, InstructionSetChip8::Ske { register: Register::V0, immediate: 5 }, 0, 0);
    assert_eq!(m.processor.program(), 0x202);
    run(&mut m, InstructionSetChip8::Skne { register: Register::V0, immediate: 5 }, 0, 0);
    assert_eq!(m.processor.program(), 0x202);
    run(&mut m, InstructionSetChip8::Jumpi { address: 0x300 }, 0, 0);
    assert_eq!(m.processor.program(), 0x305);
    // Key 5 down.
    run(&mut m, InstructionSetChip8::Skpr { key: Register::V0 }, 1 << 5, 0);
    assert_eq!(m.processor.program(), 0x307);
    run(&mut m, InstructionSetChip8::Skup { key: Register::V0 }, 1 << 5, 0);
    assert_eq!(m.processor.program(), 0x307);
    run(&mut m, InstructionSetChip8::Skup { key: Register::V0 }, 0, 0);
    assert_eq!(m.processor.program(), 0x309);
}

#[test]
fn memory_instructions() {
    let mut m = machine_with(&[]);
    run(&mut m, InstructionSetChip8::Loadi { value: 0x300 }, 0, 0);
    load(&mut m, Register::V3, 254);
    run(&mut m, InstructionSetChip8::Bcd { register: Register::V3 }, 0, 0);
    assert_eq!(m.memory.read_byte(0x300), Some(2));
    assert_eq!(m.memory.read_byte(0x301), Some(5));
    assert_eq!(m.memory.read_byte(0x302), Some(4));
    load(&mut m, Register::V0, 9);
    load(&mut m, Register::V1, 8);
    run(&mut m, InstructionSetChip8::Save { count: 1 }, 0, 0);
    assert_eq!(m.memory.read_byte(0x300), Some(9));
    assert_eq!(m.memory.read_byte(0x301), Some(8));
    assert_eq!(m.memory.read_byte(0x302), Some(4));
    // Plain CHIP-8 moves the index past what it stored.
    assert_eq!(m.processor.index(), 0x302);
    run(&mut m, InstructionSetChip8::Loadi { value: 0x300 }, 0, 0);
    run(&mut m, InstructionSetChip8::Restore { count: 2 }, 0, 0);
    assert_eq!(m.processor.register(Register::V0), 9);
    assert_eq!(m.processor.register(Register::V1), 8);
    assert_eq!(m.processor.register(Register::V2), 4);
    assert_eq!(m.processor.index(), 0x303);
    load(&mut m, Register::V4, 0xa);
    run(&mut m, InstructionSetChip8::Font { register: Register::V4 }, 0, 0);
    assert_eq!(m.processor.index(), 50);
    run(&mut m, InstructionSetChip8::Addi { register: Register::V4 }, 0, 0);
    assert_eq!(m.processor.index(), 60);
}

#[test]
fn timers_and_sound() {
    let mut m = machine_with(&[]);
    load(&mut m, Register::V2, 30);
    assert_eq!(run(&mut m, InstructionSetChip8::Loadd { register: Register::V2 }, 0, 0), None);
    assert_eq!(m.timer.get(), 30);
    m.timer.tick();
    run(&mut m, InstructionSetChip8::Moved { register: Register::V3 }, 0, 0);
    assert_eq!(m.processor.register(Register::V3), 29);
    assert_eq!(run(&mut m, InstructionSetChip8::Loads { register: Register::V2 }, 0, 0), Some(30));
}

#[test]
fn draw_waits_for_vsync() {
    // Draw the font glyph for 0 at (0, 0), then jump to itself.
    let mut m = machine_with(&[0xd0, 0x15, 0x12, 0x02]);
    assert!(m.processor.cycle(&mut m.memory, &mut m.display, &mut m.timer, 0).is_none());
    assert!(matches!(m.processor.execution_state(), ExecutionState::AwaitingVsync));
    assert_eq!(m.processor.register(Register::VF), 0);
    assert!(m.display.staged_pixel(0, 0));
    assert!(m.display.staged_pixel(3, 0));
    assert!(!m.display.staged_pixel(4, 0));
    assert!(m.display.staged_pixel(0, 1));
    assert!(!m.display.staged_pixel(1, 1));
    // Nothing happens until a frame is shown.
    m.processor.cycle(&mut m.memory, &mut m.display, &mut m.timer, 0);
    assert_eq!(m.processor.program(), 0x202);
    m.display.vsync();
    m.processor.cycle(&mut m.memory, &mut m.display, &mut m.timer, 0);
    assert!(matches!(m.processor.execution_state(), ExecutionState::Normal));
    m.processor.cycle(&mut m.memory, &mut m.display, &mut m.timer, 0);
    assert_eq!(m.processor.program(), 0x202);
}

#[test]
fn key_wait_returns_released_key() {
    // LD V7, K
    let mut m = machine_with(&[0xf7, 0x0a]);
    m.processor.cycle(&mut m.memory, &mut m.display, &mut m.timer, 0);
    assert!(matches!(
        m.processor.execution_state(),
        ExecutionState::AwaitingKeyPress { register: Register::V7 }
    ));
    m.processor.cycle(&mut m.memory, &mut m.display, &mut m.timer, 0);
    assert!(matches!(m.processor.execution_state(), ExecutionState::AwaitingKeyPress { .. }));
    // Keys 3 and 9 go down; key 15 is never seen by the scan.
    m.processor.cycle(&mut m.memory, &mut m.display, &mut m.timer, (1 << 3) | (1 << 9) | (1 << 15));
    match m.processor.execution_state() {
        ExecutionState::AwaitingKeyRelease { register, keys } => {
            assert_eq!(*register, Register::V7);
            assert_eq!(keys, &vec![3, 9]);
        }
        _ => panic!("not waiting for a release"),
    }
    // Key 9 released first.
    m.processor.cycle(&mut m.memory, &mut m.display, &mut m.timer, 1 << 3);
    assert!(matches!(m.processor.execution_state(), ExecutionState::Normal));
    assert_eq!(m.processor.register(Register::V7), 9);
}

#[test]
fn superchip_switches_mode_and_resolution() {
    let mut m = machine_with(&[]);
    m.processor.execute(
        Chip8InstructionSet::SuperChip8(InstructionSetSuperChip8::Hires),
        &mut m.memory,
        &mut m.display,
        &mut m.timer,
        0,
        0,
    );
    assert_eq!(m.processor.mode(), Chip8Mode::SuperChip8);
    assert!(m.display.hires());
    // In SUPER-CHIP a draw of height 0 is a 16 by 16 sprite.
    run(&mut m, InstructionSetChip8::Loadi { value: 0x300 }, 0, 0);
    m.memory.write_byte(0x300, 0xff).unwrap();
    m.memory.write_byte(0x301, 0xff).unwrap();
    run(
        &mut m,
        InstructionSetChip8::Draw { coordinates: Coordinates { x: Register::V0, y: Register::V1 }, height: 0 },
        0,
        0,
    );
    assert!(m.display.staged_pixel(15, 0));
    assert!(!m.display.staged_pixel(0, 1));
    // And Save leaves the index alone.
    run(&mut m, InstructionSetChip8::Save { count: 3 }, 0, 0);
    assert_eq!(m.processor.index(), 0x300);
}

#[test]
fn processor_snapshot_round_trip() {
    let mut m = machine_with(&[]);
    run(&mut m, InstructionSetChip8::Call { address: 0x400 }, 0, 0);
    load(&mut m, Register::VA, 0x77);
    let registers = m.processor.registers();
    let stack = m.processor.stack();
    let mut other: Chip8Processor = Chip8ProcessorConfig {
        frequency: 1000,
        force_mode: Some(Chip8Mode::Chip48),
        always_shr_in_place: false,
    }
    .build_component();
    assert_eq!(other.mode(), Chip8Mode::Chip48);
    assert_eq!(other.load_snapshot(0, registers, &stack, ExecutionState::AwaitingVsync), Ok(()));
    assert_eq!(other.program(), 0x400);
    assert_eq!(other.register(Register::VA), 0x77);
    assert_eq!(other.stack(), vec![0x200]);
    assert!(matches!(other.execution_state(), ExecutionState::AwaitingVsync));
    let too_deep = vec![0u16; 17];
    assert_eq!(
        other.load_snapshot(0, Chip8ProcessorRegisters::default(), &too_deep, ExecutionState::Normal),
        Err(SnapshotError::StackOverflow)
    );
    assert_eq!(other.program(), 0x400);
}

#[test]
fn fetch_decode_and_jump() {
    let mut m = machine_with(&[0x00, 0xe0, 0x1a, 0xbc]);
    assert_eq!(decode_instruction([0x1a, 0xbc]), Some(Chip8InstructionSet::Chip8(InstructionSetChip8::Jump { address: 0xabc })));
    m.processor.cycle(&mut m.memory, &mut m.display, &mut m.timer, 0);
    assert_eq!(m.processor.program(), 0x202);
    m.processor.cycle(&mut m.memory, &mut m.display, &mut m.timer, 0);
    assert_eq!(m.processor.program(), 0xabc);
    let space: &AddressSpace = &m.memory;
    assert_eq!(space.width(), 12);
}

#[test]
fn random_byte_is_masked() {
    // RND V3, 0x0f repeated.
    let mut program = Vec::new();
    for _ in 0..32 {
        program.extend_from_slice(&[0xc3, 0x0f]);
    }
    let mut m = machine_with(&program);
    for _ in 0..32 {
        assert!(m.processor.cycle_ready(&m.memory, &m.display, 0));
        m.processor.cycle(&mut m.memory, &mut m.display, &mut m.timer, 0);
        assert_eq!(m.processor.register(Register::V3) & 0xf0, 0);
    }
    assert_eq!(m.processor.program(), 0x240);
}

#[test]
fn cycle_ready_refuses_what_would_panic() {
    // 0x0123 decodes to nothing.
    let m = machine_with(&[0x01, 0x23]);
    assert!(!m.processor.cycle_ready(&m.memory, &m.display, 0));
    // A seventeenth call overflows the stack.
    let mut m = machine_with(&[0x22, 0x00]);
    for _ in 0..16 {
        assert!(m.processor.cycle_ready(&m.memory, &m.display, 0));
        m.processor.cycle(&mut m.memory, &mut m.display, &mut m.timer, 0);
    }
    assert_eq!(m.processor.stack().len(), 16);
    assert!(!m.processor.cycle_ready(&m.memory, &m.display, 0));
    // Scrolling is not implemented.
    let m = machine_with(&[0x00, 0xfb]);
    assert!(!m.processor.cycle_ready(&m.memory, &m.display, 0));
}

#[test]
fn frame_clock_counts_sixtieths() {
    let mut clock = FrameClock::new(600);
    assert_eq!(clock.period, 10);
    for _ in 0..9 {
        assert!(!clock.step());
    }
    assert!(clock.step());
    assert_eq!(clock.remaining, 10);
    assert!(!clock.step());
    // A processor slower than sixty cycles a second gets a frame each cycle.
    let mut slow = FrameClock::new(30);
    assert!(slow.step());
    assert!(slow.step());
}

#[test]
fn call_returns_past_stack_neutral_code() {
    let mut m = machine_with(&[]);
    run(&mut m, InstructionSetChip8::Call { address: 0x300 }, 0, 0);
    // The subroutine calls and returns itself and changes registers.
    run(&mut m, InstructionSetChip8::Add { register: Register::V1, immediate: 5 }, 0, 0);
    run(&mut m, InstructionSetChip8::Call { address: 0x400 }, 0, 0);
    run(&mut m, InstructionSetChip8::Rtrn, 0, 0);
    run(&mut m, InstructionSetChip8::Jump { address: 0x456 }, 0, 0);
    assert_eq!(m.processor.stack(), vec![0x200]);
    run(&mut m, InstructionSetChip8::Rtrn, 0, 0);
    assert_eq!(m.processor.program(), 0x200);
    assert!(m.processor.stack().is_empty());
}

#[test]
fn second_draw_hits_where_the_first_lit() {
    let mut display: Chip8Display = Chip8DisplayConfig::default().build_component();
    // Part of the sprite falls on an already lit pixel: the first draw hits,
    // and the second hits only through the pixel the first draw lit.
    assert!(!display.draw_sprite(0, 0, &[0b1000_0000]));
    assert!(display.draw_sprite(0, 0, &[0b1100_0000]));
    assert!(!display.staged_pixel(0, 0));
    assert!(display.staged_pixel(1, 0));
    assert!(display.draw_sprite(0, 0, &[0b1100_0000]));
    assert!(display.staged_pixel(0, 0));
    assert!(!display.staged_pixel(1, 0));
    // A sprite wholly off the right edge lands nowhere: neither draw hits.
    let mut clear: Chip8Display = Chip8DisplayConfig::default().build_component();
    assert!(!clear.draw_sprite(63, 0, &[0b0111_1111]));
    assert!(!clear.draw_sprite(63, 0, &[0b0111_1111]));
}
