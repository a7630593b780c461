//! A complete CHIP-8 machine: 4 KiB of work memory holding the font and the
//! program, the processor, the screen and the delay timer.
use vstd::prelude::*;

use super::display::{Chip8Display, Chip8DisplayConfig, LORES_HEIGHT, LORES_WIDTH, blank_screen};
use super::processor::{Chip8Processor, Chip8ProcessorConfig, PROGRAM_START};
use super::timer::{Chip8Timer, Chip8TimerConfig};
use super::Chip8Mode;
use crate::memory::AddressSpace;

verus! {

/// Address bits of the processor's address space.
pub const ADDRESS_WIDTH: u8 = 12;
/// Last address of work memory.
pub const MEMORY_END: usize = 0xfff;
/// Instructions per second the machine runs at.
pub const PROCESSOR_FREQUENCY: u32 = 1000;
/// Bytes of the built-in font: sixteen glyphs of five bytes.
pub const FONT_LENGTH: usize = 80;

/// The built-in hexadecimal font, glyphs `0` to `F`, five rows each, one
/// byte per row with the pixels in the top four bits.
pub open spec fn font_glyphs() -> Seq<u8> {
    seq![
        0xF0u8, 0x90, 0x90, 0x90, 0xF0, // 0
        0x20, 0x60, 0x20, 0x20, 0x70, // 1
        0xF0, 0x10, 0xF0, 0x80, 0xF0, // 2
        0xF0, 0x10, 0xF0, 0x10, 0xF0, // 3
        0x90, 0x90, 0xF0, 0x10, 0x10, // 4
        0xF0, 0x80, 0xF0, 0x10, 0xF0, // 5
        0xF0, 0x80, 0xF0, 0x90, 0xF0, // 6
        0xF0, 0x10, 0x20, 0x40, 0x40, // 7
        0xF0, 0x90, 0xF0, 0x90, 0xF0, // 8
        0xF0, 0x90, 0xF0, 0x10, 0xF0, // 9
        0xF0, 0x90, 0xF0, 0x90, 0x90, // A
        0xE0, 0x90, 0xE0, 0x90, 0xE0, // B
        0xF0, 0x80, 0x80, 0x80, 0xF0, // C
        0xE0, 0x90, 0x90, 0x90, 0xE0, // D
        0xF0, 0x80, 0xF0, 0x80, 0xF0, // E
        0xF0, 0x80, 0xF0, 0x80, 0x80, // F
    ]
}

/// The built-in font.
pub fn chip8_font() -> (r: Vec<u8>)
    ensures
        r@ == font_glyphs(),
{
    let font: Vec<u8> = vec![
        0xF0, 0x90, 0x90, 0x90, 0xF0,
        0x20, 0x60, 0x20, 0x20, 0x70,
        0xF0, 0x10, 0xF0, 0x80, 0xF0,
        0xF0, 0x10, 0xF0, 0x10, 0xF0,
        0x90, 0x90, 0xF0, 0x10, 0x10,
        0xF0, 0x80, 0xF0, 0x10, 0xF0,
        0xF0, 0x80, 0xF0, 0x90, 0xF0,
        0xF0, 0x10, 0x20, 0x40, 0x40,
        0xF0, 0x90, 0xF0, 0x90, 0xF0,
        0xF0, 0x90, 0xF0, 0x10, 0xF0,
        0xF0, 0x90, 0xF0, 0x90, 0x90,
        0xE0, 0x90, 0xE0, 0x90, 0xE0,
        0xF0, 0x80, 0x80, 0x80, 0xF0,
        0xE0, 0x90, 0x90, 0x90, 0xE0,
        0xF0, 0x80, 0xF0, 0x80, 0xF0,
        0xF0, 0x80, 0xF0, 0x80, 0x80,
    ];
    assert(font@ =~= font_glyphs());
    font
}

/// Bytes of the program that fit in memory from the program start on.
pub open spec fn loaded_length(rom_length: nat) -> nat {
    let room = (MEMORY_END + 1 - PROGRAM_START) as nat;
    if rom_length < room {
        rom_length
    } else {
        room
    }
}

/// Work memory at power on: the font at the bottom, the program from the
/// program start on, cut where memory ends, and zeros elsewhere.
pub open spec fn initial_memory(rom: Seq<u8>) -> Seq<u8> {
    Seq::new(
        (MEMORY_END + 1) as nat,
        |a: int|
            if a < FONT_LENGTH {
                font_glyphs()[a]
            } else if PROGRAM_START <= a < PROGRAM_START + loaded_length(rom.len()) {
                rom[a - PROGRAM_START]
            } else {
                0u8
            },
    )
}

/// The CHIP-8 machine family.
#[derive(Debug, Default, Clone, Copy)]
pub struct Chip8;

/// A CHIP-8 machine's components.
#[derive(Debug)]
pub struct Chip8Machine {
    pub processor: Chip8Processor,
    pub memory: AddressSpace,
    pub display: Chip8Display,
    pub timer: Chip8Timer,
}

impl Chip8 {
    /// Builds a machine running `rom`: a 12 bit address space entirely
    /// backed by readable and writable work memory holding the font and the
    /// program, a processor at the program start in plain CHIP-8, a dark low
    /// resolution screen and a stopped delay timer.
    pub fn construct(&self, rom: &[u8]) -> (r: Chip8Machine)
        ensures
            r.memory.wf(),
            r.memory.spec_width() == ADDRESS_WIDTH,
            forall|a: int|
                0 <= a <= MEMORY_END ==> #[trigger] r.memory.is_readable(a) && r.memory.is_writable(a)
                    && r.memory.cell(a) == a,
            r.memory.cells() == initial_memory(rom@),
            r.processor.wf(),
            r.processor@.regs == Seq::new(16, |i: int| 0u8),
            r.processor@.index == 0,
            r.processor@.program == PROGRAM_START,
            r.processor@.stack == Seq::<u16>::empty(),
            r.processor@.mode == Chip8Mode::Chip8,
            r.processor.wait() is Normal,
            r.processor.config_view() == (Chip8ProcessorConfig {
                frequency: PROCESSOR_FREQUENCY,
                force_mode: None,
                always_shr_in_place: false,
            }),
            r.display.wf(),
            !r.display.is_hires(),
            !r.display.vsync_flag(),
            r.display.staging_view() == blank_screen(LORES_WIDTH as int, LORES_HEIGHT as int),
            !r.display.config_view().clear_on_resolution_change,
            r.timer.value() == 0,
    {
        let mut memory = AddressSpace::new(ADDRESS_WIDTH);
        proof {
            crate::memory::address_space::lemma_pow2_12();
        }
        memory.map_memory(0, MEMORY_END, true, true, 0);
        assert forall|b: int| 0 <= b <= MEMORY_END implies #[trigger] memory.is_readable(b)
            && memory.is_writable(b) && memory.cell(b) == b by {
            assert(memory.cell(b) == b);
        }
        proof {
            crate::memory::address_space::lemma_wf(&memory);
        }
        let font = chip8_font();
        let mut a: usize = 0;
        while a < FONT_LENGTH
            invariant
                memory.wf(),
                memory.spec_width() == ADDRESS_WIDTH,
                memory.size() == MEMORY_END + 1,
                font@ == font_glyphs(),
                a <= FONT_LENGTH,
                forall|b: int|
                    0 <= b <= MEMORY_END ==> #[trigger] memory.is_readable(b) && memory.is_writable(b)
                        && memory.cell(b) == b,
                forall|b: int|
                    0 <= b <= MEMORY_END ==> #[trigger] memory.cells()[b] == if b < a {
                        font_glyphs()[b]
                    } else {
                        0u8
                    },
            decreases FONT_LENGTH - a,
        {
            proof {
                crate::memory::address_space::lemma_wf(&memory);
                crate::memory::address_space::lemma_access(&memory, memory.cells(), a as int, font@[a as int]);
            }
            let _ = memory.write_byte(a, font[a]);
            proof {
                crate::memory::address_space::lemma_wf(&memory);
            }
            a = a + 1;
        }
        let length = if rom.len() < MEMORY_END + 1 - PROGRAM_START as usize {
            rom.len()
        } else {
            MEMORY_END + 1 - PROGRAM_START as usize
        };
        let mut k: usize = 0;
        while k < length
            invariant
                memory.wf(),
                memory.spec_width() == ADDRESS_WIDTH,
                memory.size() == MEMORY_END + 1,
                length == loaded_length(rom@.len()),
                k <= length,
                forall|b: int|
                    0 <= b <= MEMORY_END ==> #[trigger] memory.is_readable(b) && memory.is_writable(b)
                        && memory.cell(b) == b,
                forall|b: int|
                    0 <= b <= MEMORY_END ==> #[trigger] memory.cells()[b] == if b < FONT_LENGTH {
                        font_glyphs()[b]
                    } else if PROGRAM_START <= b < PROGRAM_START + k {
                        rom@[b - PROGRAM_START]
                    } else {
                        0u8
                    },
            decreases length - k,
        {
            proof {
                crate::memory::address_space::lemma_wf(&memory);
                crate::memory::address_space::lemma_access(
                    &memory,
                    memory.cells(),
                    PROGRAM_START + k,
                    rom@[k as int],
                );
            }
            let _ = memory.write_byte(PROGRAM_START as usize + k, rom[k]);
            proof {
                crate::memory::address_space::lemma_wf(&memory);
            }
            k = k + 1;
        }
        proof {
            crate::memory::address_space::lemma_wf(&memory);
        }
        assert(memory.cells() =~= initial_memory(rom@));
        let processor = Chip8ProcessorConfig {
            frequency: PROCESSOR_FREQUENCY,
            force_mode: None,
            always_shr_in_place: false,
        }.build_component();
        let display = Chip8DisplayConfig::default().build_component();
        let timer = Chip8TimerConfig.build_component();
        Chip8Machine { processor, memory, display, timer }
    }
}

/// Counts processor cycles down to the next sixtieth of a second, when the
/// delay timer ticks and the display shows a frame.
#[derive(Debug, Clone, Copy)]
pub struct FrameClock {
    /// Processor cycles in a sixtieth of a second (at least one).
    pub period: u32,
    /// Cycles left until the next frame, this one included.
    pub remaining: u32,
}

impl FrameClock {
    pub open spec fn wf(self) -> bool {
        1 <= self.remaining <= self.period
    }

    pub open spec fn spec_period(frequency: u32) -> u32 {
        if frequency < 60 {
            1
        } else {
            frequency / 60
        }
    }

    /// A clock for a processor running at `frequency` cycles a second; a
    /// processor slower than sixty cycles a second sees a frame every cycle.
    pub fn new(frequency: u32) -> (r: Self)
        ensures
            r.wf(),
            r.period == Self::spec_period(frequency),
            r.remaining == r.period,
    {
        let period = if frequency < 60 {
            1
        } else {
            frequency / 60
        };
        FrameClock { period, remaining: period }
    }

    /// Counts one processor cycle; gives whether it ends a sixtieth of a
    /// second, and then starts the next one.
    pub fn step(&mut self) -> (frame: bool)
        requires
            old(self).wf(),
        ensures
            final(self).wf(),
            final(self).period == old(self).period,
            frame == (old(self).remaining == 1),
            final(self).remaining == if frame {
                old(self).period
            } else {
                (old(self).remaining - 1) as u32
            },
    {
        if self.remaining == 1 {
            self.remaining = self.period;
            true
        } else {
            self.remaining = self.remaining - 1;
            false
        }
    }
}

} // verus!
