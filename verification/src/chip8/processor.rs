//! The CHIP-8 processor: sixteen byte registers, an index register, a
//! program counter and a sixteen entry return stack, executing one
//! instruction per cycle against memory, the screen, the delay timer and
//! the keypad.
use arrayvec::ArrayVec;
use vstd::prelude::*;

use super::{Chip8Mode, SnapshotError};
use super::decoder::{decode_instruction, spec_decode};
use super::display::{
    Chip8Display, blank_screen, resized, screen_height, screen_width, sprite_collides, sprite_drawn,
};
use super::instruction::{Chip8InstructionSet, InstructionSetChip8, InstructionSetSuperChip8, Register};
use super::timer::Chip8Timer;
use crate::bounded::{stack_contents, stack_get, stack_len, stack_new, stack_pop, stack_push};
use crate::memory::AddressSpace;
use crate::memory::address_space::{lemma_access, lemma_same_mapping, lemma_wf};
use crate::random::random_byte;

verus! {

/// Where programs are loaded, and where execution starts.
pub const PROGRAM_START: u16 = 0x200;
/// Bytes per glyph of the built-in hexadecimal font.
pub const FONT_GLYPH_SIZE: u16 = 5;
/// Entries the return stack holds.
pub const STACK_CAPACITY: usize = 16;

/// What the processor does on its next cycle.
#[derive(Debug, Clone)]
pub enum ExecutionState {
    /// Fetches and executes an instruction.
    Normal,
    /// Waits for a key to go down, to store it in `register`.
    AwaitingKeyPress { register: Register },
    /// Waits for one of `keys`, held down, to be released; that key goes in
    /// `register`.
    AwaitingKeyRelease { register: Register, keys: Vec<u8> },
    /// Waits for the screen to show a frame after a draw.
    AwaitingVsync,
    /// Does nothing.
    Halted,
}

/// The processor's registers.
#[derive(Debug, Clone, Copy)]
pub struct Chip8ProcessorRegisters {
    pub work_registers: [u8; 16],
    pub index: u16,
    pub program: u16,
}

impl Default for Chip8ProcessorRegisters {
    fn default() -> (r: Self)
        ensures
            r.work_registers@ == Seq::new(16, |i: int| 0u8),
            r.index == 0,
            r.program == PROGRAM_START,
    {
        let r = Chip8ProcessorRegisters { work_registers: [0u8; 16], index: 0, program: PROGRAM_START };
        assert(r.work_registers@ =~= Seq::new(16, |i: int| 0u8));
        r
    }
}

/// Everything the processor keeps between cycles.
#[derive(Debug)]
pub struct ProcessorState {
    registers: Chip8ProcessorRegisters,
    stack: ArrayVec<u16, 16>,
    execution_state: ExecutionState,
}

impl Default for ProcessorState {
    fn default() -> (r: Self)
        ensures
            r.registers_view().work_registers@ == Seq::new(16, |i: int| 0u8),
            r.registers_view().index == 0,
            r.registers_view().program == PROGRAM_START,
            r.stack_view() == Seq::<u16>::empty(),
            r.execution_state_view() is Normal,
    {
        ProcessorState {
            stack: stack_new(),
            registers: Chip8ProcessorRegisters::default(),
            execution_state: ExecutionState::Normal,
        }
    }
}

impl ProcessorState {
    pub closed spec fn registers_view(&self) -> Chip8ProcessorRegisters {
        self.registers
    }

    /// The return stack, bottom first.
    pub closed spec fn stack_view(&self) -> Seq<u16> {
        stack_contents(self.stack)
    }

    pub closed spec fn execution_state_view(&self) -> ExecutionState {
        self.execution_state
    }
}

/// How the processor is set up.
#[derive(Debug, Clone, Copy)]
pub struct Chip8ProcessorConfig {
    /// Instructions per second.
    pub frequency: u32,
    /// Dialect to start in; plain CHIP-8 when `None`.
    pub force_mode: Option<Chip8Mode>,
    /// Whether `SHR` shifts `Vy` into `Vx` in every dialect, as plain CHIP-8 does.
    pub always_shr_in_place: bool,
}

/// A CHIP-8 processor.
#[derive(Debug)]
pub struct Chip8Processor {
    state: ProcessorState,
    mode: Chip8Mode,
    config: Chip8ProcessorConfig,
}

/// The processor's registers, stack and dialect, as contracts see them.
#[verifier::ext_equal]
pub struct Chip8View {
    /// `V0` to `VF`.
    pub regs: Seq<u8>,
    pub index: u16,
    pub program: u16,
    /// Return addresses, bottom first.
    pub stack: Seq<u16>,
    pub mode: Chip8Mode,
}

impl View for Chip8Processor {
    type V = Chip8View;

    closed spec fn view(&self) -> Chip8View {
        Chip8View {
            regs: self.state.registers.work_registers@,
            index: self.state.registers.index,
            program: self.state.registers.program,
            stack: stack_contents(self.state.stack),
            mode: self.mode,
        }
    }
}

/// Index of a register, as an integer.
pub open spec fn ridx(r: Register) -> int {
    r.spec_index() as int
}

/// The program counter moved past one instruction.
pub open spec fn skipped(pc: u16) -> u16 {
    ((pc + 2) % 65536) as u16
}

/// Whether key `key` is down in the keypad state `keys`, bit `k` for key `k`.
pub open spec fn key_down(keys: u16, key: int) -> bool {
    0 <= key < 16 && (keys >> (key as u16)) & 1u16 == 1u16
}

/// Whether a draw of `height` rows takes a 16 by 16 sprite in this dialect.
pub open spec fn wide_sprite(mode: Chip8Mode, height: u8) -> bool {
    (height == 0 && mode == Chip8Mode::SuperChip8) || mode == Chip8Mode::XoChip
}

/// Bytes a draw of `height` rows reads.
pub open spec fn sprite_length(mode: Chip8Mode, height: u8) -> nat {
    if wide_sprite(mode, height) {
        32
    } else {
        height as nat
    }
}

/// `n` bytes of memory from `index` on.
pub open spec fn sprite_bytes(space: AddressSpace, cells: Seq<u8>, index: u16, n: nat) -> Seq<u8> {
    Seq::new(n, |k: int| space.read_or_zero(cells, index + k))
}

/// Memory after `V0` to `V(n-1)` are stored from `index` on.
pub open spec fn saved_cells(space: AddressSpace, cells: Seq<u8>, index: u16, regs: Seq<u8>, n: nat) -> Seq<
    u8,
>
    decreases n,
{
    if n == 0 {
        cells
    } else {
        space.write_in(
            saved_cells(space, cells, index, regs, (n - 1) as nat),
            index + n - 1,
            regs[n - 1],
        )
    }
}

/// Memory after the hundreds, tens and ones of `value` are stored from `index` on.
pub open spec fn bcd_cells(space: AddressSpace, cells: Seq<u8>, index: u16, value: u8) -> Seq<u8> {
    let c1 = space.write_in(cells, index as int, value / 100);
    let c2 = space.write_in(c1, index + 1, (value / 10) % 10);
    space.write_in(c2, index + 2, value % 10)
}

/// Whether a draw of the sprite the registers point at turns a lit pixel dark.
pub open spec fn draw_hit(
    v: Chip8View,
    instruction: Chip8InstructionSet,
    space: AddressSpace,
    cells: Seq<u8>,
    pixels: Seq<Seq<bool>>,
    width: int,
    height: int,
) -> bool {
    match instruction {
        Chip8InstructionSet::Chip8(InstructionSetChip8::Draw { coordinates, height: rows }) => sprite_collides(
            pixels,
            v.regs[ridx(coordinates.x)] as int % width,
            v.regs[ridx(coordinates.y)] as int % height,
            sprite_bytes(space, cells, v.index, sprite_length(v.mode, rows)),
            wide_sprite(v.mode, rows),
        ),
        _ => false,
    }
}

/// `V0` to `VF` after the instruction. `timer` is the delay timer, `hit`
/// whether a draw turned a pixel dark, `random` the byte a `RND` draws.
pub open spec fn regs_after(
    v: Chip8View,
    instruction: Chip8InstructionSet,
    shr_in_place: bool,
    space: AddressSpace,
    cells: Seq<u8>,
    timer: u8,
    hit: bool,
    random: u8,
) -> Seq<u8> {
    let r = v.regs;
    let plain = v.mode == Chip8Mode::Chip8;
    match instruction {
        Chip8InstructionSet::Chip8(i) => match i {
            InstructionSetChip8::Load { register, immediate } => r.update(ridx(register), immediate),
            InstructionSetChip8::Add { register, immediate } => r.update(
                ridx(register),
                ((r[ridx(register)] + immediate) % 256) as u8,
            ),
            InstructionSetChip8::Move { param_1, param_2 } => r.update(ridx(param_1), r[ridx(param_2)]),
            InstructionSetChip8::Or { destination, source } => {
                let r1 = r.update(ridx(destination), r[ridx(destination)] | r[ridx(source)]);
                if plain {
                    r1.update(15, 0)
                } else {
                    r1
                }
            },
            InstructionSetChip8::And { destination, source } => {
                let r1 = r.update(ridx(destination), r[ridx(destination)] & r[ridx(source)]);
                if plain {
                    r1.update(15, 0)
                } else {
                    r1
                }
            },
            InstructionSetChip8::Xor { destination, source } => {
                let r1 = r.update(ridx(destination), r[ridx(destination)] ^ r[ridx(source)]);
                if plain {
                    r1.update(15, 0)
                } else {
                    r1
                }
            },
            InstructionSetChip8::Addr { destination, source } => {
                let sum = r[ridx(destination)] + r[ridx(source)];
                r.update(ridx(destination), (sum % 256) as u8).update(
                    15,
                    if sum > 255 {
                        1
                    } else {
                        0
                    },
                )
            },
            InstructionSetChip8::Sub { destination, source } => {
                let d = r[ridx(destination)];
                let s = r[ridx(source)];
                r.update(ridx(destination), ((d - s + 256) % 256) as u8).update(
                    15,
                    if d >= s {
                        1
                    } else {
                        0
                    },
                )
            },
            InstructionSetChip8::Subn { destination, source } => {
                let d = r[ridx(destination)];
                let s = r[ridx(source)];
                r.update(ridx(destination), ((s - d + 256) % 256) as u8).update(
                    15,
                    if s >= d {
                        1
                    } else {
                        0
                    },
                )
            },
            InstructionSetChip8::Shr { register, value } => {
                let x = if plain || shr_in_place {
                    r[ridx(value)]
                } else {
                    r[ridx(register)]
                };
                r.update(ridx(register), x / 2).update(15, x % 2)
            },
            InstructionSetChip8::Shl { register, value } => {
                let x = if plain {
                    r[ridx(value)]
                } else {
                    r[ridx(register)]
                };
                r.update(ridx(register), ((2 * x) % 256) as u8).update(15, x / 128)
            },
            InstructionSetChip8::Rand { register, immediate } => r.update(ridx(register), random & immediate),
            InstructionSetChip8::Draw { .. } => r.update(
                15,
                if hit {
                    1
                } else {
                    0
                },
            ),
            InstructionSetChip8::Moved { register } => r.update(ridx(register), timer),
            InstructionSetChip8::Restore { count } => Seq::new(
                16,
                |i: int|
                    if i <= count {
                        space.read_or_zero(cells, v.index + i)
                    } else {
                        r[i]
                    },
            ),
            _ => r,
        },
        _ => r,
    }
}

/// The index register after the instruction.
pub open spec fn index_after(v: Chip8View, instruction: Chip8InstructionSet) -> u16 {
    let r = v.regs;
    match instruction {
        Chip8InstructionSet::Chip8(i) => match i {
            InstructionSetChip8::Loadi { value } => value,
            InstructionSetChip8::Addi { register } => ((v.index + r[ridx(register)]) % 65536) as u16,
            InstructionSetChip8::Font { register } => (r[ridx(register)] * FONT_GLYPH_SIZE) as u16,
            InstructionSetChip8::Save { count } => if v.mode == Chip8Mode::Chip8 {
                ((v.index + count + 1) % 65536) as u16
            } else {
                v.index
            },
            InstructionSetChip8::Restore { count } => if v.mode == Chip8Mode::Chip8 {
                ((v.index + count + 1) % 65536) as u16
            } else {
                v.index
            },
            _ => v.index,
        },
        _ => v.index,
    }
}

/// The program counter after the instruction (already past it). `keys` is
/// the keypad.
pub open spec fn program_after(v: Chip8View, instruction: Chip8InstructionSet, keys: u16) -> u16 {
    let r = v.regs;
    let pc = v.program;
    match instruction {
        Chip8InstructionSet::Chip8(i) => match i {
            InstructionSetChip8::Rtrn => if v.stack.len() > 0 {
                v.stack.last()
            } else {
                PROGRAM_START
            },
            InstructionSetChip8::Jump { address } => address,
            InstructionSetChip8::Call { address } => address,
            InstructionSetChip8::Ske { register, immediate } => if r[ridx(register)] == immediate {
                skipped(pc)
            } else {
                pc
            },
            InstructionSetChip8::Skne { register, immediate } => if r[ridx(register)] != immediate {
                skipped(pc)
            } else {
                pc
            },
            InstructionSetChip8::Skre { param_1, param_2 } => if r[ridx(param_1)] == r[ridx(param_2)] {
                skipped(pc)
            } else {
                pc
            },
            InstructionSetChip8::Skrne { param_1, param_2 } => if r[ridx(param_1)] != r[ridx(
                param_2,
            )] {
                skipped(pc)
            } else {
                pc
            },
            InstructionSetChip8::Jumpi { address } => {
                let offset = if v.mode == Chip8Mode::Chip8 {
                    r[0]
                } else {
                    r[((address / 256) % 16) as int]
                };
                ((address + offset) % 65536) as u16
            },
            InstructionSetChip8::Skpr { key } => if key_down(keys, r[ridx(key)] as int) {
                skipped(pc)
            } else {
                pc
            },
            InstructionSetChip8::Skup { key } => if !key_down(keys, r[ridx(key)] as int) {
                skipped(pc)
            } else {
                pc
            },
            _ => pc,
        },
        _ => pc,
    }
}

/// The return stack after the instruction.
pub open spec fn stack_after(v: Chip8View, instruction: Chip8InstructionSet) -> Seq<u16> {
    match instruction {
        Chip8InstructionSet::Chip8(InstructionSetChip8::Rtrn) => if v.stack.len() > 0 {
            v.stack.drop_last()
        } else {
            v.stack
        },
        Chip8InstructionSet::Chip8(InstructionSetChip8::Call { .. }) => v.stack.push(v.program),
        _ => v.stack,
    }
}

/// The dialect after the instruction: a SUPER-CHIP or XO-CHIP instruction
/// switches to its dialect.
pub open spec fn mode_after(v: Chip8View, instruction: Chip8InstructionSet) -> Chip8Mode {
    match instruction {
        Chip8InstructionSet::SuperChip8(_) => Chip8Mode::SuperChip8,
        Chip8InstructionSet::XoChip(_) => Chip8Mode::XoChip,
        _ => v.mode,
    }
}

/// The processor after the instruction.
pub open spec fn executed(
    v: Chip8View,
    instruction: Chip8InstructionSet,
    shr_in_place: bool,
    space: AddressSpace,
    cells: Seq<u8>,
    keys: u16,
    timer: u8,
    hit: bool,
    random: u8,
) -> Chip8View {
    Chip8View {
        regs: regs_after(v, instruction, shr_in_place, space, cells, timer, hit, random),
        index: index_after(v, instruction),
        program: program_after(v, instruction, keys),
        stack: stack_after(v, instruction),
        mode: mode_after(v, instruction),
    }
}

/// Memory after the instruction.
pub open spec fn cells_after(
    v: Chip8View,
    instruction: Chip8InstructionSet,
    space: AddressSpace,
    cells: Seq<u8>,
) -> Seq<u8> {
    match instruction {
        Chip8InstructionSet::Chip8(InstructionSetChip8::Bcd { register }) => bcd_cells(
            space,
            cells,
            v.index,
            v.regs[ridx(register)],
        ),
        Chip8InstructionSet::Chip8(InstructionSetChip8::Save { count }) => saved_cells(
            space,
            cells,
            v.index,
            v.regs,
            count as nat + 1,
        ),
        _ => cells,
    }
}

/// What the processor waits for after the instruction: `LD Vx, K` waits for
/// a key, a draw for the next frame.
pub open spec fn wait_after(w: ExecutionState, instruction: Chip8InstructionSet) -> ExecutionState {
    match instruction {
        Chip8InstructionSet::Chip8(InstructionSetChip8::Keyd { key }) => ExecutionState::AwaitingKeyPress {
            register: key,
        },
        Chip8InstructionSet::Chip8(InstructionSetChip8::Draw { .. }) => ExecutionState::AwaitingVsync,
        _ => w,
    }
}

/// The delay timer after the instruction.
pub open spec fn timer_after(v: Chip8View, instruction: Chip8InstructionSet, timer: u8) -> u8 {
    match instruction {
        Chip8InstructionSet::Chip8(InstructionSetChip8::Loadd { register }) => v.regs[ridx(register)],
        _ => timer,
    }
}

/// The value the instruction hands to the sound timer, if it sets it.
pub open spec fn sound_after(v: Chip8View, instruction: Chip8InstructionSet) -> Option<u8> {
    match instruction {
        Chip8InstructionSet::Chip8(InstructionSetChip8::Loads { register }) => Some(
            v.regs[ridx(register)],
        ),
        _ => None,
    }
}

/// Whether `after` is the screen `before` switched to the given resolution.
pub open spec fn switched_resolution(before: Chip8Display, after: Chip8Display, hires: bool) -> bool {
    &&& after.wf()
    &&& after.is_hires() == hires
    &&& after.config_view() == before.config_view()
    &&& after.vsync_flag() == before.vsync_flag()
    &&& after.staging_view() == resized(
        before.staging_view(),
        screen_width(hires),
        screen_height(hires),
    )
    &&& after.framebuffer_view() == after.staging_view()
}

/// Whether `after` is the screen after the instruction ran on `before`.
pub open spec fn display_after(
    v: Chip8View,
    instruction: Chip8InstructionSet,
    space: AddressSpace,
    cells: Seq<u8>,
    before: Chip8Display,
    after: Chip8Display,
) -> bool {
    match instruction {
        Chip8InstructionSet::Chip8(InstructionSetChip8::Clr) => {
            &&& after.wf()
            &&& before.same_frame(&after)
            &&& after.vsync_flag() == before.vsync_flag()
            &&& after.staging_view() == blank_screen(before.width(), before.height())
        },
        Chip8InstructionSet::Chip8(InstructionSetChip8::Draw { coordinates, height }) => {
            &&& after.wf()
            &&& before.same_frame(&after)
            &&& !after.vsync_flag()
            &&& after.staging_view() == sprite_drawn(
                before.staging_view(),
                v.regs[ridx(coordinates.x)] as int % before.width(),
                v.regs[ridx(coordinates.y)] as int % before.height(),
                sprite_bytes(space, cells, v.index, sprite_length(v.mode, height)),
                wide_sprite(v.mode, height),
            )
        },
        Chip8InstructionSet::SuperChip8(InstructionSetSuperChip8::Lores) => switched_resolution(
            before,
            after,
            false,
        ),
        Chip8InstructionSet::SuperChip8(InstructionSetSuperChip8::Hires) => switched_resolution(
            before,
            after,
            true,
        ),
        _ => after == before,
    }
}

/// Whether the instruction runs to its end: the stack has room for a
/// call, the memory it reads is readable and the memory it writes
/// writable, a key it tests is a key, a sprite is at most 16 rows, and it
/// is not one of the scrolls or XO-CHIP instructions, which are not
/// implemented.
pub open spec fn interpret_defined(
    v: Chip8View,
    instruction: Chip8InstructionSet,
    space: AddressSpace,
    display: Chip8Display,
) -> bool {
    match instruction {
        Chip8InstructionSet::Chip8(i) => match i {
            InstructionSetChip8::Call { .. } => v.stack.len() < STACK_CAPACITY,
            InstructionSetChip8::Draw { height, .. } => {
                &&& (wide_sprite(v.mode, height) || height <= 16)
                &&& forall|k: int|
                    0 <= k < sprite_length(v.mode, height) ==> #[trigger] space.spec_read(v.index + k)
                        is Some
            },
            InstructionSetChip8::Skpr { key } => v.regs[ridx(key)] < 16,
            InstructionSetChip8::Skup { key } => v.regs[ridx(key)] < 16,
            InstructionSetChip8::Bcd { .. } => forall|k: int|
                0 <= k < 3 ==> #[trigger] space.spec_can_write(v.index + k),
            InstructionSetChip8::Save { count } => {
                &&& count < 16
                &&& forall|k: int| 0 <= k <= count ==> #[trigger] space.spec_can_write(v.index + k)
            },
            InstructionSetChip8::Restore { count } => {
                &&& count < 16
                &&& forall|k: int| 0 <= k <= count ==> #[trigger] space.spec_read(v.index + k) is Some
            },
            _ => true,
        },
        Chip8InstructionSet::SuperChip8(i) => match i {
            InstructionSetSuperChip8::Lores => !display.config_view().clear_on_resolution_change,
            InstructionSetSuperChip8::Hires => !display.config_view().clear_on_resolution_change,
            _ => false,
        },
        Chip8InstructionSet::XoChip(_) => false,
    }
}

/// Whether running the instruction took the processor from `before` to
/// `after`, memory from `space` to `space_after`, the screen from `display`
/// to `display_after_`, the delay timer from `timer` to `timer_after_`,
/// with the keypad at `keys`, `random` as the byte a `RND` draws, and
/// `sound` handed to the sound timer.
pub open spec fn executes(
    before: Chip8Processor,
    after: Chip8Processor,
    instruction: Chip8InstructionSet,
    space: AddressSpace,
    space_after: AddressSpace,
    display: Chip8Display,
    display_after_: Chip8Display,
    timer: u8,
    timer_after_: u8,
    keys: u16,
    random: u8,
    sound: Option<u8>,
) -> bool {
    &&& after.wf()
    &&& space_after.wf()
    &&& space.same_mapping(&space_after)
    &&& space_after.cells() == cells_after(before@, instruction, space, space.cells())
    &&& after@ == executed(
        before@,
        instruction,
        before.config_view().always_shr_in_place,
        space,
        space.cells(),
        keys,
        timer,
        draw_hit(
            before@,
            instruction,
            space,
            space.cells(),
            display.staging_view(),
            display.width(),
            display.height(),
        ),
        random,
    )
    &&& after.wait() == wait_after(before.wait(), instruction)
    &&& after.config_view() == before.config_view()
    &&& display_after(before@, instruction, space, space.cells(), display, display_after_)
    &&& timer_after_ == timer_after(before@, instruction, timer)
    &&& sound == sound_after(before@, instruction)
}

/// The hundreds, tens and ones digits of `value`.
pub fn bcd_encode(value: u8) -> (r: [u8; 3])
    ensures
        r@ == seq![value / 100, (value / 10) % 10, value % 10],
        r@[0] < 3 && r@[1] < 10 && r@[2] < 10,
        100 * r@[0] + 10 * r@[1] + r@[2] == value,
{
    let hundreds = value / 100;
    let tens = (value / 10) % 10;
    let ones = value % 10;
    let r = [hundreds, tens, ones];
    assert(r@ =~= seq![hundreds, tens, ones]);
    r
}

impl Chip8Processor {
    /// The configuration the processor was built with.
    pub closed spec fn config_view(&self) -> Chip8ProcessorConfig {
        self.config
    }

    /// What the processor does on its next cycle.
    pub closed spec fn wait(&self) -> ExecutionState {
        self.state.execution_state
    }

    /// The register file, stack and wait state hold together: the
    /// registers are sixteen and the stack within its capacity.
    pub open spec fn wf(&self) -> bool {
        &&& self@.regs.len() == 16
        &&& self@.stack.len() <= STACK_CAPACITY
    }

    /// Value of register `register`.
    pub fn register(&self, register: Register) -> (r: u8)
        ensures
            r == self@.regs[ridx(register)],
    {
        self.state.registers.work_registers[register.index()]
    }

    /// The index register.
    pub fn index(&self) -> (r: u16)
        ensures
            r == self@.index,
    {
        self.state.registers.index
    }

    /// The program counter.
    pub fn program(&self) -> (r: u16)
        ensures
            r == self@.program,
    {
        self.state.registers.program
    }

    /// The dialect the processor runs.
    pub fn mode(&self) -> (r: Chip8Mode)
        ensures
            r == self@.mode,
    {
        self.mode
    }

    /// Instructions per second.
    pub fn frequency(&self) -> (r: u32)
        ensures
            r == self.config_view().frequency,
    {
        self.config.frequency
    }

    /// The return stack, bottom first.
    pub fn stack(&self) -> (r: Vec<u16>)
        ensures
            r@ == self@.stack,
    {
        let n = stack_len(&self.state.stack);
        let mut out: Vec<u16> = Vec::new();
        let mut i: usize = 0;
        while i < n
            invariant
                n == stack_contents(self.state.stack).len(),
                i <= n,
                out@ == stack_contents(self.state.stack).subrange(0, i as int),
            decreases n - i,
        {
            out.push(stack_get(&self.state.stack, i));
            i = i + 1;
            assert(out@ =~= stack_contents(self.state.stack).subrange(0, i as int));
        }
        assert(out@ =~= stack_contents(self.state.stack));
        out
    }

    /// Whether key `key` is down in the keypad state `keys`.
    fn key_is_down(keys: u16, key: u8) -> (r: bool)
        requires
            key < 16,
        ensures
            r == key_down(keys, key as int),
    {
        (keys >> (key as u16)) & 1 == 1
    }
}

/// `n` bytes of memory from `index` on.
fn read_sprite(space: &AddressSpace, index: u16, n: usize) -> (r: Vec<u8>)
    requires
        space.wf(),
        n <= 256,
    ensures
        r@ == sprite_bytes(*space, space.cells(), index, n as nat),
{
    let mut out: Vec<u8> = Vec::new();
    let mut k: usize = 0;
    while k < n
        invariant
            space.wf(),
            n <= 256,
            k <= n,
            out@.len() == k,
            forall|j: int| 0 <= j < k ==> #[trigger] out@[j] == space.read_or_zero(space.cells(), index + j),
        decreases n - k,
    {
        out.push(space.read_or_zero_byte(index as usize + k));
        k = k + 1;
    }
    assert(out@ =~= sprite_bytes(*space, space.cells(), index, n as nat));
    out
}

/// The 32 bytes of a 16 by 16 sprite from `index` on.
fn read_wide_sprite(space: &AddressSpace, index: u16) -> (r: [u8; 32])
    requires
        space.wf(),
    ensures
        r@ == sprite_bytes(*space, space.cells(), index, 32),
{
    let mut out = [0u8; 32];
    let mut k: usize = 0;
    while k < 32
        invariant
            space.wf(),
            k <= 32,
            out@.len() == 32,
            forall|j: int| 0 <= j < k ==> #[trigger] out@[j] == space.read_or_zero(space.cells(), index + j),
        decreases 32 - k,
    {
        out[k] = space.read_or_zero_byte(index as usize + k);
        k = k + 1;
    }
    assert(out@ =~= sprite_bytes(*space, space.cells(), index, 32));
    out
}

/// Stores `V0` to `Vcount` from `index` on.
fn save_registers(space: &mut AddressSpace, index: u16, regs: &[u8; 16], count: u8)
    requires
        old(space).wf(),
        count < 16,
        forall|k: int| 0 <= k <= count ==> #[trigger] old(space).spec_can_write(index + k),
    ensures
        final(space).wf(),
        old(space).same_mapping(final(space)),
        final(space).cells() == saved_cells(*old(space), old(space).cells(), index, regs@, count as nat + 1),
{
    let mut i: u8 = 0;
    while i <= count
        invariant
            old(space).wf(),
            space.wf(),
            old(space).same_mapping(space),
            count < 16,
            i <= count + 1,
            space.cells() == saved_cells(*old(space), old(space).cells(), index, regs@, i as nat),
        decreases count + 1 - i,
    {
        proof {
            lemma_same_mapping(old(space), space);
        }
        let _ = space.write_byte(index as usize + i as usize, regs[i as usize]);
        i = i + 1;
    }
}

/// Loads `V0` to `Vcount` from `index` on.
fn restore_registers(regs: &mut [u8; 16], space: &AddressSpace, index: u16, count: u8)
    requires
        space.wf(),
        count < 16,
    ensures
        final(regs)@ == Seq::new(
            16,
            |i: int|
                if i <= count {
                    space.read_or_zero(space.cells(), index + i)
                } else {
                    old(regs)@[i]
                },
        ),
{
    let mut i: u8 = 0;
    while i <= count
        invariant
            space.wf(),
            count < 16,
            i <= count + 1,
            regs@.len() == 16,
            forall|j: int|
                0 <= j < 16 ==> #[trigger] regs@[j] == if j < i {
                    space.read_or_zero(space.cells(), index + j)
                } else {
                    old(regs)@[j]
                },
        decreases count + 1 - i,
    {
        regs[i as usize] = space.read_or_zero_byte(index as usize + i as usize);
        i = i + 1;
    }
    assert(regs@ =~= Seq::new(
        16,
        |i: int|
            if i <= count {
                space.read_or_zero(space.cells(), index + i)
            } else {
                old(regs)@[i]
            },
    ));
}

impl Chip8Processor {
    /// Returns, jumps, calls and skips.
    #[verifier::spinoff_prover]
    #[verifier::rlimit(80)]
    fn execute_flow(
        &mut self,
        i: InstructionSetChip8,
        space: &mut AddressSpace,
        display: &mut Chip8Display,
        timer: &mut Chip8Timer,
        keys: u16,
        random: u8,
    ) -> (sound: Option<u8>)
        requires
            old(self).wf(),
            old(space).wf(),
            old(display).wf(),
            interpret_defined(old(self)@, Chip8InstructionSet::Chip8(i), *old(space), *old(display)),
            is_flow(i),
        ensures
            executes(
                *old(self),
                *final(self),
                Chip8InstructionSet::Chip8(i),
                *old(space),
                *final(space),
                *old(display),
                *final(display),
                old(timer).value(),
                final(timer).value(),
                keys,
                random,
                sound,
            ),
    {
        let pc = self.state.registers.program;
        let plain = self.mode == Chip8Mode::Chip8;
        match i {
            InstructionSetChip8::Rtrn => {
                match stack_pop(&mut self.state.stack) {
                    Some(address) => {
                        self.state.registers.program = address;
                    },
                    None => {
                        self.state.registers.program = PROGRAM_START;
                    },
                }
            },
            InstructionSetChip8::Jump { address } => {
                self.state.registers.program = address;
            },
            InstructionSetChip8::Call { address } => {
                stack_push(&mut self.state.stack, pc);
                self.state.registers.program = address;
            },
            InstructionSetChip8::Ske { register, immediate } => {
                if self.state.registers.work_registers[register.index()] == immediate {
                    self.state.registers.program = pc.wrapping_add(2);
                }
            },
            InstructionSetChip8::Skne { register, immediate } => {
                if self.state.registers.work_registers[register.index()] != immediate {
                    self.state.registers.program = pc.wrapping_add(2);
                }
            },
            InstructionSetChip8::Skre { param_1, param_2 } => {
                if self.state.registers.work_registers[param_1.index()]
                    == self.state.registers.work_registers[param_2.index()] {
                    self.state.registers.program = pc.wrapping_add(2);
                }
            },
            InstructionSetChip8::Skrne { param_1, param_2 } => {
                if self.state.registers.work_registers[param_1.index()]
                    != self.state.registers.work_registers[param_2.index()] {
                    self.state.registers.program = pc.wrapping_add(2);
                }
            },
            InstructionSetChip8::Jumpi { address } => {
                let offset = if plain {
                    self.state.registers.work_registers[0]
                } else {
                    self.state.registers.work_registers[((address / 256) % 16) as usize]
                };
                self.state.registers.program = address.wrapping_add(offset as u16);
            },
            InstructionSetChip8::Skpr { key } => {
                let k = self.state.registers.work_registers[key.index()];
                if Self::key_is_down(keys, k) {
                    self.state.registers.program = pc.wrapping_add(2);
                }
            },
            InstructionSetChip8::Skup { key } => {
                let k = self.state.registers.work_registers[key.index()];
                if !Self::key_is_down(keys, k) {
                    self.state.registers.program = pc.wrapping_add(2);
                }
            },
            _ => {},
        }
        proof {
            assert(self@ =~= executed(
                old(self)@,
                Chip8InstructionSet::Chip8(i),
                old(self).config_view().always_shr_in_place,
                *old(space),
                old(space).cells(),
                keys,
                old(timer).value(),
                draw_hit(
                    old(self)@,
                    Chip8InstructionSet::Chip8(i),
                    *old(space),
                    old(space).cells(),
                    old(display).staging_view(),
                    old(display).width(),
                    old(display).height(),
                ),
                random,
            ));
        }
        None
    }

    /// Loads, additions without carry, logic and random bytes.
    #[verifier::spinoff_prover]
    #[verifier::rlimit(80)]
    fn execute_logic(
        &mut self,
        i: InstructionSetChip8,
        space: &mut AddressSpace,
        display: &mut Chip8Display,
        timer: &mut Chip8Timer,
        keys: u16,
        random: u8,
    ) -> (sound: Option<u8>)
        requires
            old(self).wf(),
            old(space).wf(),
            old(display).wf(),
            interpret_defined(old(self)@, Chip8InstructionSet::Chip8(i), *old(space), *old(display)),
            is_logic(i),
        ensures
            executes(
                *old(self),
                *final(self),
                Chip8InstructionSet::Chip8(i),
                *old(space),
                *final(space),
                *old(display),
                *final(display),
                old(timer).value(),
                final(timer).value(),
                keys,
                random,
                sound,
            ),
    {
        let plain = self.mode == Chip8Mode::Chip8;
        match i {
            InstructionSetChip8::Load { register, immediate } => {
                self.state.registers.work_registers[register.index()] = immediate;
            },
            InstructionSetChip8::Add { register, immediate } => {
                let value = self.state.registers.work_registers[register.index()];
                self.state.registers.work_registers[register.index()] = value.wrapping_add(immediate);
            },
            InstructionSetChip8::Move { param_1, param_2 } => {
                let value = self.state.registers.work_registers[param_2.index()];
                self.state.registers.work_registers[param_1.index()] = value;
            },
            InstructionSetChip8::Or { destination, source } => {
                let value = self.state.registers.work_registers[destination.index()]
                    | self.state.registers.work_registers[source.index()];
                self.state.registers.work_registers[destination.index()] = value;
                if plain {
                    self.state.registers.work_registers[15] = 0;
                }
            },
            InstructionSetChip8::And { destination, source } => {
                let value = self.state.registers.work_registers[destination.index()]
                    & self.state.registers.work_registers[source.index()];
                self.state.registers.work_registers[destination.index()] = value;
                if plain {
                    self.state.registers.work_registers[15] = 0;
                }
            },
            InstructionSetChip8::Xor { destination, source } => {
                let value = self.state.registers.work_registers[destination.index()]
                    ^ self.state.registers.work_registers[source.index()];
                self.state.registers.work_registers[destination.index()] = value;
                if plain {
                    self.state.registers.work_registers[15] = 0;
                }
            },
            InstructionSetChip8::Rand { register, immediate } => {
                self.state.registers.work_registers[register.index()] = random & immediate;
            },
            _ => {},
        }
        proof {
            assert(self@ =~= executed(
                old(self)@,
                Chip8InstructionSet::Chip8(i),
                old(self).config_view().always_shr_in_place,
                *old(space),
                old(space).cells(),
                keys,
                old(timer).value(),
                draw_hit(
                    old(self)@,
                    Chip8InstructionSet::Chip8(i),
                    *old(space),
                    old(space).cells(),
                    old(display).staging_view(),
                    old(display).width(),
                    old(display).height(),
                ),
                random,
            ));
        }
        None
    }

    /// Additions, subtractions and shifts that leave a flag in `VF`.
    #[verifier::spinoff_prover]
    #[verifier::rlimit(80)]
    fn execute_carry(
        &mut self,
        i: InstructionSetChip8,
        space: &mut AddressSpace,
        display: &mut Chip8Display,
        timer: &mut Chip8Timer,
        keys: u16,
        random: u8,
    ) -> (sound: Option<u8>)
        requires
            old(self).wf(),
            old(space).wf(),
            old(display).wf(),
            interpret_defined(old(self)@, Chip8InstructionSet::Chip8(i), *old(space), *old(display)),
            is_arithmetic(i) && !is_logic(i),
        ensures
            executes(
                *old(self),
                *final(self),
                Chip8InstructionSet::Chip8(i),
                *old(space),
                *final(space),
                *old(display),
                *final(display),
                old(timer).value(),
                final(timer).value(),
                keys,
                random,
                sound,
            ),
    {
        let plain = self.mode == Chip8Mode::Chip8;
        match i {
            InstructionSetChip8::Addr { destination, source } => {
                let d = self.state.registers.work_registers[destination.index()];
                let s = self.state.registers.work_registers[source.index()];
                let carry: u8 = if d as u16 + s as u16 > 255 {
                    1
                } else {
                    0
                };
                self.state.registers.work_registers[destination.index()] = d.wrapping_add(s);
                self.state.registers.work_registers[15] = carry;
            },
            InstructionSetChip8::Sub { destination, source } => {
                let d = self.state.registers.work_registers[destination.index()];
                let s = self.state.registers.work_registers[source.index()];
                let no_borrow: u8 = if d >= s {
                    1
                } else {
                    0
                };
                self.state.registers.work_registers[destination.index()] = d.wrapping_sub(s);
                self.state.registers.work_registers[15] = no_borrow;
            },
            InstructionSetChip8::Shr { register, value } => {
                let x = if plain || self.config.always_shr_in_place {
                    self.state.registers.work_registers[value.index()]
                } else {
                    self.state.registers.work_registers[register.index()]
                };
                self.state.registers.work_registers[register.index()] = x / 2;
                self.state.registers.work_registers[15] = x % 2;
            },
            InstructionSetChip8::Subn { destination, source } => {
                let d = self.state.registers.work_registers[destination.index()];
                let s = self.state.registers.work_registers[source.index()];
                let no_borrow: u8 = if s >= d {
                    1
                } else {
                    0
                };
                self.state.registers.work_registers[destination.index()] = s.wrapping_sub(d);
                self.state.registers.work_registers[15] = no_borrow;
            },
            InstructionSetChip8::Shl { register, value } => {
                let x = if plain {
                    self.state.registers.work_registers[value.index()]
                } else {
                    self.state.registers.work_registers[register.index()]
                };
                self.state.registers.work_registers[register.index()] = ((x as u16 * 2) % 256) as u8;
                self.state.registers.work_registers[15] = x / 128;
            },
            _ => {},
        }
        proof {
            assert(self@ =~= executed(
                old(self)@,
                Chip8InstructionSet::Chip8(i),
                old(self).config_view().always_shr_in_place,
                *old(space),
                old(space).cells(),
                keys,
                old(timer).value(),
                draw_hit(
                    old(self)@,
                    Chip8InstructionSet::Chip8(i),
                    *old(space),
                    old(space).cells(),
                    old(display).staging_view(),
                    old(display).width(),
                    old(display).height(),
                ),
                random,
            ));
        }
        None
    }

    /// Draws and the instructions that read or write memory.
    fn execute_memory(
        &mut self,
        i: InstructionSetChip8,
        space: &mut AddressSpace,
        display: &mut Chip8Display,
        timer: &mut Chip8Timer,
        keys: u16,
        random: u8,
    ) -> (sound: Option<u8>)
        requires
            old(self).wf(),
            old(space).wf(),
            old(display).wf(),
            interpret_defined(old(self)@, Chip8InstructionSet::Chip8(i), *old(space), *old(display)),
            is_memory(i),
        ensures
            executes(
                *old(self),
                *final(self),
                Chip8InstructionSet::Chip8(i),
                *old(space),
                *final(space),
                *old(display),
                *final(display),
                old(timer).value(),
                final(timer).value(),
                keys,
                random,
                sound,
            ),
    {
        let mode = self.mode;
        let plain = mode == Chip8Mode::Chip8;
        let index = self.state.registers.index;
        match i {
            InstructionSetChip8::Draw { coordinates, height } => {
                let x = self.state.registers.work_registers[coordinates.x.index()];
                let y = self.state.registers.work_registers[coordinates.y.index()];
                let hit = if (height == 0 && mode == Chip8Mode::SuperChip8) || mode
                    == Chip8Mode::XoChip {
                    let sprite = read_wide_sprite(space, index);
                    display.draw_supersized_sprite(x, y, sprite)
                } else {
                    let sprite = read_sprite(space, index, height as usize);
                    display.draw_sprite(x, y, sprite.as_slice())
                };
                self.state.registers.work_registers[15] = if hit {
                    1
                } else {
                    0
                };
                self.state.execution_state = ExecutionState::AwaitingVsync;
            },
            InstructionSetChip8::Bcd { register } => {
                let value = self.state.registers.work_registers[register.index()];
                let digits = bcd_encode(value);
                proof {
                    lemma_same_mapping(old(space), space);
                }
                let _ = space.write_byte(index as usize, digits[0]);
                proof {
                    lemma_same_mapping(old(space), space);
                }
                let _ = space.write_byte(index as usize + 1, digits[1]);
                proof {
                    lemma_same_mapping(old(space), space);
                }
                let _ = space.write_byte(index as usize + 2, digits[2]);
            },
            InstructionSetChip8::Save { count } => {
                save_registers(space, index, &self.state.registers.work_registers, count);
                if plain {
                    self.state.registers.index = index.wrapping_add(count as u16 + 1);
                }
            },
            InstructionSetChip8::Restore { count } => {
                restore_registers(&mut self.state.registers.work_registers, space, index, count);
                if plain {
                    self.state.registers.index = index.wrapping_add(count as u16 + 1);
                }
            },
            _ => {},
        }
        proof {
            assert(self@ =~= executed(
                old(self)@,
                Chip8InstructionSet::Chip8(i),
                old(self).config_view().always_shr_in_place,
                *old(space),
                old(space).cells(),
                keys,
                old(timer).value(),
                draw_hit(
                    old(self)@,
                    Chip8InstructionSet::Chip8(i),
                    *old(space),
                    old(space).cells(),
                    old(display).staging_view(),
                    old(display).width(),
                    old(display).height(),
                ),
                random,
            ));
        }
        None
    }

    /// The index register, timers, keypad wait and screen clear.
    fn execute_other(
        &mut self,
        i: InstructionSetChip8,
        space: &mut AddressSpace,
        display: &mut Chip8Display,
        timer: &mut Chip8Timer,
        keys: u16,
        random: u8,
    ) -> (sound: Option<u8>)
        requires
            old(self).wf(),
            old(space).wf(),
            old(display).wf(),
            interpret_defined(old(self)@, Chip8InstructionSet::Chip8(i), *old(space), *old(display)),
            !is_flow(i) && !is_arithmetic(i) && !is_memory(i),
        ensures
            executes(
                *old(self),
                *final(self),
                Chip8InstructionSet::Chip8(i),
                *old(space),
                *final(space),
                *old(display),
                *final(display),
                old(timer).value(),
                final(timer).value(),
                keys,
                random,
                sound,
            ),
    {
        let mode = self.mode;
        let plain = mode == Chip8Mode::Chip8;
        let index = self.state.registers.index;
        let mut sound: Option<u8> = None;
        match i {
            InstructionSetChip8::Clr => {
                display.clear_display();
            },
            InstructionSetChip8::Loadi { value } => {
                self.state.registers.index = value;
            },
            InstructionSetChip8::Moved { register } => {
                self.state.registers.work_registers[register.index()] = timer.get();
            },
            InstructionSetChip8::Keyd { key } => {
                self.state.execution_state = ExecutionState::AwaitingKeyPress { register: key };
            },
            InstructionSetChip8::Loadd { register } => {
                timer.set(self.state.registers.work_registers[register.index()]);
            },
            InstructionSetChip8::Loads { register } => {
                sound = Some(self.state.registers.work_registers[register.index()]);
            },
            InstructionSetChip8::Addi { register } => {
                let value = self.state.registers.work_registers[register.index()];
                self.state.registers.index = index.wrapping_add(value as u16);
            },
            InstructionSetChip8::Font { register } => {
                let value = self.state.registers.work_registers[register.index()];
                self.state.registers.index = value as u16 * FONT_GLYPH_SIZE;
            },
            _ => {},
        }
        proof {
            assert(self@ =~= executed(
                old(self)@,
                Chip8InstructionSet::Chip8(i),
                old(self).config_view().always_shr_in_place,
                *old(space),
                old(space).cells(),
                keys,
                old(timer).value(),
                draw_hit(
                    old(self)@,
                    Chip8InstructionSet::Chip8(i),
                    *old(space),
                    old(space).cells(),
                    old(display).staging_view(),
                    old(display).width(),
                    old(display).height(),
                ),
                random,
            ));
        }
        sound
    }

    /// Executes one instruction; `random` is the byte a `RND` draws. The
    /// keypad is `keys`, bit `k` set while key `k` is down. Returns the
    /// value for the sound timer when the instruction sets it.
    pub fn execute(
        &mut self,
        instruction: Chip8InstructionSet,
        space: &mut AddressSpace,
        display: &mut Chip8Display,
        timer: &mut Chip8Timer,
        keys: u16,
        random: u8,
    ) -> (sound: Option<u8>)
        requires
            old(self).wf(),
            old(space).wf(),
            old(display).wf(),
            interpret_defined(old(self)@, instruction, *old(space), *old(display)),
        ensures
            executes(
                *old(self),
                *final(self),
                instruction,
                *old(space),
                *final(space),
                *old(display),
                *final(display),
                old(timer).value(),
                final(timer).value(),
                keys,
                random,
                sound,
            ),
    {
        match instruction {
            Chip8InstructionSet::Chip8(i) => {
                if is_flow_exec(i) {
                    self.execute_flow(i, space, display, timer, keys, random)
                } else if is_logic_exec(i) {
                    self.execute_logic(i, space, display, timer, keys, random)
                } else if is_arithmetic_exec(i) {
                    self.execute_carry(i, space, display, timer, keys, random)
                } else if is_memory_exec(i) {
                    self.execute_memory(i, space, display, timer, keys, random)
                } else {
                    self.execute_other(i, space, display, timer, keys, random)
                }
            },
            Chip8InstructionSet::SuperChip8(i) => {
                self.mode = Chip8Mode::SuperChip8;
                match i {
                    InstructionSetSuperChip8::Lores => {
                        display.set_hires(false);
                    },
                    InstructionSetSuperChip8::Hires => {
                        display.set_hires(true);
                    },
                    _ => {},
                }
                proof {
                    assert(self@ =~= executed(
                        old(self)@,
                        instruction,
                        old(self).config_view().always_shr_in_place,
                        *old(space),
                        old(space).cells(),
                        keys,
                        old(timer).value(),
                        false,
                        random,
                    ));
                }
                None
            },
            Chip8InstructionSet::XoChip(_) => {
                self.mode = Chip8Mode::XoChip;
                proof {
                    assert(self@ =~= executed(
                        old(self)@,
                        instruction,
                        old(self).config_view().always_shr_in_place,
                        *old(space),
                        old(space).cells(),
                        keys,
                        old(timer).value(),
                        false,
                        random,
                    ));
                }
                None
            },
        }
    }
}

/// Returns, jumps, calls and skips.
pub open spec fn is_flow(i: InstructionSetChip8) -> bool {
    i is Rtrn || i is Jump || i is Call || i is Ske || i is Skne || i is Skre || i is Skrne
        || i is Jumpi || i is Skpr || i is Skup
}

/// Loads, arithmetic and logic on the registers.
pub open spec fn is_arithmetic(i: InstructionSetChip8) -> bool {
    i is Load || i is Add || i is Move || i is Or || i is And || i is Xor || i is Addr || i is Sub
        || i is Shr || i is Subn || i is Shl || i is Rand
}

/// Loads, additions without carry, logic and random bytes.
pub open spec fn is_logic(i: InstructionSetChip8) -> bool {
    i is Load || i is Add || i is Move || i is Or || i is And || i is Xor || i is Rand
}

/// Draws and the instructions that read or write memory.
pub open spec fn is_memory(i: InstructionSetChip8) -> bool {
    i is Draw || i is Bcd || i is Save || i is Restore
}

fn is_flow_exec(i: InstructionSetChip8) -> (r: bool)
    ensures
        r == is_flow(i),
{
    match i {
        InstructionSetChip8::Rtrn | InstructionSetChip8::Jump { .. } | InstructionSetChip8::Call {
            ..
        } | InstructionSetChip8::Ske { .. } | InstructionSetChip8::Skne { .. }
        | InstructionSetChip8::Skre { .. } | InstructionSetChip8::Skrne { .. }
        | InstructionSetChip8::Jumpi { .. } | InstructionSetChip8::Skpr { .. }
        | InstructionSetChip8::Skup { .. } => true,
        _ => false,
    }
}

fn is_arithmetic_exec(i: InstructionSetChip8) -> (r: bool)
    ensures
        r == is_arithmetic(i),
{
    match i {
        InstructionSetChip8::Load { .. } | InstructionSetChip8::Add { .. }
        | InstructionSetChip8::Move { .. } | InstructionSetChip8::Or { .. }
        | InstructionSetChip8::And { .. } | InstructionSetChip8::Xor { .. }
        | InstructionSetChip8::Addr { .. } | InstructionSetChip8::Sub { .. }
        | InstructionSetChip8::Shr { .. } | InstructionSetChip8::Subn { .. }
        | InstructionSetChip8::Shl { .. } | InstructionSetChip8::Rand { .. } => true,
        _ => false,
    }
}

fn is_logic_exec(i: InstructionSetChip8) -> (r: bool)
    ensures
        r == is_logic(i),
{
    match i {
        InstructionSetChip8::Load { .. } | InstructionSetChip8::Add { .. }
        | InstructionSetChip8::Move { .. } | InstructionSetChip8::Or { .. }
        | InstructionSetChip8::And { .. } | InstructionSetChip8::Xor { .. }
        | InstructionSetChip8::Rand { .. } => true,
        _ => false,
    }
}

fn is_memory_exec(i: InstructionSetChip8) -> (r: bool)
    ensures
        r == is_memory(i),
{
    match i {
        InstructionSetChip8::Draw { .. } | InstructionSetChip8::Bcd { .. }
        | InstructionSetChip8::Save { .. } | InstructionSetChip8::Restore { .. } => true,
        _ => false,
    }
}

/// Keys below `n` that are down, in increasing order.
pub open spec fn pressed_below(keys: u16, n: nat) -> Seq<u8>
    decreases n,
{
    if n == 0 {
        Seq::empty()
    } else {
        let before = pressed_below(keys, (n - 1) as nat);
        if key_down(keys, n - 1) {
            before.push((n - 1) as u8)
        } else {
            before
        }
    }
}

/// Keys a processor waiting for a key press sees: those of 0 to 14 that are down.
pub open spec fn pressed_keys(keys: u16) -> Seq<u8> {
    pressed_below(keys, 15)
}

/// Whether `held[i]` is the first of the held keys that is no longer down.
pub open spec fn first_released_at(held: Seq<u8>, keys: u16, i: int) -> bool {
    &&& 0 <= i < held.len()
    &&& !key_down(keys, held[i] as int)
    &&& forall|j: int| 0 <= j < i ==> key_down(keys, #[trigger] held[j] as int)
}

/// Whether scanning the held keys in order meets only keys until it finds
/// a released one.
pub open spec fn release_scan_defined(held: Seq<u8>, keys: u16) -> bool {
    forall|j: int|
        0 <= j < held.len() && #[trigger] held[j] >= 16 ==> exists|k: int|
            0 <= k < j && !key_down(keys, held[k] as int)
}

/// The instruction at the program counter, if its two bytes decode.
pub open spec fn fetched_instruction(v: Chip8View, space: AddressSpace) -> Option<Chip8InstructionSet> {
    spec_decode(space.spec_read(v.program as int)->0, space.spec_read(v.program + 1)->0)
}

/// Keys 0 to 14 that are down, in increasing order.
fn scan_pressed(keys: u16) -> (r: Vec<u8>)
    ensures
        r@ == pressed_keys(keys),
        forall|j: int| 0 <= j < r@.len() ==> #[trigger] r@[j] < 15,
{
    let mut pressed: Vec<u8> = Vec::new();
    let mut key: u8 = 0;
    while key < 15
        invariant
            key <= 15,
            pressed@ == pressed_below(keys, key as nat),
            forall|j: int| 0 <= j < pressed@.len() ==> #[trigger] pressed@[j] < key,
        decreases 15 - key,
    {
        if Chip8Processor::key_is_down(keys, key) {
            pressed.push(key);
        }
        key = key + 1;
    }
    pressed
}

/// Index of the first held key that is no longer down, if any.
fn find_released(held: &Vec<u8>, keys: u16) -> (r: Option<usize>)
    requires
        release_scan_defined(held@, keys),
    ensures
        r matches Some(i) ==> first_released_at(held@, keys, i as int),
        r is None ==> forall|j: int| 0 <= j < held@.len() ==> key_down(keys, #[trigger] held@[j] as int),
{
    let mut i: usize = 0;
    while i < held.len()
        invariant
            i <= held@.len(),
            release_scan_defined(held@, keys),
            forall|j: int| 0 <= j < i ==> key_down(keys, #[trigger] held@[j] as int),
        decreases held@.len() - i,
    {
        let key = held[i];
        if key >= 16 {
            proof {
                assert(held@[i as int] >= 16);
                let k = choose|k: int| 0 <= k < i && !key_down(keys, held@[k] as int);
                assert(key_down(keys, held@[k] as int));
            }
            return None;
        }
        if !Chip8Processor::key_is_down(keys, key) {
            return Some(i);
        }
        i = i + 1;
    }
    None
}

impl Chip8Processor {
    /// The processor with its program counter at `program`.
    pub closed spec fn with_program(self, program: u16) -> Chip8Processor {
        Chip8Processor {
            state: ProcessorState {
                registers: Chip8ProcessorRegisters { program, ..self.state.registers },
                ..self.state
            },
            ..self
        }
    }

    /// Whether the next cycle runs to its end: an instruction fetched must
    /// be readable, decode and itself run to its end, and the keys a
    /// release scan meets must be keys.
    pub open spec fn cycle_defined(&self, space: AddressSpace, display: Chip8Display, keys: u16) -> bool {
        match self.wait() {
            ExecutionState::Normal => {
                &&& space.spec_read(self@.program as int) is Some
                &&& space.spec_read(self@.program + 1) is Some
                &&& fetched_instruction(self@, space) matches Some(instruction)
                    && interpret_defined(
                    self.with_program(skipped(self@.program))@,
                    instruction,
                    space,
                    display,
                )
            },
            ExecutionState::AwaitingKeyRelease { keys: held, .. } => release_scan_defined(held@, keys),
            _ => true,
        }
    }

    /// Executes the decoded instruction; only `RND` draws a random byte.
    pub fn interpret_instruction(
        &mut self,
        instruction: Chip8InstructionSet,
        space: &mut AddressSpace,
        display: &mut Chip8Display,
        timer: &mut Chip8Timer,
        keys: u16,
    ) -> (sound: Option<u8>)
        requires
            old(self).wf(),
            old(space).wf(),
            old(display).wf(),
            interpret_defined(old(self)@, instruction, *old(space), *old(display)),
        ensures
            exists|random: u8|
                executes(
                    *old(self),
                    *final(self),
                    instruction,
                    *old(space),
                    *final(space),
                    *old(display),
                    *final(display),
                    old(timer).value(),
                    final(timer).value(),
                    keys,
                    random,
                    sound,
                ),
    {
        let random = match instruction {
            Chip8InstructionSet::Chip8(InstructionSetChip8::Rand { .. }) => random_byte(),
            _ => 0,
        };
        self.execute(instruction, space, display, timer, keys, random)
    }
}

/// Whether a cycle spent waiting took the processor from `before` to
/// `after`, with `vsync` the screen's flag and `keys` the keypad.
pub open spec fn waited(before: Chip8Processor, after: Chip8Processor, vsync: bool, keys: u16) -> bool {
    &&& after.config_view() == before.config_view()
    &&& match before.wait() {
        ExecutionState::AwaitingKeyPress { register } => {
            &&& after@ == before@
            &&& if pressed_keys(keys).len() > 0 {
                after.wait() matches ExecutionState::AwaitingKeyRelease { register: r, keys: held }
                    && r == register && held@ == pressed_keys(keys)
            } else {
                after.wait() == before.wait()
            }
        },
        ExecutionState::AwaitingKeyRelease { register, keys: held } => {
            if exists|i: int| first_released_at(held@, keys, i) {
                let i = choose|i: int| first_released_at(held@, keys, i);
                &&& after@ == Chip8View {
                    regs: before@.regs.update(ridx(register), held@[i]),
                    ..before@
                }
                &&& after.wait() is Normal
            } else {
                &&& after@ == before@
                &&& after.wait() == before.wait()
            }
        },
        ExecutionState::AwaitingVsync => {
            &&& after@ == before@
            &&& if vsync {
                after.wait() is Normal
            } else {
                after.wait() == before.wait()
            }
        },
        _ => {
            &&& after@ == before@
            &&& after.wait() == before.wait()
        },
    }
}

impl Chip8Processor {
    /// One cycle. A running processor fetches the instruction at the
    /// program counter, moves past it and executes it; a waiting one checks
    /// the keypad `keys` or the screen's vsync flag and goes on when what it
    /// waits for has happened. Returns the value for the sound timer when
    /// the instruction sets it.
    pub fn cycle(
        &mut self,
        space: &mut AddressSpace,
        display: &mut Chip8Display,
        timer: &mut Chip8Timer,
        keys: u16,
    ) -> (sound: Option<u8>)
        requires
            old(self).wf(),
            old(space).wf(),
            old(display).wf(),
            old(self).cycle_defined(*old(space), *old(display), keys),
        ensures
            final(self).wf(),
            final(space).wf(),
            final(display).wf(),
            old(self).wait() is Normal ==> exists|random: u8|
                executes(
                    old(self).with_program(skipped(old(self)@.program)),
                    *final(self),
                    fetched_instruction(old(self)@, *old(space))->0,
                    *old(space),
                    *final(space),
                    *old(display),
                    *final(display),
                    old(timer).value(),
                    final(timer).value(),
                    keys,
                    random,
                    sound,
                ),
            !(old(self).wait() is Normal) ==> {
                &&& waited(*old(self), *final(self), old(display).vsync_flag(), keys)
                &&& *final(space) == *old(space)
                &&& *final(display) == *old(display)
                &&& final(timer).value() == old(timer).value()
                &&& sound is None
            },
    {
        let mut state = ExecutionState::Normal;
        std::mem::swap(&mut state, &mut self.state.execution_state);
        match state {
            ExecutionState::Normal => {
                let pc = self.state.registers.program;
                let high = space.read_or_zero_byte(pc as usize);
                let low = space.read_or_zero_byte(pc as usize + 1);
                match decode_instruction([high, low]) {
                    Some(instruction) => {
                        self.state.registers.program = pc.wrapping_add(2);
                        assert(*self == old(self).with_program(skipped(old(self)@.program)));
                        let sound = self.interpret_instruction(instruction, space, display, timer, keys);
                        proof {
                            lemma_executes_wf(
                                old(self).with_program(skipped(old(self)@.program)),
                                *self,
                                instruction,
                                *old(space),
                                *space,
                                *old(display),
                                *display,
                                old(timer).value(),
                                timer.value(),
                                keys,
                                sound,
                            );
                        }
                        sound
                    },
                    None => {
                        self.state.execution_state = state;
                        None
                    },
                }
            },
            ExecutionState::AwaitingKeyPress { register } => {
                let pressed = scan_pressed(keys);
                if pressed.len() > 0 {
                    self.state.execution_state = ExecutionState::AwaitingKeyRelease {
                        register,
                        keys: pressed,
                    };
                } else {
                    self.state.execution_state = ExecutionState::AwaitingKeyPress { register };
                }
                None
            },
            ExecutionState::AwaitingKeyRelease { register, keys: held } => {
                match find_released(&held, keys) {
                    Some(i) => {
                        let key = held[i];
                        self.state.registers.work_registers[register.index()] = key;
                        proof {
                            assert(first_released_at(held@, keys, i as int));
                            let j = choose|j: int| first_released_at(held@, keys, j);
                            if j < i {
                                assert(key_down(keys, held@[j] as int));
                            }
                            if i < j {
                                assert(key_down(keys, held@[i as int] as int));
                            }
                            assert(self@ =~= Chip8View {
                                regs: old(self)@.regs.update(ridx(register), held@[j]),
                                ..old(self)@
                            });
                        }
                    },
                    None => {
                        proof {
                            if exists|i: int| first_released_at(held@, keys, i) {
                                let i = choose|i: int| first_released_at(held@, keys, i);
                                assert(key_down(keys, held@[i] as int));
                            }
                        }
                        self.state.execution_state = ExecutionState::AwaitingKeyRelease {
                            register,
                            keys: held,
                        };
                    },
                }
                None
            },
            ExecutionState::AwaitingVsync => {
                if !display.vsync_occurred() {
                    self.state.execution_state = ExecutionState::AwaitingVsync;
                }
                None
            },
            ExecutionState::Halted => {
                self.state.execution_state = ExecutionState::Halted;
                None
            },
        }
    }
}

/// A processor that ran an instruction is well formed, and so are memory and
/// the screen.
proof fn lemma_executes_wf(
    before: Chip8Processor,
    after: Chip8Processor,
    instruction: Chip8InstructionSet,
    space: AddressSpace,
    space_after: AddressSpace,
    display: Chip8Display,
    display_after_: Chip8Display,
    timer: u8,
    timer_after_: u8,
    keys: u16,
    sound: Option<u8>,
)
    requires
        display.wf(),
        exists|random: u8|
            executes(
                before,
                after,
                instruction,
                space,
                space_after,
                display,
                display_after_,
                timer,
                timer_after_,
                keys,
                random,
                sound,
            ),
    ensures
        after.wf(),
        space_after.wf(),
        display_after_.wf(),
{
}

/// Version of the processor's snapshot format.
pub const PROCESSOR_SNAPSHOT_VERSION: u32 = 0;

impl Chip8ProcessorConfig {
    /// A processor with cleared registers, an empty stack and the program
    /// counter at the program start, running in the forced dialect or else
    /// plain CHIP-8.
    pub fn build_component(self) -> (r: Chip8Processor)
        ensures
            r.wf(),
            r@.regs == Seq::new(16, |i: int| 0u8),
            r@.index == 0,
            r@.program == PROGRAM_START,
            r@.stack == Seq::<u16>::empty(),
            r@.mode == match self.force_mode {
                Some(mode) => mode,
                None => Chip8Mode::Chip8,
            },
            r.wait() is Normal,
            r.config_view() == self,
    {
        let mode = match self.force_mode {
            Some(mode) => mode,
            None => Chip8Mode::Chip8,
        };
        Chip8Processor { state: ProcessorState::default(), mode, config: self }
    }
}

impl Chip8Processor {
    /// The registers, as a snapshot stores them.
    pub fn registers(&self) -> (r: Chip8ProcessorRegisters)
        ensures
            r.work_registers@ == self@.regs,
            r.index == self@.index,
            r.program == self@.program,
    {
        self.state.registers
    }

    /// What the processor does on its next cycle, as a snapshot stores it.
    pub fn execution_state(&self) -> (r: &ExecutionState)
        ensures
            *r == self.wait(),
    {
        &self.state.execution_state
    }

    /// Restores registers, stack and wait state from a snapshot of version
    /// `version`; refused, leaving the processor as it was, when the stack
    /// holds more than sixteen entries.
    pub fn load_snapshot(
        &mut self,
        version: u32,
        registers: Chip8ProcessorRegisters,
        stack: &[u16],
        execution_state: ExecutionState,
    ) -> (r: Result<(), SnapshotError>)
        requires
            version == PROCESSOR_SNAPSHOT_VERSION,
            old(self).wf(),
        ensures
            final(self).wf(),
            final(self).config_view() == old(self).config_view(),
            r is Ok <==> stack@.len() <= STACK_CAPACITY,
            r is Ok ==> {
                &&& final(self)@ == Chip8View {
                    regs: registers.work_registers@,
                    index: registers.index,
                    program: registers.program,
                    stack: stack@,
                    mode: old(self)@.mode,
                }
                &&& final(self).wait() == execution_state
            },
            r is Err ==> *final(self) == *old(self),
    {
        if stack.len() > STACK_CAPACITY {
            return Err(SnapshotError::StackOverflow);
        }
        let mut restored = stack_new();
        let mut i: usize = 0;
        while i < stack.len()
            invariant
                stack@.len() <= STACK_CAPACITY,
                i <= stack@.len(),
                stack_contents(restored) == stack@.subrange(0, i as int),
            decreases stack@.len() - i,
        {
            stack_push(&mut restored, stack[i]);
            i = i + 1;
            assert(stack_contents(restored) =~= stack@.subrange(0, i as int));
        }
        assert(stack@.subrange(0, stack@.len() as int) =~= stack@);
        self.state = ProcessorState { registers, stack: restored, execution_state };
        assert(self@ =~= Chip8View {
            regs: registers.work_registers@,
            index: registers.index,
            program: registers.program,
            stack: stack@,
            mode: old(self)@.mode,
        });
        Ok(())
    }
}

/// The register arithmetic and logic, for a destination `x` other than VF:
/// 8xy0 copies Vy into Vx; 8xy1, 8xy2 and 8xy3 put Vx or, and, exclusive or
/// Vy into Vx (so 8xx3 clears Vx); 8xy4 adds Vy with VF the carry; 8xy5
/// subtracts Vy with VF set when there is no borrow, and 8xy7 subtracts Vx
/// from Vy likewise; 6xkk loads kk and 7xkk adds kk modulo 256, leaving VF.
/// The other registers but VF stay, and none of them moves the program
/// counter.
pub proof fn lemma_register_arithmetic(
    v: Chip8View,
    x: Register,
    y: Register,
    kk: u8,
    shr_in_place: bool,
    space: AddressSpace,
    cells: Seq<u8>,
    keys: u16,
    timer: u8,
    hit: bool,
    random: u8,
)
    requires
        v.regs.len() == 16,
        x.spec_index() != 15,
    ensures
        ({
            let after = |i: InstructionSetChip8|
                executed(
                    v,
                    Chip8InstructionSet::Chip8(i),
                    shr_in_place,
                    space,
                    cells,
                    keys,
                    timer,
                    hit,
                    random,
                );
            let d = v.regs[ridx(x)];
            let s = v.regs[ridx(y)];
            let two = |i: InstructionSetChip8|
                i == InstructionSetChip8::Move { param_1: x, param_2: y } || i
                    == InstructionSetChip8::Or { destination: x, source: y } || i
                    == InstructionSetChip8::And { destination: x, source: y } || i
                    == InstructionSetChip8::Xor { destination: x, source: y } || i
                    == InstructionSetChip8::Addr { destination: x, source: y } || i
                    == InstructionSetChip8::Sub { destination: x, source: y } || i
                    == InstructionSetChip8::Subn { destination: x, source: y } || i
                    == InstructionSetChip8::Load { register: x, immediate: kk } || i
                    == InstructionSetChip8::Add { register: x, immediate: kk };
            &&& after(InstructionSetChip8::Move { param_1: x, param_2: y }).regs[ridx(x)] == s
            &&& after(InstructionSetChip8::Or { destination: x, source: y }).regs[ridx(x)] == d | s
            &&& after(InstructionSetChip8::And { destination: x, source: y }).regs[ridx(x)] == d & s
            &&& after(InstructionSetChip8::Xor { destination: x, source: y }).regs[ridx(x)] == d ^ s
            &&& after(InstructionSetChip8::Xor { destination: x, source: x }).regs[ridx(x)] == 0
            &&& after(InstructionSetChip8::Addr { destination: x, source: y }).regs[ridx(x)] == (d
                + s) % 256
            &&& after(InstructionSetChip8::Addr { destination: x, source: y }).regs[15] == if d + s
                > 255 {
                1u8
            } else {
                0u8
            }
            &&& after(InstructionSetChip8::Sub { destination: x, source: y }).regs[ridx(x)] == (d
                - s + 256) % 256
            &&& after(InstructionSetChip8::Sub { destination: x, source: y }).regs[15] == if d >= s {
                1u8
            } else {
                0u8
            }
            &&& after(InstructionSetChip8::Subn { destination: x, source: y }).regs[ridx(x)] == (s
                - d + 256) % 256
            &&& after(InstructionSetChip8::Subn { destination: x, source: y }).regs[15] == if s
                >= d {
                1u8
            } else {
                0u8
            }
            &&& after(InstructionSetChip8::Load { register: x, immediate: kk }).regs[ridx(x)] == kk
            &&& after(InstructionSetChip8::Add { register: x, immediate: kk }).regs[ridx(x)] == (d
                + kk) % 256
            &&& after(InstructionSetChip8::Add { register: x, immediate: kk }).regs[15]
                == v.regs[15]
            &&& forall|i: InstructionSetChip8, k: int|
                #![trigger after(i).regs[k]]
                two(i) && 0 <= k < 15 && k != ridx(x) ==> after(i).regs[k] == v.regs[k]
            &&& forall|i: InstructionSetChip8| #![trigger after(i)] two(i) ==> after(i).program
                == v.program && after(i).index == v.index && after(i).stack == v.stack
        }),
{
    let d = v.regs[ridx(x)];
    assert(d ^ d == 0) by (bit_vector);
}

/// Shifts, random bytes, timers and the index and flow instructions, for a
/// register `x` other than VF: 8xy6 halves its source with VF the bit
/// shifted out, 8xyE doubles it modulo 256 with VF bit 7; Cxkk takes the random
/// byte masked by kk; Fx07 reads the delay timer, Fx15 sets it to Vx and
/// Fx18 hands Vx to the sound timer. Annn sets the index to nnn, Fx1E adds
/// Vx to it modulo 65536 and Fx29 points it at the glyph of Vx, five bytes
/// a glyph. 1nnn jumps to nnn; 2nnn jumps there and pushes the return
/// address. The shift source is Vy in plain CHIP-8, Vx otherwise; for 8xy6
/// the in-place option also takes Vy.
pub proof fn lemma_register_shifts_and_index(
    v: Chip8View,
    x: Register,
    y: Register,
    kk: u8,
    nnn: u16,
    shr_in_place: bool,
    space: AddressSpace,
    cells: Seq<u8>,
    keys: u16,
    timer: u8,
    hit: bool,
    random: u8,
)
    requires
        v.regs.len() == 16,
        x.spec_index() != 15,
    ensures
        ({
            let after = |i: InstructionSetChip8|
                executed(
                    v,
                    Chip8InstructionSet::Chip8(i),
                    shr_in_place,
                    space,
                    cells,
                    keys,
                    timer,
                    hit,
                    random,
                );
            let plain = v.mode == Chip8Mode::Chip8;
            let right = if plain || shr_in_place {
                v.regs[ridx(y)]
            } else {
                v.regs[ridx(x)]
            };
            let left = if plain {
                v.regs[ridx(y)]
            } else {
                v.regs[ridx(x)]
            };
            let vx = v.regs[ridx(x)];
            &&& after(InstructionSetChip8::Shr { register: x, value: y }).regs[ridx(x)] == right / 2
            &&& after(InstructionSetChip8::Shr { register: x, value: y }).regs[15] == right % 2
            &&& after(InstructionSetChip8::Shl { register: x, value: y }).regs[ridx(x)] == (2
                * left) % 256
            &&& after(InstructionSetChip8::Shl { register: x, value: y }).regs[15] == left / 128
            &&& after(InstructionSetChip8::Rand { register: x, immediate: kk }).regs[ridx(x)]
                == random & kk
            &&& after(InstructionSetChip8::Moved { register: x }).regs[ridx(x)] == timer
            &&& timer_after(v, Chip8InstructionSet::Chip8(InstructionSetChip8::Loadd { register: x }), timer) == vx
            &&& sound_after(v, Chip8InstructionSet::Chip8(InstructionSetChip8::Loads { register: x })) == Some(vx)
            &&& after(InstructionSetChip8::Loadi { value: nnn }).index == nnn
            &&& after(InstructionSetChip8::Addi { register: x }).index == (v.index + vx) % 65536
            &&& after(InstructionSetChip8::Font { register: x }).index == 5 * vx
            &&& after(InstructionSetChip8::Jump { address: nnn }).program == nnn
            &&& after(InstructionSetChip8::Jump { address: nnn }).stack == v.stack
            &&& after(InstructionSetChip8::Call { address: nnn }).program == nnn
            &&& after(InstructionSetChip8::Call { address: nnn }).stack == v.stack.push(v.program)
        }),
{
}

/// Fx33 writes the decimal digits of Vx at the index, hundreds first: where
/// the three bytes there are read-write storage of their own, they read
/// back as three digits whose value is Vx.
pub proof fn lemma_bcd_digits(v: Chip8View, x: Register, space: AddressSpace, cells: Seq<u8>)
    requires
        v.regs.len() == 16,
        space.wf(),
        cells.len() == space.size(),
        v.index + 2 < space.size(),
        forall|k: int|
            0 <= k < 3 ==> space.is_readable(v.index + k) && space.is_writable(#[trigger] (v.index
                + k)),
        space.cell(v.index as int) != space.cell(v.index + 1),
        space.cell(v.index as int) != space.cell(v.index + 2),
        space.cell(v.index + 1) != space.cell(v.index + 2),
    ensures
        ({
            let c = cells_after(
                v,
                Chip8InstructionSet::Chip8(InstructionSetChip8::Bcd { register: x }),
                space,
                cells,
            );
            let h = space.read_or_zero(c, v.index as int);
            let t = space.read_or_zero(c, v.index + 1);
            let o = space.read_or_zero(c, v.index + 2);
            &&& h < 10 && t < 10 && o < 10
            &&& 100 * h + 10 * t + o == v.regs[ridx(x)]
        }),
{
    let value = v.regs[ridx(x)];
    let i = v.index as int;
    assert(space.is_writable(i + 0));
    assert(space.is_writable(i + 1));
    assert(space.is_writable(i + 2));
    let c1 = space.write_in(cells, i, value / 100);
    let c2 = space.write_in(c1, i + 1, (value / 10) % 10);
    let c3 = space.write_in(c2, i + 2, value % 10);
    lemma_wf(&space);
    lemma_access(&space, cells, i, value / 100);
    lemma_access(&space, c1, i + 1, (value / 10) % 10);
    lemma_access(&space, c2, i + 2, value % 10);
    lemma_access(&space, c3, i, 0);
    lemma_access(&space, c3, i + 1, 0);
    lemma_access(&space, c3, i + 2, 0);
    assert(100 * (value / 100) + 10 * ((value / 10) % 10) + value % 10 == value) by (nonlinear_arith)
        requires
            value < 256,
    ;
}

/// Fx55 stores V0 to Vx from the index on and Fx65 loads them back: where
/// the bytes there are read-write storage of their own, after Fx55 the byte
/// at index + k reads back Vk for every k up to x; Fx65 puts the byte at
/// index + k into Vk for every k up to x and leaves the registers above.
pub proof fn lemma_save_each_restore_each(
    v: Chip8View,
    count: u8,
    space: AddressSpace,
    cells: Seq<u8>,
    timer: u8,
    hit: bool,
    random: u8,
    shr_in_place: bool,
)
    requires
        v.regs.len() == 16,
        count < 16,
        space.wf(),
        cells.len() == space.size(),
        v.index + count + 1 <= space.size(),
        forall|k: int|
            0 <= k <= count ==> #[trigger] space.is_readable(v.index + k) && space.is_writable(
                v.index + k,
            ),
        forall|j: int, k: int|
            0 <= j <= count && 0 <= k <= count && j != k ==> #[trigger] space.cell(v.index + j)
                != #[trigger] space.cell(v.index + k),
    ensures
        forall|k: int|
            0 <= k <= count ==> space.read_or_zero(
                cells_after(
                    v,
                    Chip8InstructionSet::Chip8(InstructionSetChip8::Save { count }),
                    space,
                    cells,
                ),
                v.index + k,
            ) == #[trigger] v.regs[k],
        forall|k: int|
            0 <= k < 16 ==> #[trigger] regs_after(
                v,
                Chip8InstructionSet::Chip8(InstructionSetChip8::Restore { count }),
                shr_in_place,
                space,
                cells,
                timer,
                hit,
                random,
            )[k] == if k <= count {
                space.read_or_zero(cells, v.index + k)
            } else {
                v.regs[k]
            },
{
    lemma_saved_reads_back(space, cells, v.index, v.regs, count as nat + 1);
    assert forall|k: int| 0 <= k <= count implies space.read_or_zero(
        cells_after(v, Chip8InstructionSet::Chip8(InstructionSetChip8::Save { count }), space, cells),
        v.index + k,
    ) == #[trigger] v.regs[k] by {
        assert(space.read_or_zero(
            saved_cells(space, cells, v.index, v.regs, count as nat + 1),
            v.index + k,
        ) == v.regs[k]);
    }
}

/// The key skips: Ex9E skips the next instruction exactly when the key
/// numbered Vx is down (bit Vx of `keys`), ExA1 exactly when it is not; a
/// number of 16 or more names no key, so it is never down.
pub proof fn lemma_key_skips(
    v: Chip8View,
    x: Register,
    shr_in_place: bool,
    space: AddressSpace,
    cells: Seq<u8>,
    keys: u16,
    timer: u8,
    hit: bool,
    random: u8,
)
    requires
        v.regs.len() == 16,
    ensures
        ({
            let vx = v.regs[ridx(x)];
            let down = vx < 16 && (keys as nat / vstd::arithmetic::power2::pow2(vx as nat)) % 2 == 1;
            let next = ((v.program + 2) % 65536) as u16;
            let after = |i: InstructionSetChip8|
                executed(
                    v,
                    Chip8InstructionSet::Chip8(i),
                    shr_in_place,
                    space,
                    cells,
                    keys,
                    timer,
                    hit,
                    random,
                ).program;
            &&& after(InstructionSetChip8::Skpr { key: x }) == if down {
                next
            } else {
                v.program
            }
            &&& after(InstructionSetChip8::Skup { key: x }) == if down {
                v.program
            } else {
                next
            }
        }),
{
    let vx = v.regs[ridx(x)];
    if vx < 16 {
        let k = vx as u16;
        vstd::bits::lemma_u16_shr_is_div(keys, k);
        vstd::arithmetic::power2::lemma_pow2_pos(vx as nat);
        let q = keys >> k;
        assert(q & 1u16 == q % 2) by (bit_vector);
    }
}

/// The conditional skips: 3xkk skips the next instruction exactly when Vx
/// equals kk and 4xkk exactly when it does not; 5xy0 skips exactly when Vx
/// equals Vy and 9xy0 exactly when it does not. A skip moves the program
/// counter two bytes on; otherwise it stays.
pub proof fn lemma_skips(
    v: Chip8View,
    x: Register,
    y: Register,
    kk: u8,
    shr_in_place: bool,
    space: AddressSpace,
    cells: Seq<u8>,
    keys: u16,
    timer: u8,
    hit: bool,
    random: u8,
)
    requires
        v.regs.len() == 16,
    ensures
        ({
            let after = |i: InstructionSetChip8|
                executed(
                    v,
                    Chip8InstructionSet::Chip8(i),
                    shr_in_place,
                    space,
                    cells,
                    keys,
                    timer,
                    hit,
                    random,
                ).program;
            let next = ((v.program + 2) % 65536) as u16;
            let vx = v.regs[ridx(x)];
            let vy = v.regs[ridx(y)];
            &&& after(InstructionSetChip8::Ske { register: x, immediate: kk }) == if vx == kk {
                next
            } else {
                v.program
            }
            &&& after(InstructionSetChip8::Skne { register: x, immediate: kk }) == if vx != kk {
                next
            } else {
                v.program
            }
            &&& after(InstructionSetChip8::Skre { param_1: x, param_2: y }) == if vx == vy {
                next
            } else {
                v.program
            }
            &&& after(InstructionSetChip8::Skrne { param_1: x, param_2: y }) == if vx != vy {
                next
            } else {
                v.program
            }
        }),
{
}

/// A call followed by a return comes back to the instruction after the
/// call, with the stack as it was before the call.
pub proof fn lemma_call_return(
    v: Chip8View,
    address: u16,
    shr_in_place: bool,
    space: AddressSpace,
    cells: Seq<u8>,
    keys: u16,
    timer: u8,
    hit: bool,
    random: u8,
)
    requires
        v.stack.len() < STACK_CAPACITY,
    ensures
        ({
            let called = executed(
                v,
                Chip8InstructionSet::Chip8(InstructionSetChip8::Call { address }),
                shr_in_place,
                space,
                cells,
                keys,
                timer,
                hit,
                random,
            );
            let returned = executed(
                called,
                Chip8InstructionSet::Chip8(InstructionSetChip8::Rtrn),
                shr_in_place,
                space,
                cells,
                keys,
                timer,
                hit,
                random,
            );
            &&& called.program == address
            &&& returned.program == v.program
            &&& returned.stack == v.stack
            &&& returned.regs == v.regs
            &&& returned.index == v.index
        }),
{
    let called = executed(
        v,
        Chip8InstructionSet::Chip8(InstructionSetChip8::Call { address }),
        shr_in_place,
        space,
        cells,
        keys,
        timer,
        hit,
        random,
    );
    assert(called.stack == v.stack.push(v.program));
    assert(called.stack.drop_last() =~= v.stack);
}

/// A call returns to the instruction after it whatever runs in between,
/// as long as that leaves the stack as the call left it: from any state
/// `body_end` whose stack is the one the call made, a return goes to the
/// instruction after the call, with the stack as it was before the call.
pub proof fn lemma_call_body_return(
    v: Chip8View,
    address: u16,
    body_end: Chip8View,
    shr_in_place: bool,
    space: AddressSpace,
    cells: Seq<u8>,
    keys: u16,
    timer: u8,
    hit: bool,
    random: u8,
)
    requires
        v.stack.len() < STACK_CAPACITY,
        body_end.stack == executed(
            v,
            Chip8InstructionSet::Chip8(InstructionSetChip8::Call { address }),
            shr_in_place,
            space,
            cells,
            keys,
            timer,
            hit,
            random,
        ).stack,
    ensures
        ({
            let returned = executed(
                body_end,
                Chip8InstructionSet::Chip8(InstructionSetChip8::Rtrn),
                shr_in_place,
                space,
                cells,
                keys,
                timer,
                hit,
                random,
            );
            &&& returned.program == v.program
            &&& returned.stack == v.stack
        }),
{
    assert(body_end.stack == v.stack.push(v.program));
    assert(body_end.stack.drop_last() =~= v.stack);
}

/// Whether the `n` bytes from `index` on are all readable.
fn all_readable(space: &AddressSpace, index: u16, n: usize) -> (r: bool)
    requires
        space.wf(),
        n <= 256,
    ensures
        r == forall|k: int| 0 <= k < n ==> #[trigger] space.spec_read(index + k) is Some,
{
    let mut k: usize = 0;
    while k < n
        invariant
            space.wf(),
            n <= 256,
            k <= n,
            forall|j: int| 0 <= j < k ==> #[trigger] space.spec_read(index + j) is Some,
        decreases n - k,
    {
        if space.read_byte(index as usize + k).is_none() {
            return false;
        }
        k = k + 1;
    }
    true
}

/// Whether the `n` bytes from `index` on are all writable.
fn all_writable(space: &AddressSpace, index: u16, n: usize) -> (r: bool)
    requires
        space.wf(),
        n <= 256,
    ensures
        r == forall|k: int| 0 <= k < n ==> #[trigger] space.spec_can_write(index + k),
{
    let mut k: usize = 0;
    while k < n
        invariant
            space.wf(),
            n <= 256,
            k <= n,
            forall|j: int| 0 <= j < k ==> #[trigger] space.spec_can_write(index + j),
        decreases n - k,
    {
        if !space.can_write(index as usize + k) {
            return false;
        }
        k = k + 1;
    }
    true
}

/// Whether scanning the held keys meets only keys before a released one.
fn release_scan_ready(held: &Vec<u8>, keys: u16) -> (r: bool)
    ensures
        r == release_scan_defined(held@, keys),
{
    let mut i: usize = 0;
    while i < held.len()
        invariant
            i <= held@.len(),
            forall|j: int| 0 <= j < i ==> key_down(keys, #[trigger] held@[j] as int),
            forall|j: int| 0 <= j < i ==> #[trigger] held@[j] < 16,
        decreases held@.len() - i,
    {
        let key = held[i];
        if key >= 16 {
            proof {
                if release_scan_defined(held@, keys) {
                    assert(held@[i as int] >= 16);
                    let k = choose|k: int| 0 <= k < i && !key_down(keys, held@[k] as int);
                    assert(key_down(keys, held@[k] as int));
                }
            }
            return false;
        }
        if !Chip8Processor::key_is_down(keys, key) {
            proof {
                assert forall|j: int| 0 <= j < held@.len() && #[trigger] held@[j] >= 16 implies exists|
                    k: int,
                | 0 <= k < j && !key_down(keys, held@[k] as int) by {
                    assert(j > i);
                    assert(!key_down(keys, held@[i as int] as int));
                }
            }
            return true;
        }
        i = i + 1;
    }
    true
}

impl Chip8Processor {
    /// Whether the instruction would run to its end (`interpret_defined`).
    pub fn interpret_ready(
        &self,
        instruction: Chip8InstructionSet,
        space: &AddressSpace,
        display: &Chip8Display,
    ) -> (r: bool)
        requires
            self.wf(),
            space.wf(),
        ensures
            r == interpret_defined(self@, instruction, *space, *display),
    {
        let index = self.state.registers.index;
        match instruction {
            Chip8InstructionSet::Chip8(i) => match i {
                InstructionSetChip8::Call { .. } => stack_len(&self.state.stack) < STACK_CAPACITY,
                InstructionSetChip8::Draw { height, .. } => {
                    let wide = (height == 0 && self.mode == Chip8Mode::SuperChip8) || self.mode
                        == Chip8Mode::XoChip;
                    if wide {
                        all_readable(space, index, 32)
                    } else {
                        height <= 16 && all_readable(space, index, height as usize)
                    }
                },
                InstructionSetChip8::Skpr { key } => self.state.registers.work_registers[key.index()]
                    < 16,
                InstructionSetChip8::Skup { key } => self.state.registers.work_registers[key.index()]
                    < 16,
                InstructionSetChip8::Bcd { .. } => all_writable(space, index, 3),
                InstructionSetChip8::Save { count } => count < 16 && all_writable(
                    space,
                    index,
                    count as usize + 1,
                ),
                InstructionSetChip8::Restore { count } => count < 16 && all_readable(
                    space,
                    index,
                    count as usize + 1,
                ),
                _ => true,
            },
            Chip8InstructionSet::SuperChip8(i) => match i {
                InstructionSetSuperChip8::Lores => !display.clears_on_resolution_change(),
                InstructionSetSuperChip8::Hires => !display.clears_on_resolution_change(),
                _ => false,
            },
            Chip8InstructionSet::XoChip(_) => false,
        }
    }

    /// Whether the next cycle would run to its end (`cycle_defined`): what a
    /// driver checks before each cycle.
    pub fn cycle_ready(&self, space: &AddressSpace, display: &Chip8Display, keys: u16) -> (r: bool)
        requires
            self.wf(),
            space.wf(),
        ensures
            r == self.cycle_defined(*space, *display, keys),
    {
        match &self.state.execution_state {
            ExecutionState::Normal => {
                let pc = self.state.registers.program;
                let high = space.read_byte(pc as usize);
                let low = space.read_byte(pc as usize + 1);
                match (high, low) {
                    (Some(h), Some(l)) => match decode_instruction([h, l]) {
                        Some(instruction) => {
                            let ready = self.interpret_ready(instruction, space, display);
                            proof {
                                let moved = self.with_program(skipped(self@.program));
                                assert(moved@.stack == self@.stack);
                                assert(moved@.regs == self@.regs);
                                assert(moved@.index == self@.index);
                                assert(moved@.mode == self@.mode);
                            }
                            ready
                        },
                        None => false,
                    },
                    _ => false,
                }
            },
            ExecutionState::AwaitingKeyRelease { keys: held, .. } => release_scan_ready(held, keys),
            _ => true,
        }
    }
}

/// Storing registers keeps memory's length.
proof fn lemma_saved_cells_len(space: AddressSpace, cells: Seq<u8>, index: u16, regs: Seq<u8>, n: nat)
    requires
        space.wf(),
        cells.len() == space.size(),
        index + n <= space.size(),
    ensures
        saved_cells(space, cells, index, regs, n).len() == space.size(),
    decreases n,
{
    if n > 0 {
        lemma_saved_cells_len(space, cells, index, regs, (n - 1) as nat);
        let before = saved_cells(space, cells, index, regs, (n - 1) as nat);
        crate::memory::address_space::lemma_access(&space, before, index + n - 1, regs[n - 1]);
        crate::memory::address_space::lemma_wf(&space);
    }
}

/// After `V0` to `V(n-1)` are stored from `index` on, each reads back from
/// its address.
proof fn lemma_saved_reads_back(space: AddressSpace, cells: Seq<u8>, index: u16, regs: Seq<u8>, n: nat)
    requires
        space.wf(),
        cells.len() == space.size(),
        index + n <= space.size(),
        n <= regs.len(),
        forall|k: int|
            0 <= k < n ==> #[trigger] space.is_readable(index + k) && space.is_writable(index + k),
        forall|j: int, k: int|
            0 <= j < n && 0 <= k < n && j != k ==> #[trigger] space.cell(index + j) != #[trigger] space.cell(
                index + k,
            ),
    ensures
        forall|i: int|
            0 <= i < n ==> #[trigger] space.read_or_zero(
                saved_cells(space, cells, index, regs, n),
                index + i,
            ) == regs[i],
    decreases n,
{
    if n > 0 {
        let m = (n - 1) as nat;
        lemma_saved_reads_back(space, cells, index, regs, m);
        lemma_saved_cells_len(space, cells, index, regs, m);
        let before = saved_cells(space, cells, index, regs, m);
        let after = saved_cells(space, cells, index, regs, n);
        assert forall|i: int| 0 <= i < n implies #[trigger] space.read_or_zero(after, index + i)
            == regs[i] by {
            crate::memory::address_space::lemma_read_after_write(
                &space,
                before,
                index + m,
                index + i,
                regs[m as int],
            );
            crate::memory::address_space::lemma_access(&space, after, index + i, 0);
            crate::memory::address_space::lemma_access(&space, before, index + i, 0);
            if i < m {
                assert(space.read_or_zero(before, index + i) == regs[i]);
                assert(space.cell(index + m) != space.cell(index + i));
            }
        }
    }
}

/// Outside plain CHIP-8, where the index stays put, restoring registers
/// right after storing them gives them back, when the memory they go to
/// is readable, writable and backed by distinct cells.
pub proof fn lemma_save_restore(
    v: Chip8View,
    count: u8,
    shr_in_place: bool,
    space: AddressSpace,
    cells: Seq<u8>,
    keys: u16,
    timer: u8,
    hit: bool,
    random: u8,
)
    requires
        space.wf(),
        cells.len() == space.size(),
        v.regs.len() == 16,
        v.mode != Chip8Mode::Chip8,
        count < 16,
        v.index + count < space.size(),
        forall|k: int|
            0 <= k <= count ==> #[trigger] space.is_readable(v.index + k) && space.is_writable(
                v.index + k,
            ),
        forall|j: int, k: int|
            0 <= j <= count && 0 <= k <= count && j != k ==> #[trigger] space.cell(v.index + j)
                != #[trigger] space.cell(v.index + k),
    ensures
        ({
            let save = Chip8InstructionSet::Chip8(InstructionSetChip8::Save { count });
            let restore = Chip8InstructionSet::Chip8(InstructionSetChip8::Restore { count });
            let saved = executed(v, save, shr_in_place, space, cells, keys, timer, hit, random);
            let stored = cells_after(v, save, space, cells);
            executed(saved, restore, shr_in_place, space, stored, keys, timer, hit, random) == v
        }),
{
    let save = Chip8InstructionSet::Chip8(InstructionSetChip8::Save { count });
    let restore = Chip8InstructionSet::Chip8(InstructionSetChip8::Restore { count });
    let saved = executed(v, save, shr_in_place, space, cells, keys, timer, hit, random);
    let stored = cells_after(v, save, space, cells);
    lemma_saved_reads_back(space, cells, v.index, v.regs, count as nat + 1);
    let restored = executed(saved, restore, shr_in_place, space, stored, keys, timer, hit, random);
    assert(saved =~= v);
    assert(restored.regs =~= v.regs);
    assert(restored =~= v);
}

} // verus!
