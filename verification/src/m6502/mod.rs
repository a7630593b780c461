//! The first model of the 6502: a processor that walks load and store
//! steps, with its own instruction set, decoder and interpreter. The
//! interpreter has part of the instruction set: `operation_defined` says
//! which instructions, and neither it nor the processor's pass runs others.
use std::collections::VecDeque;

use arrayvec::ArrayVec;
use vstd::prelude::*;

use crate::bounded::latch_contents;
use instruction::M6502InstructionSet;

pub mod cycle;
pub mod decoder;
pub mod instruction;
pub mod interpret;

verus! {

/// Where the processor finds the address to start at after a reset.
pub const RESET_VECTOR: usize = 0xfffc;
/// Bytes in a page.
pub const PAGE_SIZE: usize = 256;

/// A step of fetching an instruction's operand.
#[derive(Debug, Clone, Copy, PartialEq, Eq, Structural)]
pub enum LoadStep {
    /// The processor fetches a byte of data to go on with.
    Data,
    /// The processor moves the latch to the address bus; it takes no cycle.
    LatchToBus,
    /// The processor adds an offset to the address it loads from.
    Offset { offset: u8 },
}

/// A step of writing an instruction's result.
#[derive(Debug, Clone, Copy, PartialEq, Eq, Structural)]
pub enum StoreStep {
    /// The processor stores a byte of data.
    Data { value: u8 },
    /// The processor pushes a byte onto the stack.
    PushStack { data: u8 },
    /// The processor moves the address bus to the program counter.
    BusToProgram,
    /// The processor moves the program counter by a signed amount.
    AddToProgram { value: i8 },
}

/// Which chip of the family the processor is.
#[derive(Debug, Clone, Copy, PartialEq, Eq, PartialOrd, Ord, Hash, Structural)]
pub enum M6502Kind {
    /// The standard chip.
    M6502,
    /// The slimmed down chip of the Atari 2600.
    M6507,
    /// The chip of the NES.
    R2A0x,
}

impl M6502Kind {
    pub open spec fn spec_supports_decimal(self) -> bool {
        !(self is R2A0x)
    }

    /// Whether decimal mode works; the NES chip lacks it.
    pub fn supports_decimal(&self) -> (r: bool)
        ensures
            r == self.spec_supports_decimal(),
    {
        !matches!(self, M6502Kind::R2A0x)
    }
}

/// A flag of the status register.
#[derive(Debug, Clone, Copy, PartialEq, Eq, Structural)]
pub enum FlagRegister {
    /// Set when bit 7 of a result is set.
    Negative,
    /// Set when a signed operation overflows.
    Overflow,
    /// Usually set; it means nothing.
    Unused,
    /// Tells software why an interrupt happened.
    Break,
    /// Decimal mode for the arithmetic instructions.
    Decimal,
    /// Masks interrupts.
    InterruptDisable,
    /// Set when a result is zero.
    Zero,
    /// Carry out of, or into, arithmetic and shifts.
    Carry,
}

impl FlagRegister {
    pub open spec fn spec_bits(self) -> u8 {
        match self {
            FlagRegister::Negative => 0b1000_0000,
            FlagRegister::Overflow => 0b0100_0000,
            FlagRegister::Unused => 0b0010_0000,
            FlagRegister::Break => 0b0001_0000,
            FlagRegister::Decimal => 0b0000_1000,
            FlagRegister::InterruptDisable => 0b0000_0100,
            FlagRegister::Zero => 0b0000_0010,
            FlagRegister::Carry => 0b0000_0001,
        }
    }

    /// The flag's bit in the status byte.
    pub fn bits(&self) -> (r: u8)
        ensures
            r == self.spec_bits(),
    {
        match self {
            FlagRegister::Negative => 0b1000_0000,
            FlagRegister::Overflow => 0b0100_0000,
            FlagRegister::Unused => 0b0010_0000,
            FlagRegister::Break => 0b0001_0000,
            FlagRegister::Decimal => 0b0000_1000,
            FlagRegister::InterruptDisable => 0b0000_0100,
            FlagRegister::Zero => 0b0000_0010,
            FlagRegister::Carry => 0b0000_0001,
        }
    }

    /// Whether the flag is set in the status byte `status`.
    pub fn is_set_in(&self, status: u8) -> (r: bool)
        ensures
            r == (status & self.spec_bits() != 0),
    {
        status & self.bits() != 0
    }
}

/// Deviations from the standard chip a machine asks for.
#[derive(Debug, Clone, Copy, PartialEq, Eq, Structural)]
pub struct M6502Quirks {
    /// The early chips whose ROR instruction is broken.
    pub broken_ror: bool,
}

impl Default for M6502Quirks {
    fn default() -> (r: Self)
        ensures
            !r.broken_ror,
    {
        M6502Quirks { broken_ror: false }
    }
}

/// What the processor is doing.
#[derive(Debug)]
pub enum ExecutionMode {
    /// Resets the processor.
    Reset,
    /// Jammed until a reset.
    Jammed,
    /// Fetches and decodes the next instruction.
    Fetch,
    /// Loads the operand of an instruction, step by step.
    Load {
        instruction: M6502InstructionSet,
        latch: ArrayVec<u8, 2>,
        queue: VecDeque<LoadStep>,
    },
    /// Executes an instruction.
    Execute { instruction: M6502InstructionSet },
    /// Writes an instruction's results, step by step.
    Store { queue: VecDeque<StoreStep> },
}

/// How the processor is set up.
#[derive(Debug, Clone, Copy, PartialEq, Eq, Structural)]
pub struct M6502Config {
    /// Cycles per second: `frequency_numerator / frequency_denominator`.
    pub frequency_numerator: u32,
    pub frequency_denominator: u32,
    pub kind: M6502Kind,
}

/// The processor's registers, as the contracts speak of them.
#[derive(Debug, Clone, Copy, PartialEq, Eq, Structural)]
pub struct M6502Registers {
    pub a: u8,
    pub x: u8,
    pub y: u8,
    pub flags: u8,
    pub stack: u8,
    pub program: u16,
    pub address_bus: u16,
}

/// What the processor is doing, with the latch and the queues as sequences.
#[verifier::ext_equal]
pub enum ModeView {
    Reset,
    Jammed,
    Fetch,
    Load { instruction: M6502InstructionSet, latch: Seq<u8>, queue: Seq<LoadStep> },
    Execute { instruction: M6502InstructionSet },
    Store { queue: Seq<StoreStep> },
    /// No mode at all: a processor in this state cannot run.
    Vacant,
}

/// The whole state of the processor: registers and mode.
#[verifier::ext_equal]
pub struct StateView {
    pub regs: M6502Registers,
    pub mode: ModeView,
}

/// The processor's registers and what it is doing.
#[derive(Debug)]
pub struct ProcessorState {
    /// Accumulator.
    pub a: u8,
    /// X index register.
    pub x: u8,
    /// Y index register.
    pub y: u8,
    /// Status flags, one bit each (see `FlagRegister::bits`).
    pub flags: u8,
    /// Stack pointer.
    pub stack: u8,
    /// Program counter.
    pub program: u16,
    pub execution_mode: Option<ExecutionMode>,
    /// Address bus.
    pub address_bus: u16,
}

impl ProcessorState {
    pub open spec fn regs(&self) -> M6502Registers {
        M6502Registers {
            a: self.a,
            x: self.x,
            y: self.y,
            flags: self.flags,
            stack: self.stack,
            program: self.program,
            address_bus: self.address_bus,
        }
    }

    pub open spec fn mode_view(&self) -> ModeView {
        match self.execution_mode {
            None => ModeView::Vacant,
            Some(ExecutionMode::Reset) => ModeView::Reset,
            Some(ExecutionMode::Jammed) => ModeView::Jammed,
            Some(ExecutionMode::Fetch) => ModeView::Fetch,
            Some(ExecutionMode::Load { instruction, latch, queue }) => ModeView::Load {
                instruction,
                latch: latch_contents(latch),
                queue: queue@,
            },
            Some(ExecutionMode::Execute { instruction }) => ModeView::Execute { instruction },
            Some(ExecutionMode::Store { queue }) => ModeView::Store { queue: queue@ },
        }
    }

    pub open spec fn view(&self) -> StateView {
        StateView { regs: self.regs(), mode: self.mode_view() }
    }

    /// Writes the registers back.
    pub fn set_regs(&mut self, r: M6502Registers)
        ensures
            final(self).regs() == r,
            final(self).execution_mode == old(self).execution_mode,
    {
        self.a = r.a;
        self.x = r.x;
        self.y = r.y;
        self.flags = r.flags;
        self.stack = r.stack;
        self.program = r.program;
        self.address_bus = r.address_bus;
    }

    /// The registers.
    pub fn get_regs(&self) -> (r: M6502Registers)
        ensures
            r == self.regs(),
    {
        M6502Registers {
            a: self.a,
            x: self.x,
            y: self.y,
            flags: self.flags,
            stack: self.stack,
            program: self.program,
            address_bus: self.address_bus,
        }
    }

    /// The state at power on: registers and flags clear, the stack pointer
    /// at the top of its page, and a reset to do.
    pub fn new() -> (r: Self)
        ensures
            r.a == 0 && r.x == 0 && r.y == 0 && r.flags == 0,
            r.stack == 0xff,
            r.program == 0,
            r.address_bus == 0,
            r.execution_mode matches Some(ExecutionMode::Reset),
    {
        ProcessorState {
            a: 0,
            x: 0,
            y: 0,
            flags: 0,
            stack: 0xff,
            program: 0x0000,
            execution_mode: Some(ExecutionMode::Reset),
            address_bus: 0x0000,
        }
    }
}

/// The first model's processor.
#[derive(Debug)]
pub struct M6502 {
    pub state: ProcessorState,
    pub rdy: bool,
    pub config: M6502Config,
}

impl M6502 {
    pub open spec fn rdy_view(&self) -> bool {
        self.rdy
    }

    pub open spec fn config_view(&self) -> M6502Config {
        self.config
    }

    pub open spec fn state_view(&self) -> StateView {
        self.state.view()
    }

    /// A processor at power on, running.
    pub fn from_config(config: M6502Config) -> (r: Self)
        ensures
            r.wf(),
            r.rdy_view(),
            r.config_view() == config,
            r.state.stack == 0xff,
            r.state.execution_mode matches Some(ExecutionMode::Reset),
    {
        M6502 { state: ProcessorState::new(), rdy: true, config }
    }

    /// Drives the RDY line: low pauses the processor, high resumes it.
    pub fn set_rdy(&mut self, rdy: bool)
        ensures
            final(self).rdy_view() == rdy,
            final(self).config_view() == old(self).config_view(),
    {
        self.rdy = rdy;
    }

    /// Whether the processor runs.
    pub fn rdy(&self) -> (r: bool)
        ensures
            r == self.rdy_view(),
    {
        self.rdy
    }

    /// The processor's setup.
    pub fn config(&self) -> (r: M6502Config)
        ensures
            r == self.config_view(),
    {
        self.config
    }
}

} // verus!
