//! Architectural state of a 6502 and the micro-step queue that drives it.
use std::collections::VecDeque;

use arrayvec::ArrayVec;
use vstd::prelude::*;

use super::flags::FlagRegister;
use super::instruction::Mos6502InstructionSet;
use crate::bounded::{latch_contents, latch_new};

verus! {

/// Address the processor jumps through on reset.
pub const RESET_VECTOR: u16 = 0xfffc;

/// Address the processor jumps through on IRQ and BRK.
pub const IRQ_VECTOR: u16 = 0xfffe;

/// Address the processor jumps through on NMI.
pub const NMI_VECTOR: u16 = 0xfffa;

/// The stack lives in page one.
pub const STACK_BASE_ADDRESS: usize = 0x0100;

/// Index register added to the address bus.
#[derive(Debug, Clone, Copy, PartialEq, Eq, Structural)]
pub enum AddressBusModification {
    X,
    Y,
}

/// One micro-step of the processor. Most steps take one cycle; the latch
/// and address bus bookkeeping steps take none.
#[derive(Debug, Clone, Copy, PartialEq, Eq, Structural)]
pub enum ExecutionStep {
    /// Resets the processor
    Reset,
    /// Processor is jammed forever and cannot do anything until a reset
    Jammed,
    /// Processor is awaiting a interrupt
    Wait,
    /// Fetch and decode instruction
    FetchAndDecode,
    /// Loading data, pushing it to the latch, from the address bus pointer
    LoadData,
    /// Handle the original mos 6502 absolute indirect errata
    LoadDataWithoutAdvancingPage,
    /// Same as before but it isn't referencing memory
    LoadDataFromConstant(u8),
    /// Putting data into memory, from the address bus pointer
    StoreData(u8),
    /// Processor is storing an item on the stack
    PushStack(u8),
    /// Moving item from the latch to the address bus
    LatchToAddressBus,
    /// Moving item from the latch to the program pointer
    LatchToProgramPointer,
    /// Copying address bus to program pointer
    AddressBusToProgramPointer,
    /// Adding this value to the program pointer
    ModifyProgramPointer(i8),
    /// Adding this value to the address bus
    ModifyAddressBus(AddressBusModification),
    /// Make sure the address bus is within the zero page
    MaskAddressBusToZeroPage,
    /// Execute this instruction
    Interpret,
}

/// The programmer visible registers plus the address bus.
#[derive(Debug, Clone, Copy, PartialEq, Eq, Structural)]
pub struct CpuRegisters {
    pub a: u8,
    pub x: u8,
    pub y: u8,
    pub flags: FlagRegister,
    pub stack: u8,
    pub program: u16,
    pub address_bus: u16,
}

/// Everything the processor keeps between cycles.
#[derive(Debug)]
pub struct ProcessorState {
    /// Accumulator
    pub a: u8,
    /// X index register
    pub x: u8,
    /// Y index register
    pub y: u8,
    /// Flag register
    pub flags: FlagRegister,
    /// Stack pointer
    pub stack: u8,
    /// Program pointer
    pub program: u16,
    /// What the processor is currently doing right now
    pub execution_queue: VecDeque<ExecutionStep>,
    /// Address bus
    pub address_bus: u16,
    /// Imaginary processor latch
    pub latch: ArrayVec<u8, 2>,
    /// Next instruction that will be executed
    pub next_instruction: Option<Mos6502InstructionSet>,
}

/// The little endian value of two bytes.
pub open spec fn le16(low: u8, high: u8) -> u16 {
    (low as int + 256 * (high as int)) as u16
}

/// Low byte of a word.
pub open spec fn low_byte(word: u16) -> u8 {
    (word % 256) as u8
}

/// High byte of a word.
pub open spec fn high_byte(word: u16) -> u8 {
    (word / 256) as u8
}

/// The steps an interrupt or reset appends: optionally the saved program
/// pointer (high byte first) and flags, then a load of the vector into the
/// program pointer and a fresh fetch.
pub open spec fn interrupt_steps(
    vector: u16,
    flags: FlagRegister,
    program: u16,
    break_status: bool,
    save_current_state: bool,
) -> Seq<ExecutionStep> {
    let pushed = FlagRegister {
        break_: break_status,
        undocumented: true,
        interrupt_disable: true,
        ..flags
    };
    let saves = if save_current_state {
        seq![
            ExecutionStep::PushStack(high_byte(program)),
            ExecutionStep::PushStack(low_byte(program)),
            ExecutionStep::PushStack(pushed.spec_to_byte()),
        ]
    } else {
        Seq::empty()
    };
    saves + seq![
        ExecutionStep::LoadDataFromConstant(low_byte(vector)),
        ExecutionStep::LoadDataFromConstant(high_byte(vector)),
        ExecutionStep::LatchToAddressBus,
        ExecutionStep::LoadData,
        ExecutionStep::LoadData,
        ExecutionStep::LatchToProgramPointer,
        ExecutionStep::FetchAndDecode,
    ]
}

pub fn u16_to_le_bytes(word: u16) -> (r: (u8, u8))
    ensures
        r.0 == low_byte(word),
        r.1 == high_byte(word),
{
    ((word % 256) as u8, (word / 256) as u8)
}

pub fn u16_from_le_bytes(low: u8, high: u8) -> (r: u16)
    ensures
        r == le16(low, high),
{
    low as u16 + 256 * (high as u16)
}

impl ProcessorState {
    pub open spec fn regs(&self) -> CpuRegisters {
        CpuRegisters {
            a: self.a,
            x: self.x,
            y: self.y,
            flags: self.flags,
            stack: self.stack,
            program: self.program,
            address_bus: self.address_bus,
        }
    }

    pub open spec fn queue(&self) -> Seq<ExecutionStep> {
        self.execution_queue@
    }

    pub open spec fn latch(&self) -> Seq<u8> {
        latch_contents(self.latch)
    }

    /// The state a processor powers on in: registers cleared, stack pointer
    /// at the top of page one and a reset pending.
    pub fn new() -> (r: Self)
        ensures
            r.regs() == (CpuRegisters {
                a: 0,
                x: 0,
                y: 0,
                flags: FlagRegister::default_flags(),
                stack: 0xff,
                program: 0,
                address_bus: 0,
            }),
            r.queue() == seq![ExecutionStep::Reset],
            r.latch() == Seq::<u8>::empty(),
            r.next_instruction is None,
    {
        let mut execution_queue = VecDeque::new();
        execution_queue.push_back(ExecutionStep::Reset);
        ProcessorState {
            a: 0,
            x: 0,
            y: 0,
            flags: FlagRegister::cleared(),
            stack: 0xff,
            program: 0x0000,
            execution_queue,
            address_bus: 0x0000,
            latch: latch_new(),
            next_instruction: None,
        }
    }

    /// Queues the entry into an interrupt handler through `vector`, saving
    /// the program pointer and flags first when asked.
    pub fn interrupt(&mut self, vector: u16, break_status: bool, save_current_state: bool)
        ensures
            final(self).regs() == old(self).regs(),
            final(self).latch() == old(self).latch(),
            final(self).next_instruction == old(self).next_instruction,
            final(self).queue() == old(self).queue() + interrupt_steps(
                vector,
                old(self).flags,
                old(self).program,
                break_status,
                save_current_state,
            ),
    {
        let (vector_low, vector_high) = u16_to_le_bytes(vector);
        let mut flags = self.flags;

        flags.break_ = break_status;
        flags.undocumented = true;
        flags.interrupt_disable = true;

        if save_current_state {
            let (program_low, program_high) = u16_to_le_bytes(self.program);

            self.execution_queue.push_back(ExecutionStep::PushStack(program_high));
            self.execution_queue.push_back(ExecutionStep::PushStack(program_low));
            self.execution_queue.push_back(ExecutionStep::PushStack(flags.to_byte()));
        }
        self.execution_queue.push_back(ExecutionStep::LoadDataFromConstant(vector_low));
        self.execution_queue.push_back(ExecutionStep::LoadDataFromConstant(vector_high));
        self.execution_queue.push_back(ExecutionStep::LatchToAddressBus);
        self.execution_queue.push_back(ExecutionStep::LoadData);
        self.execution_queue.push_back(ExecutionStep::LoadData);
        self.execution_queue.push_back(ExecutionStep::LatchToProgramPointer);
        self.execution_queue.push_back(ExecutionStep::FetchAndDecode);
    }
}

impl FlagRegister {
    pub open spec fn default_flags() -> FlagRegister {
        FlagRegister {
            negative: false,
            overflow: false,
            undocumented: false,
            break_: false,
            decimal: false,
            interrupt_disable: false,
            zero: false,
            carry: false,
        }
    }

    /// All flags clear.
    pub fn cleared() -> (r: FlagRegister)
        ensures
            r == FlagRegister::default_flags(),
    {
        FlagRegister {
            negative: false,
            overflow: false,
            undocumented: false,
            break_: false,
            decimal: false,
            interrupt_disable: false,
            zero: false,
            carry: false,
        }
    }
}

/// The RDY input: while it is low the processor stands still.
#[derive(Debug)]
pub struct RdyFlag {
    value: bool,
}

impl RdyFlag {
    pub closed spec fn spec_value(&self) -> bool {
        self.value
    }

    /// RDY starts out high.
    pub fn new() -> (r: Self)
        ensures
            r.spec_value(),
    {
        RdyFlag { value: true }
    }

    /// Current level of the line.
    pub fn load(&self) -> (r: bool)
        ensures
            r == self.spec_value(),
    {
        self.value
    }

    /// Drives the line to `value`.
    pub fn store(&mut self, value: bool)
        ensures
            final(self).spec_value() == value,
    {
        self.value = value;
    }
}

/// The IRQ input, active low.
#[derive(Debug)]
pub struct IrqFlag {
    line: bool,
}

impl IrqFlag {
    pub closed spec fn spec_line(&self) -> bool {
        self.line
    }

    /// The line starts out high (no interrupt requested).
    pub fn new() -> (r: Self)
        ensures
            r.spec_line(),
    {
        IrqFlag { line: true }
    }

    /// Drives the line to `irq`.
    pub fn store(&mut self, irq: bool)
        ensures
            final(self).spec_line() == irq,
    {
        self.line = irq;
    }

    /// An interrupt is requested while the line is held low.
    pub fn interrupt_required(&self) -> (r: bool)
        ensures
            r == !self.spec_line(),
    {
        !self.line
    }
}

/// The NMI input, which triggers on a falling edge.
#[derive(Debug)]
pub struct NmiFlag {
    current_state: bool,
    falling_edge_occured: bool,
}

impl NmiFlag {
    pub closed spec fn spec_line(&self) -> bool {
        self.current_state
    }

    /// Whether a falling edge has been seen and not yet serviced.
    pub closed spec fn spec_pending(&self) -> bool {
        self.falling_edge_occured
    }

    /// The line starts high with nothing pending.
    pub fn new() -> (r: Self)
        ensures
            r.spec_line(),
            !r.spec_pending(),
    {
        NmiFlag { current_state: true, falling_edge_occured: false }
    }

    /// Drives the line to `nmi`; a change from high to low leaves an
    /// interrupt pending.
    pub fn store(&mut self, nmi: bool)
        ensures
            final(self).spec_line() == nmi,
            final(self).spec_pending() == (old(self).spec_pending() || (old(self).spec_line()
                && !nmi)),
    {
        let previous = self.current_state;
        self.current_state = nmi;
        if previous && !nmi {
            self.falling_edge_occured = true;
        }
    }

    /// Takes the pending interrupt, if any: answers whether one was pending
    /// and clears it.
    pub fn interrupt_required(&mut self) -> (r: bool)
        ensures
            r == old(self).spec_pending(),
            !final(self).spec_pending(),
            final(self).spec_line() == old(self).spec_line(),
    {
        let pending = self.falling_edge_occured;
        self.falling_edge_occured = false;
        pending
    }
}

} // verus!
