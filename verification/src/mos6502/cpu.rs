//! The 6502 as a clocked component: a queue of micro-steps, driven one
//! cycle at a time against an address space.
use vstd::prelude::*;

use super::Mos6502Kind;
use super::decoder::{decode_instruction, spec_decode};
use super::instruction::{
    AddressingMode, Mos6502AddressingMode, Mos6502InstructionSet, Mos6502Opcode, Opcode,
    Wdc65C02AddressingMode, Wdc65C02Opcode,
};
use super::interpret::{
    executable, reads_operand, rts_result, spec_execute, stack_address, w16, w8, well_shaped,
};
use super::processor::{high_byte, low_byte,
    AddressBusModification, CpuRegisters, ExecutionStep, IRQ_VECTOR, IrqFlag, NMI_VECTOR,
    NmiFlag, ProcessorState, RESET_VECTOR, RdyFlag, STACK_BASE_ADDRESS, interrupt_steps, le16,
    u16_from_le_bytes,
};
use crate::bounded::{latch_clear, latch_get, latch_len, latch_push};
use crate::memory::AddressSpace;
use crate::random::random_byte;
use crate::memory::address_space::{lemma_access, lemma_same_mapping, lemma_wf};

verus! {

/// Bytes in a page; zero page addressing wraps within the first one.
pub const PAGE_SIZE: u16 = 256;

/// How the processor is set up.
#[derive(Debug, Clone, Copy)]
pub struct Mos6502Config {
    pub kind: Mos6502Kind,
    pub broken_ror: bool,
}

/// A 6502 processor with its interrupt and ready lines.
#[derive(Debug)]
pub struct Mos6502 {
    pub state: ProcessorState,
    pub rdy: RdyFlag,
    pub irq: IrqFlag,
    pub nmi: NmiFlag,
    pub config: Mos6502Config,
}

/// Steps that only shuffle the latch and the address bus; they take no time.
pub open spec fn is_settling(step: ExecutionStep) -> bool {
    step is LatchToAddressBus || step is LatchToProgramPointer || step is MaskAddressBusToZeroPage
        || step is ModifyAddressBus
}

/// Steps an instruction queues that neither touch the latch nor end the queue.
pub open spec fn is_plain(step: ExecutionStep) -> bool {
    step is StoreData || step is PushStack || step is AddressBusToProgramPointer
        || step is ModifyProgramPointer || step is MaskAddressBusToZeroPage
        || step is ModifyAddressBus
}

/// Address in the latch: one byte for zero page, two little endian bytes otherwise.
pub open spec fn latch_address(latch: Seq<u8>) -> u16 {
    if latch.len() == 1 {
        latch[0] as u16
    } else {
        le16(latch[0], latch[1])
    }
}

/// Effect of one settling step on the registers and the latch.
pub open spec fn settle_one(r: CpuRegisters, latch: Seq<u8>, step: ExecutionStep) -> (
    CpuRegisters,
    Seq<u8>,
) {
    match step {
        ExecutionStep::LatchToAddressBus => (
            CpuRegisters { address_bus: latch_address(latch), ..r },
            Seq::empty(),
        ),
        ExecutionStep::LatchToProgramPointer => (
            CpuRegisters { program: le16(latch[0], latch[1]), ..r },
            Seq::empty(),
        ),
        ExecutionStep::MaskAddressBusToZeroPage => (
            CpuRegisters { address_bus: (r.address_bus % 256) as u16, ..r },
            latch,
        ),
        ExecutionStep::ModifyAddressBus(m) => (
            CpuRegisters {
                address_bus: w16(
                    r.address_bus + match m {
                        AddressBusModification::X => r.x,
                        AddressBusModification::Y => r.y,
                    },
                ),
                ..r
            },
            latch,
        ),
        _ => (r, latch),
    }
}

/// Runs the settling steps at the head of the queue.
pub open spec fn settle(r: CpuRegisters, latch: Seq<u8>, q: Seq<ExecutionStep>) -> (
    CpuRegisters,
    Seq<u8>,
    Seq<ExecutionStep>,
)
    decreases q.len(),
{
    if q.len() > 0 && is_settling(q[0]) {
        let (r2, l2) = settle_one(r, latch, q[0]);
        settle(r2, l2, q.drop_first())
    } else {
        (r, latch, q)
    }
}

/// Whether a queue can run with `latch_len` bytes latched: the latch never
/// overflows, is never read when it holds the wrong number of bytes, and
/// the queue always ends in a step that refills it.
pub open spec fn queue_ok(latch_len: nat, q: Seq<ExecutionStep>) -> bool
    decreases q.len(),
{
    if q.len() == 0 {
        false
    } else {
        let rest = q.drop_first();
        match q[0] {
            ExecutionStep::Reset => latch_len == 0 && q.len() == 1,
            ExecutionStep::FetchAndDecode => latch_len == 0 && q.len() == 1,
            ExecutionStep::Interpret => latch_len == 0 && q.len() == 1,
            ExecutionStep::Wait => q.len() == 1,
            ExecutionStep::Jammed => true,
            ExecutionStep::LoadData => latch_len < 2 && queue_ok(latch_len + 1, rest),
            ExecutionStep::LoadDataWithoutAdvancingPage => latch_len < 2 && queue_ok(
                latch_len + 1,
                rest,
            ),
            ExecutionStep::LoadDataFromConstant(_) => latch_len < 2 && queue_ok(latch_len + 1, rest),
            ExecutionStep::LatchToAddressBus => (latch_len == 1 || latch_len == 2) && queue_ok(
                0,
                rest,
            ),
            ExecutionStep::LatchToProgramPointer => latch_len == 2 && queue_ok(0, rest),
            _ => queue_ok(latch_len, rest),
        }
    }
}

/// Micro-steps that fetch the operand address of an addressing mode.
pub open spec fn addressing_steps(mode: Option<AddressingMode>, page_wrap_errata: bool) -> Seq<
    ExecutionStep,
> {
    match mode {
        None => Seq::empty(),
        Some(AddressingMode::Mos6502(m)) => match m {
            Mos6502AddressingMode::Absolute => seq![
                ExecutionStep::LoadData,
                ExecutionStep::LoadData,
                ExecutionStep::LatchToAddressBus,
            ],
            Mos6502AddressingMode::XIndexedAbsolute => seq![
                ExecutionStep::LoadData,
                ExecutionStep::LoadData,
                ExecutionStep::LatchToAddressBus,
                ExecutionStep::ModifyAddressBus(AddressBusModification::X),
            ],
            Mos6502AddressingMode::YIndexedAbsolute => seq![
                ExecutionStep::LoadData,
                ExecutionStep::LoadData,
                ExecutionStep::LatchToAddressBus,
                ExecutionStep::ModifyAddressBus(AddressBusModification::Y),
            ],
            Mos6502AddressingMode::AbsoluteIndirect => if page_wrap_errata {
                seq![
                    ExecutionStep::LoadData,
                    ExecutionStep::LoadData,
                    ExecutionStep::LatchToAddressBus,
                    ExecutionStep::LoadDataWithoutAdvancingPage,
                    ExecutionStep::LoadData,
                    ExecutionStep::LatchToAddressBus,
                ]
            } else {
                seq![
                    ExecutionStep::LoadData,
                    ExecutionStep::LoadData,
                    ExecutionStep::LatchToAddressBus,
                    ExecutionStep::LoadData,
                    ExecutionStep::LoadData,
                    ExecutionStep::LatchToAddressBus,
                ]
            },
            Mos6502AddressingMode::XIndexedZeroPageIndirect => seq![
                ExecutionStep::LoadData,
                ExecutionStep::LatchToAddressBus,
                ExecutionStep::ModifyAddressBus(AddressBusModification::X),
                ExecutionStep::MaskAddressBusToZeroPage,
                ExecutionStep::LoadData,
                ExecutionStep::MaskAddressBusToZeroPage,
                ExecutionStep::LoadData,
                ExecutionStep::LatchToAddressBus,
            ],
            Mos6502AddressingMode::ZeroPageIndirectYIndexed => seq![
                ExecutionStep::LoadData,
                ExecutionStep::LatchToAddressBus,
                ExecutionStep::LoadData,
                ExecutionStep::MaskAddressBusToZeroPage,
                ExecutionStep::LoadData,
                ExecutionStep::LatchToAddressBus,
                ExecutionStep::ModifyAddressBus(AddressBusModification::Y),
            ],
            Mos6502AddressingMode::XIndexedZeroPage => seq![
                ExecutionStep::LoadData,
                ExecutionStep::LatchToAddressBus,
                ExecutionStep::ModifyAddressBus(AddressBusModification::X),
                ExecutionStep::MaskAddressBusToZeroPage,
            ],
            Mos6502AddressingMode::YIndexedZeroPage => seq![
                ExecutionStep::LoadData,
                ExecutionStep::LatchToAddressBus,
                ExecutionStep::ModifyAddressBus(AddressBusModification::Y),
                ExecutionStep::MaskAddressBusToZeroPage,
            ],
            Mos6502AddressingMode::ZeroPage => seq![
                ExecutionStep::LoadData,
                ExecutionStep::LatchToAddressBus,
            ],
            _ => Seq::empty(),
        },
        Some(AddressingMode::Wdc65C02(Wdc65C02AddressingMode::ZeroPageIndirect)) => seq![
            ExecutionStep::LoadData,
            ExecutionStep::LatchToAddressBus,
            ExecutionStep::LoadData,
            ExecutionStep::MaskAddressBusToZeroPage,
            ExecutionStep::LoadData,
            ExecutionStep::LatchToAddressBus,
        ],
    }
}

/// Operand bytes following the opcode of an instruction.
pub open spec fn operand_length(mode: Option<AddressingMode>) -> u16 {
    match mode {
        Some(m) => m.spec_added_instruction_length(),
        None => 0,
    }
}

/// Fetch and decode: the instruction at the program pointer is decoded, the
/// address bus points at its operand, the program pointer moves past it and
/// the steps to reach its operand are queued ahead of its execution.
pub open spec fn spec_fetch(
    r: CpuRegisters,
    rest: Seq<ExecutionStep>,
    kind: Mos6502Kind,
    bus: AddressSpace,
    cells: Seq<u8>,
) -> (CpuRegisters, Seq<u8>, Seq<ExecutionStep>, Option<Mos6502InstructionSet>) {
    let instruction = spec_decode(bus.read_or_zero(cells, r.program as int), kind);
    (
        CpuRegisters {
            address_bus: w16(r.program + 1),
            program: w16(r.program + 1 + operand_length(instruction.addressing_mode)),
            ..r
        },
        Seq::empty(),
        rest + addressing_steps(
            instruction.addressing_mode,
            kind.spec_absolute_indirect_page_wrap_errata(),
        ) + seq![ExecutionStep::Interpret],
        Some(instruction),
    )
}

/// One cycle-consuming step, the first of `q`: registers, latch, queue,
/// pending instruction, pending NMI and storage afterwards.
pub open spec fn spec_consume(
    r: CpuRegisters,
    latch: Seq<u8>,
    q: Seq<ExecutionStep>,
    next: Option<Mos6502InstructionSet>,
    nmi_pending: bool,
    irq_line: bool,
    kind: Mos6502Kind,
    bus: AddressSpace,
    cells: Seq<u8>,
    random: u8,
) -> (CpuRegisters, Seq<u8>, Seq<ExecutionStep>, Option<Mos6502InstructionSet>, bool, Seq<u8>) {
    let rest = q.drop_first();
    match q[0] {
        ExecutionStep::Reset => (
            r,
            latch,
            rest + interrupt_steps(RESET_VECTOR, r.flags, r.program, false, false),
            next,
            nmi_pending,
            cells,
        ),
        ExecutionStep::Jammed => (r, latch, seq![ExecutionStep::Jammed], next, nmi_pending, cells),
        ExecutionStep::Wait => (r, latch, rest.push(ExecutionStep::Wait), next, nmi_pending, cells),
        ExecutionStep::FetchAndDecode => if kind.spec_supports_interrupts() {
            if nmi_pending {
                (
                    r,
                    latch,
                    rest + interrupt_steps(NMI_VECTOR, r.flags, r.program, false, true),
                    next,
                    false,
                    cells,
                )
            } else if !irq_line && !r.flags.interrupt_disable {
                (
                    r,
                    latch,
                    rest + interrupt_steps(IRQ_VECTOR, r.flags, r.program, true, true),
                    next,
                    false,
                    cells,
                )
            } else {
                let (r2, l2, q2, n2) = spec_fetch(r, rest, kind, bus, cells);
                (r2, l2, q2, n2, false, cells)
            }
        } else {
            let (r2, l2, q2, n2) = spec_fetch(r, rest, kind, bus, cells);
            (r2, l2, q2, n2, nmi_pending, cells)
        },
        ExecutionStep::LoadData => (
            CpuRegisters { address_bus: w16(r.address_bus + 1), ..r },
            latch.push(bus.read_or_zero(cells, r.address_bus as int)),
            rest,
            next,
            nmi_pending,
            cells,
        ),
        ExecutionStep::LoadDataWithoutAdvancingPage => (
            CpuRegisters {
                address_bus: ((r.address_bus / 256) * 256 + (r.address_bus % 256 + 1) % 256) as u16,
                ..r
            },
            latch.push(bus.read_or_zero(cells, r.address_bus as int)),
            rest,
            next,
            nmi_pending,
            cells,
        ),
        ExecutionStep::LoadDataFromConstant(data) => (
            r,
            latch.push(data),
            rest,
            next,
            nmi_pending,
            cells,
        ),
        ExecutionStep::StoreData(data) => (
            CpuRegisters { address_bus: w16(r.address_bus + 1), ..r },
            latch,
            rest,
            next,
            nmi_pending,
            bus.write_in(cells, r.address_bus as int, data),
        ),
        ExecutionStep::PushStack(data) => (
            CpuRegisters { stack: w8(r.stack - 1), ..r },
            latch,
            rest,
            next,
            nmi_pending,
            bus.write_in(cells, stack_address(r.stack), data),
        ),
        ExecutionStep::AddressBusToProgramPointer => (
            CpuRegisters { program: r.address_bus, ..r },
            latch,
            rest,
            next,
            nmi_pending,
            cells,
        ),
        ExecutionStep::ModifyProgramPointer(value) => (
            CpuRegisters { program: w16(r.program + value), ..r },
            latch,
            rest,
            next,
            nmi_pending,
            cells,
        ),
        ExecutionStep::Interpret => {
            let (r2, pushed, c2) = spec_execute(r, next->0, bus, cells, random);
            (
                r2,
                latch,
                rest + pushed + seq![ExecutionStep::FetchAndDecode],
                None,
                nmi_pending,
                c2,
            )
        },
        _ => (r, latch, q, next, nmi_pending, cells),
    }
}



/// A queue whose steps neither touch the latch nor end it can go in front
/// of any runnable queue.
proof fn lemma_queue_ok_plain(latch_len: nat, p: Seq<ExecutionStep>, tail: Seq<ExecutionStep>)
    requires
        forall|k: int| 0 <= k < p.len() ==> is_plain(#[trigger] p[k]),
        queue_ok(latch_len, tail),
    ensures
        queue_ok(latch_len, p + tail),
    decreases p.len(),
{
    if p.len() > 0 {
        lemma_queue_ok_plain(latch_len, p.drop_first(), tail);
        assert((p + tail).drop_first() =~= p.drop_first() + tail);
        assert((p + tail)[0] == p[0]);
    } else {
        assert(p + tail =~= tail);
    }
}

proof fn lemma_interrupt_steps_ok(
    vector: u16,
    flags: super::flags::FlagRegister,
    program: u16,
    break_status: bool,
    save: bool,
)
    ensures
        queue_ok(0, interrupt_steps(vector, flags, program, break_status, save)),
{
    let tail = seq![
        ExecutionStep::LoadDataFromConstant(super::processor::low_byte(vector)),
        ExecutionStep::LoadDataFromConstant(super::processor::high_byte(vector)),
        ExecutionStep::LatchToAddressBus,
        ExecutionStep::LoadData,
        ExecutionStep::LoadData,
        ExecutionStep::LatchToProgramPointer,
        ExecutionStep::FetchAndDecode,
    ];
    reveal_with_fuel(queue_ok, 8);
    assert(tail.drop_first().drop_first().drop_first().drop_first().drop_first().drop_first()
        =~= seq![ExecutionStep::FetchAndDecode]);
    assert(queue_ok(0, tail));
    let steps = interrupt_steps(vector, flags, program, break_status, save);
    if save {
        let saves = steps.subrange(0, 3);
        assert(steps =~= saves + tail);
        lemma_queue_ok_plain(0, saves, tail);
    } else {
        assert(steps =~= tail);
    }
}

proof fn lemma_addressing_steps_ok(mode: Option<AddressingMode>, errata: bool)
    ensures
        queue_ok(0, addressing_steps(mode, errata) + seq![ExecutionStep::Interpret]),
{
    reveal_with_fuel(queue_ok, 10);
}

/// What an instruction queues is a jam, or steps that leave the latch alone.
proof fn lemma_execute_pushes(
    r: CpuRegisters,
    instruction: Mos6502InstructionSet,
    bus: AddressSpace,
    cells: Seq<u8>,
    random: u8,
)
    ensures
        ({
            let pushed = spec_execute(r, instruction, bus, cells, random).1;
            pushed == seq![ExecutionStep::Jammed] || forall|k: int|
                0 <= k < pushed.len() ==> is_plain(#[trigger] pushed[k])
        }),
{
}

/// Settling keeps a runnable queue runnable, ends on a step that takes a
/// cycle, keeps the last step and leaves every register but the program
/// pointer and address bus alone.
proof fn lemma_settle(r: CpuRegisters, latch: Seq<u8>, q: Seq<ExecutionStep>)
    requires
        queue_ok(latch.len(), q),
    ensures
        ({
            let (r2, l2, q2) = settle(r, latch, q);
            &&& queue_ok(l2.len(), q2)
            &&& q2.len() > 0
            &&& !is_settling(q2[0])
            &&& q2.last() == q.last()
            &&& q2.len() <= q.len()
            &&& r2.flags == r.flags
            &&& r2.a == r.a
            &&& r2.x == r.x
            &&& r2.y == r.y
            &&& r2.stack == r.stack
        }),
    decreases q.len(),
{
    if q.len() > 0 && is_settling(q[0]) {
        let (r2, l2) = settle_one(r, latch, q[0]);
        assert(queue_ok(l2.len(), q.drop_first()));
        assert(q.drop_first().len() > 0);
        assert(q.drop_first().last() == q.last());
        lemma_settle(r2, l2, q.drop_first());
    }
}

/// Every opcode byte decodes to an instruction the interpreter can take:
/// an operand wherever one is read, and JMP only through an absolute or
/// indirect address.
pub proof fn lemma_decode_well_shaped(byte: u8, kind: Mos6502Kind)
    ensures
        well_shaped(spec_decode(byte, kind)),
{
    let identifier = (byte >> 5u8) & 7;
    let argument = (byte >> 2u8) & 7;
    assert(identifier < 8 && argument < 8) by (bit_vector)
        requires
            identifier == (byte >> 5u8) & 7,
            argument == (byte >> 2u8) & 7,
    ;
}

impl Mos6502 {
    pub open spec fn spec_config(&self) -> Mos6502Config {
        self.config
    }

    pub open spec fn kind(&self) -> Mos6502Kind {
        self.spec_config().kind
    }

    pub open spec fn rdy_line(&self) -> bool {
        self.rdy.spec_value()
    }

    pub open spec fn irq_line(&self) -> bool {
        self.irq.spec_line()
    }

    pub open spec fn nmi_line(&self) -> bool {
        self.nmi.spec_line()
    }

    pub open spec fn nmi_pending(&self) -> bool {
        self.nmi.spec_pending()
    }

    /// The processor can keep running: its queue is runnable with what the
    /// latch holds, and an instruction waits whenever the queue ends in its
    /// execution.
    pub open spec fn wf(&self) -> bool {
        &&& queue_ok(self.state.latch().len(), self.state.queue())
        &&& self.state.queue().last() == ExecutionStep::Interpret ==> (
        self.state.next_instruction is Some && well_shaped(self.state.next_instruction->0))
    }

    /// Registers, latch and queue once the free steps at the head have run.
    pub open spec fn settled(&self) -> (CpuRegisters, Seq<u8>, Seq<ExecutionStep>) {
        settle(self.state.regs(), self.state.latch(), self.state.queue())
    }

    /// The next cycle is defined: if it executes an instruction, that
    /// instruction is one the interpreter has.
    pub open spec fn cycle_defined(&self) -> bool {
        let (r, l, q) = self.settled();
        q.len() > 0 && q[0] == ExecutionStep::Interpret ==> executable(
            self.state.next_instruction->0,
            r.flags,
            self.kind(),
        )
    }

    /// The processor after one cycle with the line RDY high.
    pub open spec fn cycle_effect(
        pre: &Mos6502,
        post: &Mos6502,
        bus: AddressSpace,
        cells: Seq<u8>,
        random: u8,
    ) -> bool {
        let (r, l, q) = pre.settled();
        let (r2, l2, q2, n2, pending2, c2) = spec_consume(
            r,
            l,
            q,
            pre.state.next_instruction,
            pre.nmi_pending(),
            pre.irq_line(),
            pre.kind(),
            bus,
            bus.cells(),
            random,
        );
        &&& post.state.regs() == r2
        &&& post.state.latch() == l2
        &&& post.state.queue() == q2
        &&& post.state.next_instruction == n2
        &&& post.nmi_pending() == pending2
        &&& cells == c2
    }

    /// Lines and configuration that running the processor leaves alone.
    pub open spec fn same_setup(&self, other: &Mos6502) -> bool {
        &&& other.spec_config() == self.spec_config()
        &&& other.rdy_line() == self.rdy_line()
        &&& other.irq_line() == self.irq_line()
        &&& other.nmi_line() == self.nmi_line()
    }

    /// A processor in its power-on state, a reset pending, RDY and IRQ high
    /// and no NMI pending.
    pub fn new(config: Mos6502Config) -> (r: Self)
        ensures
            r.wf(),
            r.spec_config() == config,
            r.rdy_line(),
            r.irq_line(),
            r.nmi_line(),
            !r.nmi_pending(),
            r.state.queue() == seq![ExecutionStep::Reset],
            r.state.latch() == Seq::<u8>::empty(),
            r.state.next_instruction is None,
            r.state.regs() == (CpuRegisters {
                a: 0,
                x: 0,
                y: 0,
                flags: super::flags::FlagRegister::default_flags(),
                stack: 0xff,
                program: 0,
                address_bus: 0,
            }),
    {
        Mos6502 {
            state: ProcessorState::new(),
            rdy: RdyFlag::new(),
            irq: IrqFlag::new(),
            nmi: NmiFlag::new(),
            config,
        }
    }

    /// The kind of chip.
    pub fn config(&self) -> (r: Mos6502Config)
        ensures
            r == self.spec_config(),
    {
        self.config
    }

    /// The RDY line.
    pub fn rdy(&self) -> (r: &RdyFlag)
        ensures
            r.spec_value() == self.rdy_line(),
    {
        &self.rdy
    }

    /// The IRQ line.
    pub fn irq(&self) -> (r: &IrqFlag)
        ensures
            r.spec_line() == self.irq_line(),
    {
        &self.irq
    }

    /// The NMI line.
    pub fn nmi(&self) -> (r: &NmiFlag)
        ensures
            r.spec_line() == self.nmi_line(),
            r.spec_pending() == self.nmi_pending(),
    {
        &self.nmi
    }

    /// Drives RDY.
    pub fn set_rdy(&mut self, value: bool)
        ensures
            final(self).rdy_line() == value,
            final(self).irq_line() == old(self).irq_line(),
            final(self).nmi_line() == old(self).nmi_line(),
            final(self).nmi_pending() == old(self).nmi_pending(),
            final(self).spec_config() == old(self).spec_config(),
            final(self).state == old(self).state,
    {
        self.rdy.store(value);
    }

    /// Drives IRQ.
    pub fn set_irq(&mut self, value: bool)
        ensures
            final(self).irq_line() == value,
            final(self).rdy_line() == old(self).rdy_line(),
            final(self).nmi_line() == old(self).nmi_line(),
            final(self).nmi_pending() == old(self).nmi_pending(),
            final(self).spec_config() == old(self).spec_config(),
            final(self).state == old(self).state,
    {
        self.irq.store(value);
    }

    /// Drives NMI; a falling edge leaves an interrupt pending.
    pub fn set_nmi(&mut self, value: bool)
        ensures
            final(self).nmi_line() == value,
            final(self).nmi_pending() == (old(self).nmi_pending() || (old(self).nmi_line()
                && !value)),
            final(self).rdy_line() == old(self).rdy_line(),
            final(self).irq_line() == old(self).irq_line(),
            final(self).spec_config() == old(self).spec_config(),
            final(self).state == old(self).state,
    {
        self.nmi.store(value);
    }
}

impl Mos6502 {
    /// Queues the micro-steps that put the operand address of `instruction`
    /// on the address bus.
    fn push_steps_for_instruction(&mut self, instruction: &Mos6502InstructionSet)
        ensures
            final(self).state.queue() == old(self).state.queue() + addressing_steps(
                instruction.addressing_mode,
                old(self).kind().spec_absolute_indirect_page_wrap_errata(),
            ),
            final(self).state.regs() == old(self).state.regs(),
            final(self).state.latch == old(self).state.latch,
            final(self).state.next_instruction == old(self).state.next_instruction,
            old(self).same_setup(final(self)),
            final(self).nmi_pending() == old(self).nmi_pending(),
    {
        let ghost q0 = self.state.queue();
        let queue = &mut self.state.execution_queue;
        match instruction.addressing_mode {
            None => {},
            Some(addressing_mode) => match addressing_mode {
                AddressingMode::Mos6502(Mos6502AddressingMode::Absolute) => {
                    queue.push_back(ExecutionStep::LoadData);
                    queue.push_back(ExecutionStep::LoadData);
                    queue.push_back(ExecutionStep::LatchToAddressBus);
                },
                AddressingMode::Mos6502(Mos6502AddressingMode::XIndexedAbsolute) => {
                    queue.push_back(ExecutionStep::LoadData);
                    queue.push_back(ExecutionStep::LoadData);
                    queue.push_back(ExecutionStep::LatchToAddressBus);
                    queue.push_back(ExecutionStep::ModifyAddressBus(AddressBusModification::X));
                },
                AddressingMode::Mos6502(Mos6502AddressingMode::YIndexedAbsolute) => {
                    queue.push_back(ExecutionStep::LoadData);
                    queue.push_back(ExecutionStep::LoadData);
                    queue.push_back(ExecutionStep::LatchToAddressBus);
                    queue.push_back(ExecutionStep::ModifyAddressBus(AddressBusModification::Y));
                },
                AddressingMode::Mos6502(Mos6502AddressingMode::AbsoluteIndirect) => {
                    queue.push_back(ExecutionStep::LoadData);
                    queue.push_back(ExecutionStep::LoadData);
                    queue.push_back(ExecutionStep::LatchToAddressBus);
                    if self.config.kind.absolute_indirect_page_wrap_errata() {
                        queue.push_back(ExecutionStep::LoadDataWithoutAdvancingPage);
                    } else {
                        queue.push_back(ExecutionStep::LoadData);
                    }
                    queue.push_back(ExecutionStep::LoadData);
                    queue.push_back(ExecutionStep::LatchToAddressBus);
                },
                AddressingMode::Mos6502(Mos6502AddressingMode::XIndexedZeroPageIndirect) => {
                    queue.push_back(ExecutionStep::LoadData);
                    queue.push_back(ExecutionStep::LatchToAddressBus);
                    queue.push_back(ExecutionStep::ModifyAddressBus(AddressBusModification::X));
                    queue.push_back(ExecutionStep::MaskAddressBusToZeroPage);
                    queue.push_back(ExecutionStep::LoadData);
                    queue.push_back(ExecutionStep::MaskAddressBusToZeroPage);
                    queue.push_back(ExecutionStep::LoadData);
                    queue.push_back(ExecutionStep::LatchToAddressBus);
                },
                AddressingMode::Mos6502(Mos6502AddressingMode::ZeroPageIndirectYIndexed) => {
                    queue.push_back(ExecutionStep::LoadData);
                    queue.push_back(ExecutionStep::LatchToAddressBus);
                    queue.push_back(ExecutionStep::LoadData);
                    queue.push_back(ExecutionStep::MaskAddressBusToZeroPage);
                    queue.push_back(ExecutionStep::LoadData);
                    queue.push_back(ExecutionStep::LatchToAddressBus);
                    queue.push_back(ExecutionStep::ModifyAddressBus(AddressBusModification::Y));
                },
                AddressingMode::Mos6502(Mos6502AddressingMode::XIndexedZeroPage) => {
                    queue.push_back(ExecutionStep::LoadData);
                    queue.push_back(ExecutionStep::LatchToAddressBus);
                    queue.push_back(ExecutionStep::ModifyAddressBus(AddressBusModification::X));
                    queue.push_back(ExecutionStep::MaskAddressBusToZeroPage);
                },
                AddressingMode::Mos6502(Mos6502AddressingMode::YIndexedZeroPage) => {
                    queue.push_back(ExecutionStep::LoadData);
                    queue.push_back(ExecutionStep::LatchToAddressBus);
                    queue.push_back(ExecutionStep::ModifyAddressBus(AddressBusModification::Y));
                    queue.push_back(ExecutionStep::MaskAddressBusToZeroPage);
                },
                AddressingMode::Mos6502(Mos6502AddressingMode::ZeroPage) => {
                    queue.push_back(ExecutionStep::LoadData);
                    queue.push_back(ExecutionStep::LatchToAddressBus);
                },
                AddressingMode::Mos6502(Mos6502AddressingMode::Immediate) => {},
                AddressingMode::Mos6502(Mos6502AddressingMode::Relative) => {},
                AddressingMode::Mos6502(Mos6502AddressingMode::Accumulator) => {},
                AddressingMode::Wdc65C02(Wdc65C02AddressingMode::ZeroPageIndirect) => {
                    queue.push_back(ExecutionStep::LoadData);
                    queue.push_back(ExecutionStep::LatchToAddressBus);
                    queue.push_back(ExecutionStep::LoadData);
                    queue.push_back(ExecutionStep::MaskAddressBusToZeroPage);
                    queue.push_back(ExecutionStep::LoadData);
                    queue.push_back(ExecutionStep::LatchToAddressBus);
                },
            },
        }
        proof {
            assert(self.state.queue() =~= q0 + addressing_steps(
                instruction.addressing_mode,
                old(self).kind().spec_absolute_indirect_page_wrap_errata(),
            ));
        }
    }

    /// Decodes the instruction at the program pointer and queues its execution.
    fn fetch_and_decode(&mut self, bus: &AddressSpace)
        requires
            bus.wf(),
        ensures
            ({
                let (r, l, q, n) = spec_fetch(
                    old(self).state.regs(),
                    old(self).state.queue(),
                    old(self).kind(),
                    *bus,
                    bus.cells(),
                );
                &&& final(self).state.regs() == r
                &&& final(self).state.latch() == l
                &&& final(self).state.queue() == q
                &&& final(self).state.next_instruction == n
            }),
            old(self).same_setup(final(self)),
            final(self).nmi_pending() == old(self).nmi_pending(),
    {
        let byte = bus.read_or_zero_byte(self.state.program as usize);
        let instruction = decode_instruction(byte, self.config.kind);
        let length = match instruction.addressing_mode {
            Some(mode) => mode.added_instruction_length(),
            None => 0,
        };

        self.state.address_bus = self.state.program.wrapping_add(1);
        self.state.program = self.state.program.wrapping_add(1 + length);
        latch_clear(&mut self.state.latch);

        self.push_steps_for_instruction(&instruction);

        self.state.next_instruction = Some(instruction);
        self.state.execution_queue.push_back(ExecutionStep::Interpret);
    }

    /// Executes the decoded instruction; only XAA draws a random byte.
    fn interpret_instruction(&mut self, bus: &mut AddressSpace, instruction: Mos6502InstructionSet)
        requires
            old(bus).wf(),
            well_shaped(instruction),
            executable(instruction, old(self).state.flags, old(self).kind()),
        ensures
            final(bus).wf(),
            old(bus).same_mapping(final(bus)),
            final(self).state.latch == old(self).state.latch,
            final(self).state.next_instruction == old(self).state.next_instruction,
            old(self).same_setup(final(self)),
            final(self).nmi_pending() == old(self).nmi_pending(),
            exists|random: u8|
                {
                    let (r, pushed, cells) = #[trigger] spec_execute(
                        old(self).state.regs(),
                        instruction,
                        *old(bus),
                        old(bus).cells(),
                        random,
                    );
                    &&& final(self).state.regs() == r
                    &&& final(self).state.queue() == old(self).state.queue() + pushed
                    &&& final(bus).cells() == cells
                },
    {
        let random = if instruction.opcode == Opcode::Mos6502(Mos6502Opcode::Xaa) {
            random_byte()
        } else {
            0
        };
        let kind = self.config.kind;
        self.state.execute(bus, instruction, kind, random);
    }
}

impl Mos6502 {
    /// Runs the step at the head of the queue, one that takes no time.
    fn settle_head(&mut self)
        requires
            old(self).state.queue().len() > 0,
            is_settling(old(self).state.queue()[0]),
            queue_ok(old(self).state.latch().len(), old(self).state.queue()),
        ensures
            ({
                let (r1, l1) = settle_one(
                    old(self).state.regs(),
                    old(self).state.latch(),
                    old(self).state.queue()[0],
                );
                &&& final(self).state.regs() == r1
                &&& final(self).state.latch() == l1
            }),
            final(self).state.queue() == old(self).state.queue().drop_first(),
            final(self).state.next_instruction == old(self).state.next_instruction,
            old(self).same_setup(final(self)),
            final(self).nmi_pending() == old(self).nmi_pending(),
    {
        let head = self.state.execution_queue.pop_front().unwrap();
        match head {
            ExecutionStep::LatchToAddressBus => {
                let length = latch_len(&self.state.latch);
                if length == 1 {
                    self.state.address_bus = latch_get(&self.state.latch, 0) as u16;
                } else {
                    self.state.address_bus = u16_from_le_bytes(
                        latch_get(&self.state.latch, 0),
                        latch_get(&self.state.latch, 1),
                    );
                }
                latch_clear(&mut self.state.latch);
            },
            ExecutionStep::LatchToProgramPointer => {
                self.state.program = u16_from_le_bytes(
                    latch_get(&self.state.latch, 0),
                    latch_get(&self.state.latch, 1),
                );
                latch_clear(&mut self.state.latch);
            },
            ExecutionStep::MaskAddressBusToZeroPage => {
                self.state.address_bus = self.state.address_bus % PAGE_SIZE;
            },
            ExecutionStep::ModifyAddressBus(modification) => {
                let offset = match modification {
                    AddressBusModification::X => self.state.x,
                    AddressBusModification::Y => self.state.y,
                };
                self.state.address_bus = self.state.address_bus.wrapping_add(offset as u16);
            },
            _ => {},
        }
    }

    /// Runs the steps at the head of the queue that take no time.
    fn settle_steps(&mut self)
        requires
            queue_ok(old(self).state.latch().len(), old(self).state.queue()),
        ensures
            (final(self).state.regs(), final(self).state.latch(), final(self).state.queue())
                == old(self).settled(),
            final(self).state.next_instruction == old(self).state.next_instruction,
            old(self).same_setup(final(self)),
            final(self).nmi_pending() == old(self).nmi_pending(),
    {
        loop
            invariant
                queue_ok(self.state.latch().len(), self.state.queue()),
                self.settled() == old(self).settled(),
                self.state.next_instruction == old(self).state.next_instruction,
                old(self).same_setup(self),
                self.nmi_pending() == old(self).nmi_pending(),
            ensures
                (self.state.regs(), self.state.latch(), self.state.queue()) == old(
                    self,
                ).settled(),
                self.state.next_instruction == old(self).state.next_instruction,
                old(self).same_setup(self),
                self.nmi_pending() == old(self).nmi_pending(),
            decreases self.state.queue().len(),
        {
            let ghost r0 = self.state.regs();
            let ghost l0 = self.state.latch();
            let ghost q0 = self.state.queue();
            assert(q0.len() > 0);
            let head = self.state.execution_queue[0];
            if !is_settling_step(&head) {
                break ;
            }
            self.settle_head();
            proof {
                let (r1, l1) = settle_one(r0, l0, q0[0]);
                assert(settle(r0, l0, q0) == settle(r1, l1, q0.drop_first()));
                assert(queue_ok(l1.len(), q0.drop_first()));
            }
        }
    }
}

fn is_settling_step(step: &ExecutionStep) -> (r: bool)
    ensures
        r == is_settling(*step),
{
    match step {
        ExecutionStep::LatchToAddressBus | ExecutionStep::LatchToProgramPointer
        | ExecutionStep::MaskAddressBusToZeroPage | ExecutionStep::ModifyAddressBus(_) => true,
        _ => false,
    }
}

impl Mos6502 {
    /// Reset, jam, wait, constant loads and program pointer updates.
    #[verifier::rlimit(40)]
    fn consume_simple(&mut self, bus: &mut AddressSpace)
        requires
            old(bus).wf(),
            old(self).state.queue().len() > 0,
            ({
                let head = old(self).state.queue()[0];
                head is Reset || head is Jammed || head is Wait || head is LoadDataFromConstant
                    || head is AddressBusToProgramPointer || head is ModifyProgramPointer
            }),
            old(self).state.queue()[0] is LoadDataFromConstant ==> old(self).state.latch().len() < 2,
        ensures
            final(bus).wf(),
            old(bus).same_mapping(final(bus)),
            old(self).same_setup(final(self)),
            ({
                let (r2, l2, q2, n2, pending2, c2) = spec_consume(
                    old(self).state.regs(),
                    old(self).state.latch(),
                    old(self).state.queue(),
                    old(self).state.next_instruction,
                    old(self).nmi_pending(),
                    old(self).irq_line(),
                    old(self).kind(),
                    *old(bus),
                    old(bus).cells(),
                    0,
                );
                &&& final(self).state.regs() == r2
                &&& final(self).state.latch() == l2
                &&& final(self).state.queue() == q2
                &&& final(self).state.next_instruction == n2
                &&& final(self).nmi_pending() == pending2
                &&& final(bus).cells() == c2
            }),
    {
        let ghost q0 = self.state.queue();
        let head = self.state.execution_queue.pop_front().unwrap();
        match head {
            ExecutionStep::Reset => {
                self.state.interrupt(RESET_VECTOR, false, false);
            },
            ExecutionStep::Jammed => {
                self.state.execution_queue.clear();
                self.state.execution_queue.push_back(ExecutionStep::Jammed);
                assert(self.state.queue() =~= seq![ExecutionStep::Jammed]);
            },
            ExecutionStep::Wait => {
                self.state.execution_queue.push_back(ExecutionStep::Wait);
            },
            ExecutionStep::LoadDataFromConstant(data) => {
                latch_push(&mut self.state.latch, data);
            },
            ExecutionStep::AddressBusToProgramPointer => {
                self.state.program = self.state.address_bus;
            },
            ExecutionStep::ModifyProgramPointer(value) => {
                self.state.program = self.state.program.wrapping_add_signed(value as i16);
            },
            _ => {},
        }
        assert(q0.drop_first() =~= q0.subrange(1, q0.len() as int));
    }

    /// Memory reads into the latch and stores, to the address bus or the stack.
    #[verifier::rlimit(40)]
    fn consume_memory(&mut self, bus: &mut AddressSpace)
        requires
            old(bus).wf(),
            old(self).state.queue().len() > 0,
            ({
                let head = old(self).state.queue()[0];
                head is LoadData || head is LoadDataWithoutAdvancingPage || head is StoreData
                    || head is PushStack
            }),
            (old(self).state.queue()[0] is LoadData || old(self).state.queue()[0] is LoadDataWithoutAdvancingPage)
                ==> old(self).state.latch().len() < 2,
        ensures
            final(bus).wf(),
            old(bus).same_mapping(final(bus)),
            old(self).same_setup(final(self)),
            ({
                let (r2, l2, q2, n2, pending2, c2) = spec_consume(
                    old(self).state.regs(),
                    old(self).state.latch(),
                    old(self).state.queue(),
                    old(self).state.next_instruction,
                    old(self).nmi_pending(),
                    old(self).irq_line(),
                    old(self).kind(),
                    *old(bus),
                    old(bus).cells(),
                    0,
                );
                &&& final(self).state.regs() == r2
                &&& final(self).state.latch() == l2
                &&& final(self).state.queue() == q2
                &&& final(self).state.next_instruction == n2
                &&& final(self).nmi_pending() == pending2
                &&& final(bus).cells() == c2
            }),
    {
        let ghost q0 = self.state.queue();
        let head = self.state.execution_queue.pop_front().unwrap();
        match head {
            ExecutionStep::LoadData => {
                let byte = bus.read_or_zero_byte(self.state.address_bus as usize);
                latch_push(&mut self.state.latch, byte);
                self.state.address_bus = self.state.address_bus.wrapping_add(1);
            },
            ExecutionStep::LoadDataWithoutAdvancingPage => {
                let byte = bus.read_or_zero_byte(self.state.address_bus as usize);
                latch_push(&mut self.state.latch, byte);
                let (low, high) = super::processor::u16_to_le_bytes(self.state.address_bus);
                self.state.address_bus = u16_from_le_bytes(low.wrapping_add(1), high);
            },
            ExecutionStep::StoreData(data) => {
                let _ = bus.write_byte(self.state.address_bus as usize, data);
                self.state.address_bus = self.state.address_bus.wrapping_add(1);
            },
            ExecutionStep::PushStack(data) => {
                let _ = bus.write_byte(STACK_BASE_ADDRESS + self.state.stack as usize, data);
                self.state.stack = self.state.stack.wrapping_sub(1);
            },
            _ => {},
        }
        assert(q0.drop_first() =~= q0.subrange(1, q0.len() as int));
    }

    /// Fetch and decode, unless a pending NMI or an unmasked IRQ is taken first.
    #[verifier::rlimit(40)]
    fn consume_fetch(&mut self, bus: &mut AddressSpace)
        requires
            old(bus).wf(),
            old(self).state.queue().len() > 0,
            old(self).state.queue()[0] is FetchAndDecode,
        ensures
            final(bus).wf(),
            old(bus).same_mapping(final(bus)),
            old(self).same_setup(final(self)),
            ({
                let (r2, l2, q2, n2, pending2, c2) = spec_consume(
                    old(self).state.regs(),
                    old(self).state.latch(),
                    old(self).state.queue(),
                    old(self).state.next_instruction,
                    old(self).nmi_pending(),
                    old(self).irq_line(),
                    old(self).kind(),
                    *old(bus),
                    old(bus).cells(),
                    0,
                );
                &&& final(self).state.regs() == r2
                &&& final(self).state.latch() == l2
                &&& final(self).state.queue() == q2
                &&& final(self).state.next_instruction == n2
                &&& final(self).nmi_pending() == pending2
                &&& final(bus).cells() == c2
            }),
    {
        let ghost q0 = self.state.queue();
        let _ = self.state.execution_queue.pop_front();
        assert(self.state.queue() =~= q0.drop_first());
        if self.config.kind.supports_interrupts() {
            if self.nmi.interrupt_required() {
                self.state.interrupt(NMI_VECTOR, false, true);
            } else if self.irq.interrupt_required() && !self.state.flags.interrupt_disable {
                self.state.interrupt(IRQ_VECTOR, true, true);
            } else {
                self.fetch_and_decode(bus);
            }
        } else {
            self.fetch_and_decode(bus);
        }
    }
}

/// A cycle-consuming step keeps the queue runnable and keeps an
/// interpretable instruction waiting whenever the queue ends in its execution.
proof fn lemma_consume_wf(
    r: CpuRegisters,
    l: Seq<u8>,
    q: Seq<ExecutionStep>,
    next: Option<Mos6502InstructionSet>,
    pending: bool,
    irq: bool,
    kind: Mos6502Kind,
    bus: AddressSpace,
    cells: Seq<u8>,
    random: u8,
)
    requires
        queue_ok(l.len(), q),
        !is_settling(q[0]),
        q.last() == ExecutionStep::Interpret ==> next is Some && well_shaped(next->0),
    ensures
        ({
            let (r2, l2, q2, n2, pending2, c2) = spec_consume(
                r,
                l,
                q,
                next,
                pending,
                irq,
                kind,
                bus,
                cells,
                random,
            );
            &&& queue_ok(l2.len(), q2)
            &&& q2.last() == ExecutionStep::Interpret ==> n2 is Some && well_shaped(n2->0)
        }),
{
    let rest = q.drop_first();
    match q[0] {
        ExecutionStep::Reset => {
            assert(rest =~= Seq::<ExecutionStep>::empty());
            lemma_interrupt_steps_ok(RESET_VECTOR, r.flags, r.program, false, false);
            assert(rest + interrupt_steps(RESET_VECTOR, r.flags, r.program, false, false)
                =~= interrupt_steps(RESET_VECTOR, r.flags, r.program, false, false));
        },
        ExecutionStep::FetchAndDecode => {
            assert(rest =~= Seq::<ExecutionStep>::empty());
            lemma_interrupt_steps_ok(NMI_VECTOR, r.flags, r.program, false, true);
            lemma_interrupt_steps_ok(IRQ_VECTOR, r.flags, r.program, true, true);
            assert(rest + interrupt_steps(NMI_VECTOR, r.flags, r.program, false, true)
                =~= interrupt_steps(NMI_VECTOR, r.flags, r.program, false, true));
            assert(rest + interrupt_steps(IRQ_VECTOR, r.flags, r.program, true, true)
                =~= interrupt_steps(IRQ_VECTOR, r.flags, r.program, true, true));
            let byte = bus.read_or_zero(cells, r.program as int);
            let instruction = spec_decode(byte, kind);
            lemma_decode_well_shaped(byte, kind);
            let steps = addressing_steps(
                instruction.addressing_mode,
                kind.spec_absolute_indirect_page_wrap_errata(),
            );
            lemma_addressing_steps_ok(
                instruction.addressing_mode,
                kind.spec_absolute_indirect_page_wrap_errata(),
            );
            assert(rest + steps + seq![ExecutionStep::Interpret] =~= steps + seq![
                ExecutionStep::Interpret,
            ]);
        },
        ExecutionStep::Interpret => {
            assert(rest =~= Seq::<ExecutionStep>::empty());
            let pushed = spec_execute(r, next->0, bus, cells, random).1;
            lemma_execute_pushes(r, next->0, bus, cells, random);
            let tail = seq![ExecutionStep::FetchAndDecode];
            assert(queue_ok(0, tail));
            assert(rest + pushed + tail =~= pushed + tail);
            if pushed == seq![ExecutionStep::Jammed] {
                assert((pushed + tail)[0] == ExecutionStep::Jammed);
            } else {
                lemma_queue_ok_plain(0, pushed, tail);
            }
        },
        ExecutionStep::Jammed => {
            reveal_with_fuel(queue_ok, 2);
        },
        ExecutionStep::Wait => {
            assert(rest =~= Seq::<ExecutionStep>::empty());
            assert(rest.push(ExecutionStep::Wait) =~= seq![ExecutionStep::Wait]);
        },
        ExecutionStep::LoadData | ExecutionStep::LoadDataWithoutAdvancingPage
        | ExecutionStep::LoadDataFromConstant(_) => {
            assert(queue_ok(l.len() + 1, rest));
            assert(rest.len() > 0);
            assert(rest.last() == q.last());
        },
        _ => {
            assert(queue_ok(l.len(), rest));
            assert(rest.len() > 0);
            assert(rest.last() == q.last());
        },
    }
}

impl Mos6502 {
    /// Executes the waiting instruction and queues the next fetch.
    fn consume_interpret(&mut self, bus: &mut AddressSpace)
        requires
            old(bus).wf(),
            old(self).state.queue().len() > 0,
            old(self).state.queue()[0] is Interpret,
            old(self).state.next_instruction is Some,
            well_shaped(old(self).state.next_instruction->0),
            executable(old(self).state.next_instruction->0, old(self).state.flags, old(self).kind()),
        ensures
            final(bus).wf(),
            old(bus).same_mapping(final(bus)),
            old(self).same_setup(final(self)),
            exists|random: u8|
                {
                    let (r2, l2, q2, n2, pending2, c2) = #[trigger] spec_consume(
                        old(self).state.regs(),
                        old(self).state.latch(),
                        old(self).state.queue(),
                        old(self).state.next_instruction,
                        old(self).nmi_pending(),
                        old(self).irq_line(),
                        old(self).kind(),
                        *old(bus),
                        old(bus).cells(),
                        random,
                    );
                    &&& final(self).state.regs() == r2
                    &&& final(self).state.latch() == l2
                    &&& final(self).state.queue() == q2
                    &&& final(self).state.next_instruction == n2
                    &&& final(self).nmi_pending() == pending2
                    &&& final(bus).cells() == c2
                },
    {
        let ghost q0 = self.state.queue();
        let _ = self.state.execution_queue.pop_front();
        let instruction = self.state.next_instruction.unwrap();
        self.state.next_instruction = None;
        self.interpret_instruction(bus, instruction);
        self.state.execution_queue.push_back(ExecutionStep::FetchAndDecode);
        proof {
            let random = choose|random: u8|
                {
                    let (r, pushed, cells) = #[trigger] spec_execute(
                        old(self).state.regs(),
                        instruction,
                        *old(bus),
                        old(bus).cells(),
                        random,
                    );
                    &&& self.state.regs() == r
                    &&& self.state.queue() == q0.drop_first() + pushed + seq![ExecutionStep::FetchAndDecode]
                    &&& bus.cells() == cells
                };
            let _ = spec_consume(
                old(self).state.regs(),
                old(self).state.latch(),
                old(self).state.queue(),
                old(self).state.next_instruction,
                old(self).nmi_pending(),
                old(self).irq_line(),
                old(self).kind(),
                *old(bus),
                old(bus).cells(),
                random,
            );
        }
    }

    /// Runs the step at the head of the queue, one that takes a cycle.
    #[verifier::rlimit(30)]
    fn consume(&mut self, bus: &mut AddressSpace)
        requires
            old(bus).wf(),
            queue_ok(old(self).state.latch().len(), old(self).state.queue()),
            !is_settling(old(self).state.queue()[0]),
            old(self).state.queue().last() == ExecutionStep::Interpret ==> (
            old(self).state.next_instruction is Some && well_shaped(
                old(self).state.next_instruction->0,
            )),
            old(self).state.queue()[0] == ExecutionStep::Interpret ==> executable(
                old(self).state.next_instruction->0,
                old(self).state.flags,
                old(self).kind(),
            ),
        ensures
            final(self).wf(),
            final(bus).wf(),
            old(bus).same_mapping(final(bus)),
            old(self).same_setup(final(self)),
            exists|random: u8|
                {
                    let (r2, l2, q2, n2, pending2, c2) = #[trigger] spec_consume(
                        old(self).state.regs(),
                        old(self).state.latch(),
                        old(self).state.queue(),
                        old(self).state.next_instruction,
                        old(self).nmi_pending(),
                        old(self).irq_line(),
                        old(self).kind(),
                        *old(bus),
                        old(bus).cells(),
                        random,
                    );
                    &&& final(self).state.regs() == r2
                    &&& final(self).state.latch() == l2
                    &&& final(self).state.queue() == q2
                    &&& final(self).state.next_instruction == n2
                    &&& final(self).nmi_pending() == pending2
                    &&& final(bus).cells() == c2
                },
    {
        let head = self.state.execution_queue[0];
        match head {
            ExecutionStep::Reset | ExecutionStep::Jammed | ExecutionStep::Wait
            | ExecutionStep::LoadDataFromConstant(_) | ExecutionStep::AddressBusToProgramPointer
            | ExecutionStep::ModifyProgramPointer(_) => {
                self.consume_simple(bus);
            },
            ExecutionStep::LoadData | ExecutionStep::LoadDataWithoutAdvancingPage
            | ExecutionStep::StoreData(_) | ExecutionStep::PushStack(_) => {
                self.consume_memory(bus);
            },
            ExecutionStep::FetchAndDecode => {
                self.consume_fetch(bus);
            },
            _ => {
                assert(queue_ok(old(self).state.latch().len(), old(self).state.queue()));
                self.consume_interpret(bus);
            },
        }
        proof {
            let random = choose|random: u8|
                {
                    let (r2, l2, q2, n2, pending2, c2) = #[trigger] spec_consume(
                        old(self).state.regs(),
                        old(self).state.latch(),
                        old(self).state.queue(),
                        old(self).state.next_instruction,
                        old(self).nmi_pending(),
                        old(self).irq_line(),
                        old(self).kind(),
                        *old(bus),
                        old(bus).cells(),
                        random,
                    );
                    &&& self.state.regs() == r2
                    &&& self.state.latch() == l2
                    &&& self.state.queue() == q2
                    &&& self.state.next_instruction == n2
                    &&& self.nmi_pending() == pending2
                    &&& bus.cells() == c2
                };
            lemma_consume_wf(
                old(self).state.regs(),
                old(self).state.latch(),
                old(self).state.queue(),
                old(self).state.next_instruction,
                old(self).nmi_pending(),
                old(self).irq_line(),
                old(self).kind(),
                *old(bus),
                old(bus).cells(),
                random,
            );
        }
    }

    /// Runs the processor for one cycle: with RDY high, the free steps at
    /// the head of the queue and then one step that takes the cycle; with
    /// RDY low, nothing.
    pub fn cycle(&mut self, bus: &mut AddressSpace)
        requires
            old(self).wf(),
            old(bus).wf(),
            old(self).cycle_defined(),
        ensures
            final(self).wf(),
            final(bus).wf(),
            old(bus).same_mapping(final(bus)),
            old(self).same_setup(final(self)),
            !old(self).rdy_line() ==> {
                &&& final(self).state.regs() == old(self).state.regs()
                &&& final(self).state.latch() == old(self).state.latch()
                &&& final(self).state.queue() == old(self).state.queue()
                &&& final(self).state.next_instruction == old(self).state.next_instruction
                &&& final(self).nmi_pending() == old(self).nmi_pending()
                &&& final(bus).cells() == old(bus).cells()
            },
            old(self).rdy_line() ==> exists|random: u8|
                #[trigger] Mos6502::cycle_effect(
                    old(self),
                    final(self),
                    *old(bus),
                    final(bus).cells(),
                    random,
                ),
    {
        if self.rdy.load() {
            proof {
                lemma_settle(self.state.regs(), self.state.latch(), self.state.queue());
            }
            self.settle_steps();
            self.consume(bus);
            proof {
                let random = choose|random: u8|
                    {
                        let (r2, l2, q2, n2, pending2, c2) = #[trigger] spec_consume(
                            old(self).settled().0,
                            old(self).settled().1,
                            old(self).settled().2,
                            old(self).state.next_instruction,
                            old(self).nmi_pending(),
                            old(self).irq_line(),
                            old(self).kind(),
                            *old(bus),
                            old(bus).cells(),
                            random,
                        );
                        &&& self.state.regs() == r2
                        &&& self.state.latch() == l2
                        &&& self.state.queue() == q2
                        &&& self.state.next_instruction == n2
                        &&& self.nmi_pending() == pending2
                        &&& bus.cells() == c2
                    };
                assert(Mos6502::cycle_effect(old(self), self, *old(bus), bus.cells(), random));
            }
        }
    }
}

/// Index of the first step of `q` that takes a cycle.
pub open spec fn first_timed(q: Seq<ExecutionStep>) -> int
    decreases q.len(),
{
    if q.len() == 0 || !is_settling(q[0]) {
        0
    } else {
        1 + first_timed(q.drop_first())
    }
}

proof fn lemma_settle_queue(r: CpuRegisters, l: Seq<u8>, q: Seq<ExecutionStep>)
    ensures
        0 <= first_timed(q) <= q.len(),
        settle(r, l, q).2 == q.subrange(first_timed(q), q.len() as int),
        forall|k: int| 0 <= k < first_timed(q) ==> is_settling(#[trigger] q[k]),
    decreases q.len(),
{
    if q.len() > 0 && is_settling(q[0]) {
        let (r2, l2) = settle_one(r, l, q[0]);
        lemma_settle_queue(r2, l2, q.drop_first());
        assert(q.drop_first().subrange(first_timed(q.drop_first()), q.drop_first().len() as int)
            =~= q.subrange(first_timed(q), q.len() as int));
        assert forall|k: int| 0 <= k < first_timed(q) implies is_settling(#[trigger] q[k]) by {
            if k > 0 {
                assert(q[k] == q.drop_first()[k - 1]);
            }
        }
    } else {
        assert(q =~= q.subrange(0, q.len() as int));
    }
}

fn is_implemented(opcode: Opcode) -> (r: bool)
    ensures
        r == super::interpret::implemented(opcode),
{
    match opcode {
        Opcode::Mos6502(o) => match o {
            Mos6502Opcode::Dcp | Mos6502Opcode::Isc | Mos6502Opcode::Las | Mos6502Opcode::Rla
            | Mos6502Opcode::Rra | Mos6502Opcode::Sbx | Mos6502Opcode::Sha | Mos6502Opcode::Shs
            | Mos6502Opcode::Shx | Mos6502Opcode::Shy | Mos6502Opcode::Slo
            | Mos6502Opcode::Sre => false,
            _ => true,
        },
        Opcode::Wdc65C02(o) => match o {
            super::instruction::Wdc65C02Opcode::Bra | super::instruction::Wdc65C02Opcode::Phx
            | super::instruction::Wdc65C02Opcode::Phy => true,
            _ => false,
        },
    }
}

/// Whether an instruction can be executed with the given flags on a chip
/// of kind `kind`.
pub fn is_executable(
    instruction: &Mos6502InstructionSet,
    flags: &super::flags::FlagRegister,
    kind: Mos6502Kind,
) -> (r: bool)
    ensures
        r == executable(*instruction, *flags, kind),
{
    let adds = instruction.opcode == Opcode::Mos6502(Mos6502Opcode::Adc) || instruction.opcode
        == Opcode::Mos6502(Mos6502Opcode::Sbc);
    is_implemented(instruction.opcode) && (!adds || !(flags.decimal && kind.supports_decimal()))
}

impl Mos6502 {
    /// Whether the next cycle is defined (see `cycle_defined`).
    pub fn next_cycle_defined(&self) -> (r: bool)
        requires
            self.wf(),
        ensures
            r == self.cycle_defined(),
    {
        let ghost q = self.state.queue();
        proof {
            lemma_settle(self.state.regs(), self.state.latch(), q);
            lemma_settle_queue(self.state.regs(), self.state.latch(), q);
        }
        let length = self.state.execution_queue.len();
        let mut i: usize = 0;
        while i < length && is_settling_step(&self.state.execution_queue[i])
            invariant
                length == q.len(),
                q == self.state.queue(),
                0 <= i <= length,
                forall|k: int| 0 <= k < i ==> is_settling(#[trigger] q[k]),
                0 <= first_timed(q) <= q.len(),
                forall|k: int| 0 <= k < first_timed(q) ==> is_settling(#[trigger] q[k]),
                first_timed(q) < q.len() ==> !is_settling(q[first_timed(q)]),
                i <= first_timed(q),
            decreases length - i,
        {
            i = i + 1;
        }
        if i < length {
            assert(i == first_timed(q));
            match self.state.execution_queue[i] {
                ExecutionStep::Interpret => match &self.state.next_instruction {
                    Some(instruction) => is_executable(instruction, &self.state.flags, self.config.kind),
                    None => false,
                },
                _ => true,
            }
        } else {
            true
        }
    }
}

/// Whether an opcode reads an operand, as `reads_operand` says.
fn opcode_reads_operand(opcode: Opcode) -> (b: bool)
    ensures
        b == reads_operand(opcode),
{
    match opcode {
        Opcode::Mos6502(o) => matches!(
            o,
            Mos6502Opcode::Adc | Mos6502Opcode::Anc | Mos6502Opcode::And | Mos6502Opcode::Arr
                | Mos6502Opcode::Asl | Mos6502Opcode::Asr | Mos6502Opcode::Bcc | Mos6502Opcode::Bcs
                | Mos6502Opcode::Beq | Mos6502Opcode::Bit | Mos6502Opcode::Bmi | Mos6502Opcode::Bne
                | Mos6502Opcode::Bpl | Mos6502Opcode::Bvc | Mos6502Opcode::Bvs | Mos6502Opcode::Cmp
                | Mos6502Opcode::Cpx | Mos6502Opcode::Cpy | Mos6502Opcode::Dec | Mos6502Opcode::Eor
                | Mos6502Opcode::Inc | Mos6502Opcode::Lax | Mos6502Opcode::Lda | Mos6502Opcode::Ldx
                | Mos6502Opcode::Ldy | Mos6502Opcode::Lsr | Mos6502Opcode::Ora | Mos6502Opcode::Rol
                | Mos6502Opcode::Ror | Mos6502Opcode::Sbc | Mos6502Opcode::Xaa | Mos6502Opcode::Sax
                | Mos6502Opcode::Sta | Mos6502Opcode::Stx | Mos6502Opcode::Sty
        ),
        Opcode::Wdc65C02(o) => matches!(o, Wdc65C02Opcode::Bra),
    }
}

/// Whether an instruction pairs its opcode and addressing mode as the
/// interpreter relies on.
fn is_well_shaped(instruction: &Mos6502InstructionSet) -> (b: bool)
    ensures
        b == well_shaped(*instruction),
{
    let has_mode = instruction.addressing_mode.is_some();
    let jmp_ok = match instruction.opcode {
        Opcode::Mos6502(Mos6502Opcode::Jmp) => matches!(
            instruction.addressing_mode,
            Some(AddressingMode::Mos6502(Mos6502AddressingMode::Absolute))
                | Some(AddressingMode::Mos6502(Mos6502AddressingMode::AbsoluteIndirect))
        ),
        _ => true,
    };
    (!opcode_reads_operand(instruction.opcode) || has_mode) && jmp_ok
}

impl Mos6502 {
    /// Whether the processor can keep running, as `wf` says: for a state
    /// that comes from outside, such as a snapshot, before it is run.
    pub fn is_runnable(&self) -> (b: bool)
        ensures
            b == self.wf(),
    {
        let ghost q = self.state.queue();
        let ghost l0 = self.state.latch().len();
        let n = self.state.execution_queue.len();
        let mut latch = latch_len(&self.state.latch);
        let mut i: usize = 0;
        let mut done = false;
        let mut ok = false;
        proof {
            assert(q.subrange(0, n as int) =~= q);
        }
        while i < n && !done
            invariant
                n == q.len(),
                q == self.state.queue(),
                l0 == self.state.latch().len(),
                i <= n,
                latch <= 2,
                !done ==> queue_ok(l0, q) == queue_ok(latch as nat, q.subrange(i as int, n as int)),
                done ==> ok == queue_ok(l0, q),
            decreases n - i,
        {
            let step = self.state.execution_queue[i];
            let ghost rest = q.subrange(i as int, n as int);
            proof {
                assert(rest[0] == q[i as int]);
                assert(rest.drop_first() =~= q.subrange(i + 1, n as int));
            }
            match step {
                ExecutionStep::Reset | ExecutionStep::FetchAndDecode | ExecutionStep::Interpret => {
                    ok = latch == 0 && n - i == 1;
                    done = true;
                },
                ExecutionStep::Wait => {
                    ok = n - i == 1;
                    done = true;
                },
                ExecutionStep::Jammed => {
                    ok = true;
                    done = true;
                },
                ExecutionStep::LoadData
                | ExecutionStep::LoadDataWithoutAdvancingPage
                | ExecutionStep::LoadDataFromConstant(_) => {
                    if latch >= 2 {
                        ok = false;
                        done = true;
                    } else {
                        latch = latch + 1;
                    }
                },
                ExecutionStep::LatchToAddressBus => {
                    if latch == 0 {
                        ok = false;
                        done = true;
                    } else {
                        latch = 0;
                    }
                },
                ExecutionStep::LatchToProgramPointer => {
                    if latch != 2 {
                        ok = false;
                        done = true;
                    } else {
                        latch = 0;
                    }
                },
                _ => {},
            }
            i = i + 1;
        }
        if !done {
            assert(q.subrange(n as int, n as int).len() == 0);
            ok = false;
        }
        if !ok {
            return false;
        }
        if n > 0 && matches!(self.state.execution_queue[n - 1], ExecutionStep::Interpret) {
            match &self.state.next_instruction {
                Some(instruction) => is_well_shaped(instruction),
                None => false,
            }
        } else {
            true
        }
    }
}

proof fn lemma_jsr_steps(
    r: CpuRegisters,
    jsr: Mos6502InstructionSet,
    bus: AddressSpace,
    cells: Seq<u8>,
    random: u8,
)
    requires
        jsr.opcode == Opcode::Mos6502(Mos6502Opcode::Jsr),
    ensures
        spec_execute(r, jsr, bus, cells, random) == (
            r,
            seq![
                ExecutionStep::PushStack(high_byte(w16(r.program - 1))),
                ExecutionStep::PushStack(low_byte(w16(r.program - 1))),
                ExecutionStep::AddressBusToProgramPointer,
            ],
            cells,
        ),
{
}

proof fn lemma_rts_is_rts_result(
    r: CpuRegisters,
    rts: Mos6502InstructionSet,
    bus: AddressSpace,
    cells: Seq<u8>,
    random: u8,
)
    requires
        rts.opcode == Opcode::Mos6502(Mos6502Opcode::Rts),
    ensures
        spec_execute(r, rts, bus, cells, random) == rts_result(r, bus, cells),
{
}

proof fn lemma_consume_push(
    r: CpuRegisters,
    latch: Seq<u8>,
    q: Seq<ExecutionStep>,
    next: Option<Mos6502InstructionSet>,
    nmi_pending: bool,
    irq_line: bool,
    kind: Mos6502Kind,
    bus: AddressSpace,
    cells: Seq<u8>,
    random: u8,
    data: u8,
)
    requires
        q.len() > 0,
        q[0] == ExecutionStep::PushStack(data),
    ensures
        spec_consume(r, latch, q, next, nmi_pending, irq_line, kind, bus, cells, random) == (
            CpuRegisters { stack: w8(r.stack - 1), ..r },
            latch,
            q.drop_first(),
            next,
            nmi_pending,
            bus.write_in(cells, stack_address(r.stack), data),
        ),
{
}

proof fn lemma_consume_jump(
    r: CpuRegisters,
    latch: Seq<u8>,
    q: Seq<ExecutionStep>,
    next: Option<Mos6502InstructionSet>,
    nmi_pending: bool,
    irq_line: bool,
    kind: Mos6502Kind,
    bus: AddressSpace,
    cells: Seq<u8>,
    random: u8,
)
    requires
        q.len() > 0,
        q[0] == ExecutionStep::AddressBusToProgramPointer,
    ensures
        spec_consume(r, latch, q, next, nmi_pending, irq_line, kind, bus, cells, random) == (
            CpuRegisters { program: r.address_bus, ..r },
            latch,
            q.drop_first(),
            next,
            nmi_pending,
            cells,
        ),
{
}

proof fn lemma_rts_returns(
    later: CpuRegisters,
    rts: Mos6502InstructionSet,
    bus: AddressSpace,
    cells: Seq<u8>,
    random: u8,
    ret: u16,
    stack: u8,
)
    requires
        rts.opcode == Opcode::Mos6502(Mos6502Opcode::Rts),
        later.stack == w8(stack - 2),
        bus.read_or_zero(cells, stack_address(w8(stack - 1))) == low_byte(ret),
        bus.read_or_zero(cells, stack_address(stack)) == high_byte(ret),
    ensures
        spec_execute(later, rts, bus, cells, random).0.program == w16(ret + 1),
        spec_execute(later, rts, bus, cells, random).0.stack == stack,
{
    lemma_rts_is_rts_result(later, rts, bus, cells, random);
    assert(w8(w8(stack - 2) + 1) == w8(stack - 1));
    assert(w8(w8(stack - 1) + 1) == stack);
    assert(le16(low_byte(ret), high_byte(ret)) == ret);
}

/// A subroutine call comes back to the instruction after it. JSR, executed
/// with registers `r` (its program counter already past its three bytes),
/// queues two pushes and a jump; those steps leave the stack pointer two
/// below where it was and jump to the address on the bus. Where the two
/// stack bytes are read-write storage of their own, and RTS later runs with
/// the stack pointer and those two bytes as JSR left them, RTS brings the
/// program counter back to `r.program` and the stack pointer back to
/// `r.stack`.
#[verifier::rlimit(60)]
#[verifier::spinoff_prover]
pub proof fn lemma_jsr_rts_round_trip(
    r: CpuRegisters,
    jsr: Mos6502InstructionSet,
    rts: Mos6502InstructionSet,
    kind: Mos6502Kind,
    bus: AddressSpace,
    cells: Seq<u8>,
    latch: Seq<u8>,
    nmi_pending: bool,
    irq_line: bool,
    random: u8,
    later: CpuRegisters,
    later_cells: Seq<u8>,
)
    requires
        bus.wf(),
        cells.len() == bus.size(),
        0x200 <= bus.size(),
        jsr.opcode == Opcode::Mos6502(Mos6502Opcode::Jsr),
        rts.opcode == Opcode::Mos6502(Mos6502Opcode::Rts),
        bus.is_readable(stack_address(r.stack)),
        bus.is_writable(stack_address(r.stack)),
        bus.is_readable(stack_address(w8(r.stack - 1))),
        bus.is_writable(stack_address(w8(r.stack - 1))),
        bus.cell(stack_address(r.stack)) != bus.cell(stack_address(w8(r.stack - 1))),
    ensures
        ({
            let (r1, steps, c1) = spec_execute(r, jsr, bus, cells, random);
            let (r2, l2, q2, n2, p2, c2) = spec_consume(
                r1,
                latch,
                steps,
                None,
                nmi_pending,
                irq_line,
                kind,
                bus,
                c1,
                random,
            );
            let (r3, l3, q3, n3, p3, c3) = spec_consume(
                r2,
                l2,
                q2,
                n2,
                p2,
                irq_line,
                kind,
                bus,
                c2,
                random,
            );
            let (r4, l4, q4, n4, p4, c4) = spec_consume(
                r3,
                l3,
                q3,
                n3,
                p3,
                irq_line,
                kind,
                bus,
                c3,
                random,
            );
            &&& q4.len() == 0
            &&& r4.program == r.address_bus
            &&& r4.stack == w8(r.stack - 2)
            &&& (later.stack == r4.stack && bus.read_or_zero(
                later_cells,
                stack_address(w8(r.stack - 1)),
            ) == bus.read_or_zero(c4, stack_address(w8(r.stack - 1))) && bus.read_or_zero(
                later_cells,
                stack_address(r.stack),
            ) == bus.read_or_zero(c4, stack_address(r.stack))) ==> {
                let (r5, pushed, c5) = spec_execute(later, rts, bus, later_cells, random);
                &&& r5.program == r.program
                &&& r5.stack == r.stack
            }
        }),
{
    let ret = w16(r.program - 1);
    let hi = high_byte(ret);
    let lo = low_byte(ret);
    let a0 = stack_address(r.stack);
    let a1 = stack_address(w8(r.stack - 1));
    let steps = seq![
        ExecutionStep::PushStack(hi),
        ExecutionStep::PushStack(lo),
        ExecutionStep::AddressBusToProgramPointer,
    ];
    lemma_jsr_steps(r, jsr, bus, cells, random);
    let c2 = bus.write_in(cells, a0, hi);
    let c3 = bus.write_in(c2, a1, lo);
    let r2 = CpuRegisters { stack: w8(r.stack - 1), ..r };
    let r3 = CpuRegisters { stack: w8(r2.stack - 1), ..r2 };
    lemma_consume_push(r, latch, steps, None, nmi_pending, irq_line, kind, bus, cells, random, hi);
    lemma_consume_push(
        r2,
        latch,
        steps.drop_first(),
        None,
        nmi_pending,
        irq_line,
        kind,
        bus,
        c2,
        random,
        lo,
    );
    lemma_consume_jump(
        r3,
        latch,
        steps.drop_first().drop_first(),
        None,
        nmi_pending,
        irq_line,
        kind,
        bus,
        c3,
        random,
    );
    assert(w8(w8(r.stack - 1) - 1) == w8(r.stack - 2));
    lemma_wf(&bus);
    lemma_access(&bus, cells, a0, hi);
    assert(c2.len() == bus.size());
    lemma_access(&bus, c2, a1, lo);
    lemma_access(&bus, c3, a0, lo);
    lemma_access(&bus, c3, a1, lo);
    assert(bus.read_or_zero(c3, a0) == hi);
    assert(bus.read_or_zero(c3, a1) == lo);
    if later.stack == w8(r.stack - 2) && bus.read_or_zero(later_cells, a1) == bus.read_or_zero(
        c3,
        a1,
    ) && bus.read_or_zero(later_cells, a0) == bus.read_or_zero(c3, a0) {
        lemma_rts_returns(later, rts, bus, later_cells, random, ret, r.stack);
    }
}

} // verus!
