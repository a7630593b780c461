//! The first model's clock: each call makes one pass of the processor's
//! loop. A pass fetches, walks one step of an operand load or a store,
//! executes an instruction, resets, or stays jammed.
use std::collections::VecDeque;

use arrayvec::ArrayVec;

use vstd::prelude::*;

use super::decoder::{M6502InstructionDecoder, spec_decode};
use super::instruction::{AddressingMode, M6502InstructionSet};
use super::interpret::{
    STACK_BASE_ADDRESS, byte_in, execute, is_operation_defined, operation_defined, spec_execute,
    stack_slot,
};
use super::{
    ExecutionMode, LoadStep, M6502, M6502Kind, M6502Registers, ModeView, RESET_VECTOR, StateView, StoreStep,
};
use crate::bounded::{latch_clear, latch_contents, latch_get, latch_len, latch_new, latch_push};
use crate::memory::AddressSpace;

verus! {

/// The steps that fetch the operand of an instruction with addressing mode
/// `mode`, with the index registers `x` and `y` as they are at the fetch.
/// Modes whose operand came with the opcode have none.
pub open spec fn load_steps(mode: Option<AddressingMode>, x: u8, y: u8) -> Seq<LoadStep> {
    match mode {
        Some(AddressingMode::Absolute(_)) => seq![
            LoadStep::Data,
            LoadStep::Data,
            LoadStep::LatchToBus,
        ],
        Some(AddressingMode::XIndexedAbsolute(_)) => seq![
            LoadStep::Data,
            LoadStep::Data,
            LoadStep::LatchToBus,
            LoadStep::Offset { offset: x },
        ],
        Some(AddressingMode::YIndexedAbsolute(_)) => seq![
            LoadStep::Data,
            LoadStep::Data,
            LoadStep::LatchToBus,
            LoadStep::Offset { offset: y },
        ],
        Some(AddressingMode::AbsoluteIndirect(_)) => seq![
            LoadStep::Data,
            LoadStep::Data,
            LoadStep::LatchToBus,
            LoadStep::Data,
            LoadStep::Data,
            LoadStep::LatchToBus,
        ],
        Some(AddressingMode::XIndexedZeroPageIndirect(_)) => seq![
            LoadStep::Data,
            LoadStep::LatchToBus,
            LoadStep::Offset { offset: x },
            LoadStep::Data,
            LoadStep::Data,
            LoadStep::LatchToBus,
        ],
        Some(AddressingMode::ZeroPageIndirectYIndexed(_)) => seq![
            LoadStep::Data,
            LoadStep::LatchToBus,
            LoadStep::Data,
            LoadStep::Data,
            LoadStep::LatchToBus,
            LoadStep::Offset { offset: y },
        ],
        Some(AddressingMode::XIndexedZeroPage(_)) => seq![
            LoadStep::Data,
            LoadStep::LatchToBus,
            LoadStep::Offset { offset: x },
        ],
        Some(AddressingMode::YIndexedZeroPage(_)) | Some(AddressingMode::ZeroPageYIndexed(_)) => seq![
            LoadStep::Data,
            LoadStep::LatchToBus,
            LoadStep::Offset { offset: y },
        ],
        Some(AddressingMode::ZeroPage(_)) => seq![LoadStep::Data, LoadStep::LatchToBus],
        _ => Seq::empty(),
    }
}

/// A load queue runs from a latch holding `latch_len` bytes: no byte is
/// fetched into a full latch, and the latch goes to the bus only when it
/// holds something.
pub open spec fn load_queue_ok(latch_len: nat, q: Seq<LoadStep>) -> bool
    decreases q.len(),
{
    if q.len() == 0 {
        true
    } else {
        match q[0] {
            LoadStep::Data => latch_len < 2 && load_queue_ok(latch_len + 1, q.drop_first()),
            LoadStep::LatchToBus => latch_len >= 1 && load_queue_ok(0, q.drop_first()),
            LoadStep::Offset { .. } => load_queue_ok(latch_len, q.drop_first()),
        }
    }
}

/// The address in the latch: one byte, or two in little endian order.
pub open spec fn latch_address(latch: Seq<u8>) -> u16 {
    if latch.len() == 1 {
        latch[0] as u16
    } else {
        (latch[0] + 256 * latch[1]) as u16
    }
}

/// One load step: registers and latch afterwards, and whether it took a cycle.
pub open spec fn load_step(
    r: M6502Registers,
    latch: Seq<u8>,
    step: LoadStep,
    space: AddressSpace,
) -> (M6502Registers, Seq<u8>, bool) {
    match step {
        LoadStep::Data => (
            M6502Registers { address_bus: r.address_bus.wrapping_add(1), ..r },
            latch.push(byte_in(space, space.cells(), r.address_bus as int)),
            true,
        ),
        LoadStep::LatchToBus => (
            M6502Registers { address_bus: latch_address(latch), ..r },
            Seq::empty(),
            false,
        ),
        LoadStep::Offset { offset } => (
            M6502Registers { address_bus: r.address_bus.wrapping_add(offset as u16), ..r },
            latch,
            false,
        ),
    }
}

/// One store step: registers and storage afterwards.
pub open spec fn store_step(r: M6502Registers, step: StoreStep, space: AddressSpace) -> (
    M6502Registers,
    Seq<u8>,
) {
    let cells = space.cells();
    match step {
        StoreStep::BusToProgram => (M6502Registers { program: r.address_bus, ..r }, cells),
        StoreStep::Data { value } => (
            M6502Registers { address_bus: r.address_bus.wrapping_add(1), ..r },
            space.write_in(cells, r.address_bus as int, value),
        ),
        StoreStep::PushStack { data } => {
            let stack = r.stack.wrapping_sub(1);
            (M6502Registers { stack, ..r }, space.write_in(cells, stack_slot(stack), data))
        },
        StoreStep::AddToProgram { value } => (
            M6502Registers { program: r.program.wrapping_add_signed(value as i16), ..r },
            cells,
        ),
    }
}

/// What interpreting an instruction does to the whole state: the registers
/// change as `spec_execute` says, and the processor jams on `JAM`.
pub open spec fn spec_interpret(
    v: StateView,
    instruction: M6502InstructionSet,
    kind: M6502Kind,
    space: AddressSpace,
) -> (
    StateView,
    Seq<u8>,
) {
    let (r2, jammed, cells) = spec_execute(v.regs, instruction, kind, space);
    (
        StateView {
            regs: r2,
            mode: if jammed {
                ModeView::Jammed
            } else {
                v.mode
            },
        },
        cells,
    )
}

/// One pass of the processor's loop with RDY high: state and storage
/// afterwards, and whether the pass took a cycle. A fetch decodes the
/// instruction at the program counter, points the address bus at its
/// operand (the byte after the opcode), moves the program counter past the
/// whole instruction and queues the steps that load the operand; an
/// instruction without such steps goes straight to execution.
pub open spec fn spec_step(v: StateView, kind: M6502Kind, space: AddressSpace) -> (StateView, Seq<u8>, bool) {
    let r = v.regs;
    let cells = space.cells();
    match v.mode {
        ModeView::Reset => {
            let program = byte_in(space, cells, RESET_VECTOR as int) + 256 * byte_in(
                space,
                cells,
                RESET_VECTOR as int + 1,
            );
            (
                StateView {
                    regs: M6502Registers { program: program as u16, ..r },
                    mode: ModeView::Fetch,
                },
                cells,
                true,
            )
        },
        ModeView::Jammed => (v, cells, true),
        ModeView::Fetch => {
            let (instruction, length) = spec_decode(r.program, space);
            let steps = load_steps(instruction.addressing_mode, r.x, r.y);
            (
                StateView {
                    regs: M6502Registers {
                        address_bus: r.program.wrapping_add(1),
                        program: r.program.wrapping_add(length as u16),
                        ..r
                    },
                    mode: if steps.len() > 0 {
                        ModeView::Load { instruction, latch: Seq::empty(), queue: steps }
                    } else {
                        ModeView::Execute { instruction }
                    },
                },
                cells,
                true,
            )
        },
        ModeView::Load { instruction, latch, queue } => {
            let (r2, latch2, took) = load_step(r, latch, queue[0], space);
            let rest = queue.drop_first();
            (
                StateView {
                    regs: r2,
                    mode: if rest.len() == 0 {
                        ModeView::Execute { instruction }
                    } else {
                        ModeView::Load { instruction, latch: latch2, queue: rest }
                    },
                },
                cells,
                took,
            )
        },
        ModeView::Store { queue } => {
            let (r2, cells2) = store_step(r, queue[0], space);
            let rest = queue.drop_first();
            (
                StateView {
                    regs: r2,
                    mode: if rest.len() == 0 {
                        ModeView::Fetch
                    } else {
                        ModeView::Store { queue: rest }
                    },
                },
                cells2,
                true,
            )
        },
        ModeView::Execute { instruction } => {
            let (v2, cells2) = spec_interpret(
                StateView { regs: r, mode: ModeView::Fetch },
                instruction,
                kind,
                space,
            );
            (v2, cells2, true)
        },
        ModeView::Vacant => (v, cells, false),
    }
}

fn read(space: &AddressSpace, address: usize) -> (r: u8)
    requires
        space.wf(),
    ensures
        r == byte_in(*space, space.cells(), address as int),
{
    space.read_or_zero_byte(address)
}

fn load_steps_exec(mode: Option<AddressingMode>, x: u8, y: u8) -> (q: VecDeque<LoadStep>)
    ensures
        q@ == load_steps(mode, x, y),
{
    let mut q: VecDeque<LoadStep> = VecDeque::new();
    match mode {
        Some(AddressingMode::Absolute(_)) => {
            q.push_back(LoadStep::Data);
            q.push_back(LoadStep::Data);
            q.push_back(LoadStep::LatchToBus);
        },
        Some(AddressingMode::XIndexedAbsolute(_)) => {
            q.push_back(LoadStep::Data);
            q.push_back(LoadStep::Data);
            q.push_back(LoadStep::LatchToBus);
            q.push_back(LoadStep::Offset { offset: x });
        },
        Some(AddressingMode::YIndexedAbsolute(_)) => {
            q.push_back(LoadStep::Data);
            q.push_back(LoadStep::Data);
            q.push_back(LoadStep::LatchToBus);
            q.push_back(LoadStep::Offset { offset: y });
        },
        Some(AddressingMode::AbsoluteIndirect(_)) => {
            q.push_back(LoadStep::Data);
            q.push_back(LoadStep::Data);
            q.push_back(LoadStep::LatchToBus);
            q.push_back(LoadStep::Data);
            q.push_back(LoadStep::Data);
            q.push_back(LoadStep::LatchToBus);
        },
        Some(AddressingMode::XIndexedZeroPageIndirect(_)) => {
            q.push_back(LoadStep::Data);
            q.push_back(LoadStep::LatchToBus);
            q.push_back(LoadStep::Offset { offset: x });
            q.push_back(LoadStep::Data);
            q.push_back(LoadStep::Data);
            q.push_back(LoadStep::LatchToBus);
        },
        Some(AddressingMode::ZeroPageIndirectYIndexed(_)) => {
            q.push_back(LoadStep::Data);
            q.push_back(LoadStep::LatchToBus);
            q.push_back(LoadStep::Data);
            q.push_back(LoadStep::Data);
            q.push_back(LoadStep::LatchToBus);
            q.push_back(LoadStep::Offset { offset: y });
        },
        Some(AddressingMode::XIndexedZeroPage(_)) => {
            q.push_back(LoadStep::Data);
            q.push_back(LoadStep::LatchToBus);
            q.push_back(LoadStep::Offset { offset: x });
        },
        Some(AddressingMode::YIndexedZeroPage(_)) | Some(AddressingMode::ZeroPageYIndexed(_)) => {
            q.push_back(LoadStep::Data);
            q.push_back(LoadStep::LatchToBus);
            q.push_back(LoadStep::Offset { offset: y });
        },
        Some(AddressingMode::ZeroPage(_)) => {
            q.push_back(LoadStep::Data);
            q.push_back(LoadStep::LatchToBus);
        },
        _ => {},
    }
    q
}

/// Every queue a fetch starts from an empty latch runs.
proof fn lemma_load_steps_ok(mode: Option<AddressingMode>, x: u8, y: u8)
    ensures
        load_queue_ok(0, load_steps(mode, x, y)),
{
    reveal_with_fuel(load_queue_ok, 7);
    let q = load_steps(mode, x, y);
    assert(q.len() > 0 ==> q.drop_first().len() + 1 == q.len());
    if q.len() > 0 {
        let q1 = q.drop_first();
        if q1.len() > 0 {
            let q2 = q1.drop_first();
            if q2.len() > 0 {
                let q3 = q2.drop_first();
                if q3.len() > 0 {
                    let q4 = q3.drop_first();
                    if q4.len() > 0 {
                        let q5 = q4.drop_first();
                        assert(q5.len() > 0 ==> q5.drop_first().len() == 0);
                    }
                }
            }
        }
    }
}

impl M6502 {
    /// The processor can run: it has a mode, and a load or store under way
    /// has steps left, a load's steps fitting the latch.
    pub open spec fn wf(&self) -> bool {
        match self.state.mode_view() {
            ModeView::Vacant => false,
            ModeView::Load { latch, queue, .. } => queue.len() > 0 && load_queue_ok(
                latch.len(),
                queue,
            ),
            ModeView::Store { queue } => queue.len() > 0,
            _ => true,
        }
    }

    /// The next pass is defined: if it executes an instruction, that
    /// instruction is one the interpreter has.
    pub open spec fn cycle_defined(&self) -> bool {
        self.state.mode_view() matches ModeView::Execute { instruction } ==> operation_defined(
            instruction,
        )
    }

    /// Whether the next pass is defined.
    pub fn next_cycle_defined(&self) -> (b: bool)
        ensures
            b == self.cycle_defined(),
    {
        match &self.state.execution_mode {
            Some(ExecutionMode::Execute { instruction }) => is_operation_defined(*instruction),
            _ => true,
        }
    }

    /// Interprets `instruction`: the registers change as the instruction
    /// says, the processor jams on `JAM`, and memory takes the writes.
    pub fn interpret_instruction(&mut self, space: &mut AddressSpace, instruction: M6502InstructionSet)
        requires
            old(space).wf(),
            operation_defined(instruction),
        ensures
            final(space).wf(),
            old(space).same_mapping(final(space)),
            final(self).state_view() == spec_interpret(old(self).state_view(), instruction, old(self).config.kind, *old(space)).0,
            final(space).cells() == spec_interpret(
                old(self).state_view(),
                instruction,
                old(self).config.kind,
                *old(space),
            ).1,
            final(self).config == old(self).config,
            final(self).rdy == old(self).rdy,
    {
        let r = self.state.get_regs();
        let (r2, jammed) = execute(r, instruction, self.config.kind, space);
        self.state.set_regs(r2);
        if jammed {
            self.state.execution_mode = Some(ExecutionMode::Jammed);
        }
    }

    #[verifier::spinoff_prover]
    #[verifier::rlimit(40)]
    fn fetch_pass(&mut self, space: &AddressSpace)
        requires
            old(self).state.execution_mode is None,
            space.wf(),
        ensures
            final(self).wf(),
            final(self).config == old(self).config,
            final(self).rdy == old(self).rdy,
            final(self).state_view() == spec_step(
                StateView { regs: old(self).state.regs(), mode: ModeView::Fetch },
                old(self).config.kind,
                *space,
            ).0,
    {
        let decoder = M6502InstructionDecoder;
        let decoded = decoder.decode(self.state.program as usize, space);
        let (instruction, length) = decoded.unwrap();
        let queue = load_steps_exec(instruction.addressing_mode, self.state.x, self.state.y);
        proof {
            lemma_load_steps_ok(instruction.addressing_mode, self.state.x, self.state.y);
        }
        self.state.address_bus = self.state.program.wrapping_add(1);
        self.state.program = self.state.program.wrapping_add(length as u16);
        if queue.len() > 0 {
            self.state.execution_mode = Some(
                ExecutionMode::Load { instruction, latch: latch_new(), queue },
            );
        } else {
            self.state.execution_mode = Some(ExecutionMode::Execute { instruction });
        }
    }

    fn load_pass(
        &mut self,
        instruction: M6502InstructionSet,
        latch: ArrayVec<u8, 2>,
        queue: VecDeque<LoadStep>,
        space: &AddressSpace,
    ) -> (took: bool)
        requires
            old(self).state.execution_mode is None,
            space.wf(),
            queue@.len() > 0,
            load_queue_ok(latch_contents(latch).len(), queue@),
        ensures
            final(self).wf(),
            final(self).config == old(self).config,
            final(self).rdy == old(self).rdy,
            ({
                let v = StateView {
                    regs: old(self).state.regs(),
                    mode: ModeView::Load { instruction, latch: latch_contents(latch), queue: queue@ },
                };
                &&& final(self).state_view() == spec_step(v, old(self).config.kind, *space).0
                &&& took == spec_step(v, old(self).config.kind, *space).2
            }),
    {
        let mut latch = latch;
        let mut queue = queue;
        let ghost q0 = queue@;
        let step = queue.pop_front();
        proof {
            assert(queue@ =~= q0.drop_first());
        }
        let took = match step {
            Some(LoadStep::Data) => {
                let byte = read(space, self.state.address_bus as usize);
                latch_push(&mut latch, byte);
                self.state.address_bus = self.state.address_bus.wrapping_add(1);
                true
            },
            Some(LoadStep::LatchToBus) => {
                let n = latch_len(&latch);
                if n == 1 {
                    self.state.address_bus = latch_get(&latch, 0) as u16;
                } else {
                    let low = latch_get(&latch, 0);
                    let high = latch_get(&latch, 1);
                    self.state.address_bus = low as u16 + 256 * high as u16;
                }
                latch_clear(&mut latch);
                false
            },
            Some(LoadStep::Offset { offset }) => {
                self.state.address_bus = self.state.address_bus.wrapping_add(offset as u16);
                false
            },
            None => false,
        };
        if queue.len() == 0 {
            self.state.execution_mode = Some(ExecutionMode::Execute { instruction });
        } else {
            self.state.execution_mode = Some(ExecutionMode::Load { instruction, latch, queue });
        }
        took
    }

    fn store_pass(&mut self, queue: VecDeque<StoreStep>, space: &mut AddressSpace)
        requires
            old(self).state.execution_mode is None,
            old(space).wf(),
            queue@.len() > 0,
        ensures
            final(self).wf(),
            final(space).wf(),
            old(space).same_mapping(final(space)),
            final(self).config == old(self).config,
            final(self).rdy == old(self).rdy,
            ({
                let v = StateView { regs: old(self).state.regs(), mode: ModeView::Store { queue: queue@ } };
                &&& final(self).state_view() == spec_step(v, old(self).config.kind, *old(space)).0
                &&& final(space).cells() == spec_step(v, old(self).config.kind, *old(space)).1
            }),
    {
        let mut queue = queue;
        let ghost q0 = queue@;
        let step = queue.pop_front();
        proof {
            assert(queue@ =~= q0.drop_first());
        }
        match step {
            Some(StoreStep::BusToProgram) => {
                self.state.program = self.state.address_bus;
            },
            Some(StoreStep::Data { value }) => {
                let _ = space.write_byte(self.state.address_bus as usize, value);
                self.state.address_bus = self.state.address_bus.wrapping_add(1);
            },
            Some(StoreStep::PushStack { data }) => {
                self.state.stack = self.state.stack.wrapping_sub(1);
                let _ = space.write_byte(STACK_BASE_ADDRESS + self.state.stack as usize, data);
            },
            Some(StoreStep::AddToProgram { value }) => {
                self.state.program = self.state.program.wrapping_add_signed(value as i16);
            },
            None => {},
        }
        if queue.len() == 0 {
            self.state.execution_mode = Some(ExecutionMode::Fetch);
        } else {
            self.state.execution_mode = Some(ExecutionMode::Store { queue });
        }
    }

    /// One pass of the processor's loop. With RDY low the pass only takes
    /// its cycle; otherwise the processor moves as `spec_step` says. Gives
    /// whether the pass took a cycle.
    #[verifier::spinoff_prover]
    pub fn cycle(&mut self, space: &mut AddressSpace) -> (took: bool)
        requires
            old(self).wf(),
            old(space).wf(),
            old(self).cycle_defined(),
        ensures
            final(self).wf(),
            final(space).wf(),
            old(space).same_mapping(final(space)),
            final(self).config == old(self).config,
            final(self).rdy == old(self).rdy,
            old(self).rdy_view() ==> {
                let (v2, cells2, took2) = spec_step(
                    old(self).state_view(),
                    old(self).config.kind,
                    *old(space),
                );
                &&& final(self).state_view() == v2
                &&& final(space).cells() == cells2
                &&& took == took2
            },
            !old(self).rdy_view() ==> final(self).state_view() == old(self).state_view()
                && final(space).cells() == old(space).cells() && took,
    {
        if !self.rdy {
            return true;
        }
        let ghost v0 = self.state_view();
        let mode = self.state.execution_mode.take();
        match mode {
            Some(ExecutionMode::Reset) => {
                let low = read(space, RESET_VECTOR);
                let high = read(space, RESET_VECTOR + 1);
                self.state.program = low as u16 + 256 * high as u16;
                self.state.execution_mode = Some(ExecutionMode::Fetch);
                true
            },
            Some(ExecutionMode::Jammed) => {
                self.state.execution_mode = Some(ExecutionMode::Jammed);
                true
            },
            Some(ExecutionMode::Fetch) => {
                self.fetch_pass(space);
                true
            },
            Some(ExecutionMode::Load { instruction, latch, queue }) => self.load_pass(
                instruction,
                latch,
                queue,
                space,
            ),
            Some(ExecutionMode::Store { queue }) => {
                self.store_pass(queue, space);
                true
            },
            Some(ExecutionMode::Execute { instruction }) => {
                self.state.execution_mode = Some(ExecutionMode::Fetch);
                self.interpret_instruction(space, instruction);
                true
            },
            None => false,
        }
    }
}

/// Whether a load queue runs from a latch holding `latch` bytes.
fn load_queue_runs(latch: usize, queue: &VecDeque<LoadStep>) -> (b: bool)
    requires
        latch <= 2,
    ensures
        b == load_queue_ok(latch as nat, queue@),
{
    let ghost q = queue@;
    let n = queue.len();
    let mut held = latch;
    let mut i: usize = 0;
    let mut ok = true;
    proof {
        assert(q.subrange(0, n as int) =~= q);
    }
    while i < n && ok
        invariant
            n == q.len(),
            q == queue@,
            i <= n,
            held <= 2,
            ok ==> load_queue_ok(latch as nat, q) == load_queue_ok(
                held as nat,
                q.subrange(i as int, n as int),
            ),
            !ok ==> !load_queue_ok(latch as nat, q),
        decreases n - i,
    {
        let ghost rest = q.subrange(i as int, n as int);
        proof {
            assert(rest[0] == q[i as int]);
            assert(rest.drop_first() =~= q.subrange(i + 1, n as int));
        }
        match queue[i] {
            LoadStep::Data => {
                if held >= 2 {
                    ok = false;
                } else {
                    held = held + 1;
                }
            },
            LoadStep::LatchToBus => {
                if held == 0 {
                    ok = false;
                } else {
                    held = 0;
                }
            },
            LoadStep::Offset { .. } => {},
        }
        i = i + 1;
    }
    ok
}

impl M6502 {
    /// Whether the processor can run, as `wf` says: for a state set from
    /// outside before it is run.
    pub fn is_runnable(&self) -> (b: bool)
        ensures
            b == self.wf(),
    {
        match &self.state.execution_mode {
            None => false,
            Some(ExecutionMode::Load { latch, queue, .. }) => queue.len() > 0 && load_queue_runs(
                latch_len(latch),
                queue,
            ),
            Some(ExecutionMode::Store { queue }) => queue.len() > 0,
            _ => true,
        }
    }
}

/// A jammed processor stays jammed: a pass leaves its state and memory as
/// they were. Only a reset, which puts it in the reset mode, brings it back.
pub proof fn lemma_jammed_stays_jammed(v: StateView, kind: M6502Kind, space: AddressSpace)
    requires
        v.mode is Jammed,
    ensures
        spec_step(v, kind, space) == (v, space.cells(), true),
{
}

/// A reset loads the program counter from the reset vector, low byte
/// first, leaves the other registers alone, and goes on to fetch.
pub proof fn lemma_reset_loads_vector(v: StateView, kind: M6502Kind, space: AddressSpace)
    requires
        v.mode is Reset,
    ensures
        spec_step(v, kind, space).0.regs == (M6502Registers {
            program: (byte_in(space, space.cells(), RESET_VECTOR as int) + 256 * byte_in(
                space,
                space.cells(),
                RESET_VECTOR as int + 1,
            )) as u16,
            ..v.regs
        }),
        spec_step(v, kind, space).0.mode is Fetch,
        spec_step(v, kind, space).1 == space.cells(),
{
}

} // verus!
