//! What each 6502 instruction does once its operand address is on the bus.
use vstd::prelude::*;

use super::Mos6502Kind;
use super::flags::FlagRegister;
use super::instruction::{
    AddressingMode, Mos6502AddressingMode, Mos6502InstructionSet, Mos6502Opcode, Opcode,
    Wdc65C02Opcode,
};
use super::processor::{
    CpuRegisters, ExecutionStep, ProcessorState, STACK_BASE_ADDRESS, high_byte, le16, low_byte,
    u16_from_le_bytes, u16_to_le_bytes,
};
use crate::memory::AddressSpace;
use crate::memory::address_space::{lemma_access, lemma_same_mapping, lemma_wf};

verus! {

/// Where BRK fetches its handler address.
pub const INTERRUPT_VECTOR: usize = 0xfffe;

pub open spec fn w8(i: int) -> u8 {
    (i % 256) as u8
}

pub open spec fn w16(i: int) -> u16 {
    (i % 65536) as u16
}

pub open spec fn bit7(v: u8) -> bool {
    v >= 128
}

/// Flags after a result `v` that sets only negative and zero.
pub open spec fn nz(flags: FlagRegister, v: u8) -> FlagRegister {
    FlagRegister { negative: bit7(v), zero: v == 0, ..flags }
}

pub open spec fn accumulator() -> Option<AddressingMode> {
    Some(AddressingMode::Mos6502(Mos6502AddressingMode::Accumulator))
}

/// The operand an instruction reads: the accumulator in accumulator mode,
/// otherwise the byte at the address bus (0 where nothing is readable).
pub open spec fn operand(
    r: CpuRegisters,
    mode: Option<AddressingMode>,
    bus: AddressSpace,
    cells: Seq<u8>,
) -> u8 {
    if mode == accumulator() {
        r.a
    } else {
        bus.read_or_zero(cells, r.address_bus as int)
    }
}

/// Binary add with carry: the accumulator becomes `a + value + carry`
/// modulo 256, carry is the ninth bit of the sum and overflow is set when
/// both addends share a sign the result does not.
pub open spec fn adc_result(r: CpuRegisters, value: u8) -> CpuRegisters {
    let sum = r.a as int + value as int + if r.flags.carry {
        1int
    } else {
        0int
    };
    let result = w8(sum);
    CpuRegisters {
        a: result,
        flags: FlagRegister {
            overflow: bit7(r.a) == bit7(value) && bit7(r.a) != bit7(result),
            carry: sum > 255,
            negative: bit7(result),
            zero: result == 0,
            ..r.flags
        },
        ..r
    }
}

/// Opcodes whose behaviour is written; the others stop the emulator.
pub open spec fn implemented(opcode: Opcode) -> bool {
    match opcode {
        Opcode::Mos6502(o) => !(o is Dcp || o is Isc || o is Las || o is Rla || o is Rra || o is Sbx
            || o is Sha || o is Shs || o is Shx || o is Shy || o is Slo || o is Sre),
        Opcode::Wdc65C02(o) => o is Bra || o is Phx || o is Phy,
    }
}

/// Opcodes that read an operand and so need an addressing mode.
pub open spec fn reads_operand(opcode: Opcode) -> bool {
    match opcode {
        Opcode::Mos6502(o) => o is Adc || o is Anc || o is And || o is Arr || o is Asl || o is Asr
            || o is Bcc || o is Bcs || o is Beq || o is Bit || o is Bmi || o is Bne || o is Bpl
            || o is Bvc || o is Bvs || o is Cmp || o is Cpx || o is Cpy || o is Dec || o is Eor
            || o is Inc || o is Lax || o is Lda || o is Ldx || o is Ldy || o is Lsr || o is Ora
            || o is Rol || o is Ror || o is Sbc || o is Xaa || o is Sax || o is Sta || o is Stx
            || o is Sty,
        Opcode::Wdc65C02(o) => o is Bra,
    }
}

/// The pairing of opcode and addressing mode the interpreter relies on.
pub open spec fn well_shaped(instruction: Mos6502InstructionSet) -> bool {
    &&& reads_operand(instruction.opcode) ==> instruction.addressing_mode is Some
    &&& instruction.opcode == Opcode::Mos6502(Mos6502Opcode::Jmp) ==> (instruction.addressing_mode
        == Some(AddressingMode::Mos6502(Mos6502AddressingMode::Absolute))
        || instruction.addressing_mode == Some(
        AddressingMode::Mos6502(Mos6502AddressingMode::AbsoluteIndirect),
    ))
}

/// Whether executing `instruction` is defined: its opcode is written and it
/// is not a decimal mode addition or subtraction on a chip with decimal mode.
pub open spec fn executable(
    instruction: Mos6502InstructionSet,
    flags: FlagRegister,
    kind: Mos6502Kind,
) -> bool {
    &&& implemented(instruction.opcode)
    &&& (instruction.opcode == Opcode::Mos6502(Mos6502Opcode::Adc) || instruction.opcode
        == Opcode::Mos6502(Mos6502Opcode::Sbc)) ==> !(flags.decimal && kind.spec_supports_decimal())
}

/// Result of a read-modify-write: into the accumulator in accumulator
/// mode, otherwise queued as a store to the address bus.
pub open spec fn modify_result(
    r: CpuRegisters,
    mode: Option<AddressingMode>,
    value: u8,
    flags: FlagRegister,
    cells: Seq<u8>,
) -> (CpuRegisters, Seq<ExecutionStep>, Seq<u8>) {
    if mode == accumulator() {
        (CpuRegisters { a: value, flags, ..r }, Seq::empty(), cells)
    } else {
        (CpuRegisters { flags, ..r }, seq![ExecutionStep::StoreData(value)], cells)
    }
}

pub open spec fn branch(r: CpuRegisters, taken: bool, value: u8, cells: Seq<u8>) -> (
    CpuRegisters,
    Seq<ExecutionStep>,
    Seq<u8>,
) {
    if taken {
        (r, seq![ExecutionStep::ModifyProgramPointer(value as i8)], cells)
    } else {
        (r, Seq::empty(), cells)
    }
}

pub open spec fn compare(r: CpuRegisters, register: u8, value: u8, cells: Seq<u8>) -> (
    CpuRegisters,
    Seq<ExecutionStep>,
    Seq<u8>,
) {
    let result = w8(register - value);
    (
        CpuRegisters {
            flags: FlagRegister { carry: register >= value, ..nz(r.flags, result) },
            ..r
        },
        Seq::empty(),
        cells,
    )
}

/// Store of `value`: into the accumulator in accumulator mode, otherwise
/// written at the address bus.
pub open spec fn store_result(
    r: CpuRegisters,
    mode: Option<AddressingMode>,
    value: u8,
    bus: AddressSpace,
    cells: Seq<u8>,
) -> (CpuRegisters, Seq<ExecutionStep>, Seq<u8>) {
    if mode == accumulator() {
        (CpuRegisters { a: value, ..r }, Seq::empty(), cells)
    } else {
        (r, Seq::empty(), bus.write_in(cells, r.address_bus as int, value))
    }
}

pub open spec fn stack_address(stack: u8) -> int {
    STACK_BASE_ADDRESS as int + stack as int
}

/// BRK: pushes the program pointer plus two and the flags (with break set),
/// disables interrupts and jumps through the interrupt vector.
pub open spec fn brk_result(r: CpuRegisters, bus: AddressSpace, cells: Seq<u8>) -> (
    CpuRegisters,
    Seq<ExecutionStep>,
    Seq<u8>,
) {
    let new_stack = w8(r.stack - 2);
    let return_address = w16(r.program + 2);
    let c1 = bus.write_in(cells, stack_address(new_stack), low_byte(return_address));
    let c2 = bus.write_in(c1, stack_address(w8(new_stack + 1)), high_byte(return_address));
    let pushed = FlagRegister { undocumented: true, break_: true, ..r.flags };
    let final_stack = w8(new_stack - 1);
    let c3 = bus.write_in(c2, stack_address(final_stack), pushed.spec_to_byte());
    let program = le16(
        bus.read_or_zero(c3, INTERRUPT_VECTOR as int),
        bus.read_or_zero(c3, INTERRUPT_VECTOR as int + 1),
    );
    (
        CpuRegisters {
            flags: FlagRegister { interrupt_disable: true, ..r.flags },
            program,
            stack: final_stack,
            ..r
        },
        Seq::empty(),
        c3,
    )
}

/// RTI: pulls the flags and then the program pointer.
pub open spec fn rti_result(r: CpuRegisters, bus: AddressSpace, cells: Seq<u8>) -> (
    CpuRegisters,
    Seq<ExecutionStep>,
    Seq<u8>,
) {
    let s1 = w8(r.stack + 1);
    let s2 = w8(s1 + 1);
    let s3 = w8(s2 + 1);
    (
        CpuRegisters {
            flags: FlagRegister::spec_from_byte(bus.read_or_zero(cells, stack_address(s1))),
            stack: s3,
            program: le16(
                bus.read_or_zero(cells, stack_address(s2)),
                bus.read_or_zero(cells, stack_address(s3)),
            ),
            ..r
        },
        Seq::empty(),
        cells,
    )
}

/// RTS: pulls the program pointer and steps past the JSR operand.
pub open spec fn rts_result(r: CpuRegisters, bus: AddressSpace, cells: Seq<u8>) -> (
    CpuRegisters,
    Seq<ExecutionStep>,
    Seq<u8>,
) {
    let s1 = w8(r.stack + 1);
    let s2 = w8(s1 + 1);
    (
        CpuRegisters {
            stack: s2,
            program: w16(
                le16(
                    bus.read_or_zero(cells, stack_address(s1)),
                    bus.read_or_zero(cells, stack_address(s2)),
                ) + 1,
            ),
            ..r
        },
        Seq::empty(),
        cells,
    )
}

/// Effect of the opcodes of one class (see `spec_execute`).
pub open spec fn spec_execute_registers_from_operand(
    r: CpuRegisters,
    o: Mos6502Opcode,
    mode: Option<AddressingMode>,
    bus: AddressSpace,
    cells: Seq<u8>,
    random: u8,
) -> (CpuRegisters, Seq<ExecutionStep>, Seq<u8>) {
    let v = operand(r, mode, bus, cells);
    let none = Seq::<ExecutionStep>::empty();
    match o {
        Mos6502Opcode::Adc => (adc_result(r, v), none, cells),
        Mos6502Opcode::Sbc => (adc_result(r, !v), none, cells),
        Mos6502Opcode::Anc => {
            let result = r.a & v;
            (
                CpuRegisters {
                    a: result,
                    flags: FlagRegister { carry: bit7(result), ..nz(r.flags, result) },
                    ..r
                },
                none,
                cells,
            )
        },
        Mos6502Opcode::And => {
            let result = r.a & v;
            (CpuRegisters { a: result, flags: nz(r.flags, result), ..r }, none, cells)
        },
        Mos6502Opcode::Ora => {
            let result = r.a | v;
            (CpuRegisters { a: result, flags: nz(r.flags, result), ..r }, none, cells)
        },
        Mos6502Opcode::Eor => {
            let result = r.a ^ v;
            (CpuRegisters { a: result, flags: nz(r.flags, result), ..r }, none, cells)
        },
        Mos6502Opcode::Arr => {
            let anded = r.a & v;
            let result = ((anded >> 1u8) | if r.flags.carry {
                0x80u8
            } else {
                0u8
            }) as u8;
            (
                CpuRegisters {
                    a: result,
                    flags: FlagRegister {
                        carry: bit7(anded),
                        overflow: (result & 2 == 2) != (result & 1 == 1),
                        negative: result & 1 == 1,
                        zero: result == 0,
                        ..r.flags
                    },
                    ..r
                },
                none,
                cells,
            )
        },
        Mos6502Opcode::Bit => (
            CpuRegisters {
                flags: FlagRegister {
                    negative: bit7(v),
                    overflow: v & 0x40 == 0x40,
                    zero: r.a & v == 0,
                    ..r.flags
                },
                ..r
            },
            none,
            cells,
        ),
        Mos6502Opcode::Cmp => compare(r, r.a, v, cells),
        Mos6502Opcode::Cpx => compare(r, r.x, v, cells),
        Mos6502Opcode::Cpy => compare(r, r.y, v, cells),
        Mos6502Opcode::Lax => (CpuRegisters { a: v, x: v, ..r }, none, cells),
        Mos6502Opcode::Lda => (CpuRegisters { a: v, flags: nz(r.flags, v), ..r }, none, cells),
        Mos6502Opcode::Ldx => (CpuRegisters { x: v, flags: nz(r.flags, v), ..r }, none, cells),
        Mos6502Opcode::Ldy => (CpuRegisters { y: v, flags: nz(r.flags, v), ..r }, none, cells),
        Mos6502Opcode::Nop => (r, none, cells),
        Mos6502Opcode::Xaa => {
            let result = r.a & random & r.x & v;
            (
                CpuRegisters {
                    a: result,
                    flags: FlagRegister { negative: bit7(result), zero: v == 0, ..r.flags },
                    ..r
                },
                none,
                cells,
            )
        },

        _ => (r, none, cells),
    }
}

pub open spec fn is_registers_from_operand(o: Mos6502Opcode) -> bool {
    o is Adc || o is Sbc || o is Anc || o is And || o is Ora || o is Eor || o is Arr || o is Bit || o is Cmp || o is Cpx || o is Cpy || o is Lax || o is Lda || o is Ldx || o is Ldy || o is Nop || o is Xaa
}

/// Effect of the opcodes of one class (see `spec_execute`).
pub open spec fn spec_execute_read_modify_write(
    r: CpuRegisters,
    o: Mos6502Opcode,
    mode: Option<AddressingMode>,
    bus: AddressSpace,
    cells: Seq<u8>,
    random: u8,
) -> (CpuRegisters, Seq<ExecutionStep>, Seq<u8>) {
    let v = operand(r, mode, bus, cells);
    let none = Seq::<ExecutionStep>::empty();
    match o {
        Mos6502Opcode::Asl => {
            let result = w8(2 * v);
            modify_result(
                r,
                mode,
                result,
                FlagRegister {
                    carry: bit7(v),
                    negative: v & 0x40 == 0x40,
                    zero: result == 0,
                    ..r.flags
                },
                cells,
            )
        },
        Mos6502Opcode::Asr => {
            let result = (r.a & v) >> 1u8;
            (
                CpuRegisters {
                    a: result,
                    flags: FlagRegister {
                        carry: bit7(v),
                        negative: false,
                        zero: result == 0,
                        ..r.flags
                    },
                    ..r
                },
                none,
                cells,
            )
        },
        Mos6502Opcode::Lsr => {
            let result = v / 2;
            modify_result(
                r,
                mode,
                result,
                FlagRegister {
                    negative: false,
                    carry: v % 2 == 1,
                    zero: result == 0,
                    ..r.flags
                },
                cells,
            )
        },
        Mos6502Opcode::Rol => {
            let result = w8(2 * v + if r.flags.carry {
                1int
            } else {
                0int
            });
            modify_result(
                r,
                mode,
                result,
                FlagRegister {
                    carry: bit7(v),
                    negative: v & 0x40 == 0x40,
                    zero: result == 0,
                    ..r.flags
                },
                cells,
            )
        },
        Mos6502Opcode::Ror => {
            let result = (v / 2 + if r.flags.carry {
                128int
            } else {
                0int
            }) as u8;
            modify_result(
                r,
                mode,
                result,
                FlagRegister {
                    carry: v % 2 == 1,
                    negative: r.flags.carry,
                    zero: result == 0,
                    ..r.flags
                },
                cells,
            )
        },
        Mos6502Opcode::Dec => {
            let result = w8(v - 1);
            (
                CpuRegisters { flags: nz(r.flags, result), ..r },
                seq![ExecutionStep::StoreData(result)],
                cells,
            )
        },
        Mos6502Opcode::Inc => {
            let result = w8(v + 1);
            (
                CpuRegisters { flags: nz(r.flags, result), ..r },
                seq![ExecutionStep::StoreData(result)],
                cells,
            )
        },
        _ => (r, none, cells),
    }
}

pub open spec fn is_read_modify_write(o: Mos6502Opcode) -> bool {
    o is Asl || o is Lsr || o is Rol || o is Ror || o is Asr || o is Dec || o is Inc
}

/// Effect of the opcodes of one class (see `spec_execute`).
pub open spec fn spec_execute_queued(
    r: CpuRegisters,
    o: Mos6502Opcode,
    mode: Option<AddressingMode>,
    bus: AddressSpace,
    cells: Seq<u8>,
    random: u8,
) -> (CpuRegisters, Seq<ExecutionStep>, Seq<u8>) {
    let v = operand(r, mode, bus, cells);
    let none = Seq::<ExecutionStep>::empty();
    match o {
        Mos6502Opcode::Bcc => branch(r, !r.flags.carry, v, cells),
        Mos6502Opcode::Bcs => branch(r, r.flags.carry, v, cells),
        Mos6502Opcode::Beq => branch(r, r.flags.zero, v, cells),
        Mos6502Opcode::Bne => branch(r, !r.flags.zero, v, cells),
        Mos6502Opcode::Bmi => branch(r, r.flags.negative, v, cells),
        Mos6502Opcode::Bpl => branch(r, !r.flags.negative, v, cells),
        Mos6502Opcode::Bvc => branch(r, !r.flags.overflow, v, cells),
        Mos6502Opcode::Bvs => branch(r, r.flags.overflow, v, cells),
        Mos6502Opcode::Jam => (r, seq![ExecutionStep::Jammed], cells),
        Mos6502Opcode::Jmp => (CpuRegisters { program: r.address_bus, ..r }, none, cells),
        Mos6502Opcode::Jsr => {
            let return_address = w16(r.program - 1);
            (
                r,
                seq![
                    ExecutionStep::PushStack(high_byte(return_address)),
                    ExecutionStep::PushStack(low_byte(return_address)),
                    ExecutionStep::AddressBusToProgramPointer,
                ],
                cells,
            )
        },
        Mos6502Opcode::Pha => (r, seq![ExecutionStep::PushStack(r.a)], cells),
        Mos6502Opcode::Php => (
            r,
            seq![
                ExecutionStep::PushStack(
                    FlagRegister { undocumented: true, break_: true, ..r.flags }.spec_to_byte(),
                ),
            ],
            cells,
        ),
        _ => (r, none, cells),
    }
}

pub open spec fn is_queued(o: Mos6502Opcode) -> bool {
    o is Bcc || o is Bcs || o is Beq || o is Bne || o is Bmi || o is Bpl || o is Bvc || o is Bvs || o is Jam || o is Jmp || o is Jsr || o is Pha || o is Php
}

/// Effect of the opcodes of one class (see `spec_execute`).
pub open spec fn spec_execute_registers_only(
    r: CpuRegisters,
    o: Mos6502Opcode,
    mode: Option<AddressingMode>,
    bus: AddressSpace,
    cells: Seq<u8>,
    random: u8,
) -> (CpuRegisters, Seq<ExecutionStep>, Seq<u8>) {
    let v = operand(r, mode, bus, cells);
    let none = Seq::<ExecutionStep>::empty();
    match o {
        Mos6502Opcode::Clc => (
            CpuRegisters { flags: FlagRegister { carry: false, ..r.flags }, ..r },
            none,
            cells,
        ),
        Mos6502Opcode::Cld => (
            CpuRegisters { flags: FlagRegister { decimal: false, ..r.flags }, ..r },
            none,
            cells,
        ),
        Mos6502Opcode::Cli => (
            CpuRegisters { flags: FlagRegister { interrupt_disable: false, ..r.flags }, ..r },
            none,
            cells,
        ),
        Mos6502Opcode::Clv => (
            CpuRegisters { flags: FlagRegister { overflow: false, ..r.flags }, ..r },
            none,
            cells,
        ),
        Mos6502Opcode::Sec => (
            CpuRegisters { flags: FlagRegister { carry: true, ..r.flags }, ..r },
            none,
            cells,
        ),
        Mos6502Opcode::Sed => (
            CpuRegisters { flags: FlagRegister { decimal: true, ..r.flags }, ..r },
            none,
            cells,
        ),
        Mos6502Opcode::Sei => (
            CpuRegisters { flags: FlagRegister { interrupt_disable: true, ..r.flags }, ..r },
            none,
            cells,
        ),
        Mos6502Opcode::Dex => {
            let result = w8(r.x - 1);
            (CpuRegisters { x: result, flags: nz(r.flags, result), ..r }, none, cells)
        },
        Mos6502Opcode::Dey => {
            let result = w8(r.y - 1);
            (CpuRegisters { y: result, flags: nz(r.flags, result), ..r }, none, cells)
        },
        Mos6502Opcode::Inx => {
            let result = w8(r.x + 1);
            (CpuRegisters { x: result, flags: nz(r.flags, result), ..r }, none, cells)
        },
        Mos6502Opcode::Iny => {
            let result = w8(r.y + 1);
            (CpuRegisters { y: result, flags: nz(r.flags, result), ..r }, none, cells)
        },
        Mos6502Opcode::Tax => (CpuRegisters { x: r.a, flags: nz(r.flags, r.a), ..r }, none, cells),
        Mos6502Opcode::Tay => (CpuRegisters { y: r.a, flags: nz(r.flags, r.a), ..r }, none, cells),
        Mos6502Opcode::Tsx => (
            CpuRegisters { x: r.stack, flags: nz(r.flags, r.stack), ..r },
            none,
            cells,
        ),
        Mos6502Opcode::Txa => (CpuRegisters { a: r.x, flags: nz(r.flags, r.x), ..r }, none, cells),
        Mos6502Opcode::Txs => (CpuRegisters { stack: r.x, ..r }, none, cells),
        Mos6502Opcode::Tya => (CpuRegisters { a: r.y, flags: nz(r.flags, r.y), ..r }, none, cells),
        _ => (r, none, cells),
    }
}

pub open spec fn is_registers_only(o: Mos6502Opcode) -> bool {
    o is Clc || o is Cld || o is Cli || o is Clv || o is Sec || o is Sed || o is Sei || o is Dex || o is Dey || o is Inx || o is Iny || o is Tax || o is Tay || o is Tsx || o is Txa || o is Txs || o is Tya
}

/// Effect of the opcodes of one class (see `spec_execute`).
pub open spec fn spec_execute_memory(
    r: CpuRegisters,
    o: Mos6502Opcode,
    mode: Option<AddressingMode>,
    bus: AddressSpace,
    cells: Seq<u8>,
    random: u8,
) -> (CpuRegisters, Seq<ExecutionStep>, Seq<u8>) {
    let v = operand(r, mode, bus, cells);
    let none = Seq::<ExecutionStep>::empty();
    match o {
        Mos6502Opcode::Brk => brk_result(r, bus, cells),
        Mos6502Opcode::Pla => {
            let stack = w8(r.stack + 1);
            let value = bus.read_or_zero(cells, stack_address(stack));
            (CpuRegisters { stack, a: value, flags: nz(r.flags, value), ..r }, none, cells)
        },
        Mos6502Opcode::Plp => {
            let stack = w8(r.stack + 1);
            let value = bus.read_or_zero(cells, stack_address(stack));
            (
                CpuRegisters { stack, flags: FlagRegister::spec_from_byte(value), ..r },
                none,
                cells,
            )
        },
        Mos6502Opcode::Rti => rti_result(r, bus, cells),
        Mos6502Opcode::Rts => rts_result(r, bus, cells),
        Mos6502Opcode::Sax => store_result(r, mode, r.a & r.x, bus, cells),
        Mos6502Opcode::Sta => store_result(r, mode, r.a, bus, cells),
        Mos6502Opcode::Stx => store_result(r, mode, r.x, bus, cells),
        Mos6502Opcode::Sty => store_result(r, mode, r.y, bus, cells),
        _ => (r, none, cells),
    }
}

pub open spec fn is_memory(o: Mos6502Opcode) -> bool {
    o is Brk || o is Pla || o is Plp || o is Rti || o is Rts || o is Sax || o is Sta || o is Stx || o is Sty
}

/// Executes `instruction` on registers `r` with the bus storage `cells`:
/// the new registers, the micro-steps queued behind it and the new storage.
/// `random` is the byte XAA mixes in.
pub open spec fn spec_execute(
    r: CpuRegisters,
    instruction: Mos6502InstructionSet,
    bus: AddressSpace,
    cells: Seq<u8>,
    random: u8,
) -> (CpuRegisters, Seq<ExecutionStep>, Seq<u8>) {
    let mode = instruction.addressing_mode;
    let v = operand(r, mode, bus, cells);
    match instruction.opcode {
        Opcode::Mos6502(o) => if is_registers_from_operand(o) {
            spec_execute_registers_from_operand(r, o, mode, bus, cells, random)
        } else if is_read_modify_write(o) {
            spec_execute_read_modify_write(r, o, mode, bus, cells, random)
        } else if is_queued(o) {
            spec_execute_queued(r, o, mode, bus, cells, random)
        } else if is_registers_only(o) {
            spec_execute_registers_only(r, o, mode, bus, cells, random)
        } else if is_memory(o) {
            spec_execute_memory(r, o, mode, bus, cells, random)
        } else {
            (r, Seq::empty(), cells)
        },
        Opcode::Wdc65C02(o) => match o {
            Wdc65C02Opcode::Bra => branch(r, true, v, cells),
            Wdc65C02Opcode::Phx => (r, seq![ExecutionStep::PushStack(r.x)], cells),
            Wdc65C02Opcode::Phy => (r, seq![ExecutionStep::PushStack(r.y)], cells),
            _ => (r, Seq::empty(), cells),
        },
    }
}


fn is_accumulator(mode: Option<AddressingMode>) -> (r: bool)
    ensures
        r == (mode == accumulator()),
{
    match mode {
        Some(AddressingMode::Mos6502(Mos6502AddressingMode::Accumulator)) => true,
        _ => false,
    }
}

fn negative_of(v: u8) -> (r: bool)
    ensures
        r == bit7(v),
{
    v >= 0x80
}

fn set_nz(flags: &mut FlagRegister, v: u8)
    ensures
        *final(flags) == nz(*old(flags), v),
{
    flags.negative = negative_of(v);
    flags.zero = v == 0;
}

impl ProcessorState {
    /// The operand of an instruction with addressing mode `mode`.
    fn load(&self, bus: &AddressSpace, mode: Option<AddressingMode>) -> (v: u8)
        requires
            bus.wf(),
            mode is Some,
        ensures
            v == operand(self.regs(), mode, *bus, bus.cells()),
    {
        if is_accumulator(mode) {
            self.a
        } else {
            bus.read_or_zero_byte(self.address_bus as usize)
        }
    }

    /// Stores `value` where an instruction with addressing mode `mode` writes.
    fn store(&mut self, bus: &mut AddressSpace, mode: Option<AddressingMode>, value: u8)
        requires
            old(bus).wf(),
            mode is Some,
        ensures
            final(bus).wf(),
            old(bus).same_mapping(final(bus)),
            final(self).queue() == old(self).queue(),
            final(self).latch == old(self).latch,
            final(self).next_instruction == old(self).next_instruction,
            (final(self).regs(), Seq::<ExecutionStep>::empty(), final(bus).cells()) == store_result(
                old(self).regs(),
                mode,
                value,
                *old(bus),
                old(bus).cells(),
            ),
    {
        if is_accumulator(mode) {
            self.a = value;
        } else {
            let _ = bus.write_byte(self.address_bus as usize, value);
        }
    }

    /// Binary add with carry into the accumulator.
    fn adc(&mut self, value: u8)
        ensures
            final(self).regs() == adc_result(old(self).regs(), value),
            final(self).queue() == old(self).queue(),
            final(self).latch == old(self).latch,
            final(self).next_instruction == old(self).next_instruction,
    {
        let carry: u16 = if self.flags.carry {
            1
        } else {
            0
        };
        let sum: u16 = self.a as u16 + value as u16 + carry;
        let result = (sum % 256) as u8;
        self.flags.overflow = (negative_of(self.a) == negative_of(value)) && (negative_of(self.a)
            != negative_of(result));
        self.flags.carry = sum > 255;
        self.flags.negative = negative_of(result);
        self.flags.zero = result == 0;
        self.a = result;
    }

    fn read_stack(&self, bus: &AddressSpace, stack: u8) -> (v: u8)
        requires
            bus.wf(),
        ensures
            v == bus.read_or_zero(bus.cells(), stack_address(stack)),
    {
        bus.read_or_zero_byte(STACK_BASE_ADDRESS + stack as usize)
    }

    /// Executes a decoded instruction whose operand address is already on
    /// the address bus. `random` is the byte XAA mixes in.
    pub fn execute(
        &mut self,
        bus: &mut AddressSpace,
        instruction: Mos6502InstructionSet,
        kind: Mos6502Kind,
        random: u8,
    )
        requires
            old(bus).wf(),
            well_shaped(instruction),
            executable(instruction, old(self).flags, kind),
        ensures
            final(bus).wf(),
            old(bus).same_mapping(final(bus)),
            final(self).latch == old(self).latch,
            final(self).next_instruction == old(self).next_instruction,
            ({
                let (r, pushed, cells) = spec_execute(
                    old(self).regs(),
                    instruction,
                    *old(bus),
                    old(bus).cells(),
                    random,
                );
                &&& final(self).regs() == r
                &&& final(self).queue() == old(self).queue() + pushed
                &&& final(bus).cells() == cells
            }),
    {
        let mode = instruction.addressing_mode;
        match instruction.opcode {
            Opcode::Mos6502(opcode) => match opcode {
                Mos6502Opcode::Adc | Mos6502Opcode::Sbc | Mos6502Opcode::Anc | Mos6502Opcode::And | Mos6502Opcode::Ora | Mos6502Opcode::Eor | Mos6502Opcode::Arr | Mos6502Opcode::Bit | Mos6502Opcode::Cmp | Mos6502Opcode::Cpx | Mos6502Opcode::Cpy | Mos6502Opcode::Lax | Mos6502Opcode::Lda | Mos6502Opcode::Ldx | Mos6502Opcode::Ldy | Mos6502Opcode::Nop | Mos6502Opcode::Xaa => {
                    self.execute_registers_from_operand(bus, instruction, kind, random);
                },
                Mos6502Opcode::Asl | Mos6502Opcode::Asr | Mos6502Opcode::Lsr | Mos6502Opcode::Rol | Mos6502Opcode::Ror | Mos6502Opcode::Dec | Mos6502Opcode::Inc => {
                    self.execute_read_modify_write(bus, instruction, kind, random);
                },
                Mos6502Opcode::Bcc | Mos6502Opcode::Bcs | Mos6502Opcode::Beq | Mos6502Opcode::Bne | Mos6502Opcode::Bmi | Mos6502Opcode::Bpl | Mos6502Opcode::Bvc | Mos6502Opcode::Bvs | Mos6502Opcode::Jam | Mos6502Opcode::Jmp | Mos6502Opcode::Jsr | Mos6502Opcode::Pha | Mos6502Opcode::Php => {
                    self.execute_queued(bus, instruction, kind, random);
                },
                Mos6502Opcode::Brk | Mos6502Opcode::Pla | Mos6502Opcode::Plp | Mos6502Opcode::Rti | Mos6502Opcode::Rts | Mos6502Opcode::Sax | Mos6502Opcode::Sta | Mos6502Opcode::Stx | Mos6502Opcode::Sty => {
                    self.execute_memory(bus, instruction, kind, random);
                },
                Mos6502Opcode::Clc | Mos6502Opcode::Cld | Mos6502Opcode::Cli | Mos6502Opcode::Clv | Mos6502Opcode::Sec | Mos6502Opcode::Sed | Mos6502Opcode::Sei | Mos6502Opcode::Dex | Mos6502Opcode::Dey | Mos6502Opcode::Inx | Mos6502Opcode::Iny | Mos6502Opcode::Tax | Mos6502Opcode::Tay | Mos6502Opcode::Tsx | Mos6502Opcode::Txa | Mos6502Opcode::Txs | Mos6502Opcode::Tya => {
                    self.execute_registers_only(bus, instruction, kind, random);
                },
                _ => {},
            },
            Opcode::Wdc65C02(opcode) => match opcode {
                Wdc65C02Opcode::Bra => {
                    let value = self.load(bus, mode);
                    self.execution_queue.push_back(ExecutionStep::ModifyProgramPointer(value as i8));
                },
                Wdc65C02Opcode::Phx => {
                    self.execution_queue.push_back(ExecutionStep::PushStack(self.x));
                },
                Wdc65C02Opcode::Phy => {
                    self.execution_queue.push_back(ExecutionStep::PushStack(self.y));
                },
                _ => {},
            },
        }
    }

    #[verifier::rlimit(50)]
    fn execute_registers_from_operand(
        &mut self,
        bus: &mut AddressSpace,
        instruction: Mos6502InstructionSet,
        kind: Mos6502Kind,
        random: u8,
    )
        requires
            old(bus).wf(),
            well_shaped(instruction),
            executable(instruction, old(self).flags, kind),
            instruction.opcode matches Opcode::Mos6502(o) && (o is Adc || o is Sbc || o is Anc || o is And || o is Ora || o is Eor || o is Arr || o is Bit || o is Cmp || o is Cpx || o is Cpy || o is Lax || o is Lda || o is Ldx || o is Ldy || o is Nop || o is Xaa),
        ensures
            final(bus).wf(),
            old(bus).same_mapping(final(bus)),
            final(self).latch == old(self).latch,
            final(self).next_instruction == old(self).next_instruction,
            ({
                let (r, pushed, cells) = spec_execute_registers_from_operand(
                    old(self).regs(),
                    instruction.opcode->Mos6502_0,
                    instruction.addressing_mode,
                    *old(bus),
                    old(bus).cells(),
                    random,
                );
                &&& final(self).regs() == r
                &&& final(self).queue() == old(self).queue() + pushed
                &&& final(bus).cells() == cells
            }),
    {
        let mode = instruction.addressing_mode;
        let opcode = match instruction.opcode {
            Opcode::Mos6502(o) => o,
            _ => Mos6502Opcode::Nop,
        };
        match opcode {
                    Mos6502Opcode::Adc => {
                        let value = self.load(bus, mode);
                        self.adc(value);
                    },
                    Mos6502Opcode::Sbc => {
                        let value = self.load(bus, mode);
                        self.adc(!value);
                    },
                    Mos6502Opcode::Anc => {
                        let value = self.load(bus, mode);
                        let result = self.a & value;
                        self.flags.carry = negative_of(result);
                        self.flags.negative = negative_of(result);
                        self.flags.zero = result == 0;
                        self.a = result;
                    },
                    Mos6502Opcode::And => {
                        let value = self.load(bus, mode);
                        let result = self.a & value;
                        set_nz(&mut self.flags, result);
                        self.a = result;
                    },
                    Mos6502Opcode::Ora => {
                        let value = self.load(bus, mode);
                        let result = self.a | value;
                        set_nz(&mut self.flags, result);
                        self.a = result;
                    },
                    Mos6502Opcode::Eor => {
                        let value = self.load(bus, mode);
                        let result = self.a ^ value;
                        set_nz(&mut self.flags, result);
                        self.a = result;
                    },
                    Mos6502Opcode::Arr => {
                        let value = self.load(bus, mode);
                        let anded = self.a & value;
                        let carry = self.flags.carry;
                        self.flags.carry = negative_of(anded);
                        let result: u8 = (anded >> 1u8) | if carry {
                            0x80u8
                        } else {
                            0u8
                        };
                        self.flags.overflow = (result & 2 == 2) != (result & 1 == 1);
                        self.flags.negative = result & 1 == 1;
                        self.flags.zero = result == 0;
                        self.a = result;
                    },
                    Mos6502Opcode::Bit => {
                        let value = self.load(bus, mode);
                        self.flags.negative = negative_of(value);
                        self.flags.overflow = value & 0x40 == 0x40;
                        self.flags.zero = self.a & value == 0;
                    },
                    Mos6502Opcode::Cmp | Mos6502Opcode::Cpx | Mos6502Opcode::Cpy => {
                        let value = self.load(bus, mode);
                        let register = match opcode {
                            Mos6502Opcode::Cmp => self.a,
                            Mos6502Opcode::Cpx => self.x,
                            _ => self.y,
                        };
                        let result = register.wrapping_sub(value);
                        set_nz(&mut self.flags, result);
                        self.flags.carry = register >= value;
                    },
                    Mos6502Opcode::Lax => {
                        let value = self.load(bus, mode);
                        self.a = value;
                        self.x = value;
                    },
                    Mos6502Opcode::Lda => {
                        let value = self.load(bus, mode);
                        set_nz(&mut self.flags, value);
                        self.a = value;
                    },
                    Mos6502Opcode::Ldx => {
                        let value = self.load(bus, mode);
                        set_nz(&mut self.flags, value);
                        self.x = value;
                    },
                    Mos6502Opcode::Ldy => {
                        let value = self.load(bus, mode);
                        set_nz(&mut self.flags, value);
                        self.y = value;
                    },
                    Mos6502Opcode::Nop => {
                        if mode.is_some() {
                            let _ = self.load(bus, mode);
                        }
                    },
                    Mos6502Opcode::Xaa => {
                        let value = self.load(bus, mode);
                        let result = (self.a & random) & self.x & value;
                        self.flags.negative = negative_of(result);
                        self.flags.zero = value == 0;
                        self.a = result;
                    },

            _ => {},
        }
    }

    #[verifier::rlimit(50)]
    fn execute_read_modify_write(
        &mut self,
        bus: &mut AddressSpace,
        instruction: Mos6502InstructionSet,
        kind: Mos6502Kind,
        random: u8,
    )
        requires
            old(bus).wf(),
            well_shaped(instruction),
            executable(instruction, old(self).flags, kind),
            instruction.opcode matches Opcode::Mos6502(o) && (o is Asl || o is Asr || o is Lsr || o is Rol || o is Ror || o is Dec || o is Inc),
        ensures
            final(bus).wf(),
            old(bus).same_mapping(final(bus)),
            final(self).latch == old(self).latch,
            final(self).next_instruction == old(self).next_instruction,
            ({
                let (r, pushed, cells) = spec_execute_read_modify_write(
                    old(self).regs(),
                    instruction.opcode->Mos6502_0,
                    instruction.addressing_mode,
                    *old(bus),
                    old(bus).cells(),
                    random,
                );
                &&& final(self).regs() == r
                &&& final(self).queue() == old(self).queue() + pushed
                &&& final(bus).cells() == cells
            }),
    {
        let mode = instruction.addressing_mode;
        let opcode = match instruction.opcode {
            Opcode::Mos6502(o) => o,
            _ => Mos6502Opcode::Nop,
        };
        match opcode {
                    Mos6502Opcode::Asl => {
                        let value = self.load(bus, mode);
                        let result: u8 = ((value as u16 * 2) % 256) as u8;
                        self.flags.carry = negative_of(value);
                        self.flags.negative = value & 0x40 == 0x40;
                        self.flags.zero = result == 0;
                        if is_accumulator(mode) {
                            self.a = result;
                        } else {
                            self.execution_queue.push_back(ExecutionStep::StoreData(result));
                        }
                    },
                    Mos6502Opcode::Asr => {
                        let value = self.load(bus, mode);
                        let result = (self.a & value) >> 1u8;
                        self.flags.carry = negative_of(value);
                        self.flags.negative = false;
                        self.flags.zero = result == 0;
                        self.a = result;
                    },
                    Mos6502Opcode::Lsr => {
                        let value = self.load(bus, mode);
                        let result = value / 2;
                        self.flags.negative = false;
                        self.flags.carry = value % 2 == 1;
                        self.flags.zero = result == 0;
                        if is_accumulator(mode) {
                            self.a = result;
                        } else {
                            self.execution_queue.push_back(ExecutionStep::StoreData(result));
                        }
                    },
                    Mos6502Opcode::Rol => {
                        let value = self.load(bus, mode);
                        let old_carry: u16 = if self.flags.carry {
                            1
                        } else {
                            0
                        };
                        let result: u8 = ((value as u16 * 2 + old_carry) % 256) as u8;
                        self.flags.carry = negative_of(value);
                        self.flags.negative = value & 0x40 == 0x40;
                        self.flags.zero = result == 0;
                        if is_accumulator(mode) {
                            self.a = result;
                        } else {
                            self.execution_queue.push_back(ExecutionStep::StoreData(result));
                        }
                    },
                    Mos6502Opcode::Ror => {
                        let value = self.load(bus, mode);
                        let old_carry = self.flags.carry;
                        let result: u8 = value / 2 + if old_carry {
                            128u8
                        } else {
                            0u8
                        };
                        self.flags.carry = value % 2 == 1;
                        self.flags.negative = old_carry;
                        self.flags.zero = result == 0;
                        if is_accumulator(mode) {
                            self.a = result;
                        } else {
                            self.execution_queue.push_back(ExecutionStep::StoreData(result));
                        }
                    },
                    Mos6502Opcode::Dec => {
                        let value = self.load(bus, mode);
                        let result = value.wrapping_sub(1);
                        set_nz(&mut self.flags, result);
                        self.execution_queue.push_back(ExecutionStep::StoreData(result));
                    },
                    Mos6502Opcode::Inc => {
                        let value = self.load(bus, mode);
                        let result = value.wrapping_add(1);
                        set_nz(&mut self.flags, result);
                        self.execution_queue.push_back(ExecutionStep::StoreData(result));
                    },
            _ => {},
        }
    }

    #[verifier::rlimit(50)]
    fn execute_queued(
        &mut self,
        bus: &mut AddressSpace,
        instruction: Mos6502InstructionSet,
        kind: Mos6502Kind,
        random: u8,
    )
        requires
            old(bus).wf(),
            well_shaped(instruction),
            executable(instruction, old(self).flags, kind),
            instruction.opcode matches Opcode::Mos6502(o) && (o is Bcc || o is Bcs || o is Beq || o is Bne || o is Bmi || o is Bpl || o is Bvc || o is Bvs || o is Jam || o is Jmp || o is Jsr || o is Pha || o is Php),
        ensures
            final(bus).wf(),
            old(bus).same_mapping(final(bus)),
            final(self).latch == old(self).latch,
            final(self).next_instruction == old(self).next_instruction,
            ({
                let (r, pushed, cells) = spec_execute_queued(
                    old(self).regs(),
                    instruction.opcode->Mos6502_0,
                    instruction.addressing_mode,
                    *old(bus),
                    old(bus).cells(),
                    random,
                );
                &&& final(self).regs() == r
                &&& final(self).queue() == old(self).queue() + pushed
                &&& final(bus).cells() == cells
            }),
    {
        let mode = instruction.addressing_mode;
        let opcode = match instruction.opcode {
            Opcode::Mos6502(o) => o,
            _ => Mos6502Opcode::Nop,
        };
        match opcode {
                    Mos6502Opcode::Bcc | Mos6502Opcode::Bcs | Mos6502Opcode::Beq
                    | Mos6502Opcode::Bne | Mos6502Opcode::Bmi | Mos6502Opcode::Bpl
                    | Mos6502Opcode::Bvc | Mos6502Opcode::Bvs => {
                        let value = self.load(bus, mode);
                        let taken = match opcode {
                            Mos6502Opcode::Bcc => !self.flags.carry,
                            Mos6502Opcode::Bcs => self.flags.carry,
                            Mos6502Opcode::Beq => self.flags.zero,
                            Mos6502Opcode::Bne => !self.flags.zero,
                            Mos6502Opcode::Bmi => self.flags.negative,
                            Mos6502Opcode::Bpl => !self.flags.negative,
                            Mos6502Opcode::Bvc => !self.flags.overflow,
                            _ => self.flags.overflow,
                        };
                        if taken {
                            self.execution_queue.push_back(
                                ExecutionStep::ModifyProgramPointer(value as i8),
                            );
                        }
                    },
                    Mos6502Opcode::Jam => {
                        self.execution_queue.push_back(ExecutionStep::Jammed);
                    },
                    Mos6502Opcode::Jmp => {
                        self.program = self.address_bus;
                    },
                    Mos6502Opcode::Jsr => {
                        // The pushed address is that of the last operand byte
                        let (low, high) = u16_to_le_bytes(self.program.wrapping_sub(1));
                        self.execution_queue.push_back(ExecutionStep::PushStack(high));
                        self.execution_queue.push_back(ExecutionStep::PushStack(low));
                        self.execution_queue.push_back(ExecutionStep::AddressBusToProgramPointer);
                    },
                    Mos6502Opcode::Pha => {
                        self.execution_queue.push_back(ExecutionStep::PushStack(self.a));
                    },
                    Mos6502Opcode::Php => {
                        let mut flags = self.flags;
                        flags.undocumented = true;
                        flags.break_ = true;
                        self.execution_queue.push_back(ExecutionStep::PushStack(flags.to_byte()));
                    },
            _ => {},
        }
    }

    #[verifier::rlimit(50)]
    fn execute_memory(
        &mut self,
        bus: &mut AddressSpace,
        instruction: Mos6502InstructionSet,
        kind: Mos6502Kind,
        random: u8,
    )
        requires
            old(bus).wf(),
            well_shaped(instruction),
            executable(instruction, old(self).flags, kind),
            instruction.opcode matches Opcode::Mos6502(o) && (o is Brk || o is Pla || o is Plp || o is Rti || o is Rts || o is Sax || o is Sta || o is Stx || o is Sty),
        ensures
            final(bus).wf(),
            old(bus).same_mapping(final(bus)),
            final(self).latch == old(self).latch,
            final(self).next_instruction == old(self).next_instruction,
            ({
                let (r, pushed, cells) = spec_execute_memory(
                    old(self).regs(),
                    instruction.opcode->Mos6502_0,
                    instruction.addressing_mode,
                    *old(bus),
                    old(bus).cells(),
                    random,
                );
                &&& final(self).regs() == r
                &&& final(self).queue() == old(self).queue() + pushed
                &&& final(bus).cells() == cells
            }),
    {
        let mode = instruction.addressing_mode;
        let opcode = match instruction.opcode {
            Opcode::Mos6502(o) => o,
            _ => Mos6502Opcode::Nop,
        };
        match opcode {
                    Mos6502Opcode::Brk => {
                        self.brk(bus);
                    },
                    Mos6502Opcode::Pla => {
                        self.stack = self.stack.wrapping_add(1);
                        let value = self.read_stack(bus, self.stack);
                        set_nz(&mut self.flags, value);
                        self.a = value;
                    },
                    Mos6502Opcode::Plp => {
                        self.stack = self.stack.wrapping_add(1);
                        let value = self.read_stack(bus, self.stack);
                        self.flags = FlagRegister::from_byte(value);
                    },
                    Mos6502Opcode::Rti => {
                        self.stack = self.stack.wrapping_add(1);
                        let flags = self.read_stack(bus, self.stack);
                        self.flags = FlagRegister::from_byte(flags);
                        self.stack = self.stack.wrapping_add(1);
                        let low = self.read_stack(bus, self.stack);
                        self.stack = self.stack.wrapping_add(1);
                        let high = self.read_stack(bus, self.stack);
                        self.program = u16_from_le_bytes(low, high);
                    },
                    Mos6502Opcode::Rts => {
                        self.stack = self.stack.wrapping_add(1);
                        let low = self.read_stack(bus, self.stack);
                        self.stack = self.stack.wrapping_add(1);
                        let high = self.read_stack(bus, self.stack);
                        self.program = u16_from_le_bytes(low, high).wrapping_add(1);
                    },
                    Mos6502Opcode::Sax => {
                        let value = self.a & self.x;
                        self.store(bus, mode, value);
                    },
                    Mos6502Opcode::Sta => {
                        let value = self.a;
                        self.store(bus, mode, value);
                    },
                    Mos6502Opcode::Stx => {
                        let value = self.x;
                        self.store(bus, mode, value);
                    },
                    Mos6502Opcode::Sty => {
                        let value = self.y;
                        self.store(bus, mode, value);
                    },
            _ => {},
        }
    }

    #[verifier::rlimit(50)]
    fn execute_registers_only(
        &mut self,
        bus: &mut AddressSpace,
        instruction: Mos6502InstructionSet,
        kind: Mos6502Kind,
        random: u8,
    )
        requires
            old(bus).wf(),
            well_shaped(instruction),
            executable(instruction, old(self).flags, kind),
            instruction.opcode matches Opcode::Mos6502(o) && (o is Clc || o is Cld || o is Cli || o is Clv || o is Sec || o is Sed || o is Sei || o is Dex || o is Dey || o is Inx || o is Iny || o is Tax || o is Tay || o is Tsx || o is Txa || o is Txs || o is Tya),
        ensures
            final(bus).wf(),
            old(bus).same_mapping(final(bus)),
            final(self).latch == old(self).latch,
            final(self).next_instruction == old(self).next_instruction,
            ({
                let (r, pushed, cells) = spec_execute_registers_only(
                    old(self).regs(),
                    instruction.opcode->Mos6502_0,
                    instruction.addressing_mode,
                    *old(bus),
                    old(bus).cells(),
                    random,
                );
                &&& final(self).regs() == r
                &&& final(self).queue() == old(self).queue() + pushed
                &&& final(bus).cells() == cells
            }),
    {
        let mode = instruction.addressing_mode;
        let opcode = match instruction.opcode {
            Opcode::Mos6502(o) => o,
            _ => Mos6502Opcode::Nop,
        };
        match opcode {
                    Mos6502Opcode::Clc => {
                        self.flags.carry = false;
                    },
                    Mos6502Opcode::Cld => {
                        self.flags.decimal = false;
                    },
                    Mos6502Opcode::Cli => {
                        self.flags.interrupt_disable = false;
                    },
                    Mos6502Opcode::Clv => {
                        self.flags.overflow = false;
                    },
                    Mos6502Opcode::Sec => {
                        self.flags.carry = true;
                    },
                    Mos6502Opcode::Sed => {
                        self.flags.decimal = true;
                    },
                    Mos6502Opcode::Sei => {
                        self.flags.interrupt_disable = true;
                    },
                    Mos6502Opcode::Dex => {
                        let result = self.x.wrapping_sub(1);
                        set_nz(&mut self.flags, result);
                        self.x = result;
                    },
                    Mos6502Opcode::Dey => {
                        let result = self.y.wrapping_sub(1);
                        set_nz(&mut self.flags, result);
                        self.y = result;
                    },
                    Mos6502Opcode::Inx => {
                        let result = self.x.wrapping_add(1);
                        set_nz(&mut self.flags, result);
                        self.x = result;
                    },
                    Mos6502Opcode::Iny => {
                        let result = self.y.wrapping_add(1);
                        set_nz(&mut self.flags, result);
                        self.y = result;
                    },
                    Mos6502Opcode::Tax => {
                        let result = self.a;
                        set_nz(&mut self.flags, result);
                        self.x = result;
                    },
                    Mos6502Opcode::Tay => {
                        let result = self.a;
                        set_nz(&mut self.flags, result);
                        self.y = result;
                    },
                    Mos6502Opcode::Tsx => {
                        let result = self.stack;
                        set_nz(&mut self.flags, result);
                        self.x = result;
                    },
                    Mos6502Opcode::Txa => {
                        let result = self.x;
                        set_nz(&mut self.flags, result);
                        self.a = result;
                    },
                    Mos6502Opcode::Txs => {
                        self.stack = self.x;
                    },
                    Mos6502Opcode::Tya => {
                        let result = self.y;
                        set_nz(&mut self.flags, result);
                        self.a = result;
                    },
            _ => {},
        }
    }

    fn brk(&mut self, bus: &mut AddressSpace)
        requires
            old(bus).wf(),
        ensures
            final(bus).wf(),
            old(bus).same_mapping(final(bus)),
            final(self).latch == old(self).latch,
            final(self).next_instruction == old(self).next_instruction,
            final(self).queue() == old(self).queue(),
            ({
                let (r, pushed, cells) = brk_result(old(self).regs(), *old(bus), old(bus).cells());
                &&& final(self).regs() == r
                &&& final(bus).cells() == cells
            }),
    {
        let ghost bus0 = *bus;
        let ghost r = self.regs();
        let new_stack = self.stack.wrapping_sub(2);
        let (program_low, program_high) = u16_to_le_bytes(self.program.wrapping_add(2));
        assert(new_stack == w8(r.stack - 2));
        assert(self.program.wrapping_add(2) == w16(r.program + 2));

        let _ = bus.write_byte(new_stack as usize + STACK_BASE_ADDRESS, program_low);
        let ghost bus1 = *bus;
        let _ = bus.write_byte(new_stack.wrapping_add(1) as usize + STACK_BASE_ADDRESS, program_high);
        let ghost bus2 = *bus;
        proof {
            lemma_same_mapping(&bus0, &bus1);
            lemma_same_mapping(&bus1, &bus2);
        }

        let mut flags = self.flags;
        flags.undocumented = true;
        flags.break_ = true;
        self.flags.interrupt_disable = true;

        let new_stack = new_stack.wrapping_sub(1);

        let _ = bus.write_byte(new_stack as usize + STACK_BASE_ADDRESS, flags.to_byte());
        proof {
            lemma_same_mapping(&bus2, bus);
            assert(bus0.same_mapping(bus));
            lemma_same_mapping(&bus0, bus);
        }

        let low = bus.read_or_zero_byte(INTERRUPT_VECTOR);
        let high = bus.read_or_zero_byte(INTERRUPT_VECTOR + 1);
        self.program = u16_from_le_bytes(low, high);
        self.stack = new_stack;
    }
}

/// The register a compare instruction compares with its operand.
pub open spec fn compared_register(r: CpuRegisters, o: Mos6502Opcode) -> u8 {
    if o is Cmp {
        r.a
    } else if o is Cpx {
        r.x
    } else {
        r.y
    }
}

/// CMP, CPX and CPY compare A, X and Y with the operand: carry is set when
/// the register is at least the operand, zero when they are equal, and
/// negative is bit 7 of their difference modulo 256. The other flags and
/// every register stay, nothing is queued and memory is not written.
#[verifier::spinoff_prover]
pub proof fn lemma_compare_flags(
    r: CpuRegisters,
    o: Mos6502Opcode,
    mode: Option<AddressingMode>,
    bus: AddressSpace,
    cells: Seq<u8>,
    random: u8,
)
    requires
        o is Cmp || o is Cpx || o is Cpy,
    ensures
        ({
            let instruction = Mos6502InstructionSet { opcode: Opcode::Mos6502(o), addressing_mode: mode };
            let (r2, steps, c2) = spec_execute(r, instruction, bus, cells, random);
            let v = operand(r, mode, bus, cells);
            let reg = compared_register(r, o);
            &&& r2.flags.carry == (reg >= v)
            &&& r2.flags.zero == (reg == v)
            &&& r2.flags.negative == ((reg - v + 256) % 256 >= 128)
            &&& r2.flags.overflow == r.flags.overflow
            &&& r2.flags.decimal == r.flags.decimal
            &&& r2.flags.interrupt_disable == r.flags.interrupt_disable
            &&& r2.a == r.a && r2.x == r.x && r2.y == r.y
            &&& r2.stack == r.stack && r2.program == r.program
            &&& steps.len() == 0
            &&& c2 == cells
        }),
{
}

/// Loads and the logic instructions: LDA, LDX and LDY put the operand in
/// A, X and Y; AND, ORA and EOR put A and, or, exclusive or the operand in
/// A. The register written then decides negative (its bit 7) and zero; the
/// other registers stay and memory is not written.
#[verifier::spinoff_prover]
pub proof fn lemma_load_logic_results(
    r: CpuRegisters,
    o: Mos6502Opcode,
    mode: Option<AddressingMode>,
    bus: AddressSpace,
    cells: Seq<u8>,
    random: u8,
)
    requires
        o is Lda || o is Ldx || o is Ldy || o is And || o is Ora || o is Eor,
    ensures
        ({
            let instruction = Mos6502InstructionSet { opcode: Opcode::Mos6502(o), addressing_mode: mode };
            let (r2, steps, c2) = spec_execute(r, instruction, bus, cells, random);
            let v = operand(r, mode, bus, cells);
            let written = if o is Ldx {
                r2.x
            } else if o is Ldy {
                r2.y
            } else {
                r2.a
            };
            &&& o is Lda ==> r2.a == v
            &&& o is Ldx ==> r2.x == v
            &&& o is Ldy ==> r2.y == v
            &&& o is And ==> r2.a == r.a & v
            &&& o is Ora ==> r2.a == r.a | v
            &&& o is Eor ==> r2.a == r.a ^ v
            &&& !(o is Ldx) ==> r2.x == r.x
            &&& !(o is Ldy) ==> r2.y == r.y
            &&& (o is Ldx || o is Ldy) ==> r2.a == r.a
            &&& r2.flags.negative == (written >= 128)
            &&& r2.flags.zero == (written == 0)
            &&& r2.flags.carry == r.flags.carry && r2.flags.overflow == r.flags.overflow
            &&& r2.stack == r.stack && r2.program == r.program
            &&& steps.len() == 0
            &&& c2 == cells
        }),
{
}

/// ADC adds the operand and the carry to A; SBC subtracts the operand and
/// the borrow (carry clear) from A, which is adding the operand's ones'
/// complement and the carry. The result is taken modulo 256, carry tells the
/// sum reached 256 (for SBC: that no borrow was needed), negative and zero
/// come from the result, and overflow tells that A and the addend share a
/// sign the result does not.
#[verifier::spinoff_prover]
pub proof fn lemma_add_subtract(
    r: CpuRegisters,
    o: Mos6502Opcode,
    mode: Option<AddressingMode>,
    bus: AddressSpace,
    cells: Seq<u8>,
    random: u8,
)
    requires
        o is Adc || o is Sbc,
    ensures
        ({
            let instruction = Mos6502InstructionSet { opcode: Opcode::Mos6502(o), addressing_mode: mode };
            let (r2, steps, c2) = spec_execute(r, instruction, bus, cells, random);
            let v = operand(r, mode, bus, cells);
            let c: int = if r.flags.carry {
                1
            } else {
                0
            };
            let exact: int = if o is Adc {
                r.a + v + c
            } else {
                r.a - v - (1 - c)
            };
            let addend: int = if o is Adc {
                v as int
            } else {
                255 - v
            };
            &&& r2.a == (exact + 256) % 256
            &&& r2.flags.carry == if o is Adc {
                exact > 255
            } else {
                exact >= 0
            }
            &&& r2.flags.negative == (r2.a >= 128)
            &&& r2.flags.zero == (r2.a == 0)
            &&& r2.flags.overflow == ((r.a >= 128) == (addend >= 128) && (r2.a >= 128) != (r.a
                >= 128))
            &&& r2.x == r.x && r2.y == r.y && r2.stack == r.stack
            &&& steps.len() == 0
            &&& c2 == cells
        }),
{
    let v = operand(r, mode, bus, cells);
    assert(!v == 255 - v) by (bit_vector);
}

/// Transfers copy one register into another, increments and decrements
/// step X or Y by one modulo 256; the register written decides negative and
/// zero (TXS copies X to the stack pointer and leaves the flags alone).
#[verifier::spinoff_prover]
pub proof fn lemma_register_moves(
    r: CpuRegisters,
    o: Mos6502Opcode,
    mode: Option<AddressingMode>,
    bus: AddressSpace,
    cells: Seq<u8>,
    random: u8,
)
    requires
        o is Tax || o is Tay || o is Txa || o is Tya || o is Tsx || o is Txs || o is Inx || o is Iny
            || o is Dex || o is Dey,
    ensures
        ({
            let instruction = Mos6502InstructionSet { opcode: Opcode::Mos6502(o), addressing_mode: mode };
            let (r2, steps, c2) = spec_execute(r, instruction, bus, cells, random);
            &&& o is Tax ==> r2.x == r.a && r2.a == r.a && r2.y == r.y
            &&& o is Tay ==> r2.y == r.a && r2.a == r.a && r2.x == r.x
            &&& o is Txa ==> r2.a == r.x && r2.x == r.x && r2.y == r.y
            &&& o is Tya ==> r2.a == r.y && r2.x == r.x && r2.y == r.y
            &&& o is Tsx ==> r2.x == r.stack && r2.a == r.a && r2.y == r.y
            &&& o is Txs ==> r2.stack == r.x && r2.flags == r.flags && r2.a == r.a
            &&& o is Inx ==> r2.x == (r.x + 1) % 256 && r2.y == r.y
            &&& o is Iny ==> r2.y == (r.y + 1) % 256 && r2.x == r.x
            &&& o is Dex ==> r2.x == (r.x + 255) % 256 && r2.y == r.y
            &&& o is Dey ==> r2.y == (r.y + 255) % 256 && r2.x == r.x
            &&& (o is Tax || o is Tsx || o is Inx || o is Dex) ==> (r2.flags.negative == (r2.x
                >= 128) && r2.flags.zero == (r2.x == 0))
            &&& (o is Tay || o is Iny || o is Dey) ==> (r2.flags.negative == (r2.y >= 128)
                && r2.flags.zero == (r2.y == 0))
            &&& (o is Txa || o is Tya) ==> (r2.flags.negative == (r2.a >= 128) && r2.flags.zero
                == (r2.a == 0))
            &&& r2.flags.carry == r.flags.carry
            &&& steps.len() == 0
            &&& c2 == cells
        }),
{
    let instruction = Mos6502InstructionSet { opcode: Opcode::Mos6502(o), addressing_mode: mode };
    assert(is_registers_only(o));
    assert(!is_registers_from_operand(o) && !is_read_modify_write(o) && !is_queued(o));
    assert(spec_execute(r, instruction, bus, cells, random) == spec_execute_registers_only(
        r,
        o,
        mode,
        bus,
        cells,
        random,
    ));
}

/// The flag instructions set or clear the one flag they name and leave the
/// others and the registers alone.
#[verifier::spinoff_prover]
pub proof fn lemma_flag_instructions(
    r: CpuRegisters,
    o: Mos6502Opcode,
    mode: Option<AddressingMode>,
    bus: AddressSpace,
    cells: Seq<u8>,
    random: u8,
)
    requires
        o is Clc || o is Sec || o is Cld || o is Sed || o is Cli || o is Sei || o is Clv,
    ensures
        ({
            let instruction = Mos6502InstructionSet { opcode: Opcode::Mos6502(o), addressing_mode: mode };
            let (r2, steps, c2) = spec_execute(r, instruction, bus, cells, random);
            &&& r2.flags.carry == if o is Clc {
                false
            } else if o is Sec {
                true
            } else {
                r.flags.carry
            }
            &&& r2.flags.decimal == if o is Cld {
                false
            } else if o is Sed {
                true
            } else {
                r.flags.decimal
            }
            &&& r2.flags.interrupt_disable == if o is Cli {
                false
            } else if o is Sei {
                true
            } else {
                r.flags.interrupt_disable
            }
            &&& r2.flags.overflow == if o is Clv {
                false
            } else {
                r.flags.overflow
            }
            &&& r2.flags.negative == r.flags.negative && r2.flags.zero == r.flags.zero
            &&& r2.a == r.a && r2.x == r.x && r2.y == r.y && r2.stack == r.stack
            &&& c2 == cells
        }),
{
}

/// STA, STX, STY and SAX write A, X, Y and A and X to the address on the
/// bus, and change no register: where that address is read-write storage,
/// a read there afterwards gives the stored value.
#[verifier::spinoff_prover]
pub proof fn lemma_stores(
    r: CpuRegisters,
    o: Mos6502Opcode,
    mode: Option<AddressingMode>,
    bus: AddressSpace,
    cells: Seq<u8>,
    random: u8,
)
    requires
        o is Sta || o is Stx || o is Sty || o is Sax,
        mode != accumulator(),
        bus.wf(),
        (r.address_bus as int) < bus.size(),
        bus.is_readable(r.address_bus as int),
        bus.is_writable(r.address_bus as int),
    ensures
        ({
            let instruction = Mos6502InstructionSet { opcode: Opcode::Mos6502(o), addressing_mode: mode };
            let (r2, steps, c2) = spec_execute(r, instruction, bus, cells, random);
            let value = if o is Sta {
                r.a
            } else if o is Stx {
                r.x
            } else if o is Sty {
                r.y
            } else {
                r.a & r.x
            };
            &&& r2 == r
            &&& steps.len() == 0
            &&& c2 == bus.write_in(cells, r.address_bus as int, value)
            &&& cells.len() == bus.size() ==> bus.read_or_zero(c2, r.address_bus as int) == value
        }),
{
    let value = if o is Sta {
        r.a
    } else if o is Stx {
        r.x
    } else if o is Sty {
        r.y
    } else {
        r.a & r.x
    };
    lemma_wf(&bus);
    lemma_access(&bus, cells, r.address_bus as int, value);
    lemma_access(&bus, bus.write_in(cells, r.address_bus as int, value), r.address_bus as int, value);
}

/// The value a read-modify-write instruction computes from its operand `v`
/// and the carry: ASL doubles, LSR halves, ROL doubles and shifts the carry
/// in at the bottom, ROR halves and shifts it in at the top, INC and DEC
/// step by one; all modulo 256.
pub open spec fn modified_value(o: Mos6502Opcode, v: u8, carry: bool) -> int {
    let c: int = if carry {
        1
    } else {
        0
    };
    if o is Asl {
        (2 * v) % 256
    } else if o is Lsr {
        v as int / 2
    } else if o is Rol {
        (2 * v + c) % 256
    } else if o is Ror {
        v as int / 2 + 128 * c
    } else if o is Inc {
        (v + 1) % 256
    } else {
        (v + 255) % 256
    }
}

/// Shifts, rotates, increments and decrements: the new value (see
/// `modified_value`) goes to A in accumulator mode and is otherwise queued
/// as the byte stored back; carry takes the bit shifted out (ASL and ROL bit
/// 7, LSR and ROR bit 0; INC and DEC leave it); negative and zero come from
/// the new value. X, Y and the stack pointer stay.
#[verifier::spinoff_prover]
pub proof fn lemma_read_modify_write(
    r: CpuRegisters,
    o: Mos6502Opcode,
    mode: Option<AddressingMode>,
    bus: AddressSpace,
    cells: Seq<u8>,
    random: u8,
)
    requires
        o is Asl || o is Lsr || o is Rol || o is Ror || o is Inc || o is Dec,
    ensures
        ({
            let instruction = Mos6502InstructionSet { opcode: Opcode::Mos6502(o), addressing_mode: mode };
            let (r2, steps, c2) = spec_execute(r, instruction, bus, cells, random);
            let v = operand(r, mode, bus, cells);
            let result = modified_value(o, v, r.flags.carry);
            &&& (mode == accumulator() && !(o is Inc || o is Dec)) ==> r2.a == result && steps.len()
                == 0
            &&& (mode != accumulator() || o is Inc || o is Dec) ==> r2.a == r.a && steps
                == seq![ExecutionStep::StoreData(result as u8)]
            &&& (o is Asl || o is Rol) ==> r2.flags.carry == (v >= 128)
            &&& (o is Lsr || o is Ror) ==> r2.flags.carry == (v % 2 == 1)
            &&& (o is Inc || o is Dec) ==> r2.flags.carry == r.flags.carry
            &&& r2.flags.negative == (result >= 128)
            &&& r2.flags.zero == (result == 0)
            &&& r2.x == r.x && r2.y == r.y && r2.stack == r.stack
            &&& c2 == cells
        }),
{
    let v = operand(r, mode, bus, cells);
    assert((v & 0x40 == 0x40) == ((2 * v) % 256 >= 128)) by (bit_vector);
    assert((v & 0x40 == 0x40) == ((2 * v + 1) % 256 >= 128)) by (bit_vector);
    let instruction = Mos6502InstructionSet { opcode: Opcode::Mos6502(o), addressing_mode: mode };
    assert(is_read_modify_write(o));
    assert(!is_registers_from_operand(o));
    assert(spec_execute(r, instruction, bus, cells, random) == spec_execute_read_modify_write(
        r,
        o,
        mode,
        bus,
        cells,
        random,
    ));
}

/// The condition a branch tests.
pub open spec fn branch_taken(o: Mos6502Opcode, flags: FlagRegister) -> bool {
    if o is Bcc {
        !flags.carry
    } else if o is Bcs {
        flags.carry
    } else if o is Beq {
        flags.zero
    } else if o is Bne {
        !flags.zero
    } else if o is Bmi {
        flags.negative
    } else if o is Bpl {
        !flags.negative
    } else if o is Bvc {
        !flags.overflow
    } else {
        flags.overflow
    }
}

/// A branch changes no register; when its flag condition holds (BCC carry
/// clear, BCS carry set, BEQ zero set, BNE zero clear, BMI negative set,
/// BPL negative clear, BVC overflow clear, BVS overflow set) it queues a
/// move of the program counter by the signed operand, and otherwise nothing.
/// PHA and PHP queue a push of A and of the flags with break and the unused
/// bit set; JMP loads the program counter from the address bus.
#[verifier::spinoff_prover]
pub proof fn lemma_branches_and_pushes(
    r: CpuRegisters,
    o: Mos6502Opcode,
    mode: Option<AddressingMode>,
    bus: AddressSpace,
    cells: Seq<u8>,
    random: u8,
)
    requires
        o is Bcc || o is Bcs || o is Beq || o is Bne || o is Bmi || o is Bpl || o is Bvc || o is Bvs
            || o is Pha || o is Php || o is Jmp,
    ensures
        ({
            let instruction = Mos6502InstructionSet { opcode: Opcode::Mos6502(o), addressing_mode: mode };
            let (r2, steps, c2) = spec_execute(r, instruction, bus, cells, random);
            let v = operand(r, mode, bus, cells);
            &&& !(o is Jmp) ==> r2 == r
            &&& o is Jmp ==> r2 == CpuRegisters { program: r.address_bus, ..r } && steps.len() == 0
            &&& !(o is Pha || o is Php || o is Jmp) ==> steps == if branch_taken(o, r.flags) {
                seq![ExecutionStep::ModifyProgramPointer(v as i8)]
            } else {
                Seq::empty()
            }
            &&& o is Pha ==> steps == seq![ExecutionStep::PushStack(r.a)]
            &&& o is Php ==> steps == seq![
                ExecutionStep::PushStack(
                    FlagRegister { undocumented: true, break_: true, ..r.flags }.spec_to_byte(),
                ),
            ]
            &&& c2 == cells
        }),
{
}

/// BIT sets negative and overflow from bits 7 and 6 of the operand and zero
/// when A and the operand have no bit in common; PLA and PLP move the stack
/// pointer up one (modulo 256) and read the byte it then points at, in page
/// one, into A (with negative and zero from it) or the flags.
#[verifier::spinoff_prover]
pub proof fn lemma_bit_and_pulls(
    r: CpuRegisters,
    o: Mos6502Opcode,
    mode: Option<AddressingMode>,
    bus: AddressSpace,
    cells: Seq<u8>,
    random: u8,
)
    requires
        o is Bit || o is Pla || o is Plp,
    ensures
        ({
            let instruction = Mos6502InstructionSet { opcode: Opcode::Mos6502(o), addressing_mode: mode };
            let (r2, steps, c2) = spec_execute(r, instruction, bus, cells, random);
            let v = operand(r, mode, bus, cells);
            let up = (r.stack + 1) % 256;
            let pulled = bus.read_or_zero(cells, 0x100 + up);
            &&& o is Bit ==> r2 == CpuRegisters {
                flags: FlagRegister {
                    negative: v >= 128,
                    overflow: (v / 64) % 2 == 1,
                    zero: r.a & v == 0,
                    ..r.flags
                },
                ..r
            }
            &&& o is Pla ==> r2.stack == up && r2.a == pulled && r2.flags.negative == (pulled
                >= 128) && r2.flags.zero == (pulled == 0) && r2.x == r.x && r2.y == r.y
            &&& o is Plp ==> r2.stack == up && r2.flags == FlagRegister::spec_from_byte(pulled)
                && r2.a == r.a
            &&& steps.len() == 0
            &&& c2 == cells
        }),
{
    let v = operand(r, mode, bus, cells);
    assert((v & 0x40 == 0x40) == ((v / 64) % 2 == 1)) by (bit_vector);
}

} // verus!
