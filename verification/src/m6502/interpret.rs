//! What each instruction of the first 6502 model does to the registers and
//! to memory. Operands come with the instruction: an addressing mode holds
//! the bytes that followed the opcode.
use vstd::prelude::*;

use super::instruction::{AddressingMode, M6502InstructionSet, M6502InstructionSetSpecifier};
use super::{M6502Kind, M6502Registers};
use crate::memory::AddressSpace;
use crate::memory::address_space::{lemma_access, lemma_same_mapping, lemma_wf};

verus! {

/// The stack lives in the second page.
pub const STACK_BASE_ADDRESS: usize = 0x0100;
/// Where BRK finds the address of its handler.
pub const INTERRUPT_VECTOR: usize = 0xfffe;

/// Status bits of the flags the interpreter sets.
pub const NEGATIVE: u8 = 0x80;
pub const OVERFLOW: u8 = 0x40;
pub const UNUSED: u8 = 0x20;
pub const BREAK: u8 = 0x10;
pub const DECIMAL: u8 = 0x08;
pub const INTERRUPT_DISABLE: u8 = 0x04;
pub const ZERO: u8 = 0x02;
pub const CARRY: u8 = 0x01;

/// `flags` with the bits of `bit` set when `on`, cleared otherwise.
pub open spec fn set_flag(flags: u8, bit: u8, on: bool) -> u8 {
    if on {
        flags | bit
    } else {
        flags & !bit
    }
}

/// Negative from bit 7 of `v`, zero from `v == 0`.
pub open spec fn nz(flags: u8, v: u8) -> u8 {
    set_flag(set_flag(flags, NEGATIVE, v >= 128), ZERO, v == 0)
}

/// The byte at `address` in storage `cells`, or 0 where nothing readable is mapped.
pub open spec fn byte_in(space: AddressSpace, cells: Seq<u8>, address: int) -> u8 {
    space.read_or_zero(cells, address)
}

/// Address of a stack slot.
pub open spec fn stack_slot(stack: u8) -> int {
    STACK_BASE_ADDRESS as int + stack as int
}

/// Modes that name a byte of memory.
pub open spec fn names_memory(mode: AddressingMode) -> bool {
    ||| mode is Absolute
    ||| mode is XIndexedAbsolute
    ||| mode is YIndexedAbsolute
    ||| mode is ZeroPage
    ||| mode is XIndexedZeroPage
    ||| mode is YIndexedZeroPage
    ||| mode is XIndexedZeroPageIndirect
    ||| mode is ZeroPageIndirectYIndexed
}

/// The address a memory mode names, with indexed zero page addresses
/// wrapping within the page. An indirect pointer is read from `cells`.
pub open spec fn operand_address(
    mode: AddressingMode,
    r: M6502Registers,
    space: AddressSpace,
    cells: Seq<u8>,
) -> int {
    match mode {
        AddressingMode::Absolute(a) => a as int,
        AddressingMode::XIndexedAbsolute(a) => a.wrapping_add(r.x as u16) as int,
        AddressingMode::YIndexedAbsolute(a) => a.wrapping_add(r.y as u16) as int,
        AddressingMode::ZeroPage(z) => z as int,
        AddressingMode::XIndexedZeroPage(z) => z.wrapping_add(r.x) as int,
        AddressingMode::YIndexedZeroPage(z) => z.wrapping_add(r.y) as int,
        AddressingMode::XIndexedZeroPageIndirect(z) => {
            let pointer = z.wrapping_add(r.x) as int;
            byte_in(space, cells, pointer) + 256 * byte_in(space, cells, pointer + 1)
        },
        AddressingMode::ZeroPageIndirectYIndexed(z) => byte_in(space, cells, z as int) + r.y,
        _ => 0,
    }
}

/// The value an instruction loads: the immediate byte, or the byte the
/// mode names.
pub open spec fn operand_value(
    mode: AddressingMode,
    r: M6502Registers,
    space: AddressSpace,
    cells: Seq<u8>,
) -> u8 {
    match mode {
        AddressingMode::Immediate(v) => v,
        _ => byte_in(space, cells, operand_address(mode, r, space, cells)),
    }
}

/// Modes of the loads that take every mode (ADC, AND, ORA, LDA).
pub open spec fn full_load_mode(mode: AddressingMode) -> bool {
    mode is Immediate || (names_memory(mode) && !(mode is YIndexedZeroPage))
}

/// Modes of LDX.
pub open spec fn ldx_mode(mode: AddressingMode) -> bool {
    mode is Immediate || mode is Absolute || mode is YIndexedAbsolute || mode is ZeroPage
        || mode is YIndexedZeroPage
}

/// Modes of LDY and of NOP with an operand.
pub open spec fn ldy_mode(mode: AddressingMode) -> bool {
    mode is Immediate || mode is Absolute || mode is XIndexedAbsolute || mode is ZeroPage
        || mode is XIndexedZeroPage
}

/// Modes of the read-modify-write instructions on memory.
pub open spec fn modify_mode(mode: AddressingMode) -> bool {
    mode is Absolute || mode is XIndexedAbsolute || mode is ZeroPage || mode is XIndexedZeroPage
}

/// Modes of SAX.
pub open spec fn sax_mode(mode: AddressingMode) -> bool {
    mode is Absolute || mode is ZeroPage || mode is YIndexedZeroPage
        || mode is XIndexedZeroPageIndirect
}

/// Modes of STA.
pub open spec fn sta_mode(mode: AddressingMode) -> bool {
    names_memory(mode) && !(mode is YIndexedZeroPage)
}

/// The interpreter has the instruction, with this addressing mode.
pub open spec fn operation_defined(instruction: M6502InstructionSet) -> bool {
    let mode = instruction.addressing_mode;
    match instruction.specifier {
        M6502InstructionSetSpecifier::Adc
        | M6502InstructionSetSpecifier::And
        | M6502InstructionSetSpecifier::Ora
        | M6502InstructionSetSpecifier::Lda => mode matches Some(m) && full_load_mode(m),
        M6502InstructionSetSpecifier::Anc
        | M6502InstructionSetSpecifier::Arr
        | M6502InstructionSetSpecifier::Xaa => mode matches Some(AddressingMode::Immediate(_)),
        M6502InstructionSetSpecifier::Asl | M6502InstructionSetSpecifier::Asr => mode matches Some(m) && (m is Accumulator || modify_mode(m)),
        M6502InstructionSetSpecifier::Inc => mode matches Some(m) && modify_mode(m),
        M6502InstructionSetSpecifier::Bcc
        | M6502InstructionSetSpecifier::Bcs
        | M6502InstructionSetSpecifier::Beq
        | M6502InstructionSetSpecifier::Bmi
        | M6502InstructionSetSpecifier::Bne
        | M6502InstructionSetSpecifier::Bpl
        | M6502InstructionSetSpecifier::Bvc
        | M6502InstructionSetSpecifier::Bvs => mode matches Some(AddressingMode::Relative(_)),
        M6502InstructionSetSpecifier::Jsr => mode matches Some(AddressingMode::Absolute(_)),
        M6502InstructionSetSpecifier::Ldx => mode matches Some(m) && ldx_mode(m),
        M6502InstructionSetSpecifier::Ldy => mode matches Some(m) && ldy_mode(m),
        M6502InstructionSetSpecifier::Nop => mode is None || (mode matches Some(m) && ldy_mode(m)),
        M6502InstructionSetSpecifier::Sax => mode matches Some(m) && sax_mode(m),
        M6502InstructionSetSpecifier::Sta => mode matches Some(m) && sta_mode(m),
        M6502InstructionSetSpecifier::Brk
        | M6502InstructionSetSpecifier::Clc
        | M6502InstructionSetSpecifier::Cld
        | M6502InstructionSetSpecifier::Cli
        | M6502InstructionSetSpecifier::Clv
        | M6502InstructionSetSpecifier::Dex
        | M6502InstructionSetSpecifier::Dey
        | M6502InstructionSetSpecifier::Inx
        | M6502InstructionSetSpecifier::Iny
        | M6502InstructionSetSpecifier::Jam
        | M6502InstructionSetSpecifier::Pha
        | M6502InstructionSetSpecifier::Php
        | M6502InstructionSetSpecifier::Pla
        | M6502InstructionSetSpecifier::Plp
        | M6502InstructionSetSpecifier::Rts
        | M6502InstructionSetSpecifier::Sec
        | M6502InstructionSetSpecifier::Sed
        | M6502InstructionSetSpecifier::Sei
        | M6502InstructionSetSpecifier::Txa
        | M6502InstructionSetSpecifier::Txs => true,
        _ => false,
    }
}

/// ADC runs in decimal mode: the decimal flag is set and the chip has
/// decimal mode.
pub open spec fn decimal_adc(r: M6502Registers, kind: M6502Kind) -> bool {
    r.flags & DECIMAL != 0 && kind.spec_supports_decimal()
}

/// ADC in binary: the accumulator plus the operand plus the carry; carry
/// and overflow both tell that the sum did not fit in a byte.
pub open spec fn adc(r: M6502Registers, value: u8) -> M6502Registers {
    let carry: int = if r.flags & CARRY != 0 {
        1
    } else {
        0
    };
    let sum = r.a + value + carry;
    let result = (sum % 256) as u8;
    let flags = set_flag(set_flag(r.flags, OVERFLOW, sum > 255), CARRY, sum > 255);
    M6502Registers { a: result, flags: nz(flags, result), ..r }
}

/// ARR: AND with the operand, then rotate right through the old carry.
pub open spec fn arr(r: M6502Registers, value: u8) -> M6502Registers {
    let anded = r.a & value;
    let flags = set_flag(r.flags, CARRY, anded >= 128);
    let shifted = anded >> 1u8;
    let result = if r.flags & CARRY != 0 {
        shifted | 0x80
    } else {
        shifted
    };
    let flags = set_flag(flags, OVERFLOW, (result & 0x40 != 0) != (result >= 128));
    M6502Registers { a: result, flags: nz(flags, result), ..r }
}

/// The shifted value of ASL (`left`) or ASR, with its flags: carry from
/// bit 7 and negative from bit 6 of the value before the shift.
pub open spec fn shift(flags: u8, value: u8, left: bool) -> (u8, u8) {
    let shifted = if left {
        value << 1u8
    } else {
        value >> 1u8
    };
    (shifted, set_flag(set_flag(flags, CARRY, value >= 128), NEGATIVE, value & 0x40 != 0))
}

/// Branch taken: the program counter moves by the signed offset.
pub open spec fn branch(r: M6502Registers, mode: AddressingMode, taken: bool) -> M6502Registers {
    match mode {
        AddressingMode::Relative(offset) => if taken {
            M6502Registers { program: r.program.wrapping_add_signed(offset as i16), ..r }
        } else {
            r
        },
        _ => r,
    }
}

/// Storage after writing the program counter, low byte first, at `address`.
pub open spec fn push_program(space: AddressSpace, cells: Seq<u8>, address: int, program: u16) -> Seq<
    u8,
> {
    let c = space.write_in(cells, address, (program % 256) as u8);
    space.write_in(c, address + 1, (program / 256) as u8)
}

/// BRK: pushes the program counter and the flags with break and the unused
/// bit set, and jumps through the interrupt vector.
pub open spec fn brk(r: M6502Registers, space: AddressSpace, cells: Seq<u8>) -> (
    M6502Registers,
    Seq<u8>,
) {
    let stack = r.stack.wrapping_sub(2);
    let c = push_program(space, cells, stack_slot(stack), r.program);
    let stack = stack.wrapping_sub(1);
    let c = space.write_in(c, stack_slot(stack), r.flags | UNUSED | BREAK);
    let program = byte_in(space, c, INTERRUPT_VECTOR as int) + 256 * byte_in(
        space,
        c,
        INTERRUPT_VECTOR as int + 1,
    );
    (M6502Registers { program: program as u16, stack, ..r }, c)
}

/// What an instruction does on a processor of kind `kind`: registers
/// afterwards, whether the processor jams, and storage afterwards. An ADC
/// with the decimal flag set, on a chip that has decimal mode, loads its
/// operand and changes nothing: the interpreter has no decimal arithmetic.
pub open spec fn spec_execute(
    r: M6502Registers,
    instruction: M6502InstructionSet,
    kind: M6502Kind,
    space: AddressSpace,
) -> (M6502Registers, bool, Seq<u8>) {
    let cells = space.cells();
    let mode = instruction.addressing_mode->0;
    let value = operand_value(mode, r, space, cells);
    let address = operand_address(mode, r, space, cells);
    match instruction.specifier {
        M6502InstructionSetSpecifier::Adc => if decimal_adc(r, kind) {
            (r, false, cells)
        } else {
            (adc(r, value), false, cells)
        },
        M6502InstructionSetSpecifier::Anc => {
            let result = r.a & value;
            let flags = set_flag(r.flags, CARRY | NEGATIVE, result >= 128);
            (M6502Registers { a: result, flags: set_flag(flags, ZERO, result == 0), ..r }, false, cells)
        },
        M6502InstructionSetSpecifier::And => {
            let result = r.a & value;
            (M6502Registers { a: result, flags: nz(r.flags, result), ..r }, false, cells)
        },
        M6502InstructionSetSpecifier::Ora => {
            let result = r.a | value;
            (M6502Registers { a: result, flags: nz(r.flags, result), ..r }, false, cells)
        },
        M6502InstructionSetSpecifier::Arr => (arr(r, value), false, cells),
        M6502InstructionSetSpecifier::Asl | M6502InstructionSetSpecifier::Asr => {
            let left = instruction.specifier is Asl;
            if mode is Accumulator {
                let (v, flags) = shift(r.flags, r.a, left);
                (M6502Registers { a: v, flags, ..r }, false, cells)
            } else {
                let (v, flags) = shift(r.flags, value, left);
                (M6502Registers { flags, ..r }, false, space.write_in(cells, address, v))
            }
        },
        M6502InstructionSetSpecifier::Inc => {
            let result = value.wrapping_add(1);
            (
                M6502Registers { flags: nz(r.flags, result), ..r },
                false,
                space.write_in(cells, address, result),
            )
        },
        M6502InstructionSetSpecifier::Bcc => (branch(r, mode, r.flags & CARRY == 0), false, cells),
        M6502InstructionSetSpecifier::Bcs => (branch(r, mode, r.flags & CARRY != 0), false, cells),
        M6502InstructionSetSpecifier::Beq => (branch(r, mode, r.flags & ZERO != 0), false, cells),
        M6502InstructionSetSpecifier::Bne => (branch(r, mode, r.flags & ZERO == 0), false, cells),
        M6502InstructionSetSpecifier::Bmi => (branch(r, mode, r.flags & NEGATIVE != 0), false, cells),
        M6502InstructionSetSpecifier::Bpl => (branch(r, mode, r.flags & NEGATIVE == 0), false, cells),
        M6502InstructionSetSpecifier::Bvc => (branch(r, mode, r.flags & OVERFLOW == 0), false, cells),
        M6502InstructionSetSpecifier::Bvs => (branch(r, mode, r.flags & OVERFLOW != 0), false, cells),
        M6502InstructionSetSpecifier::Brk => {
            let (r2, c2) = brk(r, space, cells);
            (r2, false, c2)
        },
        M6502InstructionSetSpecifier::Clc => (M6502Registers { flags: r.flags & !CARRY, ..r }, false, cells),
        M6502InstructionSetSpecifier::Cld => (M6502Registers { flags: r.flags & !DECIMAL, ..r }, false, cells),
        M6502InstructionSetSpecifier::Cli => (
            M6502Registers { flags: r.flags & !INTERRUPT_DISABLE, ..r },
            false,
            cells,
        ),
        M6502InstructionSetSpecifier::Clv => (M6502Registers { flags: r.flags & !OVERFLOW, ..r }, false, cells),
        M6502InstructionSetSpecifier::Sec => (M6502Registers { flags: r.flags | CARRY, ..r }, false, cells),
        M6502InstructionSetSpecifier::Sed => (M6502Registers { flags: r.flags | DECIMAL, ..r }, false, cells),
        M6502InstructionSetSpecifier::Sei => (
            M6502Registers { flags: r.flags | INTERRUPT_DISABLE, ..r },
            false,
            cells,
        ),
        M6502InstructionSetSpecifier::Dex => {
            let x = r.x.wrapping_sub(1);
            (M6502Registers { x, flags: nz(r.flags, x), ..r }, false, cells)
        },
        M6502InstructionSetSpecifier::Dey => {
            let y = r.y.wrapping_sub(1);
            (M6502Registers { y, flags: nz(r.flags, y), ..r }, false, cells)
        },
        M6502InstructionSetSpecifier::Inx => {
            let x = r.x.wrapping_add(1);
            (M6502Registers { x, flags: nz(r.flags, x), ..r }, false, cells)
        },
        M6502InstructionSetSpecifier::Iny => {
            let y = r.y.wrapping_add(1);
            (M6502Registers { y, flags: nz(r.flags, y), ..r }, false, cells)
        },
        M6502InstructionSetSpecifier::Jam => (r, true, cells),
        M6502InstructionSetSpecifier::Jsr => {
            let stack = r.stack.wrapping_sub(2);
            let target = match mode {
                AddressingMode::Absolute(a) => a,
                _ => r.program,
            };
            (
                M6502Registers { program: target, stack, ..r },
                false,
                push_program(space, cells, stack_slot(stack), r.program),
            )
        },
        M6502InstructionSetSpecifier::Lda => (
            M6502Registers { a: value, flags: nz(r.flags, value), ..r },
            false,
            cells,
        ),
        M6502InstructionSetSpecifier::Ldx => (
            M6502Registers { x: value, flags: nz(r.flags, value), ..r },
            false,
            cells,
        ),
        M6502InstructionSetSpecifier::Ldy => (
            M6502Registers { y: value, flags: nz(r.flags, value), ..r },
            false,
            cells,
        ),
        M6502InstructionSetSpecifier::Pha => {
            let stack = r.stack.wrapping_sub(1);
            (M6502Registers { stack, ..r }, false, space.write_in(cells, stack_slot(stack), r.a))
        },
        M6502InstructionSetSpecifier::Php => {
            let stack = r.stack.wrapping_sub(1);
            (
                M6502Registers { stack, ..r },
                false,
                space.write_in(cells, stack_slot(stack), r.flags | UNUSED | BREAK),
            )
        },
        M6502InstructionSetSpecifier::Pla => {
            let v = byte_in(space, cells, stack_slot(r.stack));
            (
                M6502Registers { a: v, flags: nz(r.flags, v), stack: r.stack.wrapping_add(1), ..r },
                false,
                cells,
            )
        },
        M6502InstructionSetSpecifier::Plp => (
            M6502Registers {
                flags: byte_in(space, cells, stack_slot(r.stack)),
                stack: r.stack.wrapping_add(1),
                ..r
            },
            false,
            cells,
        ),
        M6502InstructionSetSpecifier::Rts => {
            let low = byte_in(space, cells, stack_slot(r.stack));
            let high = byte_in(space, cells, stack_slot(r.stack) + 1);
            (
                M6502Registers {
                    program: (low + 256 * high) as u16,
                    stack: r.stack.wrapping_add(2),
                    ..r
                },
                false,
                cells,
            )
        },
        M6502InstructionSetSpecifier::Sax => (r, false, space.write_in(cells, address, r.a & r.x)),
        M6502InstructionSetSpecifier::Sta => (r, false, space.write_in(cells, address, r.a)),
        M6502InstructionSetSpecifier::Txa => (
            M6502Registers { a: r.x, flags: nz(r.flags, r.x), ..r },
            false,
            cells,
        ),
        M6502InstructionSetSpecifier::Txs => (M6502Registers { stack: r.x, ..r }, false, cells),
        _ => (r, false, cells),
    }
}

fn read(space: &AddressSpace, address: usize) -> (r: u8)
    requires
        space.wf(),
    ensures
        r == byte_in(*space, space.cells(), address as int),
{
    space.read_or_zero_byte(address)
}

fn write(space: &mut AddressSpace, address: usize, value: u8)
    requires
        old(space).wf(),
    ensures
        final(space).wf(),
        old(space).same_mapping(final(space)),
        final(space).cells() == old(space).write_in(old(space).cells(), address as int, value),
{
    let _ = space.write_byte(address, value);
}

fn set_flag_exec(flags: u8, bit: u8, on: bool) -> (r: u8)
    ensures
        r == set_flag(flags, bit, on),
{
    if on {
        flags | bit
    } else {
        flags & !bit
    }
}

fn nz_exec(flags: u8, v: u8) -> (r: u8)
    ensures
        r == nz(flags, v),
{
    set_flag_exec(set_flag_exec(flags, NEGATIVE, v >= 128), ZERO, v == 0)
}

/// The address a memory mode names.
fn operand_address_exec(mode: AddressingMode, r: M6502Registers, space: &AddressSpace) -> (a: usize)
    requires
        space.wf(),
        names_memory(mode),
    ensures
        a as int == operand_address(mode, r, *space, space.cells()),
{
    match mode {
        AddressingMode::Absolute(a) => a as usize,
        AddressingMode::XIndexedAbsolute(a) => a.wrapping_add(r.x as u16) as usize,
        AddressingMode::YIndexedAbsolute(a) => a.wrapping_add(r.y as u16) as usize,
        AddressingMode::ZeroPage(z) => z as usize,
        AddressingMode::XIndexedZeroPage(z) => z.wrapping_add(r.x) as usize,
        AddressingMode::YIndexedZeroPage(z) => z.wrapping_add(r.y) as usize,
        AddressingMode::XIndexedZeroPageIndirect(z) => {
            let pointer = z.wrapping_add(r.x) as usize;
            let low = read(space, pointer);
            let high = read(space, pointer + 1);
            low as usize + 256 * high as usize
        },
        AddressingMode::ZeroPageIndirectYIndexed(z) => read(space, z as usize) as usize + r.y as usize,
        _ => 0,
    }
}

/// The value an instruction loads.
fn operand_value_exec(mode: AddressingMode, r: M6502Registers, space: &AddressSpace) -> (v: u8)
    requires
        space.wf(),
        mode is Immediate || names_memory(mode),
    ensures
        v == operand_value(mode, r, *space, space.cells()),
{
    match mode {
        AddressingMode::Immediate(v) => v,
        _ => {
            let address = operand_address_exec(mode, r, space);
            read(space, address)
        },
    }
}

/// Instructions that only read memory.
fn execute_load(
    r: M6502Registers,
    instruction: M6502InstructionSet,
    kind: M6502Kind,
    space: &AddressSpace,
) -> (r2:
    M6502Registers)
    requires
        space.wf(),
        operation_defined(instruction),
        instruction.specifier is Adc || instruction.specifier is And || instruction.specifier is Ora
            || instruction.specifier is Lda || instruction.specifier is Ldx
            || instruction.specifier is Ldy || instruction.specifier is Anc
            || instruction.specifier is Arr || instruction.specifier is Nop
            || instruction.specifier is Xaa,
    ensures
        spec_execute(r, instruction, kind, *space) == (r2, false, space.cells()),
{
    let mode = match instruction.addressing_mode {
        Some(m) => m,
        None => {
            return r;
        },
    };
    let value = operand_value_exec(mode, r, space);
    match instruction.specifier {
        M6502InstructionSetSpecifier::Adc => {
            if r.flags & DECIMAL != 0 && kind.supports_decimal() {
                return r;
            }
            let carry: u16 = if r.flags & CARRY != 0 {
                1
            } else {
                0
            };
            let sum: u16 = r.a as u16 + value as u16 + carry;
            let result = (sum % 256) as u8;
            let flags = set_flag_exec(set_flag_exec(r.flags, OVERFLOW, sum > 255), CARRY, sum > 255);
            M6502Registers { a: result, flags: nz_exec(flags, result), ..r }
        },
        M6502InstructionSetSpecifier::Anc => {
            let result = r.a & value;
            let flags = set_flag_exec(r.flags, CARRY | NEGATIVE, result >= 128);
            M6502Registers { a: result, flags: set_flag_exec(flags, ZERO, result == 0), ..r }
        },
        M6502InstructionSetSpecifier::And => {
            let result = r.a & value;
            M6502Registers { a: result, flags: nz_exec(r.flags, result), ..r }
        },
        M6502InstructionSetSpecifier::Ora => {
            let result = r.a | value;
            M6502Registers { a: result, flags: nz_exec(r.flags, result), ..r }
        },
        M6502InstructionSetSpecifier::Arr => {
            let anded = r.a & value;
            let flags = set_flag_exec(r.flags, CARRY, anded >= 128);
            let shifted = anded >> 1u8;
            let result = if r.flags & CARRY != 0 {
                shifted | 0x80
            } else {
                shifted
            };
            let flags = set_flag_exec(flags, OVERFLOW, (result & 0x40 != 0) != (result >= 128));
            M6502Registers { a: result, flags: nz_exec(flags, result), ..r }
        },
        M6502InstructionSetSpecifier::Lda => M6502Registers { a: value, flags: nz_exec(r.flags, value), ..r },
        M6502InstructionSetSpecifier::Ldx => M6502Registers { x: value, flags: nz_exec(r.flags, value), ..r },
        M6502InstructionSetSpecifier::Ldy => M6502Registers { y: value, flags: nz_exec(r.flags, value), ..r },
        _ => r,
    }
}

/// ASL and ASR on the accumulator or memory, INC, SAX and STA.
fn execute_modify(
    r: M6502Registers,
    instruction: M6502InstructionSet,
    kind: M6502Kind,
    space: &mut AddressSpace,
) -> (r2:
    M6502Registers)
    requires
        old(space).wf(),
        operation_defined(instruction),
        instruction.specifier is Asl || instruction.specifier is Asr || instruction.specifier is Inc
            || instruction.specifier is Sax || instruction.specifier is Sta,
    ensures
        final(space).wf(),
        old(space).same_mapping(final(space)),
        spec_execute(r, instruction, kind, *old(space)) == (r2, false, final(space).cells()),
{
    let mode = match instruction.addressing_mode {
        Some(m) => m,
        None => {
            return r;
        },
    };
    match instruction.specifier {
        M6502InstructionSetSpecifier::Asl | M6502InstructionSetSpecifier::Asr => {
            let left = matches!(instruction.specifier, M6502InstructionSetSpecifier::Asl);
            let value = if matches!(mode, AddressingMode::Accumulator) {
                r.a
            } else {
                operand_value_exec(mode, r, space)
            };
            let shifted = if left {
                value << 1u8
            } else {
                value >> 1u8
            };
            let flags = set_flag_exec(
                set_flag_exec(r.flags, CARRY, value >= 128),
                NEGATIVE,
                value & 0x40 != 0,
            );
            if matches!(mode, AddressingMode::Accumulator) {
                M6502Registers { a: shifted, flags, ..r }
            } else {
                let address = operand_address_exec(mode, r, space);
                write(space, address, shifted);
                M6502Registers { flags, ..r }
            }
        },
        M6502InstructionSetSpecifier::Inc => {
            let value = operand_value_exec(mode, r, space);
            let address = operand_address_exec(mode, r, space);
            let result = value.wrapping_add(1);
            write(space, address, result);
            M6502Registers { flags: nz_exec(r.flags, result), ..r }
        },
        M6502InstructionSetSpecifier::Sax => {
            let address = operand_address_exec(mode, r, space);
            write(space, address, r.a & r.x);
            r
        },
        _ => {
            let address = operand_address_exec(mode, r, space);
            write(space, address, r.a);
            r
        },
    }
}

/// Writes the program counter, low byte first, at `address`.
fn push_program_exec(space: &mut AddressSpace, address: usize, program: u16)
    requires
        old(space).wf(),
        address < 0x10000,
    ensures
        final(space).wf(),
        old(space).same_mapping(final(space)),
        final(space).cells() == push_program(*old(space), old(space).cells(), address as int, program),
{
    let ghost s0 = *space;
    write(space, address, (program % 256) as u8);
    proof {
        lemma_same_mapping(&s0, space);
    }
    write(space, address + 1, (program / 256) as u8);
}

/// Instructions that use the stack or jump through memory.
fn execute_stack(
    r: M6502Registers,
    instruction: M6502InstructionSet,
    kind: M6502Kind,
    space: &mut AddressSpace,
) -> (r2:
    M6502Registers)
    requires
        old(space).wf(),
        operation_defined(instruction),
        instruction.specifier is Brk || instruction.specifier is Jsr || instruction.specifier is Pha
            || instruction.specifier is Php || instruction.specifier is Pla
            || instruction.specifier is Plp || instruction.specifier is Rts,
    ensures
        final(space).wf(),
        old(space).same_mapping(final(space)),
        spec_execute(r, instruction, kind, *old(space)) == (r2, false, final(space).cells()),
{
    let ghost s0 = *space;
    match instruction.specifier {
        M6502InstructionSetSpecifier::Brk => {
            let stack = r.stack.wrapping_sub(2);
            push_program_exec(space, STACK_BASE_ADDRESS + stack as usize, r.program);
            let stack = stack.wrapping_sub(1);
            proof {
                lemma_same_mapping(&s0, space);
            }
            write(space, STACK_BASE_ADDRESS + stack as usize, r.flags | UNUSED | BREAK);
            proof {
                lemma_same_mapping(&s0, space);
            }
            let low = read(space, INTERRUPT_VECTOR);
            let high = read(space, INTERRUPT_VECTOR + 1);
            M6502Registers { program: low as u16 + 256 * high as u16, stack, ..r }
        },
        M6502InstructionSetSpecifier::Jsr => {
            let target = match instruction.addressing_mode {
                Some(AddressingMode::Absolute(a)) => a,
                _ => r.program,
            };
            let stack = r.stack.wrapping_sub(2);
            push_program_exec(space, STACK_BASE_ADDRESS + stack as usize, r.program);
            M6502Registers { program: target, stack, ..r }
        },
        M6502InstructionSetSpecifier::Pha => {
            let stack = r.stack.wrapping_sub(1);
            write(space, STACK_BASE_ADDRESS + stack as usize, r.a);
            M6502Registers { stack, ..r }
        },
        M6502InstructionSetSpecifier::Php => {
            let stack = r.stack.wrapping_sub(1);
            write(space, STACK_BASE_ADDRESS + stack as usize, r.flags | UNUSED | BREAK);
            M6502Registers { stack, ..r }
        },
        M6502InstructionSetSpecifier::Pla => {
            let v = read(space, STACK_BASE_ADDRESS + r.stack as usize);
            M6502Registers { a: v, flags: nz_exec(r.flags, v), stack: r.stack.wrapping_add(1), ..r }
        },
        M6502InstructionSetSpecifier::Plp => {
            let v = read(space, STACK_BASE_ADDRESS + r.stack as usize);
            M6502Registers { flags: v, stack: r.stack.wrapping_add(1), ..r }
        },
        _ => {
            let low = read(space, STACK_BASE_ADDRESS + r.stack as usize);
            let high = read(space, STACK_BASE_ADDRESS + r.stack as usize + 1);
            M6502Registers {
                program: low as u16 + 256 * high as u16,
                stack: r.stack.wrapping_add(2),
                ..r
            }
        },
    }
}

/// Branches, flag instructions, register transfers and JAM.
fn execute_register(r: M6502Registers, instruction: M6502InstructionSet, kind: M6502Kind) -> (res: (
    M6502Registers,
    bool,
))
    requires
        operation_defined(instruction),
        !(instruction.specifier is Adc || instruction.specifier is And
            || instruction.specifier is Ora || instruction.specifier is Lda
            || instruction.specifier is Ldx || instruction.specifier is Ldy
            || instruction.specifier is Anc || instruction.specifier is Arr
            || instruction.specifier is Nop || instruction.specifier is Xaa
            || instruction.specifier is Asl || instruction.specifier is Asr
            || instruction.specifier is Inc || instruction.specifier is Sax
            || instruction.specifier is Sta || instruction.specifier is Brk
            || instruction.specifier is Jsr || instruction.specifier is Pha
            || instruction.specifier is Php || instruction.specifier is Pla
            || instruction.specifier is Plp || instruction.specifier is Rts),
    ensures
        forall|space: AddressSpace|
            #![trigger spec_execute(r, instruction, kind, space)]
            spec_execute(r, instruction, kind, space) == (res.0, res.1, space.cells()),
{
    let offset: i8 = match instruction.addressing_mode {
        Some(AddressingMode::Relative(v)) => v,
        _ => 0,
    };
    let taken = match instruction.specifier {
        M6502InstructionSetSpecifier::Bcc => r.flags & CARRY == 0,
        M6502InstructionSetSpecifier::Bcs => r.flags & CARRY != 0,
        M6502InstructionSetSpecifier::Beq => r.flags & ZERO != 0,
        M6502InstructionSetSpecifier::Bne => r.flags & ZERO == 0,
        M6502InstructionSetSpecifier::Bmi => r.flags & NEGATIVE != 0,
        M6502InstructionSetSpecifier::Bpl => r.flags & NEGATIVE == 0,
        M6502InstructionSetSpecifier::Bvc => r.flags & OVERFLOW == 0,
        M6502InstructionSetSpecifier::Bvs => r.flags & OVERFLOW != 0,
        _ => false,
    };
    if taken {
        return (M6502Registers { program: r.program.wrapping_add_signed(offset as i16), ..r }, false);
    }
    match instruction.specifier {
        M6502InstructionSetSpecifier::Clc => (M6502Registers { flags: r.flags & !CARRY, ..r }, false),
        M6502InstructionSetSpecifier::Cld => (M6502Registers { flags: r.flags & !DECIMAL, ..r }, false),
        M6502InstructionSetSpecifier::Cli => (
            M6502Registers { flags: r.flags & !INTERRUPT_DISABLE, ..r },
            false,
        ),
        M6502InstructionSetSpecifier::Clv => (M6502Registers { flags: r.flags & !OVERFLOW, ..r }, false),
        M6502InstructionSetSpecifier::Sec => (M6502Registers { flags: r.flags | CARRY, ..r }, false),
        M6502InstructionSetSpecifier::Sed => (M6502Registers { flags: r.flags | DECIMAL, ..r }, false),
        M6502InstructionSetSpecifier::Sei => (
            M6502Registers { flags: r.flags | INTERRUPT_DISABLE, ..r },
            false,
        ),
        M6502InstructionSetSpecifier::Dex => {
            let x = r.x.wrapping_sub(1);
            (M6502Registers { x, flags: nz_exec(r.flags, x), ..r }, false)
        },
        M6502InstructionSetSpecifier::Dey => {
            let y = r.y.wrapping_sub(1);
            (M6502Registers { y, flags: nz_exec(r.flags, y), ..r }, false)
        },
        M6502InstructionSetSpecifier::Inx => {
            let x = r.x.wrapping_add(1);
            (M6502Registers { x, flags: nz_exec(r.flags, x), ..r }, false)
        },
        M6502InstructionSetSpecifier::Iny => {
            let y = r.y.wrapping_add(1);
            (M6502Registers { y, flags: nz_exec(r.flags, y), ..r }, false)
        },
        M6502InstructionSetSpecifier::Jam => (r, true),
        M6502InstructionSetSpecifier::Txa => (M6502Registers { a: r.x, flags: nz_exec(r.flags, r.x), ..r }, false),
        M6502InstructionSetSpecifier::Txs => (M6502Registers { stack: r.x, ..r }, false),
        _ => (r, false),
    }
}

/// Runs one instruction the interpreter has on registers `r`: the
/// registers afterwards and whether the processor jammed.
pub fn execute(
    r: M6502Registers,
    instruction: M6502InstructionSet,
    kind: M6502Kind,
    space: &mut AddressSpace,
) -> (res: (
    M6502Registers,
    bool,
))
    requires
        old(space).wf(),
        operation_defined(instruction),
    ensures
        final(space).wf(),
        old(space).same_mapping(final(space)),
        spec_execute(r, instruction, kind, *old(space)) == (res.0, res.1, final(space).cells()),
{
    match instruction.specifier {
        M6502InstructionSetSpecifier::Adc
        | M6502InstructionSetSpecifier::And
        | M6502InstructionSetSpecifier::Ora
        | M6502InstructionSetSpecifier::Lda
        | M6502InstructionSetSpecifier::Ldx
        | M6502InstructionSetSpecifier::Ldy
        | M6502InstructionSetSpecifier::Anc
        | M6502InstructionSetSpecifier::Arr
        | M6502InstructionSetSpecifier::Nop
        | M6502InstructionSetSpecifier::Xaa => (execute_load(r, instruction, kind, space), false),
        M6502InstructionSetSpecifier::Asl
        | M6502InstructionSetSpecifier::Asr
        | M6502InstructionSetSpecifier::Inc
        | M6502InstructionSetSpecifier::Sax
        | M6502InstructionSetSpecifier::Sta => (execute_modify(r, instruction, kind, space), false),
        M6502InstructionSetSpecifier::Brk
        | M6502InstructionSetSpecifier::Jsr
        | M6502InstructionSetSpecifier::Pha
        | M6502InstructionSetSpecifier::Php
        | M6502InstructionSetSpecifier::Pla
        | M6502InstructionSetSpecifier::Plp
        | M6502InstructionSetSpecifier::Rts => (execute_stack(r, instruction, kind, space), false),
        _ => execute_register(r, instruction, kind),
    }
}

fn is_full_load_mode(m: AddressingMode) -> (b: bool)
    ensures
        b == full_load_mode(m),
{
    match m {
        AddressingMode::Immediate(_)
        | AddressingMode::Absolute(_)
        | AddressingMode::XIndexedAbsolute(_)
        | AddressingMode::YIndexedAbsolute(_)
        | AddressingMode::ZeroPage(_)
        | AddressingMode::XIndexedZeroPage(_)
        | AddressingMode::XIndexedZeroPageIndirect(_)
        | AddressingMode::ZeroPageIndirectYIndexed(_) => true,
        _ => false,
    }
}

fn is_ldx_mode(m: AddressingMode) -> (b: bool)
    ensures
        b == ldx_mode(m),
{
    match m {
        AddressingMode::Immediate(_)
        | AddressingMode::Absolute(_)
        | AddressingMode::YIndexedAbsolute(_)
        | AddressingMode::ZeroPage(_)
        | AddressingMode::YIndexedZeroPage(_) => true,
        _ => false,
    }
}

fn is_ldy_mode(m: AddressingMode) -> (b: bool)
    ensures
        b == ldy_mode(m),
{
    match m {
        AddressingMode::Immediate(_)
        | AddressingMode::Absolute(_)
        | AddressingMode::XIndexedAbsolute(_)
        | AddressingMode::ZeroPage(_)
        | AddressingMode::XIndexedZeroPage(_) => true,
        _ => false,
    }
}

fn is_modify_mode(m: AddressingMode) -> (b: bool)
    ensures
        b == modify_mode(m),
{
    match m {
        AddressingMode::Absolute(_)
        | AddressingMode::XIndexedAbsolute(_)
        | AddressingMode::ZeroPage(_)
        | AddressingMode::XIndexedZeroPage(_) => true,
        _ => false,
    }
}

fn is_sax_mode(m: AddressingMode) -> (b: bool)
    ensures
        b == sax_mode(m),
{
    match m {
        AddressingMode::Absolute(_)
        | AddressingMode::ZeroPage(_)
        | AddressingMode::YIndexedZeroPage(_)
        | AddressingMode::XIndexedZeroPageIndirect(_) => true,
        _ => false,
    }
}

fn is_sta_mode(m: AddressingMode) -> (b: bool)
    ensures
        b == sta_mode(m),
{
    match m {
        AddressingMode::Absolute(_)
        | AddressingMode::XIndexedAbsolute(_)
        | AddressingMode::YIndexedAbsolute(_)
        | AddressingMode::ZeroPage(_)
        | AddressingMode::XIndexedZeroPage(_)
        | AddressingMode::XIndexedZeroPageIndirect(_)
        | AddressingMode::ZeroPageIndirectYIndexed(_) => true,
        _ => false,
    }
}

/// Whether the interpreter has the instruction, with its addressing mode.
pub fn is_operation_defined(instruction: M6502InstructionSet) -> (b: bool)
    ensures
        b == operation_defined(instruction),
{
    let mode = instruction.addressing_mode;
    match instruction.specifier {
        M6502InstructionSetSpecifier::Adc
        | M6502InstructionSetSpecifier::And
        | M6502InstructionSetSpecifier::Ora
        | M6502InstructionSetSpecifier::Lda => match mode {
            Some(m) => is_full_load_mode(m),
            None => false,
        },
        M6502InstructionSetSpecifier::Anc
        | M6502InstructionSetSpecifier::Arr
        | M6502InstructionSetSpecifier::Xaa => matches!(mode, Some(AddressingMode::Immediate(_))),
        M6502InstructionSetSpecifier::Asl | M6502InstructionSetSpecifier::Asr => match mode {
            Some(AddressingMode::Accumulator) => true,
            Some(m) => is_modify_mode(m),
            None => false,
        },
        M6502InstructionSetSpecifier::Inc => match mode {
            Some(m) => is_modify_mode(m),
            None => false,
        },
        M6502InstructionSetSpecifier::Bcc
        | M6502InstructionSetSpecifier::Bcs
        | M6502InstructionSetSpecifier::Beq
        | M6502InstructionSetSpecifier::Bmi
        | M6502InstructionSetSpecifier::Bne
        | M6502InstructionSetSpecifier::Bpl
        | M6502InstructionSetSpecifier::Bvc
        | M6502InstructionSetSpecifier::Bvs => matches!(mode, Some(AddressingMode::Relative(_))),
        M6502InstructionSetSpecifier::Jsr => matches!(mode, Some(AddressingMode::Absolute(_))),
        M6502InstructionSetSpecifier::Ldx => match mode {
            Some(m) => is_ldx_mode(m),
            None => false,
        },
        M6502InstructionSetSpecifier::Ldy => match mode {
            Some(m) => is_ldy_mode(m),
            None => false,
        },
        M6502InstructionSetSpecifier::Nop => match mode {
            Some(m) => is_ldy_mode(m),
            None => true,
        },
        M6502InstructionSetSpecifier::Sax => match mode {
            Some(m) => is_sax_mode(m),
            None => false,
        },
        M6502InstructionSetSpecifier::Sta => match mode {
            Some(m) => is_sta_mode(m),
            None => false,
        },
        M6502InstructionSetSpecifier::Brk
        | M6502InstructionSetSpecifier::Clc
        | M6502InstructionSetSpecifier::Cld
        | M6502InstructionSetSpecifier::Cli
        | M6502InstructionSetSpecifier::Clv
        | M6502InstructionSetSpecifier::Dex
        | M6502InstructionSetSpecifier::Dey
        | M6502InstructionSetSpecifier::Inx
        | M6502InstructionSetSpecifier::Iny
        | M6502InstructionSetSpecifier::Jam
        | M6502InstructionSetSpecifier::Pha
        | M6502InstructionSetSpecifier::Php
        | M6502InstructionSetSpecifier::Pla
        | M6502InstructionSetSpecifier::Plp
        | M6502InstructionSetSpecifier::Rts
        | M6502InstructionSetSpecifier::Sec
        | M6502InstructionSetSpecifier::Sed
        | M6502InstructionSetSpecifier::Sei
        | M6502InstructionSetSpecifier::Txa
        | M6502InstructionSetSpecifier::Txs => true,
        _ => false,
    }
}

proof fn lemma_nz_bits(flags: u8, v: u8)
    ensures
        (nz(flags, v) & NEGATIVE != 0) == (v >= 128),
        (nz(flags, v) & ZERO != 0) == (v == 0),
{
    let n = v >= 128;
    let z = v == 0;
    let f1 = set_flag(flags, NEGATIVE, n);
    let f2 = set_flag(f1, ZERO, z);
    assert(((f2 & 0x80u8) != 0) == n && ((f2 & 0x02u8) != 0) == z) by (bit_vector)
        requires
            f1 == (if n {
                flags | 0x80u8
            } else {
                flags & !0x80u8
            }),
            f2 == (if z {
                f1 | 0x02u8
            } else {
                f1 & !0x02u8
            }),
    ;
}

proof fn lemma_adc_bits(flags: u8, over: bool, result: u8)
    ensures
        (nz(set_flag(set_flag(flags, OVERFLOW, over), CARRY, over), result) & OVERFLOW != 0)
            == over,
        (nz(set_flag(set_flag(flags, OVERFLOW, over), CARRY, over), result) & CARRY != 0) == over,
{
    let n = result >= 128;
    let z = result == 0;
    let f1 = set_flag(flags, OVERFLOW, over);
    let f2 = set_flag(f1, CARRY, over);
    let f3 = set_flag(f2, NEGATIVE, n);
    let f4 = set_flag(f3, ZERO, z);
    assert(((f4 & 0x40u8) != 0) == over && ((f4 & 0x01u8) != 0) == over) by (bit_vector)
        requires
            f1 == (if over {
                flags | 0x40u8
            } else {
                flags & !0x40u8
            }),
            f2 == (if over {
                f1 | 0x01u8
            } else {
                f1 & !0x01u8
            }),
            f3 == (if n {
                f2 | 0x80u8
            } else {
                f2 & !0x80u8
            }),
            f4 == (if z {
                f3 | 0x02u8
            } else {
                f3 & !0x02u8
            }),
    ;
}

/// The negative flag is bit 7 of an instruction's result and the zero flag
/// tells a zero result: for the instructions that put their result in the
/// accumulator (ADC in binary, AND, ORA, LDA, TXA, PLA), in X (LDX, DEX, INX) or in Y
/// (LDY, DEY, INY).
pub proof fn lemma_result_flags(
    r: M6502Registers,
    instruction: M6502InstructionSet,
    kind: M6502Kind,
    space: AddressSpace,
)
    requires
        operation_defined(instruction),
    ensures
        ({
            let r2 = spec_execute(r, instruction, kind, space).0;
            let o = instruction.specifier;
            &&& ((o is Adc && !decimal_adc(r, kind)) || o is And || o is Ora || o is Lda || o is Txa
                || o is Pla) ==> {
                &&& (r2.flags & NEGATIVE != 0) == (r2.a >= 128)
                &&& (r2.flags & ZERO != 0) == (r2.a == 0)
            }
            &&& (o is Ldx || o is Dex || o is Inx) ==> {
                &&& (r2.flags & NEGATIVE != 0) == (r2.x >= 128)
                &&& (r2.flags & ZERO != 0) == (r2.x == 0)
            }
            &&& (o is Ldy || o is Dey || o is Iny) ==> {
                &&& (r2.flags & NEGATIVE != 0) == (r2.y >= 128)
                &&& (r2.flags & ZERO != 0) == (r2.y == 0)
            }
        }),
{
    let r2 = spec_execute(r, instruction, kind, space).0;
    let o = instruction.specifier;
    if o is Adc && !decimal_adc(r, kind) {
        let value = operand_value(instruction.addressing_mode->0, r, space, space.cells());
        let carry: int = if r.flags & CARRY != 0 {
            1
        } else {
            0
        };
        let sum = r.a + value + carry;
        let flags = set_flag(set_flag(r.flags, OVERFLOW, sum > 255), CARRY, sum > 255);
        lemma_nz_bits(flags, (sum % 256) as u8);
    } else if o is And || o is Ora || o is Lda || o is Txa || o is Pla {
        lemma_nz_bits(r.flags, r2.a);
    } else if o is Ldx || o is Dex || o is Inx {
        lemma_nz_bits(r.flags, r2.x);
    } else if o is Ldy || o is Dey || o is Iny {
        lemma_nz_bits(r.flags, r2.y);
    }
}

/// ADC in binary sets overflow and carry alike, exactly when the
/// accumulator plus the operand plus the carry does not fit in a byte; the
/// accumulator keeps the sum modulo 256. In decimal mode, on a chip that has
/// it, ADC changes nothing.
pub proof fn lemma_adc_overflow(
    r: M6502Registers,
    instruction: M6502InstructionSet,
    kind: M6502Kind,
    space: AddressSpace,
)
    requires
        operation_defined(instruction),
        instruction.specifier is Adc,
    ensures
        decimal_adc(r, kind) ==> spec_execute(r, instruction, kind, space) == (r, false, space.cells()),
        !decimal_adc(r, kind) ==> ({
            let r2 = spec_execute(r, instruction, kind, space).0;
            let value = operand_value(instruction.addressing_mode->0, r, space, space.cells());
            let sum = r.a + value + (if r.flags & CARRY != 0 {
                1int
            } else {
                0int
            });
            &&& (r2.flags & OVERFLOW != 0) == (sum > 255)
            &&& (r2.flags & CARRY != 0) == (sum > 255)
            &&& r2.a == sum % 256
        }),
{
    let value = operand_value(instruction.addressing_mode->0, r, space, space.cells());
    let carry: int = if r.flags & CARRY != 0 {
        1
    } else {
        0
    };
    let sum = r.a + value + carry;
    lemma_adc_bits(r.flags, sum > 255, (sum % 256) as u8);
}

/// A subroutine call comes back: JSR pushes the program counter (the byte
/// after its three bytes) below the stack pointer and jumps; where those
/// two stack bytes are read-write storage of their own and RTS later runs
/// with the stack pointer and those bytes as JSR left them, RTS brings the
/// program counter and the stack pointer back to what they were before the
/// call.
pub proof fn lemma_jsr_rts_round_trip(
    r: M6502Registers,
    jsr: M6502InstructionSet,
    rts: M6502InstructionSet,
    kind: M6502Kind,
    space: AddressSpace,
    later: M6502Registers,
    later_space: AddressSpace,
)
    requires
        space.wf(),
        0x200 < space.size(),
        jsr.specifier is Jsr,
        jsr.addressing_mode matches Some(AddressingMode::Absolute(_)),
        rts.specifier is Rts,
        ({
            let slot = stack_slot(r.stack.wrapping_sub(2));
            &&& space.is_readable(slot) && space.is_writable(slot)
            &&& space.is_readable(slot + 1) && space.is_writable(slot + 1)
            &&& space.cell(slot) != space.cell(slot + 1)
        }),
    ensures
        ({
            let (r1, jammed, cells) = spec_execute(r, jsr, kind, space);
            let slot = stack_slot(r1.stack);
            &&& r1.program == jsr.addressing_mode->0->Absolute_0
            &&& r1.stack == r.stack.wrapping_sub(2)
            &&& (later.stack == r1.stack && byte_in(later_space, later_space.cells(), slot)
                == byte_in(space, cells, slot) && byte_in(later_space, later_space.cells(), slot + 1)
                == byte_in(space, cells, slot + 1)) ==> {
                let r5 = spec_execute(later, rts, kind, later_space).0;
                &&& r5.program == r.program
                &&& r5.stack == r.stack
            }
        }),
{
    let slot = stack_slot(r.stack.wrapping_sub(2));
    let cells = space.cells();
    let c1 = space.write_in(cells, slot, (r.program % 256) as u8);
    let c2 = space.write_in(c1, slot + 1, (r.program / 256) as u8);
    lemma_wf(&space);
    lemma_access(&space, cells, slot, (r.program % 256) as u8);
    lemma_access(&space, c1, slot + 1, (r.program / 256) as u8);
    lemma_access(&space, c2, slot, 0);
    lemma_access(&space, c2, slot + 1, 0);
    assert(byte_in(space, c2, slot) == (r.program % 256) as u8);
    assert(byte_in(space, c2, slot + 1) == (r.program / 256) as u8);
}

/// The addresses the memory modes name: an absolute address, indexed by
/// X or Y modulo 65536; a zero page address, indexed by X or Y modulo 256;
/// `(zp,X)` the little endian pointer at the X-indexed zero page address;
/// `(zp),Y` the byte at the zero page address plus Y.
pub proof fn lemma_operand_addresses(r: M6502Registers, mode: AddressingMode, space: AddressSpace, cells: Seq<u8>)
    ensures
        mode matches AddressingMode::Absolute(a) ==> operand_address(mode, r, space, cells) == a,
        mode matches AddressingMode::XIndexedAbsolute(a) ==> operand_address(mode, r, space, cells)
            == (a + r.x) % 65536,
        mode matches AddressingMode::YIndexedAbsolute(a) ==> operand_address(mode, r, space, cells)
            == (a + r.y) % 65536,
        mode matches AddressingMode::ZeroPage(z) ==> operand_address(mode, r, space, cells) == z,
        mode matches AddressingMode::XIndexedZeroPage(z) ==> operand_address(mode, r, space, cells)
            == (z + r.x) % 256,
        mode matches AddressingMode::YIndexedZeroPage(z) ==> operand_address(mode, r, space, cells)
            == (z + r.y) % 256,
        mode matches AddressingMode::XIndexedZeroPageIndirect(z) ==> operand_address(
            mode,
            r,
            space,
            cells,
        ) == space.read_or_zero(cells, (z + r.x) % 256) + 256 * space.read_or_zero(
            cells,
            (z + r.x) % 256 + 1,
        ),
        mode matches AddressingMode::ZeroPageIndirectYIndexed(z) ==> operand_address(
            mode,
            r,
            space,
            cells,
        ) == space.read_or_zero(cells, z as int) + r.y,
        mode matches AddressingMode::Immediate(v) ==> operand_value(mode, r, space, cells) == v,
        !(mode is Immediate) ==> operand_value(mode, r, space, cells) == space.read_or_zero(
            cells,
            operand_address(mode, r, space, cells),
        ),
{
}

/// What the register instructions of the first model compute: LDA, LDX
/// and LDY take the operand; AND and ORA combine it with A; TXA and TXS
/// copy X; INX, INY, DEX and DEY step X or Y by one modulo 256; the
/// register written decides negative (bit 7) and zero. None of them jams or
/// writes memory, and the registers they do not name stay.
pub proof fn lemma_register_instructions(
    r: M6502Registers,
    instruction: M6502InstructionSet,
    kind: M6502Kind,
    space: AddressSpace,
)
    requires
        operation_defined(instruction),
    ensures
        ({
            let (r2, jammed, cells) = spec_execute(r, instruction, kind, space);
            let v = operand_value(instruction.addressing_mode->0, r, space, space.cells());
            let o = instruction.specifier;
            &&& (o is Lda || o is Ldx || o is Ldy || o is And || o is Ora || o is Txa || o is Txs
                || o is Inx || o is Iny || o is Dex || o is Dey) ==> (!jammed && cells
                == space.cells() && r2.program == r.program)
            &&& o is Lda ==> r2.a == v && r2.x == r.x && r2.y == r.y
            &&& o is Ldx ==> r2.x == v && r2.a == r.a && r2.y == r.y
            &&& o is Ldy ==> r2.y == v && r2.a == r.a && r2.x == r.x
            &&& o is And ==> r2.a == r.a & v && r2.x == r.x && r2.y == r.y
            &&& o is Ora ==> r2.a == r.a | v && r2.x == r.x && r2.y == r.y
            &&& o is Txa ==> r2.a == r.x && r2.x == r.x
            &&& o is Txs ==> r2.stack == r.x && r2.a == r.a && r2.flags == r.flags
            &&& o is Inx ==> r2.x == (r.x + 1) % 256 && r2.y == r.y
            &&& o is Iny ==> r2.y == (r.y + 1) % 256 && r2.x == r.x
            &&& o is Dex ==> r2.x == (r.x + 255) % 256 && r2.y == r.y
            &&& o is Dey ==> r2.y == (r.y + 255) % 256 && r2.x == r.x
        }),
{
}

/// STA stores A and SAX stores A and X at the address the mode names,
/// changing no register; where that address is read-write storage, a read
/// there afterwards gives the stored value. INC stores the byte there plus
/// one, modulo 256.
pub proof fn lemma_store_reads_back(
    r: M6502Registers,
    instruction: M6502InstructionSet,
    kind: M6502Kind,
    space: AddressSpace,
)
    requires
        space.wf(),
        operation_defined(instruction),
        instruction.specifier is Sta || instruction.specifier is Sax || instruction.specifier is Inc,
        ({
            let address = operand_address(instruction.addressing_mode->0, r, space, space.cells());
            &&& 0 <= address < space.size()
            &&& space.is_readable(address)
            &&& space.is_writable(address)
        }),
    ensures
        ({
            let (r2, jammed, cells) = spec_execute(r, instruction, kind, space);
            let mode = instruction.addressing_mode->0;
            let address = operand_address(mode, r, space, space.cells());
            let before = space.read_or_zero(space.cells(), address);
            &&& !jammed
            &&& instruction.specifier is Sta ==> r2 == r && space.read_or_zero(cells, address) == r.a
            &&& instruction.specifier is Sax ==> r2 == r && space.read_or_zero(cells, address) == r.a
                & r.x
            &&& instruction.specifier is Inc ==> space.read_or_zero(cells, address) == (before + 1)
                % 256
        }),
{
    let mode = instruction.addressing_mode->0;
    let address = operand_address(mode, r, space, space.cells());
    let value = if instruction.specifier is Sta {
        r.a
    } else if instruction.specifier is Sax {
        r.a & r.x
    } else {
        operand_value(mode, r, space, space.cells()).wrapping_add(1)
    };
    lemma_wf(&space);
    lemma_access(&space, space.cells(), address, value);
    lemma_access(&space, space.write_in(space.cells(), address, value), address, value);
}

/// The condition a branch of the first model tests on the status byte.
pub open spec fn branch_condition(o: M6502InstructionSetSpecifier, flags: u8) -> bool {
    if o is Bcc {
        flags & CARRY == 0
    } else if o is Bcs {
        flags & CARRY != 0
    } else if o is Beq {
        flags & ZERO != 0
    } else if o is Bne {
        flags & ZERO == 0
    } else if o is Bmi {
        flags & NEGATIVE != 0
    } else if o is Bpl {
        flags & NEGATIVE == 0
    } else if o is Bvc {
        flags & OVERFLOW == 0
    } else {
        flags & OVERFLOW != 0
    }
}

/// A branch moves the program counter by its signed offset, modulo 65536,
/// exactly when its condition holds (BCC carry clear, BCS carry set, BEQ
/// zero set, BNE zero clear, BMI negative set, BPL negative clear, BVC
/// overflow clear, BVS overflow set); nothing else changes.
pub proof fn lemma_branches(
    r: M6502Registers,
    instruction: M6502InstructionSet,
    kind: M6502Kind,
    space: AddressSpace,
)
    requires
        operation_defined(instruction),
        ({
            let o = instruction.specifier;
            o is Bcc || o is Bcs || o is Beq || o is Bne || o is Bmi || o is Bpl || o is Bvc
                || o is Bvs
        }),
    ensures
        ({
            let (r2, jammed, cells) = spec_execute(r, instruction, kind, space);
            let offset = instruction.addressing_mode->0->Relative_0;
            &&& r2 == M6502Registers {
                program: if branch_condition(instruction.specifier, r.flags) {
                    ((r.program + offset + 65536) % 65536) as u16
                } else {
                    r.program
                },
                ..r
            }
            &&& !jammed
            &&& cells == space.cells()
        }),
{
}

/// ASL and ASR of the first model: the value (A in accumulator mode, the
/// named byte otherwise) is shifted left (ASL, modulo 256) or right (ASR) by
/// one; carry takes its bit 7 and negative its bit 6, whichever way it
/// shifts. In accumulator mode the result lands in A.
pub proof fn lemma_shifts(
    r: M6502Registers,
    instruction: M6502InstructionSet,
    kind: M6502Kind,
    space: AddressSpace,
)
    requires
        operation_defined(instruction),
        instruction.specifier is Asl || instruction.specifier is Asr,
        instruction.addressing_mode == Some(AddressingMode::Accumulator),
    ensures
        ({
            let (r2, jammed, cells) = spec_execute(r, instruction, kind, space);
            &&& instruction.specifier is Asl ==> r2.a == (2 * r.a) % 256
            &&& instruction.specifier is Asr ==> r2.a == r.a / 2
            &&& (r2.flags & CARRY != 0) == (r.a >= 128)
            &&& (r2.flags & NEGATIVE != 0) == (r.a & 0x40 != 0)
            &&& r2.x == r.x && r2.y == r.y && r2.stack == r.stack
            &&& cells == space.cells()
        }),
{
    let a = r.a;
    let f = r.flags;
    let c = a >= 128;
    let n = a & 0x40 != 0;
    let f1 = set_flag(f, CARRY, c);
    let f2 = set_flag(f1, NEGATIVE, n);
    assert(a << 1u8 == (2 * a) % 256 && a >> 1u8 == a / 2) by (bit_vector);
    assert(((f2 & 0x01u8) != 0) == c && ((f2 & 0x80u8) != 0) == n) by (bit_vector)
        requires
            f1 == (if c {
                f | 0x01u8
            } else {
                f & !0x01u8
            }),
            f2 == (if n {
                f1 | 0x80u8
            } else {
                f1 & !0x80u8
            }),
    ;
}

/// The stack instructions of the first model, with the stack in page one:
/// PHA and PHP move the stack pointer down one (modulo 256) and write A, or
/// the flags with break and the unused bit set, at the slot it then points
/// at; PLA and PLP read the slot the stack pointer points at into A or the
/// flags and move it up one. Where the slot is read-write storage the
/// pushed byte reads back.
pub proof fn lemma_stack_instructions(
    r: M6502Registers,
    instruction: M6502InstructionSet,
    kind: M6502Kind,
    space: AddressSpace,
)
    requires
        space.wf(),
        0x200 <= space.size(),
        instruction.specifier is Pha || instruction.specifier is Php || instruction.specifier is Pla
            || instruction.specifier is Plp,
    ensures
        ({
            let (r2, jammed, cells) = spec_execute(r, instruction, kind, space);
            let down = ((r.stack + 255) % 256) as u8;
            let slot = 0x100 + down;
            let pulled = space.read_or_zero(space.cells(), 0x100 + r.stack);
            &&& !jammed
            &&& (instruction.specifier is Pha || instruction.specifier is Php) ==> (r2 == M6502Registers { stack: down, ..r })
            &&& (instruction.specifier is Pha && space.is_readable(slot) && space.is_writable(slot))
                ==> space.read_or_zero(cells, slot) == r.a
            &&& (instruction.specifier is Php && space.is_readable(slot) && space.is_writable(slot))
                ==> space.read_or_zero(cells, slot) == r.flags | 0x30
            &&& instruction.specifier is Pla ==> r2.a == pulled && r2.stack == (r.stack + 1) % 256
                && cells == space.cells()
            &&& instruction.specifier is Plp ==> r2.flags == pulled && r2.stack == (r.stack + 1)
                % 256 && cells == space.cells()
        }),
{
    let down = ((r.stack + 255) % 256) as u8;
    let slot = 0x100 + down;
    let value = if instruction.specifier is Pha {
        r.a
    } else {
        r.flags | UNUSED | BREAK
    };
    let f = r.flags;
    assert(f | 0x20u8 | 0x10u8 == f | 0x30u8) by (bit_vector);
    lemma_wf(&space);
    lemma_access(&space, space.cells(), slot, value);
    lemma_access(&space, space.write_in(space.cells(), slot, value), slot, value);
}

} // verus!
