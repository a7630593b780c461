//! Decoding of the first 6502 model's instructions. An opcode byte
//! `aaabbbcc` names its group by `cc`, its operation by `aaa` and its
//! addressing mode by `bbb`; operands follow in little endian order.
use vstd::prelude::*;

use super::instruction::{
    AddressingMode, M6502InstructionSet, M6502InstructionSetSpecifier, byte_at, word_at,
};
use crate::memory::AddressSpace;

verus! {

/// The operation bits `aaa` of an opcode byte.
pub open spec fn identifier_of(byte: u8) -> u8 {
    byte / 32
}

/// The addressing mode bits `bbb` of an opcode byte.
pub open spec fn argument_of(byte: u8) -> u8 {
    (byte / 4) % 8
}

/// An instruction with an operand.
pub open spec fn with_mode(
    specifier: M6502InstructionSetSpecifier,
    mode: AddressingMode,
    length: u8,
) -> (M6502InstructionSet, u8) {
    (M6502InstructionSet { specifier, addressing_mode: Some(mode) }, length)
}

/// A one byte instruction without an operand.
pub open spec fn implied(specifier: M6502InstructionSetSpecifier) -> (M6502InstructionSet, u8) {
    (M6502InstructionSet { specifier, addressing_mode: None }, 1)
}

/// A group one (`cc = 01`) instruction whose operand starts at `cursor`,
/// with its length including the opcode.
pub open spec fn spec_group1(cursor: u16, space: AddressSpace, byte: u8) -> (M6502InstructionSet, u8) {
    let id = identifier_of(byte);
    let (mode, length) = AddressingMode::spec_from_group1_addressing(
        cursor,
        space,
        argument_of(byte),
    );
    let specifier = if id == 0 {
        M6502InstructionSetSpecifier::Ora
    } else if id == 1 {
        M6502InstructionSetSpecifier::And
    } else if id == 2 {
        M6502InstructionSetSpecifier::Eor
    } else if id == 3 {
        M6502InstructionSetSpecifier::Adc
    } else if id == 4 {
        if mode is Immediate {
            M6502InstructionSetSpecifier::Nop
        } else {
            M6502InstructionSetSpecifier::Sta
        }
    } else if id == 5 {
        M6502InstructionSetSpecifier::Lda
    } else if id == 6 {
        M6502InstructionSetSpecifier::Cmp
    } else {
        M6502InstructionSetSpecifier::Sbc
    };
    with_mode(specifier, mode, (1 + length) as u8)
}

/// Whether a group two opcode decodes; some of its operations are not
/// implemented.
pub open spec fn group2_defined(byte: u8) -> bool {
    let id = identifier_of(byte);
    let argument = argument_of(byte);
    id <= 3 || argument == 4 || (id >= 6 && argument == 6)
}

/// A group two (`cc = 10`) instruction.
pub open spec fn spec_group2(cursor: u16, space: AddressSpace, byte: u8) -> (M6502InstructionSet, u8) {
    let id = identifier_of(byte);
    let (mode, length) = AddressingMode::spec_from_group2_addressing(
        cursor,
        space,
        argument_of(byte),
    );
    if mode is ZeroPageIndirectYIndexed || (id <= 3 && mode is XIndexedZeroPageIndirect) {
        implied(M6502InstructionSetSpecifier::Jam)
    } else if mode is YIndexedAbsolute {
        implied(M6502InstructionSetSpecifier::Nop)
    } else {
        let specifier = if id == 0 {
            M6502InstructionSetSpecifier::Asl
        } else if id == 1 {
            M6502InstructionSetSpecifier::Rol
        } else if id == 2 {
            M6502InstructionSetSpecifier::Lsr
        } else {
            M6502InstructionSetSpecifier::Ror
        };
        with_mode(specifier, mode, (1 + length) as u8)
    }
}

/// Whether an undocumented opcode decodes.
pub open spec fn undocumented_defined(byte: u8) -> bool {
    !(identifier_of(byte) == 4 && argument_of(byte) == 0)
}

/// An undocumented (`cc = 11`) instruction.
pub open spec fn spec_undocumented(cursor: u16, space: AddressSpace, byte: u8) -> (
    M6502InstructionSet,
    u8,
) {
    let id = identifier_of(byte);
    let (mode, length) = AddressingMode::spec_from_group1_addressing(
        cursor,
        space,
        argument_of(byte),
    );
    let immediate = mode is Immediate;
    let length = (1 + length) as u8;
    if id == 0 {
        with_mode(
            if immediate {
                M6502InstructionSetSpecifier::Anc
            } else {
                M6502InstructionSetSpecifier::Slo
            },
            mode,
            length,
        )
    } else if id == 1 {
        with_mode(
            if immediate {
                M6502InstructionSetSpecifier::Anc
            } else {
                M6502InstructionSetSpecifier::Rla
            },
            mode,
            length,
        )
    } else if id == 2 {
        with_mode(
            if immediate {
                M6502InstructionSetSpecifier::Anc
            } else {
                M6502InstructionSetSpecifier::Sre
            },
            mode,
            length,
        )
    } else if id == 3 {
        with_mode(
            if immediate {
                M6502InstructionSetSpecifier::Anc
            } else {
                M6502InstructionSetSpecifier::Rra
            },
            mode,
            length,
        )
    } else if id == 4 {
        match mode {
            AddressingMode::Immediate(_) => with_mode(M6502InstructionSetSpecifier::Xaa, mode, length),
            AddressingMode::YIndexedAbsolute(_) => with_mode(
                M6502InstructionSetSpecifier::Shs,
                mode,
                length,
            ),
            AddressingMode::XIndexedAbsolute(address) => with_mode(
                M6502InstructionSetSpecifier::Sha,
                AddressingMode::YIndexedAbsolute(address),
                length,
            ),
            AddressingMode::ZeroPageIndirectYIndexed(_) => with_mode(
                M6502InstructionSetSpecifier::Sha,
                mode,
                length,
            ),
            _ => with_mode(M6502InstructionSetSpecifier::Sax, mode, length),
        }
    } else if id == 5 {
        with_mode(
            if mode is YIndexedAbsolute {
                M6502InstructionSetSpecifier::Las
            } else {
                M6502InstructionSetSpecifier::Lax
            },
            mode,
            length,
        )
    } else if id == 6 {
        with_mode(
            if immediate {
                M6502InstructionSetSpecifier::Sbx
            } else {
                M6502InstructionSetSpecifier::Dcp
            },
            mode,
            length,
        )
    } else {
        with_mode(
            if immediate {
                M6502InstructionSetSpecifier::Sbc
            } else {
                M6502InstructionSetSpecifier::Isc
            },
            mode,
            length,
        )
    }
}

/// Whether a group three opcode decodes; only its first row and `JSR` are
/// implemented.
pub open spec fn group3_defined(byte: u8) -> bool {
    identifier_of(byte) == 0 || (identifier_of(byte) == 1 && argument_of(byte) == 0)
}

/// A group three (`cc = 00`) instruction.
pub open spec fn spec_group3(cursor: u16, space: AddressSpace, byte: u8) -> (M6502InstructionSet, u8) {
    let argument = argument_of(byte);
    if identifier_of(byte) == 0 {
        if argument == 0 {
            implied(M6502InstructionSetSpecifier::Brk)
        } else if argument == 2 {
            implied(M6502InstructionSetSpecifier::Php)
        } else if argument == 4 {
            with_mode(
                M6502InstructionSetSpecifier::Bpl,
                AddressingMode::Relative(byte_at(space, cursor) as i8),
                2,
            )
        } else if argument == 6 {
            implied(M6502InstructionSetSpecifier::Clc)
        } else {
            let (mode, length) = AddressingMode::spec_from_group1_addressing(
                cursor,
                space,
                argument,
            );
            with_mode(M6502InstructionSetSpecifier::Nop, mode, (1 + length) as u8)
        }
    } else {
        with_mode(M6502InstructionSetSpecifier::Jsr, AddressingMode::Absolute(word_at(space, cursor)), 3)
    }
}

/// Whether the opcode byte decodes.
pub open spec fn decode_defined(byte: u8) -> bool {
    let group = byte % 4;
    if group == 0 {
        group3_defined(byte)
    } else if group == 1 {
        true
    } else if group == 2 {
        group2_defined(byte)
    } else {
        undocumented_defined(byte)
    }
}

/// The instruction whose opcode byte is at `cursor`, with its length in
/// bytes. An opcode whose decoding is not implemented decodes to `JAM`, one
/// byte long: nonsense in, a halted processor out.
pub open spec fn spec_decode(cursor: u16, space: AddressSpace) -> (M6502InstructionSet, u8) {
    let byte = byte_at(space, cursor);
    let operand = ((cursor + 1) % 65536) as u16;
    let group = byte % 4;
    if !decode_defined(byte) {
        implied(M6502InstructionSetSpecifier::Jam)
    } else if group == 0 {
        spec_group3(operand, space, byte)
    } else if group == 1 {
        spec_group1(operand, space, byte)
    } else if group == 2 {
        spec_group2(operand, space, byte)
    } else {
        spec_undocumented(operand, space, byte)
    }
}

fn read_byte(space: &AddressSpace, address: u16) -> (r: u8)
    requires
        space.wf(),
    ensures
        r == byte_at(*space, address),
{
    space.read_or_zero_byte(address as usize)
}

/// Decodes a group one instruction whose operand starts at `cursor`.
pub fn decode_group1_space_instruction(
    cursor: u16,
    space: &AddressSpace,
    instruction_identifier: u8,
    instruction_first_byte: u8,
) -> (r: (M6502InstructionSet, u8))
    requires
        space.wf(),
        instruction_identifier == identifier_of(instruction_first_byte),
    ensures
        r == spec_group1(cursor, *space, instruction_first_byte),
{
    let argument = (instruction_first_byte / 4) % 8;
    let (mode, length) = AddressingMode::from_group1_addressing(cursor, space, argument);
    let specifier = match instruction_identifier {
        0 => M6502InstructionSetSpecifier::Ora,
        1 => M6502InstructionSetSpecifier::And,
        2 => M6502InstructionSetSpecifier::Eor,
        3 => M6502InstructionSetSpecifier::Adc,
        4 => {
            if matches!(mode, AddressingMode::Immediate(..)) {
                M6502InstructionSetSpecifier::Nop
            } else {
                M6502InstructionSetSpecifier::Sta
            }
        },
        5 => M6502InstructionSetSpecifier::Lda,
        6 => M6502InstructionSetSpecifier::Cmp,
        _ => M6502InstructionSetSpecifier::Sbc,
    };
    (M6502InstructionSet { specifier, addressing_mode: Some(mode) }, 1 + length)
}

/// Decodes a group two instruction whose operand starts at `cursor`.
pub fn decode_group2_space_instruction(
    cursor: u16,
    space: &AddressSpace,
    instruction_identifier: u8,
    instruction_first_byte: u8,
) -> (r: (M6502InstructionSet, u8))
    requires
        space.wf(),
        instruction_identifier == identifier_of(instruction_first_byte),
        group2_defined(instruction_first_byte),
    ensures
        r == spec_group2(cursor, *space, instruction_first_byte),
{
    let argument = (instruction_first_byte / 4) % 8;
    let (mode, length) = AddressingMode::from_group2_addressing(cursor, space, argument);
    if matches!(mode, AddressingMode::ZeroPageIndirectYIndexed(..)) || (instruction_identifier <= 3
        && matches!(mode, AddressingMode::XIndexedZeroPageIndirect(..))) {
        return (
            M6502InstructionSet { specifier: M6502InstructionSetSpecifier::Jam, addressing_mode: None },
            1,
        );
    }
    if matches!(mode, AddressingMode::YIndexedAbsolute(..)) {
        return (
            M6502InstructionSet { specifier: M6502InstructionSetSpecifier::Nop, addressing_mode: None },
            1,
        );
    }
    let specifier = match instruction_identifier {
        0 => M6502InstructionSetSpecifier::Asl,
        1 => M6502InstructionSetSpecifier::Rol,
        2 => M6502InstructionSetSpecifier::Lsr,
        _ => M6502InstructionSetSpecifier::Ror,
    };
    (M6502InstructionSet { specifier, addressing_mode: Some(mode) }, 1 + length)
}

/// Decodes an undocumented instruction whose operand starts at `cursor`.
pub fn decode_undocumented_space_instruction(
    cursor: u16,
    space: &AddressSpace,
    instruction_identifier: u8,
    instruction_first_byte: u8,
) -> (r: (M6502InstructionSet, u8))
    requires
        space.wf(),
        instruction_identifier == identifier_of(instruction_first_byte),
        undocumented_defined(instruction_first_byte),
    ensures
        r == spec_undocumented(cursor, *space, instruction_first_byte),
{
    let argument = (instruction_first_byte / 4) % 8;
    let (mode, length) = AddressingMode::from_group1_addressing(cursor, space, argument);
    let immediate = matches!(mode, AddressingMode::Immediate(..));
    let length = 1 + length;
    let specifier = match instruction_identifier {
        0 => if immediate {
            M6502InstructionSetSpecifier::Anc
        } else {
            M6502InstructionSetSpecifier::Slo
        },
        1 => if immediate {
            M6502InstructionSetSpecifier::Anc
        } else {
            M6502InstructionSetSpecifier::Rla
        },
        2 => if immediate {
            M6502InstructionSetSpecifier::Anc
        } else {
            M6502InstructionSetSpecifier::Sre
        },
        3 => if immediate {
            M6502InstructionSetSpecifier::Anc
        } else {
            M6502InstructionSetSpecifier::Rra
        },
        4 => {
            return match mode {
                AddressingMode::Immediate(_) => (
                    M6502InstructionSet {
                        specifier: M6502InstructionSetSpecifier::Xaa,
                        addressing_mode: Some(mode),
                    },
                    length,
                ),
                AddressingMode::YIndexedAbsolute(_) => (
                    M6502InstructionSet {
                        specifier: M6502InstructionSetSpecifier::Shs,
                        addressing_mode: Some(mode),
                    },
                    length,
                ),
                AddressingMode::XIndexedAbsolute(address) => (
                    M6502InstructionSet {
                        specifier: M6502InstructionSetSpecifier::Sha,
                        addressing_mode: Some(AddressingMode::YIndexedAbsolute(address)),
                    },
                    length,
                ),
                AddressingMode::ZeroPageIndirectYIndexed(_) => (
                    M6502InstructionSet {
                        specifier: M6502InstructionSetSpecifier::Sha,
                        addressing_mode: Some(mode),
                    },
                    length,
                ),
                _ => (
                    M6502InstructionSet {
                        specifier: M6502InstructionSetSpecifier::Sax,
                        addressing_mode: Some(mode),
                    },
                    length,
                ),
            };
        },
        5 => if matches!(mode, AddressingMode::YIndexedAbsolute(..)) {
            M6502InstructionSetSpecifier::Las
        } else {
            M6502InstructionSetSpecifier::Lax
        },
        6 => if immediate {
            M6502InstructionSetSpecifier::Sbx
        } else {
            M6502InstructionSetSpecifier::Dcp
        },
        _ => if immediate {
            M6502InstructionSetSpecifier::Sbc
        } else {
            M6502InstructionSetSpecifier::Isc
        },
    };
    (M6502InstructionSet { specifier, addressing_mode: Some(mode) }, length)
}

/// Decodes a group three instruction whose operand starts at `cursor`.
fn decode_group3_space_instruction(
    cursor: u16,
    space: &AddressSpace,
    instruction_identifier: u8,
    instruction_first_byte: u8,
) -> (r: (M6502InstructionSet, u8))
    requires
        space.wf(),
        instruction_identifier == identifier_of(instruction_first_byte),
        group3_defined(instruction_first_byte),
    ensures
        r == spec_group3(cursor, *space, instruction_first_byte),
{
    let argument = (instruction_first_byte / 4) % 8;
    if instruction_identifier == 0 {
        match argument {
            0 => (
                M6502InstructionSet { specifier: M6502InstructionSetSpecifier::Brk, addressing_mode: None },
                1,
            ),
            2 => (
                M6502InstructionSet { specifier: M6502InstructionSetSpecifier::Php, addressing_mode: None },
                1,
            ),
            4 => {
                let relative = read_byte(space, cursor) as i8;
                (
                    M6502InstructionSet {
                        specifier: M6502InstructionSetSpecifier::Bpl,
                        addressing_mode: Some(AddressingMode::Relative(relative)),
                    },
                    2,
                )
            },
            6 => (
                M6502InstructionSet { specifier: M6502InstructionSetSpecifier::Clc, addressing_mode: None },
                1,
            ),
            _ => {
                let (mode, length) = AddressingMode::from_group1_addressing(cursor, space, argument);
                (
                    M6502InstructionSet {
                        specifier: M6502InstructionSetSpecifier::Nop,
                        addressing_mode: Some(mode),
                    },
                    1 + length,
                )
            },
        }
    } else {
        let low = read_byte(space, cursor);
        let high = read_byte(space, cursor.wrapping_add(1));
        (
            M6502InstructionSet {
                specifier: M6502InstructionSetSpecifier::Jsr,
                addressing_mode: Some(AddressingMode::Absolute(low as u16 + 256 * high as u16)),
            },
            3,
        )
    }
}

/// Decoder that reads instructions out of an address space.
#[derive(Debug, Default, Clone, Copy)]
pub struct M6502InstructionDecoder;

impl M6502InstructionDecoder {
    /// Decodes the instruction at `cursor`, taken modulo the 16 bit address
    /// range, giving it with its length; unreadable bytes read as 0. Every
    /// opcode decodes to something: one whose decoding is not implemented
    /// gives `JAM`.
    pub fn decode(&self, cursor: usize, space: &AddressSpace) -> (r: Option<(M6502InstructionSet, u8)>)
        requires
            space.wf(),
        ensures
            r == Some(spec_decode((cursor % 65536) as u16, *space)),
            !decode_defined(byte_at(*space, (cursor % 65536) as u16)) ==> r == Some(
                implied(M6502InstructionSetSpecifier::Jam),
            ),
    {
        if !self.decodes(cursor, space) {
            return Some(
                (
                    M6502InstructionSet {
                        specifier: M6502InstructionSetSpecifier::Jam,
                        addressing_mode: None,
                    },
                    1,
                ),
            );
        }
        let cursor = (cursor % 65536) as u16;
        let byte = read_byte(space, cursor);
        let operand = cursor.wrapping_add(1);
        let identifier = byte / 32;
        Some(
            match byte % 4 {
                0 => decode_group3_space_instruction(operand, space, identifier, byte),
                1 => decode_group1_space_instruction(operand, space, identifier, byte),
                2 => decode_group2_space_instruction(operand, space, identifier, byte),
                _ => decode_undocumented_space_instruction(operand, space, identifier, byte),
            },
        )
    }

    /// Whether the opcode byte at `cursor` decodes.
    pub fn decodes(&self, cursor: usize, space: &AddressSpace) -> (r: bool)
        requires
            space.wf(),
        ensures
            r == decode_defined(byte_at(*space, (cursor % 65536) as u16)),
    {
        let byte = read_byte(space, (cursor % 65536) as u16);
        let group = byte % 4;
        let id = byte / 32;
        let argument = (byte / 4) % 8;
        if group == 0 {
            id == 0 || (id == 1 && argument == 0)
        } else if group == 1 {
            true
        } else if group == 2 {
            id <= 3 || argument == 4 || (id >= 6 && argument == 6)
        } else {
            !(id == 4 && argument == 0)
        }
    }
}

/// Operations of the opcodes `aaabbb01`, by `aaa`: ORA, AND, EOR, ADC,
/// STA (NOP with an immediate operand), LDA, CMP, SBC.
pub open spec fn group_one_operation(aaa: u8, bbb: u8) -> M6502InstructionSetSpecifier {
    if aaa == 0 {
        M6502InstructionSetSpecifier::Ora
    } else if aaa == 1 {
        M6502InstructionSetSpecifier::And
    } else if aaa == 2 {
        M6502InstructionSetSpecifier::Eor
    } else if aaa == 3 {
        M6502InstructionSetSpecifier::Adc
    } else if aaa == 4 {
        if bbb == 2 {
            M6502InstructionSetSpecifier::Nop
        } else {
            M6502InstructionSetSpecifier::Sta
        }
    } else if aaa == 5 {
        M6502InstructionSetSpecifier::Lda
    } else if aaa == 6 {
        M6502InstructionSetSpecifier::Cmp
    } else {
        M6502InstructionSetSpecifier::Sbc
    }
}

/// Addressing modes of the opcodes `aaabbb01`, by `bbb`, with the operand
/// byte `b` or word `w` after the opcode.
pub open spec fn group_one_mode(bbb: u8, b: u8, w: u16) -> AddressingMode {
    if bbb == 0 {
        AddressingMode::XIndexedZeroPageIndirect(b)
    } else if bbb == 1 {
        AddressingMode::ZeroPage(b)
    } else if bbb == 2 {
        AddressingMode::Immediate(b)
    } else if bbb == 3 {
        AddressingMode::Absolute(w)
    } else if bbb == 4 {
        AddressingMode::ZeroPageIndirectYIndexed(b)
    } else if bbb == 5 {
        AddressingMode::XIndexedZeroPage(b)
    } else if bbb == 6 {
        AddressingMode::YIndexedAbsolute(w)
    } else {
        AddressingMode::XIndexedAbsolute(w)
    }
}

/// The first model decodes the opcodes `aaabbb01` by the 6502's table:
/// `aaa` picks the operation (see `group_one_operation`), `bbb` the
/// addressing mode, whose operand is the byte after the opcode, or the
/// little endian word there for the absolute modes; the instruction is two
/// bytes long, three with a word operand. Opcode `0x20` is JSR with the
/// word after it, three bytes long; `0x00`, `0x08` and `0x18` are BRK, PHP
/// and CLC, one byte long.
pub proof fn lemma_decode_group_one(cursor: u16, space: AddressSpace)
    ensures
        ({
            let byte = byte_at(space, cursor);
            let next = ((cursor + 1) % 65536) as u16;
            let b = space.read_or_zero(space.cells(), next as int);
            let w = (b + 256 * space.read_or_zero(space.cells(), (next + 1) % 65536)) as u16;
            let (instruction, length) = spec_decode(cursor, space);
            let aaa = byte / 32;
            let bbb = (byte / 4) % 8;
            &&& byte % 4 == 1 ==> {
                &&& instruction.specifier == group_one_operation(aaa, bbb)
                &&& instruction.addressing_mode == Some(group_one_mode(bbb, b, w))
                &&& length == if bbb == 3 || bbb == 6 || bbb == 7 {
                    3u8
                } else {
                    2u8
                }
            }
            &&& byte == 0x20 ==> instruction == M6502InstructionSet {
                specifier: M6502InstructionSetSpecifier::Jsr,
                addressing_mode: Some(AddressingMode::Absolute(w)),
            } && length == 3
            &&& byte == 0x00 ==> instruction.specifier is Brk && instruction.addressing_mode is None
                && length == 1
            &&& byte == 0x08 ==> instruction.specifier is Php && instruction.addressing_mode is None
                && length == 1
            &&& byte == 0x18 ==> instruction.specifier is Clc && instruction.addressing_mode is None
                && length == 1
        }),
{
}

} // verus!
