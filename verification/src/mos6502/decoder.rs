//! Decoding of the first byte of a 6502 instruction.
//!
//! The opcode byte is split as `aaabbbcc`: `cc` picks one of four instruction
//! groups, `aaa` the operation inside the group and `bbb` mostly the
//! addressing mode.
use vstd::prelude::*;

use super::Mos6502Kind;
use super::instruction::{
    AddressingMode, Mos6502AddressingMode, Mos6502InstructionSet, Mos6502Opcode, Opcode,
    Wdc65C02AddressingMode,
};
use crate::memory::AddressSpace;

verus! {

/// The four instruction groups, selected by the low two bits of the opcode.
#[derive(Debug, Copy, Clone, PartialEq, Eq, Structural)]
pub enum InstructionGroup {
    Group3,
    Group1,
    Group2,
    Undocumented,
}

impl InstructionGroup {
    pub open spec fn spec_from_repr(bits: u8) -> Option<InstructionGroup> {
        if bits == 0 {
            Some(InstructionGroup::Group3)
        } else if bits == 1 {
            Some(InstructionGroup::Group1)
        } else if bits == 2 {
            Some(InstructionGroup::Group2)
        } else if bits == 3 {
            Some(InstructionGroup::Undocumented)
        } else {
            None
        }
    }

    /// The group whose discriminant is `bits`.
    pub fn from_repr(bits: u8) -> (r: Option<InstructionGroup>)
        ensures
            r == InstructionGroup::spec_from_repr(bits),
    {
        match bits {
            0b00 => Some(InstructionGroup::Group3),
            0b01 => Some(InstructionGroup::Group1),
            0b10 => Some(InstructionGroup::Group2),
            0b11 => Some(InstructionGroup::Undocumented),
            _ => None,
        }
    }
}

pub open spec fn m(mode: Mos6502AddressingMode) -> AddressingMode {
    AddressingMode::Mos6502(mode)
}

pub open spec fn op(opcode: Mos6502Opcode) -> Opcode {
    Opcode::Mos6502(opcode)
}

impl AddressingMode {
    pub open spec fn spec_from_group1_addressing(addressing_mode: u8) -> AddressingMode {
        if addressing_mode == 0 {
            m(Mos6502AddressingMode::XIndexedZeroPageIndirect)
        } else if addressing_mode == 1 {
            m(Mos6502AddressingMode::ZeroPage)
        } else if addressing_mode == 2 {
            m(Mos6502AddressingMode::Immediate)
        } else if addressing_mode == 3 {
            m(Mos6502AddressingMode::Absolute)
        } else if addressing_mode == 4 {
            m(Mos6502AddressingMode::ZeroPageIndirectYIndexed)
        } else if addressing_mode == 5 {
            m(Mos6502AddressingMode::XIndexedZeroPage)
        } else if addressing_mode == 6 {
            m(Mos6502AddressingMode::YIndexedAbsolute)
        } else {
            m(Mos6502AddressingMode::XIndexedAbsolute)
        }
    }

    /// Addressing mode selected by the `bbb` field in group 1.
    pub fn from_group1_addressing(addressing_mode: u8) -> (r: Self)
        requires
            addressing_mode < 8,
        ensures
            r == AddressingMode::spec_from_group1_addressing(addressing_mode),
    {
        match addressing_mode {
            0b000 => AddressingMode::Mos6502(Mos6502AddressingMode::XIndexedZeroPageIndirect),
            0b001 => AddressingMode::Mos6502(Mos6502AddressingMode::ZeroPage),
            0b010 => AddressingMode::Mos6502(Mos6502AddressingMode::Immediate),
            0b011 => AddressingMode::Mos6502(Mos6502AddressingMode::Absolute),
            0b100 => AddressingMode::Mos6502(Mos6502AddressingMode::ZeroPageIndirectYIndexed),
            0b101 => AddressingMode::Mos6502(Mos6502AddressingMode::XIndexedZeroPage),
            0b110 => AddressingMode::Mos6502(Mos6502AddressingMode::YIndexedAbsolute),
            _ => AddressingMode::Mos6502(Mos6502AddressingMode::XIndexedAbsolute),
        }
    }

    pub open spec fn spec_from_group2_addressing(addressing_mode: u8, kind: Mos6502Kind) -> Option<
        AddressingMode,
    > {
        if addressing_mode == 0 {
            Some(m(Mos6502AddressingMode::Immediate))
        } else if addressing_mode == 1 {
            Some(m(Mos6502AddressingMode::ZeroPage))
        } else if addressing_mode == 2 {
            Some(m(Mos6502AddressingMode::Accumulator))
        } else if addressing_mode == 3 {
            Some(m(Mos6502AddressingMode::Absolute))
        } else if addressing_mode == 4 {
            if kind == Mos6502Kind::Wdc65C02 {
                Some(AddressingMode::Wdc65C02(Wdc65C02AddressingMode::ZeroPageIndirect))
            } else {
                None
            }
        } else if addressing_mode == 5 {
            Some(m(Mos6502AddressingMode::XIndexedZeroPage))
        } else if addressing_mode == 6 {
            Some(m(Mos6502AddressingMode::YIndexedAbsolute))
        } else {
            Some(m(Mos6502AddressingMode::XIndexedAbsolute))
        }
    }

    /// Addressing mode selected by the `bbb` field in group 2; `None` where
    /// the chip has no such mode (the opcode then jams the processor).
    pub fn from_group2_addressing(addressing_mode: u8, kind: Mos6502Kind) -> (r: Option<Self>)
        requires
            addressing_mode < 8,
        ensures
            r == AddressingMode::spec_from_group2_addressing(addressing_mode, kind),
    {
        Some(
            match addressing_mode {
                0b000 => AddressingMode::Mos6502(Mos6502AddressingMode::Immediate),
                0b001 => AddressingMode::Mos6502(Mos6502AddressingMode::ZeroPage),
                0b010 => AddressingMode::Mos6502(Mos6502AddressingMode::Accumulator),
                0b011 => AddressingMode::Mos6502(Mos6502AddressingMode::Absolute),
                0b100 => {
                    if kind == Mos6502Kind::Wdc65C02 {
                        AddressingMode::Wdc65C02(Wdc65C02AddressingMode::ZeroPageIndirect)
                    } else {
                        return None;
                    }
                },
                0b101 => AddressingMode::Mos6502(Mos6502AddressingMode::XIndexedZeroPage),
                0b110 => AddressingMode::Mos6502(Mos6502AddressingMode::YIndexedAbsolute),
                _ => AddressingMode::Mos6502(Mos6502AddressingMode::XIndexedAbsolute),
            },
        )
    }
}


pub open spec fn some_m(mode: Mos6502AddressingMode) -> Option<AddressingMode> {
    Some(m(mode))
}

/// Group 1 (`cc == 01`): the accumulator arithmetic and logic operations.
pub open spec fn spec_group1(identifier: u8, argument: u8, kind: Mos6502Kind) -> (
    Opcode,
    Option<AddressingMode>,
) {
    let mode = AddressingMode::spec_from_group1_addressing(argument);
    let opcode = if identifier == 0 {
        Mos6502Opcode::Ora
    } else if identifier == 1 {
        Mos6502Opcode::And
    } else if identifier == 2 {
        Mos6502Opcode::Eor
    } else if identifier == 3 {
        Mos6502Opcode::Adc
    } else if identifier == 4 {
        if mode == m(Mos6502AddressingMode::Immediate) {
            if kind == Mos6502Kind::Wdc65C02 {
                Mos6502Opcode::Bit
            } else {
                Mos6502Opcode::Nop
            }
        } else {
            Mos6502Opcode::Sta
        }
    } else if identifier == 5 {
        Mos6502Opcode::Lda
    } else if identifier == 6 {
        Mos6502Opcode::Cmp
    } else {
        Mos6502Opcode::Sbc
    };
    (op(opcode), Some(mode))
}

/// Decodes an opcode of group 1.
pub fn decode_group1_space_instruction(
    instruction_identifier: u8,
    argument: u8,
    kind: Mos6502Kind,
) -> (r: (Opcode, Option<AddressingMode>))
    requires
        instruction_identifier < 8,
        argument < 8,
    ensures
        r == spec_group1(instruction_identifier, argument, kind),
{
    let addressing_mode = AddressingMode::from_group1_addressing(argument);

    match instruction_identifier {
        0b000 => (Opcode::Mos6502(Mos6502Opcode::Ora), Some(addressing_mode)),
        0b001 => (Opcode::Mos6502(Mos6502Opcode::And), Some(addressing_mode)),
        0b010 => (Opcode::Mos6502(Mos6502Opcode::Eor), Some(addressing_mode)),
        0b011 => (Opcode::Mos6502(Mos6502Opcode::Adc), Some(addressing_mode)),
        0b100 => {
            if addressing_mode == AddressingMode::Mos6502(Mos6502AddressingMode::Immediate) {
                if kind == Mos6502Kind::Wdc65C02 {
                    (Opcode::Mos6502(Mos6502Opcode::Bit), Some(addressing_mode))
                } else {
                    // STA immediate does nothing but read its operand
                    (Opcode::Mos6502(Mos6502Opcode::Nop), Some(addressing_mode))
                }
            } else {
                (Opcode::Mos6502(Mos6502Opcode::Sta), Some(addressing_mode))
            }
        },
        0b101 => (Opcode::Mos6502(Mos6502Opcode::Lda), Some(addressing_mode)),
        0b110 => (Opcode::Mos6502(Mos6502Opcode::Cmp), Some(addressing_mode)),
        _ => (Opcode::Mos6502(Mos6502Opcode::Sbc), Some(addressing_mode)),
    }
}

/// Group 2 (`cc == 10`): shifts, rotates, increments and the X register.
pub open spec fn spec_group2(identifier: u8, argument: u8, kind: Mos6502Kind) -> (
    Opcode,
    Option<AddressingMode>,
) {
    let mode = AddressingMode::spec_from_group2_addressing(argument, kind);
    let wdc = kind == Mos6502Kind::Wdc65C02;
    let zpi = Some(AddressingMode::Wdc65C02(Wdc65C02AddressingMode::ZeroPageIndirect));
    let jam = (op(Mos6502Opcode::Jam), None);
    if identifier < 4 {
        let shift = if identifier == 0 {
            Mos6502Opcode::Asl
        } else if identifier == 1 {
            Mos6502Opcode::Rol
        } else if identifier == 2 {
            Mos6502Opcode::Lsr
        } else {
            Mos6502Opcode::Ror
        };
        let accumulator_op = if identifier == 0 {
            Mos6502Opcode::Ora
        } else if identifier == 1 {
            Mos6502Opcode::And
        } else if identifier == 2 {
            Mos6502Opcode::Eor
        } else {
            Mos6502Opcode::Adc
        };
        if argument == 0 {
            if wdc {
                (op(Mos6502Opcode::Nop), some_m(Mos6502AddressingMode::Immediate))
            } else {
                jam
            }
        } else if argument == 4 {
            if wdc {
                (op(accumulator_op), zpi)
            } else {
                jam
            }
        } else if argument == 6 {
            (op(Mos6502Opcode::Nop), None)
        } else {
            (op(shift), mode)
        }
    } else if identifier == 4 {
        if argument == 0 {
            (op(Mos6502Opcode::Nop), some_m(Mos6502AddressingMode::Immediate))
        } else if argument == 4 {
            if wdc {
                (op(Mos6502Opcode::Sta), zpi)
            } else {
                jam
            }
        } else if argument == 1 {
            (op(Mos6502Opcode::Stx), some_m(Mos6502AddressingMode::ZeroPage))
        } else if argument == 3 {
            (op(Mos6502Opcode::Stx), some_m(Mos6502AddressingMode::Absolute))
        } else if argument == 5 {
            (op(Mos6502Opcode::Stx), some_m(Mos6502AddressingMode::YIndexedZeroPage))
        } else if argument == 2 {
            (op(Mos6502Opcode::Txa), None)
        } else if argument == 6 {
            (op(Mos6502Opcode::Txs), None)
        } else {
            (op(Mos6502Opcode::Shx), some_m(Mos6502AddressingMode::XIndexedAbsolute))
        }
    } else if identifier == 5 {
        if argument == 0 {
            (op(Mos6502Opcode::Ldx), some_m(Mos6502AddressingMode::Immediate))
        } else if argument == 1 {
            (op(Mos6502Opcode::Ldx), some_m(Mos6502AddressingMode::ZeroPage))
        } else if argument == 3 {
            (op(Mos6502Opcode::Ldx), some_m(Mos6502AddressingMode::Absolute))
        } else if argument == 5 {
            (op(Mos6502Opcode::Ldx), some_m(Mos6502AddressingMode::YIndexedZeroPage))
        } else if argument == 7 {
            (op(Mos6502Opcode::Ldx), some_m(Mos6502AddressingMode::YIndexedAbsolute))
        } else if argument == 4 {
            if wdc {
                (op(Mos6502Opcode::Lda), zpi)
            } else {
                jam
            }
        } else if argument == 2 {
            (op(Mos6502Opcode::Tax), None)
        } else {
            (op(Mos6502Opcode::Tsx), None)
        }
    } else {
        let accumulator_op = if identifier == 6 {
            Mos6502Opcode::Cmp
        } else {
            Mos6502Opcode::Sbc
        };
        let memory_op = if identifier == 6 {
            Mos6502Opcode::Dec
        } else {
            Mos6502Opcode::Inc
        };
        if argument == 0 {
            (op(Mos6502Opcode::Nop), some_m(Mos6502AddressingMode::Immediate))
        } else if argument == 4 {
            if wdc {
                (op(accumulator_op), zpi)
            } else {
                jam
            }
        } else if argument == 2 {
            if identifier == 6 {
                (op(Mos6502Opcode::Dex), None)
            } else {
                (op(Mos6502Opcode::Nop), None)
            }
        } else if argument == 6 {
            (op(Mos6502Opcode::Nop), None)
        } else {
            (op(memory_op), mode)
        }
    }
}

/// Decodes an opcode of group 2.
pub fn decode_group2_space_instruction(
    instruction_identifier: u8,
    argument: u8,
    kind: Mos6502Kind,
) -> (r: (Opcode, Option<AddressingMode>))
    requires
        instruction_identifier < 8,
        argument < 8,
    ensures
        r == spec_group2(instruction_identifier, argument, kind),
{
    let addressing_mode = AddressingMode::from_group2_addressing(argument, kind);

    match instruction_identifier {
        0b000 | 0b001 | 0b010 | 0b011 => {
            let (shift, accumulator_op) = match instruction_identifier {
                0b000 => (Mos6502Opcode::Asl, Mos6502Opcode::Ora),
                0b001 => (Mos6502Opcode::Rol, Mos6502Opcode::And),
                0b010 => (Mos6502Opcode::Lsr, Mos6502Opcode::Eor),
                _ => (Mos6502Opcode::Ror, Mos6502Opcode::Adc),
            };
            match argument {
                0b000 => {
                    if kind == Mos6502Kind::Wdc65C02 {
                        (
                            Opcode::Mos6502(Mos6502Opcode::Nop),
                            Some(AddressingMode::Mos6502(Mos6502AddressingMode::Immediate)),
                        )
                    } else {
                        (Opcode::Mos6502(Mos6502Opcode::Jam), None)
                    }
                },
                0b100 => {
                    if kind == Mos6502Kind::Wdc65C02 {
                        (Opcode::Mos6502(accumulator_op), Some(addressing_mode.unwrap()))
                    } else {
                        (Opcode::Mos6502(Mos6502Opcode::Jam), None)
                    }
                },
                0b110 => (Opcode::Mos6502(Mos6502Opcode::Nop), None),
                _ => (Opcode::Mos6502(shift), Some(addressing_mode.unwrap())),
            }
        },
        0b100 => match argument {
            0b000 => (
                Opcode::Mos6502(Mos6502Opcode::Nop),
                Some(AddressingMode::Mos6502(Mos6502AddressingMode::Immediate)),
            ),
            0b100 => {
                if kind == Mos6502Kind::Wdc65C02 {
                    (Opcode::Mos6502(Mos6502Opcode::Sta), Some(addressing_mode.unwrap()))
                } else {
                    (Opcode::Mos6502(Mos6502Opcode::Jam), None)
                }
            },
            0b001 | 0b011 | 0b101 => {
                // STX indexes by Y where the other operations index by X
                let fixed_mode = if addressing_mode == Some(
                    AddressingMode::Mos6502(Mos6502AddressingMode::XIndexedZeroPage),
                ) {
                    Some(AddressingMode::Mos6502(Mos6502AddressingMode::YIndexedZeroPage))
                } else {
                    addressing_mode
                };

                (Opcode::Mos6502(Mos6502Opcode::Stx), fixed_mode)
            },
            0b010 => (Opcode::Mos6502(Mos6502Opcode::Txa), None),
            0b110 => (Opcode::Mos6502(Mos6502Opcode::Txs), None),
            _ => (Opcode::Mos6502(Mos6502Opcode::Shx), Some(addressing_mode.unwrap())),
        },
        0b101 => match argument {
            0b000 | 0b001 | 0b011 | 0b101 | 0b111 => {
                // LDX indexes by Y where the other operations index by X
                let fixed_mode = match addressing_mode {
                    Some(AddressingMode::Mos6502(Mos6502AddressingMode::XIndexedZeroPage)) => Some(
                        AddressingMode::Mos6502(Mos6502AddressingMode::YIndexedZeroPage),
                    ),
                    Some(AddressingMode::Mos6502(Mos6502AddressingMode::XIndexedAbsolute)) => Some(
                        AddressingMode::Mos6502(Mos6502AddressingMode::YIndexedAbsolute),
                    ),
                    _ => addressing_mode,
                };

                (Opcode::Mos6502(Mos6502Opcode::Ldx), fixed_mode)
            },
            0b100 => {
                if kind == Mos6502Kind::Wdc65C02 {
                    (Opcode::Mos6502(Mos6502Opcode::Lda), Some(addressing_mode.unwrap()))
                } else {
                    (Opcode::Mos6502(Mos6502Opcode::Jam), None)
                }
            },
            0b010 => (Opcode::Mos6502(Mos6502Opcode::Tax), None),
            _ => (Opcode::Mos6502(Mos6502Opcode::Tsx), None),
        },
        _ => {
            let (accumulator_op, memory_op) = if instruction_identifier == 0b110 {
                (Mos6502Opcode::Cmp, Mos6502Opcode::Dec)
            } else {
                (Mos6502Opcode::Sbc, Mos6502Opcode::Inc)
            };
            match argument {
                0b000 => (
                    Opcode::Mos6502(Mos6502Opcode::Nop),
                    Some(AddressingMode::Mos6502(Mos6502AddressingMode::Immediate)),
                ),
                0b100 => {
                    if kind == Mos6502Kind::Wdc65C02 {
                        (Opcode::Mos6502(accumulator_op), Some(addressing_mode.unwrap()))
                    } else {
                        (Opcode::Mos6502(Mos6502Opcode::Jam), None)
                    }
                },
                0b010 => {
                    if instruction_identifier == 0b110 {
                        (Opcode::Mos6502(Mos6502Opcode::Dex), None)
                    } else {
                        (Opcode::Mos6502(Mos6502Opcode::Nop), None)
                    }
                },
                0b110 => (Opcode::Mos6502(Mos6502Opcode::Nop), None),
                _ => (Opcode::Mos6502(memory_op), Some(addressing_mode.unwrap())),
            }
        },
    }
}


/// Group 3 (`cc == 00`): branches, flag operations, stack and control flow.
pub open spec fn spec_group3(identifier: u8, argument: u8) -> (Opcode, Option<AddressingMode>) {
    let mode = Some(AddressingMode::spec_from_group1_addressing(argument));
    let relative = some_m(Mos6502AddressingMode::Relative);
    let immediate = some_m(Mos6502AddressingMode::Immediate);
    if argument == 4 {
        let branch = if identifier == 0 {
            Mos6502Opcode::Bpl
        } else if identifier == 1 {
            Mos6502Opcode::Bmi
        } else if identifier == 2 {
            Mos6502Opcode::Bvc
        } else if identifier == 3 {
            Mos6502Opcode::Bvs
        } else if identifier == 4 {
            Mos6502Opcode::Bcc
        } else if identifier == 5 {
            Mos6502Opcode::Bcs
        } else if identifier == 6 {
            Mos6502Opcode::Bne
        } else {
            Mos6502Opcode::Beq
        };
        (op(branch), relative)
    } else if argument == 6 {
        let flag_op = if identifier == 0 {
            Mos6502Opcode::Clc
        } else if identifier == 1 {
            Mos6502Opcode::Sec
        } else if identifier == 2 {
            Mos6502Opcode::Cli
        } else if identifier == 3 {
            Mos6502Opcode::Sei
        } else if identifier == 4 {
            Mos6502Opcode::Tya
        } else if identifier == 5 {
            Mos6502Opcode::Clv
        } else if identifier == 6 {
            Mos6502Opcode::Cld
        } else {
            Mos6502Opcode::Sed
        };
        (op(flag_op), None)
    } else if argument == 2 {
        let implied = if identifier == 0 {
            Mos6502Opcode::Php
        } else if identifier == 1 {
            Mos6502Opcode::Plp
        } else if identifier == 2 {
            Mos6502Opcode::Pha
        } else if identifier == 3 {
            Mos6502Opcode::Pla
        } else if identifier == 4 {
            Mos6502Opcode::Dey
        } else if identifier == 5 {
            Mos6502Opcode::Tay
        } else if identifier == 6 {
            Mos6502Opcode::Iny
        } else {
            Mos6502Opcode::Inx
        };
        (op(implied), None)
    } else if argument == 0 {
        if identifier == 0 {
            (op(Mos6502Opcode::Brk), None)
        } else if identifier == 1 {
            (op(Mos6502Opcode::Jsr), some_m(Mos6502AddressingMode::Absolute))
        } else if identifier == 2 {
            (op(Mos6502Opcode::Rti), None)
        } else if identifier == 3 {
            (op(Mos6502Opcode::Rts), None)
        } else if identifier == 4 {
            (op(Mos6502Opcode::Nop), immediate)
        } else if identifier == 5 {
            (op(Mos6502Opcode::Ldy), immediate)
        } else if identifier == 6 {
            (op(Mos6502Opcode::Cpy), immediate)
        } else {
            (op(Mos6502Opcode::Cpx), immediate)
        }
    } else if identifier == 0 {
        (op(Mos6502Opcode::Nop), mode)
    } else if identifier == 1 {
        if argument == 1 || argument == 3 {
            (op(Mos6502Opcode::Bit), mode)
        } else {
            (op(Mos6502Opcode::Nop), mode)
        }
    } else if identifier == 2 || identifier == 3 {
        if argument == 3 {
            if identifier == 2 {
                (op(Mos6502Opcode::Jmp), some_m(Mos6502AddressingMode::Absolute))
            } else {
                (op(Mos6502Opcode::Jmp), some_m(Mos6502AddressingMode::AbsoluteIndirect))
            }
        } else {
            (op(Mos6502Opcode::Nop), mode)
        }
    } else if identifier == 4 {
        if argument == 7 {
            (op(Mos6502Opcode::Shy), mode)
        } else {
            (op(Mos6502Opcode::Sty), mode)
        }
    } else if identifier == 5 {
        (op(Mos6502Opcode::Ldy), mode)
    } else if identifier == 6 {
        if argument == 1 || argument == 3 {
            (op(Mos6502Opcode::Cpy), mode)
        } else {
            (op(Mos6502Opcode::Nop), mode)
        }
    } else {
        if argument == 1 || argument == 3 {
            (op(Mos6502Opcode::Cpx), mode)
        } else {
            (op(Mos6502Opcode::Nop), mode)
        }
    }
}

/// Decodes an opcode of group 3.
pub fn decode_group3_space_instruction(
    instruction_identifier: u8,
    argument: u8,
    _kind: Mos6502Kind,
) -> (r: (Opcode, Option<AddressingMode>))
    requires
        instruction_identifier < 8,
        argument < 8,
    ensures
        r == spec_group3(instruction_identifier, argument),
{
    let addressing_mode = AddressingMode::from_group1_addressing(argument);
    let relative = Some(AddressingMode::Mos6502(Mos6502AddressingMode::Relative));
    let immediate = Some(AddressingMode::Mos6502(Mos6502AddressingMode::Immediate));

    match instruction_identifier {
        0b000 => match argument {
            0b000 => (Opcode::Mos6502(Mos6502Opcode::Brk), None),
            0b001 | 0b011 | 0b101 | 0b111 => (
                Opcode::Mos6502(Mos6502Opcode::Nop),
                Some(addressing_mode),
            ),
            0b010 => (Opcode::Mos6502(Mos6502Opcode::Php), None),
            0b100 => (Opcode::Mos6502(Mos6502Opcode::Bpl), relative),
            _ => (Opcode::Mos6502(Mos6502Opcode::Clc), None),
        },
        0b001 => match argument {
            0b000 => (
                Opcode::Mos6502(Mos6502Opcode::Jsr),
                Some(AddressingMode::Mos6502(Mos6502AddressingMode::Absolute)),
            ),
            0b001 | 0b011 => (Opcode::Mos6502(Mos6502Opcode::Bit), Some(addressing_mode)),
            0b010 => (Opcode::Mos6502(Mos6502Opcode::Plp), None),
            0b100 => (Opcode::Mos6502(Mos6502Opcode::Bmi), relative),
            0b101 | 0b111 => (Opcode::Mos6502(Mos6502Opcode::Nop), Some(addressing_mode)),
            _ => (Opcode::Mos6502(Mos6502Opcode::Sec), None),
        },
        0b010 => match argument {
            0b000 => (Opcode::Mos6502(Mos6502Opcode::Rti), None),
            0b001 | 0b101 | 0b111 => (Opcode::Mos6502(Mos6502Opcode::Nop), Some(addressing_mode)),
            0b010 => (Opcode::Mos6502(Mos6502Opcode::Pha), None),
            0b011 => (
                Opcode::Mos6502(Mos6502Opcode::Jmp),
                Some(AddressingMode::Mos6502(Mos6502AddressingMode::Absolute)),
            ),
            0b100 => (Opcode::Mos6502(Mos6502Opcode::Bvc), relative),
            _ => (Opcode::Mos6502(Mos6502Opcode::Cli), None),
        },
        0b011 => match argument {
            0b000 => (Opcode::Mos6502(Mos6502Opcode::Rts), None),
            0b001 | 0b101 | 0b111 => (Opcode::Mos6502(Mos6502Opcode::Nop), Some(addressing_mode)),
            0b010 => (Opcode::Mos6502(Mos6502Opcode::Pla), None),
            0b011 => (
                Opcode::Mos6502(Mos6502Opcode::Jmp),
                Some(AddressingMode::Mos6502(Mos6502AddressingMode::AbsoluteIndirect)),
            ),
            0b100 => (Opcode::Mos6502(Mos6502Opcode::Bvs), relative),
            _ => (Opcode::Mos6502(Mos6502Opcode::Sei), None),
        },
        0b100 => match argument {
            0b000 => (Opcode::Mos6502(Mos6502Opcode::Nop), immediate),
            0b001 | 0b011 | 0b101 => (Opcode::Mos6502(Mos6502Opcode::Sty), Some(addressing_mode)),
            0b010 => (Opcode::Mos6502(Mos6502Opcode::Dey), None),
            0b100 => (Opcode::Mos6502(Mos6502Opcode::Bcc), relative),
            0b110 => (Opcode::Mos6502(Mos6502Opcode::Tya), None),
            _ => (Opcode::Mos6502(Mos6502Opcode::Shy), Some(addressing_mode)),
        },
        0b101 => match argument {
            0b000 => (Opcode::Mos6502(Mos6502Opcode::Ldy), immediate),
            0b001 | 0b011 | 0b101 | 0b111 => (
                Opcode::Mos6502(Mos6502Opcode::Ldy),
                Some(addressing_mode),
            ),
            0b010 => (Opcode::Mos6502(Mos6502Opcode::Tay), None),
            0b100 => (Opcode::Mos6502(Mos6502Opcode::Bcs), relative),
            _ => (Opcode::Mos6502(Mos6502Opcode::Clv), None),
        },
        0b110 => match argument {
            0b000 => (Opcode::Mos6502(Mos6502Opcode::Cpy), immediate),
            0b001 | 0b011 => (Opcode::Mos6502(Mos6502Opcode::Cpy), Some(addressing_mode)),
            0b010 => (Opcode::Mos6502(Mos6502Opcode::Iny), None),
            0b100 => (Opcode::Mos6502(Mos6502Opcode::Bne), relative),
            0b101 | 0b111 => (Opcode::Mos6502(Mos6502Opcode::Nop), Some(addressing_mode)),
            _ => (Opcode::Mos6502(Mos6502Opcode::Cld), None),
        },
        _ => match argument {
            0b000 => (Opcode::Mos6502(Mos6502Opcode::Cpx), immediate),
            0b001 | 0b011 => (Opcode::Mos6502(Mos6502Opcode::Cpx), Some(addressing_mode)),
            0b010 => (Opcode::Mos6502(Mos6502Opcode::Inx), None),
            0b100 => (Opcode::Mos6502(Mos6502Opcode::Beq), relative),
            0b101 | 0b111 => (Opcode::Mos6502(Mos6502Opcode::Nop), Some(addressing_mode)),
            _ => (Opcode::Mos6502(Mos6502Opcode::Sed), None),
        },
    }
}

/// Group 4 (`cc == 11`): the undocumented combined operations.
pub open spec fn spec_undocumented(identifier: u8, argument: u8) -> (
    Opcode,
    Option<AddressingMode>,
) {
    let mode = AddressingMode::spec_from_group1_addressing(argument);
    let immediate = mode == m(Mos6502AddressingMode::Immediate);
    if identifier < 4 {
        let combined = if identifier == 0 {
            Mos6502Opcode::Slo
        } else if identifier == 1 {
            Mos6502Opcode::Rla
        } else if identifier == 2 {
            Mos6502Opcode::Sre
        } else {
            Mos6502Opcode::Rra
        };
        if immediate {
            (op(Mos6502Opcode::Anc), Some(mode))
        } else {
            (op(combined), Some(mode))
        }
    } else if identifier == 4 {
        if mode == m(Mos6502AddressingMode::Immediate) {
            (op(Mos6502Opcode::Xaa), Some(mode))
        } else if mode == m(Mos6502AddressingMode::XIndexedZeroPage) {
            (op(Mos6502Opcode::Sax), some_m(Mos6502AddressingMode::YIndexedZeroPage))
        } else if mode == m(Mos6502AddressingMode::YIndexedAbsolute) {
            (op(Mos6502Opcode::Shs), Some(mode))
        } else if mode == m(Mos6502AddressingMode::XIndexedAbsolute) {
            (op(Mos6502Opcode::Sha), some_m(Mos6502AddressingMode::YIndexedAbsolute))
        } else if mode == m(Mos6502AddressingMode::ZeroPageIndirectYIndexed) {
            (op(Mos6502Opcode::Sha), Some(mode))
        } else {
            (op(Mos6502Opcode::Sax), Some(mode))
        }
    } else if identifier == 5 {
        if mode == m(Mos6502AddressingMode::YIndexedAbsolute) {
            (op(Mos6502Opcode::Las), Some(mode))
        } else {
            (op(Mos6502Opcode::Lax), Some(mode))
        }
    } else if identifier == 6 {
        if immediate {
            (op(Mos6502Opcode::Sbx), Some(mode))
        } else {
            (op(Mos6502Opcode::Dcp), Some(mode))
        }
    } else {
        if immediate {
            (op(Mos6502Opcode::Sbc), Some(mode))
        } else {
            (op(Mos6502Opcode::Isc), Some(mode))
        }
    }
}

/// Decodes an opcode of the undocumented group.
pub fn decode_undocumented_space_instruction(
    instruction_identifier: u8,
    argument: u8,
    _kind: Mos6502Kind,
) -> (r: (Opcode, Option<AddressingMode>))
    requires
        instruction_identifier < 8,
        argument < 8,
    ensures
        r == spec_undocumented(instruction_identifier, argument),
{
    let addressing_mode = AddressingMode::from_group1_addressing(argument);
    let is_immediate = addressing_mode == AddressingMode::Mos6502(Mos6502AddressingMode::Immediate);

    match instruction_identifier {
        0b000 | 0b001 | 0b010 | 0b011 => {
            if is_immediate {
                (Opcode::Mos6502(Mos6502Opcode::Anc), Some(addressing_mode))
            } else {
                let combined = match instruction_identifier {
                    0b000 => Mos6502Opcode::Slo,
                    0b001 => Mos6502Opcode::Rla,
                    0b010 => Mos6502Opcode::Sre,
                    _ => Mos6502Opcode::Rra,
                };
                (Opcode::Mos6502(combined), Some(addressing_mode))
            }
        },
        0b100 => match addressing_mode {
            AddressingMode::Mos6502(Mos6502AddressingMode::Immediate) => (
                Opcode::Mos6502(Mos6502Opcode::Xaa),
                Some(addressing_mode),
            ),
            AddressingMode::Mos6502(Mos6502AddressingMode::XIndexedZeroPage) => (
                Opcode::Mos6502(Mos6502Opcode::Sax),
                Some(AddressingMode::Mos6502(Mos6502AddressingMode::YIndexedZeroPage)),
            ),
            AddressingMode::Mos6502(Mos6502AddressingMode::YIndexedAbsolute) => (
                Opcode::Mos6502(Mos6502Opcode::Shs),
                Some(addressing_mode),
            ),
            AddressingMode::Mos6502(Mos6502AddressingMode::XIndexedAbsolute) => (
                Opcode::Mos6502(Mos6502Opcode::Sha),
                Some(AddressingMode::Mos6502(Mos6502AddressingMode::YIndexedAbsolute)),
            ),
            AddressingMode::Mos6502(Mos6502AddressingMode::ZeroPageIndirectYIndexed) => (
                Opcode::Mos6502(Mos6502Opcode::Sha),
                Some(addressing_mode),
            ),
            _ => (Opcode::Mos6502(Mos6502Opcode::Sax), Some(addressing_mode)),
        },
        0b101 => {
            if addressing_mode == AddressingMode::Mos6502(Mos6502AddressingMode::YIndexedAbsolute) {
                (Opcode::Mos6502(Mos6502Opcode::Las), Some(addressing_mode))
            } else {
                (Opcode::Mos6502(Mos6502Opcode::Lax), Some(addressing_mode))
            }
        },
        0b110 => {
            if is_immediate {
                (Opcode::Mos6502(Mos6502Opcode::Sbx), Some(addressing_mode))
            } else {
                (Opcode::Mos6502(Mos6502Opcode::Dcp), Some(addressing_mode))
            }
        },
        _ => {
            if is_immediate {
                (Opcode::Mos6502(Mos6502Opcode::Sbc), Some(addressing_mode))
            } else {
                (Opcode::Mos6502(Mos6502Opcode::Isc), Some(addressing_mode))
            }
        },
    }
}

/// The instruction an opcode byte stands for on a chip of kind `kind`.
pub open spec fn spec_decode(byte: u8, kind: Mos6502Kind) -> Mos6502InstructionSet {
    let group = byte & 3;
    let identifier = (byte >> 5u8) & 7;
    let argument = (byte >> 2u8) & 7;
    let (opcode, addressing_mode) = if group == 0 {
        spec_group3(identifier, argument)
    } else if group == 1 {
        spec_group1(identifier, argument, kind)
    } else if group == 2 {
        spec_group2(identifier, argument, kind)
    } else {
        spec_undocumented(identifier, argument)
    };
    Mos6502InstructionSet { opcode, addressing_mode }
}

/// Decodes an opcode byte.
pub fn decode_instruction(byte: u8, kind: Mos6502Kind) -> (r: Mos6502InstructionSet)
    ensures
        r == spec_decode(byte, kind),
{
    let group_bits = byte & 0b11;
    let secondary_instruction_identifier = (byte >> 5u8) & 0b111;
    let argument = (byte >> 2u8) & 0b111;
    assert(group_bits < 4) by (bit_vector)
        requires
            group_bits == byte & 3,
    ;
    assert(secondary_instruction_identifier < 8 && argument < 8) by (bit_vector)
        requires
            secondary_instruction_identifier == (byte >> 5u8) & 7,
            argument == (byte >> 2u8) & 7,
    ;
    let instruction_identifier = InstructionGroup::from_repr(group_bits).unwrap();

    let (opcode, addressing_mode) = match instruction_identifier {
        InstructionGroup::Group3 => decode_group3_space_instruction(
            secondary_instruction_identifier,
            argument,
            kind,
        ),
        InstructionGroup::Group1 => decode_group1_space_instruction(
            secondary_instruction_identifier,
            argument,
            kind,
        ),
        InstructionGroup::Group2 => decode_group2_space_instruction(
            secondary_instruction_identifier,
            argument,
            kind,
        ),
        InstructionGroup::Undocumented => decode_undocumented_space_instruction(
            secondary_instruction_identifier,
            argument,
            kind,
        ),
    };
    Mos6502InstructionSet { opcode, addressing_mode }
}

/// Instruction decoder bound to one member of the family.
#[derive(Debug, Clone, Copy)]
pub struct Mos6502InstructionDecoder {
    pub kind: Mos6502Kind,
}

impl Mos6502InstructionDecoder {
    pub fn new(kind: Mos6502Kind) -> (r: Self)
        ensures
            r.kind == kind,
    {
        Mos6502InstructionDecoder { kind }
    }

    /// Decodes the instruction whose opcode byte is at `cursor`, giving it
    /// with the length of its opcode (one byte); `None` when that byte
    /// cannot be read.
    pub fn decode(&self, cursor: usize, address_space: &AddressSpace) -> (r: Option<
        (Mos6502InstructionSet, u8),
    >)
        requires
            address_space.wf(),
        ensures
            r is Some <==> address_space.spec_read(cursor as int) is Some,
            r matches Some((instruction, length)) ==> length == 1 && instruction == spec_decode(
                address_space.spec_read(cursor as int)->0,
                self.kind,
            ),
    {
        match address_space.read_byte(cursor) {
            Some(byte) => Some((decode_instruction(byte, self.kind), 1)),
            None => None,
        }
    }
}

pub open spec fn mode_valid(mode: Option<AddressingMode>, kind: Mos6502Kind) -> bool {
    match mode {
        Some(m) => m.spec_is_valid_for_mode(kind),
        None => true,
    }
}

/// Every opcode byte decodes to an instruction whose addressing mode the
/// chip it was decoded for actually has.
pub proof fn lemma_decode_addressing_mode_valid(byte: u8, kind: Mos6502Kind)
    ensures
        mode_valid(spec_decode(byte, kind).addressing_mode, kind),
{
    let identifier = (byte >> 5u8) & 7;
    let argument = (byte >> 2u8) & 7;
    assert(identifier < 8 && argument < 8) by (bit_vector)
        requires
            identifier == (byte >> 5u8) & 7,
            argument == (byte >> 2u8) & 7,
    ;
}


/// The documented instruction set of the NMOS 6502: for each of its 151
/// opcode bytes, the operation and addressing mode the data sheet gives.
pub open spec fn documented_6502(byte: u8) -> Option<(Mos6502Opcode, Option<Mos6502AddressingMode>)> {
    match byte {
        0x00 => Some((Mos6502Opcode::Brk, None)),
        0x01 => Some((Mos6502Opcode::Ora, Some(Mos6502AddressingMode::XIndexedZeroPageIndirect))),
        0x05 => Some((Mos6502Opcode::Ora, Some(Mos6502AddressingMode::ZeroPage))),
        0x06 => Some((Mos6502Opcode::Asl, Some(Mos6502AddressingMode::ZeroPage))),
        0x08 => Some((Mos6502Opcode::Php, None)),
        0x09 => Some((Mos6502Opcode::Ora, Some(Mos6502AddressingMode::Immediate))),
        0x0a => Some((Mos6502Opcode::Asl, Some(Mos6502AddressingMode::Accumulator))),
        0x0d => Some((Mos6502Opcode::Ora, Some(Mos6502AddressingMode::Absolute))),
        0x0e => Some((Mos6502Opcode::Asl, Some(Mos6502AddressingMode::Absolute))),
        0x10 => Some((Mos6502Opcode::Bpl, Some(Mos6502AddressingMode::Relative))),
        0x11 => Some((Mos6502Opcode::Ora, Some(Mos6502AddressingMode::ZeroPageIndirectYIndexed))),
        0x15 => Some((Mos6502Opcode::Ora, Some(Mos6502AddressingMode::XIndexedZeroPage))),
        0x16 => Some((Mos6502Opcode::Asl, Some(Mos6502AddressingMode::XIndexedZeroPage))),
        0x18 => Some((Mos6502Opcode::Clc, None)),
        0x19 => Some((Mos6502Opcode::Ora, Some(Mos6502AddressingMode::YIndexedAbsolute))),
        0x1d => Some((Mos6502Opcode::Ora, Some(Mos6502AddressingMode::XIndexedAbsolute))),
        0x1e => Some((Mos6502Opcode::Asl, Some(Mos6502AddressingMode::XIndexedAbsolute))),
        0x20 => Some((Mos6502Opcode::Jsr, Some(Mos6502AddressingMode::Absolute))),
        0x21 => Some((Mos6502Opcode::And, Some(Mos6502AddressingMode::XIndexedZeroPageIndirect))),
        0x24 => Some((Mos6502Opcode::Bit, Some(Mos6502AddressingMode::ZeroPage))),
        0x25 => Some((Mos6502Opcode::And, Some(Mos6502AddressingMode::ZeroPage))),
        0x26 => Some((Mos6502Opcode::Rol, Some(Mos6502AddressingMode::ZeroPage))),
        0x28 => Some((Mos6502Opcode::Plp, None)),
        0x29 => Some((Mos6502Opcode::And, Some(Mos6502AddressingMode::Immediate))),
        0x2a => Some((Mos6502Opcode::Rol, Some(Mos6502AddressingMode::Accumulator))),
        0x2c => Some((Mos6502Opcode::Bit, Some(Mos6502AddressingMode::Absolute))),
        0x2d => Some((Mos6502Opcode::And, Some(Mos6502AddressingMode::Absolute))),
        0x2e => Some((Mos6502Opcode::Rol, Some(Mos6502AddressingMode::Absolute))),
        0x30 => Some((Mos6502Opcode::Bmi, Some(Mos6502AddressingMode::Relative))),
        0x31 => Some((Mos6502Opcode::And, Some(Mos6502AddressingMode::ZeroPageIndirectYIndexed))),
        0x35 => Some((Mos6502Opcode::And, Some(Mos6502AddressingMode::XIndexedZeroPage))),
        0x36 => Some((Mos6502Opcode::Rol, Some(Mos6502AddressingMode::XIndexedZeroPage))),
        0x38 => Some((Mos6502Opcode::Sec, None)),
        0x39 => Some((Mos6502Opcode::And, Some(Mos6502AddressingMode::YIndexedAbsolute))),
        0x3d => Some((Mos6502Opcode::And, Some(Mos6502AddressingMode::XIndexedAbsolute))),
        0x3e => Some((Mos6502Opcode::Rol, Some(Mos6502AddressingMode::XIndexedAbsolute))),
        0x40 => Some((Mos6502Opcode::Rti, None)),
        0x41 => Some((Mos6502Opcode::Eor, Some(Mos6502AddressingMode::XIndexedZeroPageIndirect))),
        0x45 => Some((Mos6502Opcode::Eor, Some(Mos6502AddressingMode::ZeroPage))),
        0x46 => Some((Mos6502Opcode::Lsr, Some(Mos6502AddressingMode::ZeroPage))),
        0x48 => Some((Mos6502Opcode::Pha, None)),
        0x49 => Some((Mos6502Opcode::Eor, Some(Mos6502AddressingMode::Immediate))),
        0x4a => Some((Mos6502Opcode::Lsr, Some(Mos6502AddressingMode::Accumulator))),
        0x4c => Some((Mos6502Opcode::Jmp, Some(Mos6502AddressingMode::Absolute))),
        0x4d => Some((Mos6502Opcode::Eor, Some(Mos6502AddressingMode::Absolute))),
        0x4e => Some((Mos6502Opcode::Lsr, Some(Mos6502AddressingMode::Absolute))),
        0x50 => Some((Mos6502Opcode::Bvc, Some(Mos6502AddressingMode::Relative))),
        0x51 => Some((Mos6502Opcode::Eor, Some(Mos6502AddressingMode::ZeroPageIndirectYIndexed))),
        0x55 => Some((Mos6502Opcode::Eor, Some(Mos6502AddressingMode::XIndexedZeroPage))),
        0x56 => Some((Mos6502Opcode::Lsr, Some(Mos6502AddressingMode::XIndexedZeroPage))),
        0x58 => Some((Mos6502Opcode::Cli, None)),
        0x59 => Some((Mos6502Opcode::Eor, Some(Mos6502AddressingMode::YIndexedAbsolute))),
        0x5d => Some((Mos6502Opcode::Eor, Some(Mos6502AddressingMode::XIndexedAbsolute))),
        0x5e => Some((Mos6502Opcode::Lsr, Some(Mos6502AddressingMode::XIndexedAbsolute))),
        0x60 => Some((Mos6502Opcode::Rts, None)),
        0x61 => Some((Mos6502Opcode::Adc, Some(Mos6502AddressingMode::XIndexedZeroPageIndirect))),
        0x65 => Some((Mos6502Opcode::Adc, Some(Mos6502AddressingMode::ZeroPage))),
        0x66 => Some((Mos6502Opcode::Ror, Some(Mos6502AddressingMode::ZeroPage))),
        0x68 => Some((Mos6502Opcode::Pla, None)),
        0x69 => Some((Mos6502Opcode::Adc, Some(Mos6502AddressingMode::Immediate))),
        0x6a => Some((Mos6502Opcode::Ror, Some(Mos6502AddressingMode::Accumulator))),
        0x6c => Some((Mos6502Opcode::Jmp, Some(Mos6502AddressingMode::AbsoluteIndirect))),
        0x6d => Some((Mos6502Opcode::Adc, Some(Mos6502AddressingMode::Absolute))),
        0x6e => Some((Mos6502Opcode::Ror, Some(Mos6502AddressingMode::Absolute))),
        0x70 => Some((Mos6502Opcode::Bvs, Some(Mos6502AddressingMode::Relative))),
        0x71 => Some((Mos6502Opcode::Adc, Some(Mos6502AddressingMode::ZeroPageIndirectYIndexed))),
        0x75 => Some((Mos6502Opcode::Adc, Some(Mos6502AddressingMode::XIndexedZeroPage))),
        0x76 => Some((Mos6502Opcode::Ror, Some(Mos6502AddressingMode::XIndexedZeroPage))),
        0x78 => Some((Mos6502Opcode::Sei, None)),
        0x79 => Some((Mos6502Opcode::Adc, Some(Mos6502AddressingMode::YIndexedAbsolute))),
        0x7d => Some((Mos6502Opcode::Adc, Some(Mos6502AddressingMode::XIndexedAbsolute))),
        0x7e => Some((Mos6502Opcode::Ror, Some(Mos6502AddressingMode::XIndexedAbsolute))),
        0x81 => Some((Mos6502Opcode::Sta, Some(Mos6502AddressingMode::XIndexedZeroPageIndirect))),
        0x84 => Some((Mos6502Opcode::Sty, Some(Mos6502AddressingMode::ZeroPage))),
        0x85 => Some((Mos6502Opcode::Sta, Some(Mos6502AddressingMode::ZeroPage))),
        0x86 => Some((Mos6502Opcode::Stx, Some(Mos6502AddressingMode::ZeroPage))),
        0x88 => Some((Mos6502Opcode::Dey, None)),
        0x8a => Some((Mos6502Opcode::Txa, None)),
        0x8c => Some((Mos6502Opcode::Sty, Some(Mos6502AddressingMode::Absolute))),
        0x8d => Some((Mos6502Opcode::Sta, Some(Mos6502AddressingMode::Absolute))),
        0x8e => Some((Mos6502Opcode::Stx, Some(Mos6502AddressingMode::Absolute))),
        0x90 => Some((Mos6502Opcode::Bcc, Some(Mos6502AddressingMode::Relative))),
        0x91 => Some((Mos6502Opcode::Sta, Some(Mos6502AddressingMode::ZeroPageIndirectYIndexed))),
        0x94 => Some((Mos6502Opcode::Sty, Some(Mos6502AddressingMode::XIndexedZeroPage))),
        0x95 => Some((Mos6502Opcode::Sta, Some(Mos6502AddressingMode::XIndexedZeroPage))),
        0x96 => Some((Mos6502Opcode::Stx, Some(Mos6502AddressingMode::YIndexedZeroPage))),
        0x98 => Some((Mos6502Opcode::Tya, None)),
        0x99 => Some((Mos6502Opcode::Sta, Some(Mos6502AddressingMode::YIndexedAbsolute))),
        0x9a => Some((Mos6502Opcode::Txs, None)),
        0x9d => Some((Mos6502Opcode::Sta, Some(Mos6502AddressingMode::XIndexedAbsolute))),
        0xa0 => Some((Mos6502Opcode::Ldy, Some(Mos6502AddressingMode::Immediate))),
        0xa1 => Some((Mos6502Opcode::Lda, Some(Mos6502AddressingMode::XIndexedZeroPageIndirect))),
        0xa2 => Some((Mos6502Opcode::Ldx, Some(Mos6502AddressingMode::Immediate))),
        0xa4 => Some((Mos6502Opcode::Ldy, Some(Mos6502AddressingMode::ZeroPage))),
        0xa5 => Some((Mos6502Opcode::Lda, Some(Mos6502AddressingMode::ZeroPage))),
        0xa6 => Some((Mos6502Opcode::Ldx, Some(Mos6502AddressingMode::ZeroPage))),
        0xa8 => Some((Mos6502Opcode::Tay, None)),
        0xa9 => Some((Mos6502Opcode::Lda, Some(Mos6502AddressingMode::Immediate))),
        0xaa => Some((Mos6502Opcode::Tax, None)),
        0xac => Some((Mos6502Opcode::Ldy, Some(Mos6502AddressingMode::Absolute))),
        0xad => Some((Mos6502Opcode::Lda, Some(Mos6502AddressingMode::Absolute))),
        0xae => Some((Mos6502Opcode::Ldx, Some(Mos6502AddressingMode::Absolute))),
        0xb0 => Some((Mos6502Opcode::Bcs, Some(Mos6502AddressingMode::Relative))),
        0xb1 => Some((Mos6502Opcode::Lda, Some(Mos6502AddressingMode::ZeroPageIndirectYIndexed))),
        0xb4 => Some((Mos6502Opcode::Ldy, Some(Mos6502AddressingMode::XIndexedZeroPage))),
        0xb5 => Some((Mos6502Opcode::Lda, Some(Mos6502AddressingMode::XIndexedZeroPage))),
        0xb6 => Some((Mos6502Opcode::Ldx, Some(Mos6502AddressingMode::YIndexedZeroPage))),
        0xb8 => Some((Mos6502Opcode::Clv, None)),
        0xb9 => Some((Mos6502Opcode::Lda, Some(Mos6502AddressingMode::YIndexedAbsolute))),
        0xba => Some((Mos6502Opcode::Tsx, None)),
        0xbc => Some((Mos6502Opcode::Ldy, Some(Mos6502AddressingMode::XIndexedAbsolute))),
        0xbd => Some((Mos6502Opcode::Lda, Some(Mos6502AddressingMode::XIndexedAbsolute))),
        0xbe => Some((Mos6502Opcode::Ldx, Some(Mos6502AddressingMode::YIndexedAbsolute))),
        0xc0 => Some((Mos6502Opcode::Cpy, Some(Mos6502AddressingMode::Immediate))),
        0xc1 => Some((Mos6502Opcode::Cmp, Some(Mos6502AddressingMode::XIndexedZeroPageIndirect))),
        0xc4 => Some((Mos6502Opcode::Cpy, Some(Mos6502AddressingMode::ZeroPage))),
        0xc5 => Some((Mos6502Opcode::Cmp, Some(Mos6502AddressingMode::ZeroPage))),
        0xc6 => Some((Mos6502Opcode::Dec, Some(Mos6502AddressingMode::ZeroPage))),
        0xc8 => Some((Mos6502Opcode::Iny, None)),
        0xc9 => Some((Mos6502Opcode::Cmp, Some(Mos6502AddressingMode::Immediate))),
        0xca => Some((Mos6502Opcode::Dex, None)),
        0xcc => Some((Mos6502Opcode::Cpy, Some(Mos6502AddressingMode::Absolute))),
        0xcd => Some((Mos6502Opcode::Cmp, Some(Mos6502AddressingMode::Absolute))),
        0xce => Some((Mos6502Opcode::Dec, Some(Mos6502AddressingMode::Absolute))),
        0xd0 => Some((Mos6502Opcode::Bne, Some(Mos6502AddressingMode::Relative))),
        0xd1 => Some((Mos6502Opcode::Cmp, Some(Mos6502AddressingMode::ZeroPageIndirectYIndexed))),
        0xd5 => Some((Mos6502Opcode::Cmp, Some(Mos6502AddressingMode::XIndexedZeroPage))),
        0xd6 => Some((Mos6502Opcode::Dec, Some(Mos6502AddressingMode::XIndexedZeroPage))),
        0xd8 => Some((Mos6502Opcode::Cld, None)),
        0xd9 => Some((Mos6502Opcode::Cmp, Some(Mos6502AddressingMode::YIndexedAbsolute))),
        0xdd => Some((Mos6502Opcode::Cmp, Some(Mos6502AddressingMode::XIndexedAbsolute))),
        0xde => Some((Mos6502Opcode::Dec, Some(Mos6502AddressingMode::XIndexedAbsolute))),
        0xe0 => Some((Mos6502Opcode::Cpx, Some(Mos6502AddressingMode::Immediate))),
        0xe1 => Some((Mos6502Opcode::Sbc, Some(Mos6502AddressingMode::XIndexedZeroPageIndirect))),
        0xe4 => Some((Mos6502Opcode::Cpx, Some(Mos6502AddressingMode::ZeroPage))),
        0xe5 => Some((Mos6502Opcode::Sbc, Some(Mos6502AddressingMode::ZeroPage))),
        0xe6 => Some((Mos6502Opcode::Inc, Some(Mos6502AddressingMode::ZeroPage))),
        0xe8 => Some((Mos6502Opcode::Inx, None)),
        0xe9 => Some((Mos6502Opcode::Sbc, Some(Mos6502AddressingMode::Immediate))),
        0xea => Some((Mos6502Opcode::Nop, None)),
        0xec => Some((Mos6502Opcode::Cpx, Some(Mos6502AddressingMode::Absolute))),
        0xed => Some((Mos6502Opcode::Sbc, Some(Mos6502AddressingMode::Absolute))),
        0xee => Some((Mos6502Opcode::Inc, Some(Mos6502AddressingMode::Absolute))),
        0xf0 => Some((Mos6502Opcode::Beq, Some(Mos6502AddressingMode::Relative))),
        0xf1 => Some((Mos6502Opcode::Sbc, Some(Mos6502AddressingMode::ZeroPageIndirectYIndexed))),
        0xf5 => Some((Mos6502Opcode::Sbc, Some(Mos6502AddressingMode::XIndexedZeroPage))),
        0xf6 => Some((Mos6502Opcode::Inc, Some(Mos6502AddressingMode::XIndexedZeroPage))),
        0xf8 => Some((Mos6502Opcode::Sed, None)),
        0xf9 => Some((Mos6502Opcode::Sbc, Some(Mos6502AddressingMode::YIndexedAbsolute))),
        0xfd => Some((Mos6502Opcode::Sbc, Some(Mos6502AddressingMode::XIndexedAbsolute))),
        0xfe => Some((Mos6502Opcode::Inc, Some(Mos6502AddressingMode::XIndexedAbsolute))),
        _ => None,
    }
}

/// A byte of the documented set decodes, on the NMOS 6502, to the
/// operation and addressing mode the data sheet gives.
pub open spec fn decodes_as_documented(byte: u8) -> bool {
    match documented_6502(byte) {
        Some((o, mode)) => spec_decode(byte, Mos6502Kind::Mos6502) == Mos6502InstructionSet {
            opcode: Opcode::Mos6502(o),
            addressing_mode: match mode {
                Some(md) => Some(AddressingMode::Mos6502(md)),
                None => None,
            },
        },
        None => true,
    }
}

/// The decoder agrees with the documented 6502 opcode matrix: every one of
/// the 151 documented opcode bytes decodes, on the NMOS 6502, to the
/// operation and addressing mode the data sheet gives it.
#[verifier::spinoff_prover]
#[verifier::rlimit(60)]
pub proof fn lemma_decode_documented(byte: u8)
    ensures
        decodes_as_documented(byte),
{
    assert(byte & 3 == byte % 4 && (byte >> 5u8) & 7 == byte / 32 && (byte >> 2u8) & 7 == (byte
        / 4) % 8) by (bit_vector);
}

} // verus!
