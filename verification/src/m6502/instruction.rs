//! Instructions of the first 6502 model: an operation and its addressing
//! mode, which carries the operand read from the instruction stream.
use vstd::prelude::*;

use crate::memory::AddressSpace;

verus! {

/// How an instruction finds its operand, with the operand bytes that
/// follow the opcode.
#[derive(Debug, Copy, Clone, PartialEq, Eq, Structural)]
pub enum AddressingMode {
    Accumulator,
    Immediate(u8),
    Absolute(u16),
    XIndexedAbsolute(u16),
    YIndexedAbsolute(u16),
    AbsoluteIndirect(u16),
    ZeroPage(u8),
    XIndexedZeroPage(u8),
    YIndexedZeroPage(u8),
    ZeroPageYIndexed(u8),
    XIndexedZeroPageIndirect(u8),
    ZeroPageIndirectYIndexed(u8),
    Relative(i8),
}

/// The operation of an instruction.
#[derive(Debug, Copy, Clone, PartialEq, Eq, Structural)]
pub enum M6502InstructionSetSpecifier {
    Adc,
    Anc,
    And,
    Arr,
    Asl,
    Asr,
    Bcc,
    Bcs,
    Beq,
    Bit,
    Bmi,
    Bne,
    Bpl,
    Brk,
    Bvc,
    Bvs,
    Clc,
    Cld,
    Cli,
    Clv,
    Cmp,
    Cpx,
    Cpy,
    Dcp,
    Dec,
    Dex,
    Dey,
    Eor,
    Inc,
    Inx,
    Iny,
    Isc,
    Jam,
    Jmp,
    Jsr,
    Las,
    Lax,
    Lda,
    Ldx,
    Ldy,
    Lsr,
    Nop,
    Ora,
    Pha,
    Php,
    Pla,
    Plp,
    Rla,
    Rol,
    Ror,
    Rra,
    Rti,
    Rts,
    Sax,
    Sbc,
    Sbx,
    Sec,
    Sed,
    Sei,
    Sha,
    Shs,
    Shx,
    Shy,
    Slo,
    Sre,
    Sta,
    Stx,
    Sty,
    Tax,
    Tay,
    Tsx,
    Txa,
    Txs,
    Tya,
    Xaa,
}

/// A decoded instruction.
#[derive(Debug, Copy, Clone, PartialEq, Eq, Structural)]
pub struct M6502InstructionSet {
    pub specifier: M6502InstructionSetSpecifier,
    pub addressing_mode: Option<AddressingMode>,
}

/// The assembler mnemonic of an operation.
pub open spec fn spec_mnemonic(specifier: M6502InstructionSetSpecifier) -> &'static str {
    match specifier {
        M6502InstructionSetSpecifier::Adc => "ADC",
        M6502InstructionSetSpecifier::Anc => "ANC",
        M6502InstructionSetSpecifier::And => "AND",
        M6502InstructionSetSpecifier::Arr => "ARR",
        M6502InstructionSetSpecifier::Asl => "ASL",
        M6502InstructionSetSpecifier::Asr => "ASR",
        M6502InstructionSetSpecifier::Bcc => "BCC",
        M6502InstructionSetSpecifier::Bcs => "BCS",
        M6502InstructionSetSpecifier::Beq => "BEQ",
        M6502InstructionSetSpecifier::Bit => "BIT",
        M6502InstructionSetSpecifier::Bmi => "BMI",
        M6502InstructionSetSpecifier::Bne => "BNE",
        M6502InstructionSetSpecifier::Bpl => "BPL",
        M6502InstructionSetSpecifier::Brk => "BRK",
        M6502InstructionSetSpecifier::Bvc => "BVC",
        M6502InstructionSetSpecifier::Bvs => "BVS",
        M6502InstructionSetSpecifier::Clc => "CLC",
        M6502InstructionSetSpecifier::Cld => "CLD",
        M6502InstructionSetSpecifier::Cli => "CLI",
        M6502InstructionSetSpecifier::Clv => "CLV",
        M6502InstructionSetSpecifier::Cmp => "CMP",
        M6502InstructionSetSpecifier::Cpx => "CPX",
        M6502InstructionSetSpecifier::Cpy => "CPY",
        M6502InstructionSetSpecifier::Dcp => "DCP",
        M6502InstructionSetSpecifier::Dec => "DEC",
        M6502InstructionSetSpecifier::Dex => "DEX",
        M6502InstructionSetSpecifier::Dey => "DEY",
        M6502InstructionSetSpecifier::Eor => "EOR",
        M6502InstructionSetSpecifier::Inc => "INC",
        M6502InstructionSetSpecifier::Inx => "INX",
        M6502InstructionSetSpecifier::Iny => "INY",
        M6502InstructionSetSpecifier::Isc => "ISC",
        M6502InstructionSetSpecifier::Jam => "JAM",
        M6502InstructionSetSpecifier::Jmp => "JMP",
        M6502InstructionSetSpecifier::Jsr => "JSR",
        M6502InstructionSetSpecifier::Las => "LAS",
        M6502InstructionSetSpecifier::Lax => "LAX",
        M6502InstructionSetSpecifier::Lda => "LDA",
        M6502InstructionSetSpecifier::Ldx => "LDX",
        M6502InstructionSetSpecifier::Ldy => "LDY",
        M6502InstructionSetSpecifier::Lsr => "LSR",
        M6502InstructionSetSpecifier::Nop => "NOP",
        M6502InstructionSetSpecifier::Ora => "ORA",
        M6502InstructionSetSpecifier::Pha => "PHA",
        M6502InstructionSetSpecifier::Php => "PHP",
        M6502InstructionSetSpecifier::Pla => "PLA",
        M6502InstructionSetSpecifier::Plp => "PLP",
        M6502InstructionSetSpecifier::Rla => "RLA",
        M6502InstructionSetSpecifier::Rol => "ROL",
        M6502InstructionSetSpecifier::Ror => "ROR",
        M6502InstructionSetSpecifier::Rra => "RRA",
        M6502InstructionSetSpecifier::Rti => "RTI",
        M6502InstructionSetSpecifier::Rts => "RTS",
        M6502InstructionSetSpecifier::Sax => "SAX",
        M6502InstructionSetSpecifier::Sbc => "SBC",
        M6502InstructionSetSpecifier::Sbx => "SBX",
        M6502InstructionSetSpecifier::Sec => "SEC",
        M6502InstructionSetSpecifier::Sed => "SED",
        M6502InstructionSetSpecifier::Sei => "SEI",
        M6502InstructionSetSpecifier::Sha => "SHA",
        M6502InstructionSetSpecifier::Shs => "SHS",
        M6502InstructionSetSpecifier::Shx => "SHX",
        M6502InstructionSetSpecifier::Shy => "SHY",
        M6502InstructionSetSpecifier::Slo => "SLO",
        M6502InstructionSetSpecifier::Sre => "SRE",
        M6502InstructionSetSpecifier::Sta => "STA",
        M6502InstructionSetSpecifier::Stx => "STX",
        M6502InstructionSetSpecifier::Sty => "STY",
        M6502InstructionSetSpecifier::Tax => "TAX",
        M6502InstructionSetSpecifier::Tay => "TAY",
        M6502InstructionSetSpecifier::Tsx => "TSX",
        M6502InstructionSetSpecifier::Txa => "TXA",
        M6502InstructionSetSpecifier::Txs => "TXS",
        M6502InstructionSetSpecifier::Tya => "TYA",
        M6502InstructionSetSpecifier::Xaa => "XAA",
    }
}

impl M6502InstructionSet {
    /// The instruction's mnemonic, as an assembler listing shows it.
    pub fn to_text_representation(&self) -> (r: &'static str)
        ensures
            r == spec_mnemonic(self.specifier),
    {
        match self.specifier {
            M6502InstructionSetSpecifier::Adc => "ADC",
            M6502InstructionSetSpecifier::Anc => "ANC",
            M6502InstructionSetSpecifier::And => "AND",
            M6502InstructionSetSpecifier::Arr => "ARR",
            M6502InstructionSetSpecifier::Asl => "ASL",
            M6502InstructionSetSpecifier::Asr => "ASR",
            M6502InstructionSetSpecifier::Bcc => "BCC",
            M6502InstructionSetSpecifier::Bcs => "BCS",
            M6502InstructionSetSpecifier::Beq => "BEQ",
            M6502InstructionSetSpecifier::Bit => "BIT",
            M6502InstructionSetSpecifier::Bmi => "BMI",
            M6502InstructionSetSpecifier::Bne => "BNE",
            M6502InstructionSetSpecifier::Bpl => "BPL",
            M6502InstructionSetSpecifier::Brk => "BRK",
            M6502InstructionSetSpecifier::Bvc => "BVC",
            M6502InstructionSetSpecifier::Bvs => "BVS",
            M6502InstructionSetSpecifier::Clc => "CLC",
            M6502InstructionSetSpecifier::Cld => "CLD",
            M6502InstructionSetSpecifier::Cli => "CLI",
            M6502InstructionSetSpecifier::Clv => "CLV",
            M6502InstructionSetSpecifier::Cmp => "CMP",
            M6502InstructionSetSpecifier::Cpx => "CPX",
            M6502InstructionSetSpecifier::Cpy => "CPY",
            M6502InstructionSetSpecifier::Dcp => "DCP",
            M6502InstructionSetSpecifier::Dec => "DEC",
            M6502InstructionSetSpecifier::Dex => "DEX",
            M6502InstructionSetSpecifier::Dey => "DEY",
            M6502InstructionSetSpecifier::Eor => "EOR",
            M6502InstructionSetSpecifier::Inc => "INC",
            M6502InstructionSetSpecifier::Inx => "INX",
            M6502InstructionSetSpecifier::Iny => "INY",
            M6502InstructionSetSpecifier::Isc => "ISC",
            M6502InstructionSetSpecifier::Jam => "JAM",
            M6502InstructionSetSpecifier::Jmp => "JMP",
            M6502InstructionSetSpecifier::Jsr => "JSR",
            M6502InstructionSetSpecifier::Las => "LAS",
            M6502InstructionSetSpecifier::Lax => "LAX",
            M6502InstructionSetSpecifier::Lda => "LDA",
            M6502InstructionSetSpecifier::Ldx => "LDX",
            M6502InstructionSetSpecifier::Ldy => "LDY",
            M6502InstructionSetSpecifier::Lsr => "LSR",
            M6502InstructionSetSpecifier::Nop => "NOP",
            M6502InstructionSetSpecifier::Ora => "ORA",
            M6502InstructionSetSpecifier::Pha => "PHA",
            M6502InstructionSetSpecifier::Php => "PHP",
            M6502InstructionSetSpecifier::Pla => "PLA",
            M6502InstructionSetSpecifier::Plp => "PLP",
            M6502InstructionSetSpecifier::Rla => "RLA",
            M6502InstructionSetSpecifier::Rol => "ROL",
            M6502InstructionSetSpecifier::Ror => "ROR",
            M6502InstructionSetSpecifier::Rra => "RRA",
            M6502InstructionSetSpecifier::Rti => "RTI",
            M6502InstructionSetSpecifier::Rts => "RTS",
            M6502InstructionSetSpecifier::Sax => "SAX",
            M6502InstructionSetSpecifier::Sbc => "SBC",
            M6502InstructionSetSpecifier::Sbx => "SBX",
            M6502InstructionSetSpecifier::Sec => "SEC",
            M6502InstructionSetSpecifier::Sed => "SED",
            M6502InstructionSetSpecifier::Sei => "SEI",
            M6502InstructionSetSpecifier::Sha => "SHA",
            M6502InstructionSetSpecifier::Shs => "SHS",
            M6502InstructionSetSpecifier::Shx => "SHX",
            M6502InstructionSetSpecifier::Shy => "SHY",
            M6502InstructionSetSpecifier::Slo => "SLO",
            M6502InstructionSetSpecifier::Sre => "SRE",
            M6502InstructionSetSpecifier::Sta => "STA",
            M6502InstructionSetSpecifier::Stx => "STX",
            M6502InstructionSetSpecifier::Sty => "STY",
            M6502InstructionSetSpecifier::Tax => "TAX",
            M6502InstructionSetSpecifier::Tay => "TAY",
            M6502InstructionSetSpecifier::Tsx => "TSX",
            M6502InstructionSetSpecifier::Txa => "TXA",
            M6502InstructionSetSpecifier::Txs => "TXS",
            M6502InstructionSetSpecifier::Tya => "TYA",
            M6502InstructionSetSpecifier::Xaa => "XAA",
        }
    }
}

/// The byte at `address`, or 0 where nothing readable is mapped.
pub open spec fn byte_at(space: AddressSpace, address: u16) -> u8 {
    space.read_or_zero(space.cells(), address as int)
}

/// The little endian word at `address` and the byte after it.
pub open spec fn word_at(space: AddressSpace, address: u16) -> u16 {
    (byte_at(space, address) + 256 * byte_at(space, ((address + 1) % 65536) as u16)) as u16
}

impl AddressingMode {
    /// Addressing mode of a group one instruction with mode bits `mode`,
    /// with its operand read from `cursor` on, and the operand's length.
    pub open spec fn spec_from_group1_addressing(cursor: u16, space: AddressSpace, mode: u8) -> (
        AddressingMode,
        u8,
    ) {
        if mode == 0 {
            (AddressingMode::XIndexedZeroPageIndirect(byte_at(space, cursor)), 1)
        } else if mode == 1 {
            (AddressingMode::ZeroPage(byte_at(space, cursor)), 1)
        } else if mode == 2 {
            (AddressingMode::Immediate(byte_at(space, cursor)), 1)
        } else if mode == 3 {
            (AddressingMode::Absolute(word_at(space, cursor)), 2)
        } else if mode == 4 {
            (AddressingMode::ZeroPageIndirectYIndexed(byte_at(space, cursor)), 1)
        } else if mode == 5 {
            (AddressingMode::XIndexedZeroPage(byte_at(space, cursor)), 1)
        } else if mode == 6 {
            (AddressingMode::YIndexedAbsolute(word_at(space, cursor)), 2)
        } else {
            (AddressingMode::XIndexedAbsolute(word_at(space, cursor)), 2)
        }
    }

    /// Addressing mode of a group two instruction with mode bits `mode`,
    /// with its operand read from `cursor` on, and the operand's length.
    pub open spec fn spec_from_group2_addressing(cursor: u16, space: AddressSpace, mode: u8) -> (
        AddressingMode,
        u8,
    ) {
        if mode == 0 {
            (AddressingMode::XIndexedZeroPageIndirect(byte_at(space, cursor)), 1)
        } else if mode == 1 {
            (AddressingMode::ZeroPage(byte_at(space, cursor)), 1)
        } else if mode == 2 {
            (AddressingMode::Accumulator, 0)
        } else if mode == 3 {
            (AddressingMode::Absolute(word_at(space, cursor)), 2)
        } else if mode == 4 {
            (AddressingMode::ZeroPageIndirectYIndexed(byte_at(space, cursor)), 1)
        } else if mode == 5 {
            (AddressingMode::XIndexedZeroPage(byte_at(space, cursor)), 1)
        } else if mode == 6 {
            (AddressingMode::YIndexedAbsolute(word_at(space, cursor)), 2)
        } else {
            (AddressingMode::XIndexedAbsolute(word_at(space, cursor)), 2)
        }
    }

    fn read_byte(space: &AddressSpace, address: u16) -> (r: u8)
        requires
            space.wf(),
        ensures
            r == byte_at(*space, address),
    {
        space.read_or_zero_byte(address as usize)
    }

    fn read_word(space: &AddressSpace, address: u16) -> (r: u16)
        requires
            space.wf(),
        ensures
            r == word_at(*space, address),
    {
        let low = Self::read_byte(space, address);
        let high = Self::read_byte(space, address.wrapping_add(1));
        low as u16 + 256 * high as u16
    }

    /// Decodes the mode bits of a group one instruction, reading the
    /// operand from `cursor` on; unreadable bytes read as 0.
    pub fn from_group1_addressing(cursor: u16, space: &AddressSpace, mode: u8) -> (r: (
        AddressingMode,
        u8,
    ))
        requires
            space.wf(),
            mode < 8,
        ensures
            r == Self::spec_from_group1_addressing(cursor, *space, mode),
    {
        match mode {
            0 => (AddressingMode::XIndexedZeroPageIndirect(Self::read_byte(space, cursor)), 1),
            1 => (AddressingMode::ZeroPage(Self::read_byte(space, cursor)), 1),
            2 => (AddressingMode::Immediate(Self::read_byte(space, cursor)), 1),
            3 => (AddressingMode::Absolute(Self::read_word(space, cursor)), 2),
            4 => (AddressingMode::ZeroPageIndirectYIndexed(Self::read_byte(space, cursor)), 1),
            5 => (AddressingMode::XIndexedZeroPage(Self::read_byte(space, cursor)), 1),
            6 => (AddressingMode::YIndexedAbsolute(Self::read_word(space, cursor)), 2),
            _ => (AddressingMode::XIndexedAbsolute(Self::read_word(space, cursor)), 2),
        }
    }

    /// Decodes the mode bits of a group two instruction, reading the
    /// operand from `cursor` on; unreadable bytes read as 0.
    pub fn from_group2_addressing(cursor: u16, space: &AddressSpace, mode: u8) -> (r: (
        AddressingMode,
        u8,
    ))
        requires
            space.wf(),
            mode < 8,
        ensures
            r == Self::spec_from_group2_addressing(cursor, *space, mode),
    {
        match mode {
            0 => (AddressingMode::XIndexedZeroPageIndirect(Self::read_byte(space, cursor)), 1),
            1 => (AddressingMode::ZeroPage(Self::read_byte(space, cursor)), 1),
            2 => (AddressingMode::Accumulator, 0),
            3 => (AddressingMode::Absolute(Self::read_word(space, cursor)), 2),
            4 => (AddressingMode::ZeroPageIndirectYIndexed(Self::read_byte(space, cursor)), 1),
            5 => (AddressingMode::XIndexedZeroPage(Self::read_byte(space, cursor)), 1),
            6 => (AddressingMode::YIndexedAbsolute(Self::read_word(space, cursor)), 2),
            _ => (AddressingMode::XIndexedAbsolute(Self::read_word(space, cursor)), 2),
        }
    }
}

} // verus!
