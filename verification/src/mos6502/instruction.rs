//! Opcodes and addressing modes of the 6502 family.
use vstd::prelude::*;

use super::Mos6502Kind;

verus! {

/// Addressing modes present on every member of the family.
#[derive(Debug, Copy, Clone, PartialEq, Eq, Structural)]
pub enum Mos6502AddressingMode {
    Immediate,
    Absolute,
    XIndexedAbsolute,
    YIndexedAbsolute,
    AbsoluteIndirect,
    ZeroPage,
    XIndexedZeroPage,
    YIndexedZeroPage,
    XIndexedZeroPageIndirect,
    ZeroPageIndirectYIndexed,
    Relative,
    Accumulator,
}

/// Addressing modes added by the CMOS 65C02.
#[derive(Debug, Copy, Clone, PartialEq, Eq, Structural)]
pub enum Wdc65C02AddressingMode {
    ZeroPageIndirect,
}

#[derive(Debug, Copy, Clone, PartialEq, Eq, Structural)]
pub enum AddressingMode {
    Mos6502(Mos6502AddressingMode),
    Wdc65C02(Wdc65C02AddressingMode),
}

impl AddressingMode {
    pub open spec fn spec_is_valid_for_mode(self, mode: Mos6502Kind) -> bool {
        match mode {
            Mos6502Kind::Wdc65C02 => true,
            _ => self is Mos6502,
        }
    }

    /// Whether a chip of the given kind has this addressing mode.
    pub fn is_valid_for_mode(&self, mode: Mos6502Kind) -> (r: bool)
        ensures
            r == self.spec_is_valid_for_mode(mode),
    {
        match mode {
            Mos6502Kind::Mos6502 => matches!(self, AddressingMode::Mos6502(_)),
            Mos6502Kind::Mos6507 => matches!(self, AddressingMode::Mos6502(_)),
            Mos6502Kind::Ricoh2A0x => matches!(self, AddressingMode::Mos6502(_)),
            Mos6502Kind::Wdc65C02 => matches!(
                self,
                AddressingMode::Mos6502(_) | AddressingMode::Wdc65C02(_)
            ),
        }
    }

    /// Number of operand bytes that follow the opcode byte.
    pub open spec fn spec_added_instruction_length(self) -> u16 {
        match self {
            AddressingMode::Mos6502(m) => match m {
                Mos6502AddressingMode::Immediate => 1,
                Mos6502AddressingMode::Absolute => 2,
                Mos6502AddressingMode::XIndexedAbsolute => 2,
                Mos6502AddressingMode::YIndexedAbsolute => 2,
                Mos6502AddressingMode::AbsoluteIndirect => 2,
                Mos6502AddressingMode::ZeroPage => 1,
                Mos6502AddressingMode::XIndexedZeroPage => 1,
                Mos6502AddressingMode::YIndexedZeroPage => 1,
                Mos6502AddressingMode::XIndexedZeroPageIndirect => 1,
                Mos6502AddressingMode::ZeroPageIndirectYIndexed => 1,
                Mos6502AddressingMode::Relative => 1,
                Mos6502AddressingMode::Accumulator => 0,
            },
            AddressingMode::Wdc65C02(Wdc65C02AddressingMode::ZeroPageIndirect) => 1,
        }
    }

    /// Number of operand bytes that follow the opcode byte.
    pub fn added_instruction_length(&self) -> (r: u16)
        ensures
            r == self.spec_added_instruction_length(),
            r <= 2,
    {
        match self {
            AddressingMode::Mos6502(Mos6502AddressingMode::Immediate) => 1,
            AddressingMode::Mos6502(Mos6502AddressingMode::Absolute) => 2,
            AddressingMode::Mos6502(Mos6502AddressingMode::XIndexedAbsolute) => 2,
            AddressingMode::Mos6502(Mos6502AddressingMode::YIndexedAbsolute) => 2,
            AddressingMode::Mos6502(Mos6502AddressingMode::AbsoluteIndirect) => 2,
            AddressingMode::Mos6502(Mos6502AddressingMode::ZeroPage) => 1,
            AddressingMode::Mos6502(Mos6502AddressingMode::XIndexedZeroPage) => 1,
            AddressingMode::Mos6502(Mos6502AddressingMode::YIndexedZeroPage) => 1,
            AddressingMode::Mos6502(Mos6502AddressingMode::XIndexedZeroPageIndirect) => 1,
            AddressingMode::Mos6502(Mos6502AddressingMode::ZeroPageIndirectYIndexed) => 1,
            AddressingMode::Mos6502(Mos6502AddressingMode::Relative) => 1,
            AddressingMode::Mos6502(Mos6502AddressingMode::Accumulator) => 0,
            AddressingMode::Wdc65C02(Wdc65C02AddressingMode::ZeroPageIndirect) => 1,
        }
    }
}

/// Opcodes of the NMOS 6502, documented and undocumented.
#[derive(Debug, Copy, Clone, PartialEq, Eq, PartialOrd, Ord, Hash, Structural)]
pub enum Mos6502Opcode {
    Adc,
    Anc,
    And,
    Arr,
    Asl,
    Asr,
    Bcc,
    Bcs,
    Beq,
    Bit,
    Bmi,
    Bne,
    Bpl,
    Brk,
    Bvc,
    Bvs,
    Clc,
    Cld,
    Cli,
    Clv,
    Cmp,
    Cpx,
    Cpy,
    Dcp,
    Dec,
    Dex,
    Dey,
    Eor,
    Inc,
    Inx,
    Iny,
    Isc,
    Jam,
    Jmp,
    Jsr,
    Las,
    Lax,
    Lda,
    Ldx,
    Ldy,
    Lsr,
    Nop,
    Ora,
    Pha,
    Php,
    Pla,
    Plp,
    Rla,
    Rol,
    Ror,
    Rra,
    Rti,
    Rts,
    Sax,
    Sbc,
    Sbx,
    Sec,
    Sed,
    Sei,
    Sha,
    Shs,
    Shx,
    Shy,
    Slo,
    Sre,
    Sta,
    Stx,
    Sty,
    Tax,
    Tay,
    Tsx,
    Txa,
    Txs,
    Tya,
    Xaa,
}

/// Opcodes added by the CMOS 65C02.
#[derive(Debug, Copy, Clone, PartialEq, Eq, PartialOrd, Ord, Hash, Structural)]
pub enum Wdc65C02Opcode {
    Bra,
    Phx,
    Phy,
    Plx,
    Ply,
    Stz,
    Trb,
    Tsb,
    Stp,
    Wai,
}

#[derive(Debug, Copy, Clone, PartialEq, Eq, Structural)]
pub enum Opcode {
    Mos6502(Mos6502Opcode),
    Wdc65C02(Wdc65C02Opcode),
}

/// The mnemonic of an opcode, as its variant is named.
pub open spec fn spec_mnemonic(opcode: Opcode) -> &'static str {
    match opcode {
        Opcode::Mos6502(o) => match o {
            Mos6502Opcode::Adc => "Adc",
            Mos6502Opcode::Anc => "Anc",
            Mos6502Opcode::And => "And",
            Mos6502Opcode::Arr => "Arr",
            Mos6502Opcode::Asl => "Asl",
            Mos6502Opcode::Asr => "Asr",
            Mos6502Opcode::Bcc => "Bcc",
            Mos6502Opcode::Bcs => "Bcs",
            Mos6502Opcode::Beq => "Beq",
            Mos6502Opcode::Bit => "Bit",
            Mos6502Opcode::Bmi => "Bmi",
            Mos6502Opcode::Bne => "Bne",
            Mos6502Opcode::Bpl => "Bpl",
            Mos6502Opcode::Brk => "Brk",
            Mos6502Opcode::Bvc => "Bvc",
            Mos6502Opcode::Bvs => "Bvs",
            Mos6502Opcode::Clc => "Clc",
            Mos6502Opcode::Cld => "Cld",
            Mos6502Opcode::Cli => "Cli",
            Mos6502Opcode::Clv => "Clv",
            Mos6502Opcode::Cmp => "Cmp",
            Mos6502Opcode::Cpx => "Cpx",
            Mos6502Opcode::Cpy => "Cpy",
            Mos6502Opcode::Dcp => "Dcp",
            Mos6502Opcode::Dec => "Dec",
            Mos6502Opcode::Dex => "Dex",
            Mos6502Opcode::Dey => "Dey",
            Mos6502Opcode::Eor => "Eor",
            Mos6502Opcode::Inc => "Inc",
            Mos6502Opcode::Inx => "Inx",
            Mos6502Opcode::Iny => "Iny",
            Mos6502Opcode::Isc => "Isc",
            Mos6502Opcode::Jam => "Jam",
            Mos6502Opcode::Jmp => "Jmp",
            Mos6502Opcode::Jsr => "Jsr",
            Mos6502Opcode::Las => "Las",
            Mos6502Opcode::Lax => "Lax",
            Mos6502Opcode::Lda => "Lda",
            Mos6502Opcode::Ldx => "Ldx",
            Mos6502Opcode::Ldy => "Ldy",
            Mos6502Opcode::Lsr => "Lsr",
            Mos6502Opcode::Nop => "Nop",
            Mos6502Opcode::Ora => "Ora",
            Mos6502Opcode::Pha => "Pha",
            Mos6502Opcode::Php => "Php",
            Mos6502Opcode::Pla => "Pla",
            Mos6502Opcode::Plp => "Plp",
            Mos6502Opcode::Rla => "Rla",
            Mos6502Opcode::Rol => "Rol",
            Mos6502Opcode::Ror => "Ror",
            Mos6502Opcode::Rra => "Rra",
            Mos6502Opcode::Rti => "Rti",
            Mos6502Opcode::Rts => "Rts",
            Mos6502Opcode::Sax => "Sax",
            Mos6502Opcode::Sbc => "Sbc",
            Mos6502Opcode::Sbx => "Sbx",
            Mos6502Opcode::Sec => "Sec",
            Mos6502Opcode::Sed => "Sed",
            Mos6502Opcode::Sei => "Sei",
            Mos6502Opcode::Sha => "Sha",
            Mos6502Opcode::Shs => "Shs",
            Mos6502Opcode::Shx => "Shx",
            Mos6502Opcode::Shy => "Shy",
            Mos6502Opcode::Slo => "Slo",
            Mos6502Opcode::Sre => "Sre",
            Mos6502Opcode::Sta => "Sta",
            Mos6502Opcode::Stx => "Stx",
            Mos6502Opcode::Sty => "Sty",
            Mos6502Opcode::Tax => "Tax",
            Mos6502Opcode::Tay => "Tay",
            Mos6502Opcode::Tsx => "Tsx",
            Mos6502Opcode::Txa => "Txa",
            Mos6502Opcode::Txs => "Txs",
            Mos6502Opcode::Tya => "Tya",
            Mos6502Opcode::Xaa => "Xaa",
        },
        Opcode::Wdc65C02(o) => match o {
            Wdc65C02Opcode::Bra => "Bra",
            Wdc65C02Opcode::Phx => "Phx",
            Wdc65C02Opcode::Phy => "Phy",
            Wdc65C02Opcode::Plx => "Plx",
            Wdc65C02Opcode::Ply => "Ply",
            Wdc65C02Opcode::Stz => "Stz",
            Wdc65C02Opcode::Trb => "Trb",
            Wdc65C02Opcode::Tsb => "Tsb",
            Wdc65C02Opcode::Stp => "Stp",
            Wdc65C02Opcode::Wai => "Wai",
        },
    }
}

impl Opcode {
    /// The text an opcode is displayed as: the name of its variant.
    pub fn mnemonic(&self) -> (r: &'static str)
        ensures
            r == spec_mnemonic(*self),
    {
        match self {
            Opcode::Mos6502(o) => match o {
                Mos6502Opcode::Adc => "Adc",
                Mos6502Opcode::Anc => "Anc",
                Mos6502Opcode::And => "And",
                Mos6502Opcode::Arr => "Arr",
                Mos6502Opcode::Asl => "Asl",
                Mos6502Opcode::Asr => "Asr",
                Mos6502Opcode::Bcc => "Bcc",
                Mos6502Opcode::Bcs => "Bcs",
                Mos6502Opcode::Beq => "Beq",
                Mos6502Opcode::Bit => "Bit",
                Mos6502Opcode::Bmi => "Bmi",
                Mos6502Opcode::Bne => "Bne",
                Mos6502Opcode::Bpl => "Bpl",
                Mos6502Opcode::Brk => "Brk",
                Mos6502Opcode::Bvc => "Bvc",
                Mos6502Opcode::Bvs => "Bvs",
                Mos6502Opcode::Clc => "Clc",
                Mos6502Opcode::Cld => "Cld",
                Mos6502Opcode::Cli => "Cli",
                Mos6502Opcode::Clv => "Clv",
                Mos6502Opcode::Cmp => "Cmp",
                Mos6502Opcode::Cpx => "Cpx",
                Mos6502Opcode::Cpy => "Cpy",
                Mos6502Opcode::Dcp => "Dcp",
                Mos6502Opcode::Dec => "Dec",
                Mos6502Opcode::Dex => "Dex",
                Mos6502Opcode::Dey => "Dey",
                Mos6502Opcode::Eor => "Eor",
                Mos6502Opcode::Inc => "Inc",
                Mos6502Opcode::Inx => "Inx",
                Mos6502Opcode::Iny => "Iny",
                Mos6502Opcode::Isc => "Isc",
                Mos6502Opcode::Jam => "Jam",
                Mos6502Opcode::Jmp => "Jmp",
                Mos6502Opcode::Jsr => "Jsr",
                Mos6502Opcode::Las => "Las",
                Mos6502Opcode::Lax => "Lax",
                Mos6502Opcode::Lda => "Lda",
                Mos6502Opcode::Ldx => "Ldx",
                Mos6502Opcode::Ldy => "Ldy",
                Mos6502Opcode::Lsr => "Lsr",
                Mos6502Opcode::Nop => "Nop",
                Mos6502Opcode::Ora => "Ora",
                Mos6502Opcode::Pha => "Pha",
                Mos6502Opcode::Php => "Php",
                Mos6502Opcode::Pla => "Pla",
                Mos6502Opcode::Plp => "Plp",
                Mos6502Opcode::Rla => "Rla",
                Mos6502Opcode::Rol => "Rol",
                Mos6502Opcode::Ror => "Ror",
                Mos6502Opcode::Rra => "Rra",
                Mos6502Opcode::Rti => "Rti",
                Mos6502Opcode::Rts => "Rts",
                Mos6502Opcode::Sax => "Sax",
                Mos6502Opcode::Sbc => "Sbc",
                Mos6502Opcode::Sbx => "Sbx",
                Mos6502Opcode::Sec => "Sec",
                Mos6502Opcode::Sed => "Sed",
                Mos6502Opcode::Sei => "Sei",
                Mos6502Opcode::Sha => "Sha",
                Mos6502Opcode::Shs => "Shs",
                Mos6502Opcode::Shx => "Shx",
                Mos6502Opcode::Shy => "Shy",
                Mos6502Opcode::Slo => "Slo",
                Mos6502Opcode::Sre => "Sre",
                Mos6502Opcode::Sta => "Sta",
                Mos6502Opcode::Stx => "Stx",
                Mos6502Opcode::Sty => "Sty",
                Mos6502Opcode::Tax => "Tax",
                Mos6502Opcode::Tay => "Tay",
                Mos6502Opcode::Tsx => "Tsx",
                Mos6502Opcode::Txa => "Txa",
                Mos6502Opcode::Txs => "Txs",
                Mos6502Opcode::Tya => "Tya",
                Mos6502Opcode::Xaa => "Xaa",
            },
            Opcode::Wdc65C02(o) => match o {
                Wdc65C02Opcode::Bra => "Bra",
                Wdc65C02Opcode::Phx => "Phx",
                Wdc65C02Opcode::Phy => "Phy",
                Wdc65C02Opcode::Plx => "Plx",
                Wdc65C02Opcode::Ply => "Ply",
                Wdc65C02Opcode::Stz => "Stz",
                Wdc65C02Opcode::Trb => "Trb",
                Wdc65C02Opcode::Tsb => "Tsb",
                Wdc65C02Opcode::Stp => "Stp",
                Wdc65C02Opcode::Wai => "Wai",
            },
        }
    }
}

/// A decoded instruction: what to do, and where its operand lives.
#[derive(Debug, Copy, Clone, PartialEq, Eq, Structural)]
pub struct Mos6502InstructionSet {
    pub opcode: Opcode,
    pub addressing_mode: Option<AddressingMode>,
}

} // verus!
