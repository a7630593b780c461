//! The MOS 6502 family of processors.
use vstd::prelude::*;

pub mod flags;
pub mod instruction;
pub mod decoder;
pub mod processor;
pub mod interpret;
pub mod cpu;

pub use cpu::{Mos6502, Mos6502Config};
pub use decoder::{
    InstructionGroup, Mos6502InstructionDecoder, decode_group1_space_instruction,
    decode_group2_space_instruction, decode_group3_space_instruction,
    decode_undocumented_space_instruction,
};
pub use flags::FlagRegister;
pub use instruction::{
    AddressingMode, Mos6502AddressingMode, Mos6502InstructionSet, Mos6502Opcode, Opcode,
    Wdc65C02AddressingMode, Wdc65C02Opcode,
};
pub use processor::{
    AddressBusModification, ExecutionStep, IRQ_VECTOR, IrqFlag, NMI_VECTOR, NmiFlag,
    ProcessorState, RESET_VECTOR, RdyFlag,
};

verus! {

/// Which member of the 6502 family is being emulated.
#[derive(Debug, Clone, Copy, PartialEq, Eq, PartialOrd, Ord, Hash, Structural)]
pub enum Mos6502Kind {
    /// Standard
    Mos6502,
    /// Slimmed down atari 2600 version
    Mos6507,
    /// NES version
    Ricoh2A0x,
    /// Upgraded version
    Wdc65C02,
}

impl Mos6502Kind {
    pub open spec fn spec_original_instruction_set(self) -> bool {
        self is Mos6502 || self is Mos6507 || self is Ricoh2A0x
    }

    /// Whether this chip decodes the original (non-CMOS) instruction set.
    pub fn original_instruction_set(&self) -> (r: bool)
        ensures
            r == self.spec_original_instruction_set(),
    {
        matches!(self, Self::Mos6502 | Self::Mos6507 | Self::Ricoh2A0x)
    }

    pub open spec fn spec_supports_decimal(self) -> bool {
        !(self is Ricoh2A0x)
    }

    /// Whether binary coded decimal arithmetic is present on this chip.
    pub fn supports_decimal(&self) -> (r: bool)
        ensures
            r == self.spec_supports_decimal(),
    {
        !matches!(self, Mos6502Kind::Ricoh2A0x)
    }

    pub open spec fn spec_supports_interrupts(self) -> bool {
        !(self is Mos6507)
    }

    /// Whether the chip has IRQ and NMI lines.
    pub fn supports_interrupts(&self) -> (r: bool)
        ensures
            r == self.spec_supports_interrupts(),
    {
        !matches!(self, Mos6502Kind::Mos6507)
    }

    pub open spec fn spec_absolute_indirect_page_wrap_errata(self) -> bool {
        self is Mos6502 || self is Mos6507 || self is Ricoh2A0x
    }

    /// Whether `JMP (abs)` fails to carry into the high byte of the pointer.
    pub fn absolute_indirect_page_wrap_errata(&self) -> (r: bool)
        ensures
            r == self.spec_absolute_indirect_page_wrap_errata(),
    {
        matches!(self, Self::Mos6502 | Self::Mos6507 | Self::Ricoh2A0x)
    }
}

} // verus!
