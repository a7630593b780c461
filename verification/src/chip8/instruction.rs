//! The CHIP-8 family instruction sets.
use vstd::prelude::*;

verus! {

/// A work register, `V0` to `VF`.
#[derive(Debug, Clone, Copy, PartialEq, Eq, PartialOrd, Ord, Hash, Structural)]
pub enum Register {
    V0,
    V1,
    V2,
    V3,
    V4,
    V5,
    V6,
    V7,
    V8,
    V9,
    VA,
    VB,
    VC,
    VD,
    VE,
    VF,
}

impl Register {
    /// Index of the register, 0 to 15.
    pub open spec fn spec_index(self) -> u8 {
        match self {
            Register::V0 => 0,
            Register::V1 => 1,
            Register::V2 => 2,
            Register::V3 => 3,
            Register::V4 => 4,
            Register::V5 => 5,
            Register::V6 => 6,
            Register::V7 => 7,
            Register::V8 => 8,
            Register::V9 => 9,
            Register::VA => 10,
            Register::VB => 11,
            Register::VC => 12,
            Register::VD => 13,
            Register::VE => 14,
            Register::VF => 15,
        }
    }

    /// The register with index `n`, if any.
    pub open spec fn spec_from_repr(n: u8) -> Option<Register> {
        if n == 0 {
            Some(Register::V0)
        } else         if n == 1 {
            Some(Register::V1)
        } else         if n == 2 {
            Some(Register::V2)
        } else         if n == 3 {
            Some(Register::V3)
        } else         if n == 4 {
            Some(Register::V4)
        } else         if n == 5 {
            Some(Register::V5)
        } else         if n == 6 {
            Some(Register::V6)
        } else         if n == 7 {
            Some(Register::V7)
        } else         if n == 8 {
            Some(Register::V8)
        } else         if n == 9 {
            Some(Register::V9)
        } else         if n == 10 {
            Some(Register::VA)
        } else         if n == 11 {
            Some(Register::VB)
        } else         if n == 12 {
            Some(Register::VC)
        } else         if n == 13 {
            Some(Register::VD)
        } else         if n == 14 {
            Some(Register::VE)
        } else         if n == 15 {
            Some(Register::VF)
        } else {
            None
        }
    }

    /// The register with index `n`; `None` from 16 on.
    pub fn from_repr(n: u8) -> (r: Option<Register>)
        ensures
            r == Register::spec_from_repr(n),
            r matches Some(reg) ==> reg.spec_index() == n,
            r is Some <==> n < 16,
    {
        match n {
            0 => Some(Register::V0),
            1 => Some(Register::V1),
            2 => Some(Register::V2),
            3 => Some(Register::V3),
            4 => Some(Register::V4),
            5 => Some(Register::V5),
            6 => Some(Register::V6),
            7 => Some(Register::V7),
            8 => Some(Register::V8),
            9 => Some(Register::V9),
            10 => Some(Register::VA),
            11 => Some(Register::VB),
            12 => Some(Register::VC),
            13 => Some(Register::VD),
            14 => Some(Register::VE),
            15 => Some(Register::VF),
            _ => None,
        }
    }

    /// Index of the register, 0 to 15.
    pub fn index(&self) -> (r: usize)
        ensures
            r == self.spec_index(),
            r < 16,
    {
        match self {
            Register::V0 => 0,
            Register::V1 => 1,
            Register::V2 => 2,
            Register::V3 => 3,
            Register::V4 => 4,
            Register::V5 => 5,
            Register::V6 => 6,
            Register::V7 => 7,
            Register::V8 => 8,
            Register::V9 => 9,
            Register::VA => 10,
            Register::VB => 11,
            Register::VC => 12,
            Register::VD => 13,
            Register::VE => 14,
            Register::VF => 15,
        }
    }
}

/// A pair of registers naming the coordinates of a sprite.
#[derive(Debug, Clone, Copy, PartialEq, Eq, Hash, Structural)]
pub struct Coordinates {
    pub x: Register,
    pub y: Register,
}

/// A half-open run of registers.
#[derive(Debug, Clone, Copy, PartialEq, Eq, Hash, Structural)]
pub struct RegisterRange {
    pub start: Register,
    pub end: Register,
}

/// The instructions of the first CHIP-8 interpreter.
#[derive(Debug, Clone, Copy, PartialEq, Eq, Hash, Structural)]
pub enum InstructionSetChip8 {
    Clr,
    Rtrn,
    Jump { address: u16 },
    /// Jump but it adds the program counter to the stack
    Call { address: u16 },
    Ske { register: Register, immediate: u8 },
    Skne { register: Register, immediate: u8 },
    Skre { param_1: Register, param_2: Register },
    Load { register: Register, immediate: u8 },
    Add { register: Register, immediate: u8 },
    Move { param_1: Register, param_2: Register },
    Or { destination: Register, source: Register },
    And { destination: Register, source: Register },
    Xor { destination: Register, source: Register },
    Addr { destination: Register, source: Register },
    Sub { destination: Register, source: Register },
    Shr { register: Register, value: Register },
    Subn { destination: Register, source: Register },
    Shl { register: Register, value: Register },
    Skrne { param_1: Register, param_2: Register },
    Loadi { value: u16 },
    Jumpi { address: u16 },
    Rand { register: Register, immediate: u8 },
    Draw { coordinates: Coordinates, height: u8 },
    Skpr { key: Register },
    Skup { key: Register },
    Moved { register: Register },
    Keyd { key: Register },
    Loadd { register: Register },
    Loads { register: Register },
    Addi { register: Register },
    Font { register: Register },
    Bcd { register: Register },
    Save { count: u8 },
    Restore { count: u8 },
}

/// Direction of a SUPER-CHIP scroll.
#[derive(Debug, Clone, Copy, PartialEq, Eq, Hash, Structural)]
pub enum ScrollDirection {
    Left,
    Right,
    Down { amount: u8 },
}

/// Instructions added by SUPER-CHIP.
#[derive(Debug, Clone, Copy, PartialEq, Eq, Hash, Structural)]
pub enum InstructionSetSuperChip8 {
    Lores,
    Hires,
    Scroll { direction: ScrollDirection },
    Scrd { amount: u8 },
    Scrr,
    Scrl,
    Srpl { amount: u8 },
    Rrpl { amount: u8 },
}

/// Instructions added by XO-CHIP.
#[derive(Debug, Clone, Copy, PartialEq, Eq, Hash, Structural)]
pub enum InstructionSetXoChip {
    Ssub { bounds: RegisterRange },
    Rsub { bounds: RegisterRange },
}

/// Any instruction of the family.
#[derive(Debug, Clone, Copy, PartialEq, Eq, Hash, Structural)]
pub enum Chip8InstructionSet {
    Chip8(InstructionSetChip8),
    SuperChip8(InstructionSetSuperChip8),
    XoChip(InstructionSetXoChip),
}

} // verus!
