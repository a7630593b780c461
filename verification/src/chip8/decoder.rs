//! Decoding of the two-byte CHIP-8 instruction words.
use vstd::prelude::*;

use super::instruction::{
    Chip8InstructionSet, Coordinates, InstructionSetChip8, InstructionSetSuperChip8, Register,
    ScrollDirection,
};
use crate::memory::AddressSpace;

verus! {

/// The register a nibble names.
pub open spec fn reg(nibble: u8) -> Register {
    Register::spec_from_repr(nibble)->0
}

pub open spec fn c8(i: InstructionSetChip8) -> Option<Chip8InstructionSet> {
    Some(Chip8InstructionSet::Chip8(i))
}

pub open spec fn sc8(i: InstructionSetSuperChip8) -> Option<Chip8InstructionSet> {
    Some(Chip8InstructionSet::SuperChip8(i))
}

/// The instruction the big endian word `high low` encodes, if any. Nibbles
/// are named from the top: `n0 n1 n2 n3`; `nnn` is the low twelve bits.
pub open spec fn spec_decode(high: u8, low: u8) -> Option<Chip8InstructionSet> {
    let n0 = high / 16;
    let n1 = high % 16;
    let n2 = low / 16;
    let n3 = low % 16;
    let nnn = (n1 as int * 256 + low as int) as u16;
    let x = reg(n1);
    let y = reg(n2);
    if n0 == 0x0 {
        if n1 != 0 {
            None
        } else if n2 == 0xe && n3 == 0x0 {
            c8(InstructionSetChip8::Clr)
        } else if n2 == 0xe && n3 == 0xe {
            c8(InstructionSetChip8::Rtrn)
        } else if n2 == 0xf && n3 == 0xe {
            sc8(InstructionSetSuperChip8::Lores)
        } else if n2 == 0xf && n3 == 0xf {
            sc8(InstructionSetSuperChip8::Hires)
        } else if n2 == 0xc {
            sc8(InstructionSetSuperChip8::Scroll { direction: ScrollDirection::Down { amount: n3 } })
        } else if n2 == 0xf && (n3 == 0xb || n3 == 0xc) {
            sc8(InstructionSetSuperChip8::Scroll { direction: ScrollDirection::Right })
        } else {
            None
        }
    } else if n0 == 0x1 {
        c8(InstructionSetChip8::Jump { address: nnn })
    } else if n0 == 0x2 {
        c8(InstructionSetChip8::Call { address: nnn })
    } else if n0 == 0x3 {
        c8(InstructionSetChip8::Ske { register: x, immediate: low })
    } else if n0 == 0x4 {
        c8(InstructionSetChip8::Skne { register: x, immediate: low })
    } else if n0 == 0x5 {
        c8(InstructionSetChip8::Skre { param_1: x, param_2: y })
    } else if n0 == 0x6 {
        c8(InstructionSetChip8::Load { register: x, immediate: low })
    } else if n0 == 0x7 {
        c8(InstructionSetChip8::Add { register: x, immediate: low })
    } else if n0 == 0x8 {
        if n3 == 0x0 {
            c8(InstructionSetChip8::Move { param_1: x, param_2: y })
        } else if n3 == 0x1 {
            c8(InstructionSetChip8::Or { destination: x, source: y })
        } else if n3 == 0x2 {
            c8(InstructionSetChip8::And { destination: x, source: y })
        } else if n3 == 0x3 {
            c8(InstructionSetChip8::Xor { destination: x, source: y })
        } else if n3 == 0x4 {
            c8(InstructionSetChip8::Addr { destination: x, source: y })
        } else if n3 == 0x5 {
            c8(InstructionSetChip8::Sub { destination: x, source: y })
        } else if n3 == 0x6 {
            c8(InstructionSetChip8::Shr { register: x, value: y })
        } else if n3 == 0x7 {
            c8(InstructionSetChip8::Subn { destination: x, source: y })
        } else if n3 == 0xe {
            c8(InstructionSetChip8::Shl { register: x, value: y })
        } else {
            None
        }
    } else if n0 == 0x9 {
        if n3 == 0 {
            c8(InstructionSetChip8::Skrne { param_1: x, param_2: y })
        } else {
            None
        }
    } else if n0 == 0xa {
        c8(InstructionSetChip8::Loadi { value: nnn })
    } else if n0 == 0xb {
        c8(InstructionSetChip8::Jumpi { address: nnn })
    } else if n0 == 0xc {
        c8(InstructionSetChip8::Rand { register: x, immediate: low })
    } else if n0 == 0xd {
        c8(InstructionSetChip8::Draw { coordinates: Coordinates { x, y }, height: n3 })
    } else if n0 == 0xe {
        if low == 0x9e {
            c8(InstructionSetChip8::Skpr { key: x })
        } else if low == 0xa1 {
            c8(InstructionSetChip8::Skup { key: x })
        } else {
            None
        }
    } else {
        if low == 0x07 {
            c8(InstructionSetChip8::Moved { register: x })
        } else if low == 0x0a {
            c8(InstructionSetChip8::Keyd { key: x })
        } else if low == 0x15 {
            c8(InstructionSetChip8::Loadd { register: x })
        } else if low == 0x18 {
            c8(InstructionSetChip8::Loads { register: x })
        } else if low == 0x1e {
            c8(InstructionSetChip8::Addi { register: x })
        } else if low == 0x29 {
            c8(InstructionSetChip8::Font { register: x })
        } else if low == 0x33 {
            c8(InstructionSetChip8::Bcd { register: x })
        } else if low == 0x55 {
            c8(InstructionSetChip8::Save { count: n1 })
        } else if low == 0x65 {
            c8(InstructionSetChip8::Restore { count: n1 })
        } else {
            None
        }
    }
}

fn nibble_register(nibble: u8) -> (r: Register)
    requires
        nibble < 16,
    ensures
        r == reg(nibble),
{
    Register::from_repr(nibble).unwrap()
}

/// Decodes a big endian instruction word.
pub fn decode_instruction(instruction: [u8; 2]) -> (r: Option<Chip8InstructionSet>)
    ensures
        r == spec_decode(instruction@[0], instruction@[1]),
{
    let high = instruction[0];
    let low = instruction[1];
    let n0 = high / 16;
    let n1 = high % 16;
    let n2 = low / 16;
    let n3 = low % 16;
    let nnn: u16 = n1 as u16 * 256 + low as u16;

    Some(
        match n0 {
            0x0 => {
                if n1 != 0 {
                    return None;
                }
                match (n2, n3) {
                    (0xe, 0x0) => Chip8InstructionSet::Chip8(InstructionSetChip8::Clr),
                    (0xe, 0xe) => Chip8InstructionSet::Chip8(InstructionSetChip8::Rtrn),
                    (0xf, 0xe) => Chip8InstructionSet::SuperChip8(InstructionSetSuperChip8::Lores),
                    (0xf, 0xf) => Chip8InstructionSet::SuperChip8(InstructionSetSuperChip8::Hires),
                    (0xc, _) => Chip8InstructionSet::SuperChip8(
                        InstructionSetSuperChip8::Scroll {
                            direction: ScrollDirection::Down { amount: n3 },
                        },
                    ),
                    (0xf, 0xb) => Chip8InstructionSet::SuperChip8(
                        InstructionSetSuperChip8::Scroll { direction: ScrollDirection::Right },
                    ),
                    (0xf, 0xc) => Chip8InstructionSet::SuperChip8(
                        InstructionSetSuperChip8::Scroll { direction: ScrollDirection::Right },
                    ),
                    _ => return None,
                }
            },
            0x1 => Chip8InstructionSet::Chip8(InstructionSetChip8::Jump { address: nnn }),
            0x2 => Chip8InstructionSet::Chip8(InstructionSetChip8::Call { address: nnn }),
            0x3 => Chip8InstructionSet::Chip8(
                InstructionSetChip8::Ske { register: nibble_register(n1), immediate: low },
            ),
            0x4 => Chip8InstructionSet::Chip8(
                InstructionSetChip8::Skne { register: nibble_register(n1), immediate: low },
            ),
            0x5 => Chip8InstructionSet::Chip8(
                InstructionSetChip8::Skre {
                    param_1: nibble_register(n1),
                    param_2: nibble_register(n2),
                },
            ),
            0x6 => Chip8InstructionSet::Chip8(
                InstructionSetChip8::Load { register: nibble_register(n1), immediate: low },
            ),
            0x7 => Chip8InstructionSet::Chip8(
                InstructionSetChip8::Add { register: nibble_register(n1), immediate: low },
            ),
            0x8 => {
                let x = nibble_register(n1);
                let y = nibble_register(n2);
                match n3 {
                    0x0 => Chip8InstructionSet::Chip8(
                        InstructionSetChip8::Move { param_1: x, param_2: y },
                    ),
                    0x1 => Chip8InstructionSet::Chip8(
                        InstructionSetChip8::Or { destination: x, source: y },
                    ),
                    0x2 => Chip8InstructionSet::Chip8(
                        InstructionSetChip8::And { destination: x, source: y },
                    ),
                    0x3 => Chip8InstructionSet::Chip8(
                        InstructionSetChip8::Xor { destination: x, source: y },
                    ),
                    0x4 => Chip8InstructionSet::Chip8(
                        InstructionSetChip8::Addr { destination: x, source: y },
                    ),
                    0x5 => Chip8InstructionSet::Chip8(
                        InstructionSetChip8::Sub { destination: x, source: y },
                    ),
                    0x6 => Chip8InstructionSet::Chip8(
                        InstructionSetChip8::Shr { register: x, value: y },
                    ),
                    0x7 => Chip8InstructionSet::Chip8(
                        InstructionSetChip8::Subn { destination: x, source: y },
                    ),
                    0xe => Chip8InstructionSet::Chip8(
                        InstructionSetChip8::Shl { register: x, value: y },
                    ),
                    _ => return None,
                }
            },
            0x9 => {
                if n3 != 0 {
                    return None;
                }
                Chip8InstructionSet::Chip8(
                    InstructionSetChip8::Skrne {
                        param_1: nibble_register(n1),
                        param_2: nibble_register(n2),
                    },
                )
            },
            0xa => Chip8InstructionSet::Chip8(InstructionSetChip8::Loadi { value: nnn }),
            0xb => Chip8InstructionSet::Chip8(InstructionSetChip8::Jumpi { address: nnn }),
            0xc => Chip8InstructionSet::Chip8(
                InstructionSetChip8::Rand { register: nibble_register(n1), immediate: low },
            ),
            0xd => Chip8InstructionSet::Chip8(
                InstructionSetChip8::Draw {
                    coordinates: Coordinates { x: nibble_register(n1), y: nibble_register(n2) },
                    height: n3,
                },
            ),
            0xe => {
                let key = nibble_register(n1);
                match low {
                    0x9e => Chip8InstructionSet::Chip8(InstructionSetChip8::Skpr { key }),
                    0xa1 => Chip8InstructionSet::Chip8(InstructionSetChip8::Skup { key }),
                    _ => return None,
                }
            },
            _ => {
                let register = nibble_register(n1);
                match low {
                    0x07 => Chip8InstructionSet::Chip8(InstructionSetChip8::Moved { register }),
                    0x0a => Chip8InstructionSet::Chip8(InstructionSetChip8::Keyd { key: register }),
                    0x15 => Chip8InstructionSet::Chip8(InstructionSetChip8::Loadd { register }),
                    0x18 => Chip8InstructionSet::Chip8(InstructionSetChip8::Loads { register }),
                    0x1e => Chip8InstructionSet::Chip8(InstructionSetChip8::Addi { register }),
                    0x29 => Chip8InstructionSet::Chip8(InstructionSetChip8::Font { register }),
                    0x33 => Chip8InstructionSet::Chip8(InstructionSetChip8::Bcd { register }),
                    0x55 => Chip8InstructionSet::Chip8(InstructionSetChip8::Save { count: n1 }),
                    0x65 => Chip8InstructionSet::Chip8(InstructionSetChip8::Restore { count: n1 }),
                    _ => return None,
                }
            },
        },
    )
}

/// Decoder that reads instruction words out of an address space.
#[derive(Debug, Default, Clone, Copy)]
pub struct Chip8InstructionDecoder;

impl Chip8InstructionDecoder {
    /// Decodes the word at `cursor`, giving the instruction and its length
    /// in bytes (always 2); `None` when the word encodes nothing.
    pub fn decode(&self, cursor: usize, address_space: &AddressSpace) -> (r: Option<
        (Chip8InstructionSet, u8),
    >)
        requires
            address_space.wf(),
            cursor + 2 <= usize::MAX,
            address_space.spec_read(cursor as int) is Some,
            address_space.spec_read(cursor + 1) is Some,
        ensures
            r == match spec_decode(
                address_space.spec_read(cursor as int)->0,
                address_space.spec_read(cursor + 1)->0,
            ) {
                Some(i) => Some((i, 2u8)),
                None => None,
            },
    {
        let high = address_space.read_or_zero_byte(cursor);
        let low = address_space.read_or_zero_byte(cursor + 1);
        match decode_instruction([high, low]) {
            Some(i) => Some((i, 2)),
            None => None,
        }
    }
}

/// Register `r` is the one nibble `n` names.
pub open spec fn named(r: Register, n: u8) -> bool {
    r.spec_index() == n
}

/// The CHIP-8 instruction words and what they decode to, nibble by nibble
/// (`high` = `n0 n1`, `low` = `n2 n3`, `nnn` = `n1 low`): 1nnn jumps, 2nnn
/// calls, 3xkk skips when Vx equals kk and 4xkk when it does not, 5xy0
/// skips when Vx equals Vy and 9xy0 when it does not, 6xkk loads kk, 7xkk
/// adds kk, 8xy0..8xyE move, or, and, xor, add, subtract, shift right,
/// subtract back and shift left, Annn loads the index, Bnnn jumps offset,
/// Cxkk draws a random byte masked by kk, Dxyn draws n rows.
pub proof fn lemma_decode_table(high: u8, low: u8)
    ensures
        ({
            let n0 = high / 16;
            let n1 = high % 16;
            let n2 = low / 16;
            let n3 = low % 16;
            let nnn = n1 * 256 + low;
            let d = spec_decode(high, low);
            &&& n0 == 1 ==> (d matches Some(Chip8InstructionSet::Chip8(InstructionSetChip8::Jump { address })) && address == nnn)
            &&& n0 == 2 ==> (d matches Some(Chip8InstructionSet::Chip8(InstructionSetChip8::Call { address })) && address == nnn)
            &&& n0 == 3 ==> (d matches Some(Chip8InstructionSet::Chip8(InstructionSetChip8::Ske { register, immediate })) && named(register, n1) && immediate == low)
            &&& n0 == 4 ==> (d matches Some(Chip8InstructionSet::Chip8(InstructionSetChip8::Skne { register, immediate })) && named(register, n1) && immediate == low)
            &&& n0 == 5 ==> (d matches Some(Chip8InstructionSet::Chip8(InstructionSetChip8::Skre { param_1, param_2 })) && named(param_1, n1) && named(param_2, n2))
            &&& n0 == 6 ==> (d matches Some(Chip8InstructionSet::Chip8(InstructionSetChip8::Load { register, immediate })) && named(register, n1) && immediate == low)
            &&& n0 == 7 ==> (d matches Some(Chip8InstructionSet::Chip8(InstructionSetChip8::Add { register, immediate })) && named(register, n1) && immediate == low)
            &&& (n0 == 8 && n3 == 0) ==> (d matches Some(Chip8InstructionSet::Chip8(InstructionSetChip8::Move { param_1, param_2 })) && named(param_1, n1) && named(param_2, n2))
            &&& (n0 == 8 && n3 == 1) ==> (d matches Some(Chip8InstructionSet::Chip8(InstructionSetChip8::Or { destination, source })) && named(destination, n1) && named(source, n2))
            &&& (n0 == 8 && n3 == 2) ==> (d matches Some(Chip8InstructionSet::Chip8(InstructionSetChip8::And { destination, source })) && named(destination, n1) && named(source, n2))
            &&& (n0 == 8 && n3 == 3) ==> (d matches Some(Chip8InstructionSet::Chip8(InstructionSetChip8::Xor { destination, source })) && named(destination, n1) && named(source, n2))
            &&& (n0 == 8 && n3 == 4) ==> (d matches Some(Chip8InstructionSet::Chip8(InstructionSetChip8::Addr { destination, source })) && named(destination, n1) && named(source, n2))
            &&& (n0 == 8 && n3 == 5) ==> (d matches Some(Chip8InstructionSet::Chip8(InstructionSetChip8::Sub { destination, source })) && named(destination, n1) && named(source, n2))
            &&& (n0 == 8 && n3 == 6) ==> (d matches Some(Chip8InstructionSet::Chip8(InstructionSetChip8::Shr { register, value })) && named(register, n1) && named(value, n2))
            &&& (n0 == 8 && n3 == 7) ==> (d matches Some(Chip8InstructionSet::Chip8(InstructionSetChip8::Subn { destination, source })) && named(destination, n1) && named(source, n2))
            &&& (n0 == 8 && n3 == 14) ==> (d matches Some(Chip8InstructionSet::Chip8(InstructionSetChip8::Shl { register, value })) && named(register, n1) && named(value, n2))
            &&& (n0 == 9 && n3 == 0) ==> (d matches Some(Chip8InstructionSet::Chip8(InstructionSetChip8::Skrne { param_1, param_2 })) && named(param_1, n1) && named(param_2, n2))
            &&& n0 == 10 ==> (d matches Some(Chip8InstructionSet::Chip8(InstructionSetChip8::Loadi { value })) && value == nnn)
            &&& n0 == 11 ==> (d matches Some(Chip8InstructionSet::Chip8(InstructionSetChip8::Jumpi { address })) && address == nnn)
            &&& n0 == 12 ==> (d matches Some(Chip8InstructionSet::Chip8(InstructionSetChip8::Rand { register, immediate })) && named(register, n1) && immediate == low)
            &&& n0 == 13 ==> (d matches Some(Chip8InstructionSet::Chip8(InstructionSetChip8::Draw { coordinates, height })) && named(coordinates.x, n1) && named(coordinates.y, n2) && height == n3)
            &&& (n0 == 14 && low == 0x9e) ==> (d matches Some(Chip8InstructionSet::Chip8(InstructionSetChip8::Skpr { key })) && named(key, n1))
            &&& (n0 == 14 && low == 0xa1) ==> (d matches Some(Chip8InstructionSet::Chip8(InstructionSetChip8::Skup { key })) && named(key, n1))
            &&& (high == 0x00 && low == 0xe0) ==> d == Some(Chip8InstructionSet::Chip8(InstructionSetChip8::Clr))
            &&& (high == 0x00 && low == 0xee) ==> d == Some(Chip8InstructionSet::Chip8(InstructionSetChip8::Rtrn))
        }),
{
    let n1 = high % 16;
    let n2 = low / 16;
    assert(named(reg(n1), n1));
    assert(named(reg(n2), n2));
}

} // verus!
