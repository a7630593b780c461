//! The processor status register.
use vstd::prelude::*;

verus! {

/// The status register, kept unpacked for speed.
#[derive(Debug, Clone, Copy, PartialEq, Eq, Default, Structural)]
pub struct FlagRegister {
    pub negative: bool,
    pub overflow: bool,
    pub undocumented: bool,
    pub break_: bool,
    pub decimal: bool,
    pub interrupt_disable: bool,
    pub zero: bool,
    pub carry: bool,
}

/// Bit `i` of `b`.
pub open spec fn bit_of(b: u8, i: u8) -> bool {
    (b >> i) & 1u8 == 1u8
}

/// The byte whose bits 7 down to 0 are the given flags.
pub open spec fn pack_bits(
    b7: bool,
    b6: bool,
    b5: bool,
    b4: bool,
    b3: bool,
    b2: bool,
    b1: bool,
    b0: bool,
) -> u8 {
    (if b7 { 0x80u8 } else { 0u8 }) | (if b6 { 0x40u8 } else { 0u8 }) | (if b5 {
        0x20u8
    } else { 0u8 }) | (if b4 { 0x10u8 } else { 0u8 }) | (if b3 { 0x08u8 } else { 0u8 }) | (if b2 {
        0x04u8
    } else { 0u8 }) | (if b1 { 0x02u8 } else { 0u8 }) | (if b0 { 0x01u8 } else { 0u8 })
}

proof fn lemma_pack_bits(
    b7: bool,
    b6: bool,
    b5: bool,
    b4: bool,
    b3: bool,
    b2: bool,
    b1: bool,
    b0: bool,
)
    ensures
        bit_of(pack_bits(b7, b6, b5, b4, b3, b2, b1, b0), 7) == b7,
        bit_of(pack_bits(b7, b6, b5, b4, b3, b2, b1, b0), 6) == b6,
        bit_of(pack_bits(b7, b6, b5, b4, b3, b2, b1, b0), 5) == b5,
        bit_of(pack_bits(b7, b6, b5, b4, b3, b2, b1, b0), 4) == b4,
        bit_of(pack_bits(b7, b6, b5, b4, b3, b2, b1, b0), 3) == b3,
        bit_of(pack_bits(b7, b6, b5, b4, b3, b2, b1, b0), 2) == b2,
        bit_of(pack_bits(b7, b6, b5, b4, b3, b2, b1, b0), 1) == b1,
        bit_of(pack_bits(b7, b6, b5, b4, b3, b2, b1, b0), 0) == b0,
{
    assert(bit_of(pack_bits(b7, b6, b5, b4, b3, b2, b1, b0), 7) == b7) by (bit_vector);
    assert(bit_of(pack_bits(b7, b6, b5, b4, b3, b2, b1, b0), 6) == b6) by (bit_vector);
    assert(bit_of(pack_bits(b7, b6, b5, b4, b3, b2, b1, b0), 5) == b5) by (bit_vector);
    assert(bit_of(pack_bits(b7, b6, b5, b4, b3, b2, b1, b0), 4) == b4) by (bit_vector);
    assert(bit_of(pack_bits(b7, b6, b5, b4, b3, b2, b1, b0), 3) == b3) by (bit_vector);
    assert(bit_of(pack_bits(b7, b6, b5, b4, b3, b2, b1, b0), 2) == b2) by (bit_vector);
    assert(bit_of(pack_bits(b7, b6, b5, b4, b3, b2, b1, b0), 1) == b1) by (bit_vector);
    assert(bit_of(pack_bits(b7, b6, b5, b4, b3, b2, b1, b0), 0) == b0) by (bit_vector);
}

proof fn lemma_byte_is_packed_bits(b: u8)
    ensures
        pack_bits(
            bit_of(b, 7),
            bit_of(b, 6),
            bit_of(b, 5),
            bit_of(b, 4),
            bit_of(b, 3),
            bit_of(b, 2),
            bit_of(b, 1),
            bit_of(b, 0),
        ) == b,
{
    assert(pack_bits(
        bit_of(b, 7),
        bit_of(b, 6),
        bit_of(b, 5),
        bit_of(b, 4),
        bit_of(b, 3),
        bit_of(b, 2),
        bit_of(b, 1),
        bit_of(b, 0),
    ) == b) by (bit_vector);
}

impl FlagRegister {
    /// The packed byte: bit 7 negative, 6 overflow, 5 undocumented, 4 break,
    /// 3 decimal, 2 interrupt disable, 1 zero, 0 carry.
    pub open spec fn spec_to_byte(self) -> u8 {
        pack_bits(
            self.negative,
            self.overflow,
            self.undocumented,
            self.break_,
            self.decimal,
            self.interrupt_disable,
            self.zero,
            self.carry,
        )
    }

    pub open spec fn spec_from_byte(byte: u8) -> FlagRegister {
        FlagRegister {
            negative: bit_of(byte, 7),
            overflow: bit_of(byte, 6),
            undocumented: bit_of(byte, 5),
            break_: bit_of(byte, 4),
            decimal: bit_of(byte, 3),
            interrupt_disable: bit_of(byte, 2),
            zero: bit_of(byte, 1),
            carry: bit_of(byte, 0),
        }
    }

    /// Packs the flags into a byte.
    pub fn to_byte(&self) -> (byte: u8)
        ensures
            byte == self.spec_to_byte(),
    {
        let n: u8 = if self.negative { 0x80 } else { 0 };
        let v: u8 = if self.overflow { 0x40 } else { 0 };
        let u: u8 = if self.undocumented { 0x20 } else { 0 };
        let b: u8 = if self.break_ { 0x10 } else { 0 };
        let d: u8 = if self.decimal { 0x08 } else { 0 };
        let i: u8 = if self.interrupt_disable { 0x04 } else { 0 };
        let z: u8 = if self.zero { 0x02 } else { 0 };
        let c: u8 = if self.carry { 0x01 } else { 0 };
        n | v | u | b | d | i | z | c
    }

    /// Unpacks a status byte.
    pub fn from_byte(byte: u8) -> (flags: Self)
        ensures
            flags == FlagRegister::spec_from_byte(byte),
    {
        FlagRegister {
            negative: (byte >> 7u8) & 1 == 1,
            overflow: (byte >> 6u8) & 1 == 1,
            undocumented: (byte >> 5u8) & 1 == 1,
            break_: (byte >> 4u8) & 1 == 1,
            decimal: (byte >> 3u8) & 1 == 1,
            interrupt_disable: (byte >> 2u8) & 1 == 1,
            zero: (byte >> 1u8) & 1 == 1,
            carry: (byte >> 0u8) & 1 == 1,
        }
    }
}

/// Unpacking a packed status register gives back the same flags.
pub proof fn lemma_flags_byte_roundtrip(f: FlagRegister)
    ensures
        FlagRegister::spec_from_byte(f.spec_to_byte()) == f,
{
    lemma_pack_bits(
        f.negative,
        f.overflow,
        f.undocumented,
        f.break_,
        f.decimal,
        f.interrupt_disable,
        f.zero,
        f.carry,
    );
}

/// Packing the flags unpacked from a byte gives back the same byte.
pub proof fn lemma_byte_flags_roundtrip(byte: u8)
    ensures
        FlagRegister::spec_from_byte(byte).spec_to_byte() == byte,
{
    lemma_byte_is_packed_bits(byte);
}

/// Where each flag sits in the status byte, both ways: carry is bit 0
/// (0x01), zero 0x02, interrupt disable 0x04, decimal 0x08, break 0x10, the
/// unused bit 0x20, overflow 0x40 and negative 0x80.
pub proof fn lemma_status_bit_positions(f: FlagRegister, byte: u8)
    ensures
        (f.spec_to_byte() & 0x01 != 0) == f.carry,
        (f.spec_to_byte() & 0x02 != 0) == f.zero,
        (f.spec_to_byte() & 0x04 != 0) == f.interrupt_disable,
        (f.spec_to_byte() & 0x08 != 0) == f.decimal,
        (f.spec_to_byte() & 0x10 != 0) == f.break_,
        (f.spec_to_byte() & 0x20 != 0) == f.undocumented,
        (f.spec_to_byte() & 0x40 != 0) == f.overflow,
        (f.spec_to_byte() & 0x80 != 0) == f.negative,
        FlagRegister::spec_from_byte(byte).carry == (byte & 0x01 != 0),
        FlagRegister::spec_from_byte(byte).zero == (byte & 0x02 != 0),
        FlagRegister::spec_from_byte(byte).interrupt_disable == (byte & 0x04 != 0),
        FlagRegister::spec_from_byte(byte).decimal == (byte & 0x08 != 0),
        FlagRegister::spec_from_byte(byte).break_ == (byte & 0x10 != 0),
        FlagRegister::spec_from_byte(byte).undocumented == (byte & 0x20 != 0),
        FlagRegister::spec_from_byte(byte).overflow == (byte & 0x40 != 0),
        FlagRegister::spec_from_byte(byte).negative == (byte & 0x80 != 0),
{
    let b = f.spec_to_byte();
    lemma_pack_bits(
        f.negative,
        f.overflow,
        f.undocumented,
        f.break_,
        f.decimal,
        f.interrupt_disable,
        f.zero,
        f.carry,
    );
    assert(((b >> 0u8) & 1u8 == 1u8) == (b & 0x01 != 0) && ((b >> 1u8) & 1u8 == 1u8) == (b & 0x02
        != 0) && ((b >> 2u8) & 1u8 == 1u8) == (b & 0x04 != 0) && ((b >> 3u8) & 1u8 == 1u8) == (b
        & 0x08 != 0) && ((b >> 4u8) & 1u8 == 1u8) == (b & 0x10 != 0) && ((b >> 5u8) & 1u8 == 1u8)
        == (b & 0x20 != 0) && ((b >> 6u8) & 1u8 == 1u8) == (b & 0x40 != 0) && ((b >> 7u8) & 1u8
        == 1u8) == (b & 0x80 != 0)) by (bit_vector);
    assert(((byte >> 0u8) & 1u8 == 1u8) == (byte & 0x01 != 0) && ((byte >> 1u8) & 1u8 == 1u8) == (
    byte & 0x02 != 0) && ((byte >> 2u8) & 1u8 == 1u8) == (byte & 0x04 != 0) && ((byte >> 3u8)
        & 1u8 == 1u8) == (byte & 0x08 != 0) && ((byte >> 4u8) & 1u8 == 1u8) == (byte & 0x10 != 0)
        && ((byte >> 5u8) & 1u8 == 1u8) == (byte & 0x20 != 0) && ((byte >> 6u8) & 1u8 == 1u8) == (
    byte & 0x40 != 0) && ((byte >> 7u8) & 1u8 == 1u8) == (byte & 0x80 != 0)) by (bit_vector);
}

} // verus!
