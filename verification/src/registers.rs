//! The register file: seven 8-bit general registers, a packed flags
//! register, and composite 16-bit views over register pairs.

use vstd::prelude::*;

verus! {

/// The four status flags, packed into bits 7..4 of the byte form; the low
/// nibble of the byte form is always zero.
#[derive(Clone, Copy, Debug, PartialEq, Eq, Structural)]
pub struct FlagsRegister {
    pub zero: bool,
    pub subtract: bool,
    pub half_carry: bool,
    pub carry: bool,
}

/// The byte form of the flags: zero in bit 7, subtract in bit 6, half-carry
/// in bit 5, carry in bit 4; bits 3..0 are zero. The four weights are
/// distinct powers of two, so the sum sets exactly the four bits.
pub open spec fn spec_flags_to_byte(flags: FlagsRegister) -> u8 {
    ((if flags.zero {
        0x80int
    } else {
        0int
    }) + (if flags.subtract {
        0x40int
    } else {
        0int
    }) + (if flags.half_carry {
        0x20int
    } else {
        0int
    }) + (if flags.carry {
        0x10int
    } else {
        0int
    })) as u8
}

/// The flags read back out of a byte: each flag is the bit at its position
/// (dividing by the bit's weight and taking the parity); the low nibble is
/// ignored.
pub open spec fn spec_flags_from_byte(byte: u8) -> FlagsRegister {
    FlagsRegister {
        zero: byte / 0x80 % 2 == 1,
        subtract: byte / 0x40 % 2 == 1,
        half_carry: byte / 0x20 % 2 == 1,
        carry: byte / 0x10 % 2 == 1,
    }
}

impl FlagsRegister {
    /// All four flags clear.
    pub fn new() -> (flags: FlagsRegister)
        ensures
            !flags.zero,
            !flags.subtract,
            !flags.half_carry,
            !flags.carry,
    {
        FlagsRegister { zero: false, subtract: false, half_carry: false, carry: false }
    }

    /// Packs the four flags into a byte per the bit layout.
    pub fn to_byte(self) -> (byte: u8)
        ensures
            byte == spec_flags_to_byte(self),
    {
        (if self.zero {
            0x80u8
        } else {
            0u8
        }) + (if self.subtract {
            0x40u8
        } else {
            0u8
        }) + (if self.half_carry {
            0x20u8
        } else {
            0u8
        }) + (if self.carry {
            0x10u8
        } else {
            0u8
        })
    }

    /// Extracts the four flags from a byte, ignoring the low nibble.
    pub fn from_byte(byte: u8) -> (flags: FlagsRegister)
        ensures
            flags == spec_flags_from_byte(byte),
    {
        proof {
            assert((byte & 0x80 != 0) == (byte / 0x80 % 2 == 1) && (byte & 0x40 != 0) == (byte
                / 0x40 % 2 == 1) && (byte & 0x20 != 0) == (byte / 0x20 % 2 == 1) && (byte & 0x10
                != 0) == (byte / 0x10 % 2 == 1)) by (bit_vector);
        }
        FlagsRegister {
            zero: byte & 0x80 != 0,
            subtract: byte & 0x40 != 0,
            half_carry: byte & 0x20 != 0,
            carry: byte & 0x10 != 0,
        }
    }
}

/// Converting flags to a byte and back is the identity on the four flags,
/// and the byte form always has a clear low nibble.
pub proof fn lemma_flags_round_trip(flags: FlagsRegister)
    ensures
        spec_flags_from_byte(spec_flags_to_byte(flags)) == flags,
        spec_flags_to_byte(flags) & 0x0F == 0,
{
    let byte = spec_flags_to_byte(flags);
    assert(byte % 16 == 0 ==> byte & 0x0F == 0) by (bit_vector);
}

/// The 16-bit value of a register pair: the high register in the upper byte,
/// the low register in the lower byte.
pub open spec fn spec_pair(high: u8, low: u8) -> u16 {
    (high * 256 + low) as u16
}

/// The high byte of a 16-bit pair value.
pub open spec fn spec_high_byte(value: u16) -> u8 {
    (value / 256) as u8
}

/// The low byte of a 16-bit pair value.
pub open spec fn spec_low_byte(value: u16) -> u8 {
    (value % 256) as u8
}

/// Splitting a 16-bit value into bytes and composing them again is the
/// identity: writing a pair and reading it back yields the written value.
pub proof fn lemma_pair_round_trip(value: u16)
    ensures
        spec_pair(spec_high_byte(value), spec_low_byte(value)) == value,
{
    assert(((value / 256) as u8) * 256 + ((value % 256) as u8) == value) by (bit_vector);
}

/// Composing two bytes into a pair value and splitting it again yields the
/// same two bytes: the pair view loses nothing of either register.
pub proof fn lemma_pair_split(high: u8, low: u8)
    ensures
        spec_high_byte(spec_pair(high, low)) == high,
        spec_low_byte(spec_pair(high, low)) == low,
{
    assert((((high * 256 + low) as u16) / 256) as u8 == high && (((high * 256 + low) as u16) % 256)
        as u8 == low) by (bit_vector);
}

/// The register file: seven independent 8-bit registers and the flags.
/// Register pairs are views computed from the two constituent registers;
/// no pair holds storage of its own.
#[derive(Clone, Copy, Debug, PartialEq, Eq, Structural)]
pub struct Registers {
    pub a: u8,
    pub b: u8,
    pub c: u8,
    pub d: u8,
    pub e: u8,
    pub f: FlagsRegister,
    pub h: u8,
    pub l: u8,
}

impl Registers {
    /// All registers zero and all flags clear.
    pub fn new() -> (regs: Registers)
        ensures
            regs.a == 0,
            regs.b == 0,
            regs.c == 0,
            regs.d == 0,
            regs.e == 0,
            regs.h == 0,
            regs.l == 0,
            !regs.f.zero,
            !regs.f.subtract,
            !regs.f.half_carry,
            !regs.f.carry,
    {
        Registers {
            a: 0,
            b: 0,
            c: 0,
            d: 0,
            e: 0,
            f: FlagsRegister::new(),
            h: 0,
            l: 0,
        }
    }

    /// Reads the BC pair: B in the high byte, C in the low byte.
    pub fn get_bc(&self) -> (value: u16)
        ensures
            value == spec_pair(self.b, self.c),
    {
        (self.b as u16) * 256 + (self.c as u16)
    }

    /// Writes the BC pair: B takes the high byte, C the low byte; every
    /// other register and the flags are untouched.
    pub fn set_bc(&mut self, value: u16)
        ensures
            *final(self) == (Registers {
                b: spec_high_byte(value),
                c: spec_low_byte(value),
                ..*old(self)
            }),
    {
        self.b = (value / 256) as u8;
        self.c = (value % 256) as u8;
    }

    /// Reads the DE pair: D in the high byte, E in the low byte.
    pub fn get_de(&self) -> (value: u16)
        ensures
            value == spec_pair(self.d, self.e),
    {
        (self.d as u16) * 256 + (self.e as u16)
    }

    /// Writes the DE pair: D takes the high byte, E the low byte; every
    /// other register and the flags are untouched.
    pub fn set_de(&mut self, value: u16)
        ensures
            *final(self) == (Registers {
                d: spec_high_byte(value),
                e: spec_low_byte(value),
                ..*old(self)
            }),
    {
        self.d = (value / 256) as u8;
        self.e = (value % 256) as u8;
    }

    /// Reads the HL pair: H in the high byte, L in the low byte.
    pub fn get_hl(&self) -> (value: u16)
        ensures
            value == spec_pair(self.h, self.l),
    {
        (self.h as u16) * 256 + (self.l as u16)
    }

    /// Writes the HL pair: H takes the high byte, L the low byte; every
    /// other register and the flags are untouched.
    pub fn set_hl(&mut self, value: u16)
        ensures
            *final(self) == (Registers {
                h: spec_high_byte(value),
                l: spec_low_byte(value),
                ..*old(self)
            }),
    {
        self.h = (value / 256) as u8;
        self.l = (value % 256) as u8;
    }
}

} // verus!
