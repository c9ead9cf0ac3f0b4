//! The register file and the flags register.
//!
//! Seven general 8-bit registers and the flags register `F`. The 16-bit pairs
//! `AF`, `BC`, `DE` and `HL` are never stored: reading a pair combines its two
//! halves, writing a pair replaces both halves at once.

use vstd::prelude::*;
use vstd::std_specs::convert::FromSpecImpl;

verus! {

/// The 16-bit value whose upper eight bits are `high` and whose lower eight
/// bits are `low`.
pub open spec fn pair(high: u8, low: u8) -> u16 {
    (high as int * 256 + low as int) as u16
}

/// Bits 8 to 15 of `val`.
pub open spec fn high_byte(val: u16) -> u8 {
    (val as int / 256) as u8
}

/// Bits 0 to 7 of `val`.
pub open spec fn low_byte(val: u16) -> u8 {
    (val as int % 256) as u8
}

/// Shifting the high half into place and or-ing the low half in builds the pair.
pub proof fn lemma_pair_bits(high: u8, low: u8)
    ensures
        (high as u16) << 8 | (low as u16) == pair(high, low),
{
    assert((high as u16) << 8 | (low as u16) == (high as u16) * 256 + (low as u16)) by (bit_vector);
}

/// Masking and shifting a 16-bit value yields its two halves.
pub proof fn lemma_split_bits(val: u16)
    ensures
        ((val & 0xFF00) >> 8) as u8 == high_byte(val),
        (val & 0xFF) as u8 == low_byte(val),
{
    assert(((val & 0xFF00) >> 8) == val / 256) by (bit_vector);
    assert((val & 0xFF) == val % 256) by (bit_vector);
}

/// A 16-bit value is the pair of its two halves.
pub proof fn lemma_pair_of_halves(val: u16)
    ensures
        pair(high_byte(val), low_byte(val)) == val,
{
}

/// The four condition flags. In the `F` register they are bits 7 (zero),
/// 6 (subtract), 5 (half carry) and 4 (carry); bits 3 to 0 are always clear.
#[derive(Clone, Copy, Debug, PartialEq, Eq, Structural)]
pub struct Flags {
    pub zero: bool,
    pub subtract: bool,
    pub half_carry: bool,
    pub carry: bool,
}

// Bit positions of the flags inside the `F` register.
const ZERO_FLAG: u8 = 7;

const SUBTRACT_FLAG: u8 = 6;

const HALF_CARRY_FLAG: u8 = 5;

const CARRY_FLAG: u8 = 4;

impl Flags {
    /// The byte form of the flags: each flag contributes the weight of its bit.
    pub open spec fn to_byte(self) -> u8 {
        ((if self.zero { 128int } else { 0 })
            + (if self.subtract { 64int } else { 0 })
            + (if self.half_carry { 32int } else { 0 })
            + (if self.carry { 16int } else { 0 })) as u8
    }

    /// The flags held by a byte: bits 7 to 4, whatever bits 3 to 0 are.
    pub open spec fn of_byte(byte: u8) -> Flags {
        Flags {
            zero: (byte as int / 128) % 2 == 1,
            subtract: (byte as int / 64) % 2 == 1,
            half_carry: (byte as int / 32) % 2 == 1,
            carry: (byte as int / 16) % 2 == 1,
        }
    }

    /// All four flags clear.
    pub fn new() -> (flags: Flags)
        ensures
            flags == (Flags { zero: false, subtract: false, half_carry: false, carry: false }),
    {
        Flags { zero: false, subtract: false, half_carry: false, carry: false }
    }
}

/// Encoding a set of flags and decoding the byte gives the same flags back.
pub proof fn lemma_flags_round_trip(flags: Flags)
    ensures
        Flags::of_byte(flags.to_byte()) == flags,
{
}

/// The byte form of any flags has a clear lower nibble, and decoding a byte
/// ignores its lower nibble: re-encoding keeps bits 7 to 4 and nothing else.
pub proof fn lemma_flags_ignore_low_nibble(byte: u8)
    ensures
        Flags::of_byte(byte).to_byte() as int % 16 == 0,
        Flags::of_byte(byte).to_byte() == byte as int - byte as int % 16,
        Flags::of_byte(byte) == Flags::of_byte((byte as int - byte as int % 16) as u8),
{
}

impl From<Flags> for u8 {
    /// The byte form of the flags, with a clear lower nibble.
    fn from(flags: Flags) -> (byte: u8) {
        let zero: u8 = if flags.zero { 1 } else { 0 };
        let subtract: u8 = if flags.subtract { 1 } else { 0 };
        let half_carry: u8 = if flags.half_carry { 1 } else { 0 };
        let carry: u8 = if flags.carry { 1 } else { 0 };
        assert((zero << 7 | subtract << 6 | half_carry << 5 | carry << 4) == zero * 128 + subtract
            * 64 + half_carry * 32 + carry * 16) by (bit_vector)
            requires
                zero <= 1,
                subtract <= 1,
                half_carry <= 1,
                carry <= 1,
        ;
        zero << ZERO_FLAG | subtract << SUBTRACT_FLAG | half_carry << HALF_CARRY_FLAG | carry
            << CARRY_FLAG
    }
}

impl FromSpecImpl<Flags> for u8 {
    open spec fn obeys_from_spec() -> bool {
        true
    }

    open spec fn from_spec(flags: Flags) -> u8 {
        flags.to_byte()
    }
}

impl From<u8> for Flags {
    /// The flags in bits 7 to 4 of the byte.
    fn from(byte: u8) -> (flags: Flags) {
        assert(((byte >> 7) & 1 != 0) == ((byte / 128) % 2 == 1)) by (bit_vector);
        assert(((byte >> 6) & 1 != 0) == ((byte / 64) % 2 == 1)) by (bit_vector);
        assert(((byte >> 5) & 1 != 0) == ((byte / 32) % 2 == 1)) by (bit_vector);
        assert(((byte >> 4) & 1 != 0) == ((byte / 16) % 2 == 1)) by (bit_vector);
        let zero = ((byte >> ZERO_FLAG) & 0b1) != 0;
        let subtract = ((byte >> SUBTRACT_FLAG) & 0b1) != 0;
        let half_carry = ((byte >> HALF_CARRY_FLAG) & 0b1) != 0;
        let carry = ((byte >> CARRY_FLAG) & 0b1) != 0;
        Flags { zero, subtract, half_carry, carry }
    }
}

impl FromSpecImpl<u8> for Flags {
    open spec fn obeys_from_spec() -> bool {
        true
    }

    open spec fn from_spec(byte: u8) -> Flags {
        Flags::of_byte(byte)
    }
}

/// The register file.
#[derive(Clone, Copy, Debug, PartialEq, Eq, Structural)]
pub struct Registers {
    pub a: u8,
    pub b: u8,
    pub c: u8,
    pub d: u8,
    pub e: u8,
    pub f: Flags,
    pub h: u8,
    pub l: u8,
}

impl Registers {
    /// The pair `AF`: `A` above the byte form of the flags.
    pub open spec fn af(self) -> u16 {
        pair(self.a, self.f.to_byte())
    }

    /// The pair `BC`.
    pub open spec fn bc(self) -> u16 {
        pair(self.b, self.c)
    }

    /// The pair `DE`.
    pub open spec fn de(self) -> u16 {
        pair(self.d, self.e)
    }

    /// The pair `HL`.
    pub open spec fn hl(self) -> u16 {
        pair(self.h, self.l)
    }

    /// The register file after `AF` was written: `A` takes the high half, the
    /// flags are decoded from the low half.
    pub open spec fn with_af(self, val: u16) -> Registers {
        Registers { a: high_byte(val), f: Flags::of_byte(low_byte(val)), ..self }
    }

    /// The register file after `BC` was written.
    pub open spec fn with_bc(self, val: u16) -> Registers {
        Registers { b: high_byte(val), c: low_byte(val), ..self }
    }

    /// The register file after `DE` was written.
    pub open spec fn with_de(self, val: u16) -> Registers {
        Registers { d: high_byte(val), e: low_byte(val), ..self }
    }

    /// The register file after `HL` was written.
    pub open spec fn with_hl(self, val: u16) -> Registers {
        Registers { h: high_byte(val), l: low_byte(val), ..self }
    }

    /// A register file with every register zero and every flag clear.
    pub fn new() -> (regs: Registers)
        ensures
            regs == (Registers {
                a: 0,
                b: 0,
                c: 0,
                d: 0,
                e: 0,
                f: Flags { zero: false, subtract: false, half_carry: false, carry: false },
                h: 0,
                l: 0,
            }),
    {
        Registers { a: 0, b: 0, c: 0, d: 0, e: 0, f: Flags::new(), h: 0, l: 0 }
    }

    /// Reads the pair `AF`.
    pub fn get_af(&self) -> (val: u16)
        ensures
            val == self.af(),
    {
        let low: u8 = u8::from(self.f);
        proof {
            lemma_pair_bits(self.a, low);
        }
        (self.a as u16) << 8 | low as u16
    }

    /// Writes the pair `AF`. The lower nibble of the value is dropped.
    pub fn set_af(&mut self, val: u16)
        ensures
            *final(self) == old(self).with_af(val),
    {
        proof {
            lemma_split_bits(val);
        }
        self.a = ((val & 0xFF00) >> 8) as u8;
        self.f = Flags::from((val & 0xFF) as u8);
    }

    /// Reads the pair `BC`.
    pub fn get_bc(&self) -> (val: u16)
        ensures
            val == self.bc(),
    {
        proof {
            lemma_pair_bits(self.b, self.c);
        }
        (self.b as u16) << 8 | self.c as u16
    }

    /// Writes the pair `BC`: both halves change together, nothing else does.
    pub fn set_bc(&mut self, val: u16)
        ensures
            *final(self) == old(self).with_bc(val),
    {
        proof {
            lemma_split_bits(val);
        }
        self.b = ((val & 0xFF00) >> 8) as u8;
        self.c = (val & 0xFF) as u8;
    }

    /// Reads the pair `DE`.
    pub fn get_de(&self) -> (val: u16)
        ensures
            val == self.de(),
    {
        proof {
            lemma_pair_bits(self.d, self.e);
        }
        (self.d as u16) << 8 | self.e as u16
    }

    /// Writes the pair `DE`: both halves change together, nothing else does.
    pub fn set_de(&mut self, val: u16)
        ensures
            *final(self) == old(self).with_de(val),
    {
        proof {
            lemma_split_bits(val);
        }
        self.d = ((val & 0xFF00) >> 8) as u8;
        self.e = (val & 0xFF) as u8;
    }

    /// Reads the pair `HL`.
    pub fn get_hl(&self) -> (val: u16)
        ensures
            val == self.hl(),
    {
        proof {
            lemma_pair_bits(self.h, self.l);
        }
        (self.h as u16) << 8 | self.l as u16
    }

    /// Writes the pair `HL`: both halves change together, nothing else does.
    pub fn set_hl(&mut self, val: u16)
        ensures
            *final(self) == old(self).with_hl(val),
    {
        proof {
            lemma_split_bits(val);
        }
        self.h = ((val & 0xFF00) >> 8) as u8;
        self.l = (val & 0xFF) as u8;
    }
}

/// Reading a pair right after writing it gives the written value, for `BC`,
/// `DE` and `HL`; a pair write leaves every other register as it was.
pub proof fn lemma_pair_write_then_read(regs: Registers, val: u16)
    ensures
        regs.with_bc(val).bc() == val,
        regs.with_de(val).de() == val,
        regs.with_hl(val).hl() == val,
        regs.with_bc(val) == (Registers { b: regs.with_bc(val).b, c: regs.with_bc(val).c, ..regs }),
        regs.with_de(val) == (Registers { d: regs.with_de(val).d, e: regs.with_de(val).e, ..regs }),
        regs.with_hl(val) == (Registers { h: regs.with_hl(val).h, l: regs.with_hl(val).l, ..regs }),
{
}

/// Writing a pair with the value it already has changes nothing: a pair is
/// no state of its own beside its two halves.
pub proof fn lemma_pair_read_then_write(regs: Registers)
    ensures
        regs.with_bc(regs.bc()) == regs,
        regs.with_de(regs.de()) == regs,
        regs.with_hl(regs.hl()) == regs,
{
}

/// `AF` keeps its upper twelve bits across a write and a read: the lower
/// nibble of `F` does not exist.
pub proof fn lemma_af_write_then_read(regs: Registers, val: u16)
    ensures
        regs.with_af(val).af() == val as int - val as int % 16,
{
}

} // verus!
