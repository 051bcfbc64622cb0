//! The register file: seven 8-bit general registers plus the flags register,
//! with four logical 16-bit pair accessors (high slot in bits 15-8, low slot
//! in bits 7-0). The low slot of a pair is polymorphic over a small coercion
//! capability, so the flags register can stand in for the low byte of the
//! AF pair while the other pairs use a plain byte.

use vstd::prelude::*;

use crate::flags::flags_from_byte;
use crate::flags::flags_to_byte;
use crate::flags::FlagsRegister;

verus! {

/// The capability a register needs to serve as the low slot of a 16-bit pair:
/// it can be read as the low byte of a 16-bit value and written from one.
pub trait FlagsRegisterPair: Sized {
    /// The register's contents, read as a 16-bit value in the range 0-255.
    spec fn low_u16(&self) -> u16;

    /// The register's contents after being written from the 16-bit value
    /// `value`; only the low byte of `value` is kept, and a slot may discard
    /// further bits of it (the flags register discards bits 3-0).
    spec fn stored(value: u16) -> Self;

    fn get_u16(&self) -> (r: u16)
        ensures
            r == self.low_u16(),
    ;

    fn set_from_u16(&mut self, value: u16)
        ensures
            *final(self) == Self::stored(value),
    ;
}

impl FlagsRegisterPair for u8 {
    open spec fn low_u16(&self) -> u16 {
        *self as u16
    }

    open spec fn stored(value: u16) -> u8 {
        value as u8
    }

    fn get_u16(&self) -> (r: u16) {
        *self as u16
    }

    fn set_from_u16(&mut self, value: u16) {
        *self = value as u8;
    }
}

impl FlagsRegisterPair for FlagsRegister {
    open spec fn low_u16(&self) -> u16 {
        flags_to_byte(*self) as u16
    }

    open spec fn stored(value: u16) -> FlagsRegister {
        flags_from_byte(value as u8)
    }

    fn get_u16(&self) -> (r: u16) {
        self.to_byte() as u16
    }

    fn set_from_u16(&mut self, value: u16) {
        *self = FlagsRegister::from_byte(value as u8);
    }
}

/// Seven 8-bit general registers plus the flags register.
#[derive(Clone, Copy, Debug)]
pub struct Registers {
    pub a: u8,
    pub b: u8,
    pub c: u8,
    pub d: u8,
    pub e: u8,
    pub f: FlagsRegister,
    pub h: u8,
    pub l: u8,
}

impl Registers {
    /// The zero-initialized register file: every register clear, every flag clear.
    pub open spec fn zeroed() -> Registers {
        Registers {
            a: 0,
            b: 0,
            c: 0,
            d: 0,
            e: 0,
            f: FlagsRegister { zero: false, subtract: false, half_carry: false, carry: false },
            h: 0,
            l: 0,
        }
    }

    /// The AF pair: register A in bits 15-8, the packed flags byte in bits 7-0.
    pub open spec fn af(self) -> u16 {
        ((self.a as u16) << 8) | (flags_to_byte(self.f) as u16)
    }

    /// The BC pair: register B in bits 15-8, register C in bits 7-0.
    pub open spec fn bc(self) -> u16 {
        ((self.b as u16) << 8) | (self.c as u16)
    }

    /// The DE pair: register D in bits 15-8, register E in bits 7-0.
    pub open spec fn de(self) -> u16 {
        ((self.d as u16) << 8) | (self.e as u16)
    }

    /// The HL pair: register H in bits 15-8, register L in bits 7-0.
    pub open spec fn hl(self) -> u16 {
        ((self.h as u16) << 8) | (self.l as u16)
    }

    /// The register file after writing `value` to the AF pair: A takes
    /// bits 15-8, and the flags are reconstructed from bits 7-4 of the low
    /// byte (bits 3-0 are discarded).
    pub open spec fn with_af(self, value: u16) -> Registers {
        Registers {
            a: ((value & 0xFF00) >> 8) as u8,
            f: flags_from_byte((value & 0xFF) as u8),
            ..self
        }
    }

    /// The register file after writing `value` to the BC pair.
    pub open spec fn with_bc(self, value: u16) -> Registers {
        Registers {
            b: ((value & 0xFF00) >> 8) as u8,
            c: (value & 0xFF) as u8,
            ..self
        }
    }

    /// The register file after writing `value` to the DE pair.
    pub open spec fn with_de(self, value: u16) -> Registers {
        Registers {
            d: ((value & 0xFF00) >> 8) as u8,
            e: (value & 0xFF) as u8,
            ..self
        }
    }

    /// The register file after writing `value` to the HL pair.
    pub open spec fn with_hl(self, value: u16) -> Registers {
        Registers {
            h: ((value & 0xFF00) >> 8) as u8,
            l: (value & 0xFF) as u8,
            ..self
        }
    }

    pub fn get_af(&self) -> (r: u16)
        ensures
            r == self.af(),
    {
        ((self.a as u16) << 8) | self.f.get_u16()
    }

    pub fn set_af(&mut self, value: u16)
        ensures
            *final(self) == old(self).with_af(value),
    {
        self.a = ((value & 0xFF00) >> 8) as u8;
        self.f.set_from_u16(value & 0xFF);
    }

    pub fn get_bc(&self) -> (r: u16)
        ensures
            r == self.bc(),
    {
        ((self.b as u16) << 8) | self.c.get_u16()
    }

    pub fn set_bc(&mut self, value: u16)
        ensures
            *final(self) == old(self).with_bc(value),
    {
        self.b = ((value & 0xFF00) >> 8) as u8;
        self.c.set_from_u16(value & 0xFF);
    }

    pub fn get_de(&self) -> (r: u16)
        ensures
            r == self.de(),
    {
        ((self.d as u16) << 8) | self.e.get_u16()
    }

    pub fn set_de(&mut self, value: u16)
        ensures
            *final(self) == old(self).with_de(value),
    {
        self.d = ((value & 0xFF00) >> 8) as u8;
        self.e.set_from_u16(value & 0xFF);
    }

    pub fn get_hl(&self) -> (r: u16)
        ensures
            r == self.hl(),
    {
        ((self.h as u16) << 8) | self.l.get_u16()
    }

    pub fn set_hl(&mut self, value: u16)
        ensures
            *final(self) == old(self).with_hl(value),
    {
        self.h = ((value & 0xFF00) >> 8) as u8;
        self.l.set_from_u16(value & 0xFF);
    }
}

impl Default for Registers {
    /// A zero-initialized register file with all flags clear.
    fn default() -> (r: Registers)
        ensures
            r == Registers::zeroed(),
    {
        Registers {
            a: 0,
            b: 0,
            c: 0,
            d: 0,
            e: 0,
            f: FlagsRegister::default(),
            h: 0,
            l: 0,
        }
    }
}

/// Law: writing back what the AF pair reads leaves the register file
/// unchanged; this holds even though the low slot is the flags register,
/// because the packed flags byte always has bits 3-0 clear.
pub proof fn lemma_set_af_of_get_af(r: Registers)
    ensures
        r.with_af(r.af()) == r,
{
    let a = r.a;
    let fb = flags_to_byte(r.f);
    assert((((((a as u16) << 8) | (fb as u16)) & 0xFF00) >> 8) as u8 == a) by (bit_vector);
    assert(((((a as u16) << 8) | (fb as u16)) & 0xFF) as u8 == fb) by (bit_vector);
    crate::flags::lemma_flags_byte_round_trip(r.f);
}

/// Law: writing back what the BC pair reads leaves the register file unchanged.
pub proof fn lemma_set_bc_of_get_bc(r: Registers)
    ensures
        r.with_bc(r.bc()) == r,
{
    let hi = r.b;
    let lo = r.c;
    assert((((((hi as u16) << 8) | (lo as u16)) & 0xFF00) >> 8) as u8 == hi) by (bit_vector);
    assert(((((hi as u16) << 8) | (lo as u16)) & 0xFF) as u8 == lo) by (bit_vector);
}

/// Law: writing back what the DE pair reads leaves the register file unchanged.
pub proof fn lemma_set_de_of_get_de(r: Registers)
    ensures
        r.with_de(r.de()) == r,
{
    let hi = r.d;
    let lo = r.e;
    assert((((((hi as u16) << 8) | (lo as u16)) & 0xFF00) >> 8) as u8 == hi) by (bit_vector);
    assert(((((hi as u16) << 8) | (lo as u16)) & 0xFF) as u8 == lo) by (bit_vector);
}

/// Law: writing back what the HL pair reads leaves the register file unchanged.
pub proof fn lemma_set_hl_of_get_hl(r: Registers)
    ensures
        r.with_hl(r.hl()) == r,
{
    let hi = r.h;
    let lo = r.l;
    assert((((((hi as u16) << 8) | (lo as u16)) & 0xFF00) >> 8) as u8 == hi) by (bit_vector);
    assert(((((hi as u16) << 8) | (lo as u16)) & 0xFF) as u8 == lo) by (bit_vector);
}

/// Law: a 16-bit value written to a pair with a plain-byte low slot is read
/// back exactly (shown for BC; DE and HL share the byte-slot coercion).
pub proof fn lemma_get_bc_of_set_bc(r: Registers, value: u16)
    ensures
        r.with_bc(value).bc() == value,
{
    assert(((((value & 0xFF00) >> 8) as u8 as u16) << 8) | ((value & 0xFF) as u8 as u16)
        == value) by (bit_vector);
}

/// Law: a 16-bit value written to the AF pair is read back with bits 3-0
/// cleared: the flags register stores nothing in them.
pub proof fn lemma_get_af_of_set_af(r: Registers, value: u16)
    ensures
        r.with_af(value).af() == value & 0xFFF0,
{
    crate::flags::lemma_byte_flags_round_trip((value & 0xFF) as u8);
    assert(((((value & 0xFF00) >> 8) as u8 as u16) << 8)
        | ((((value & 0xFF) as u8 & 0xF0) as u16)) == value & 0xFFF0) by (bit_vector);
}

} // verus!
