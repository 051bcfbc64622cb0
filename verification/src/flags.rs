//! The condition-flags register: four independent booleans with a canonical
//! packed-byte encoding (bit 7 = zero, bit 6 = subtract, bit 5 = half-carry,
//! bit 4 = carry, bits 3-0 always zero).

use vstd::prelude::*;

verus! {

/// The four condition flags of the processor, stored as independent booleans.
#[derive(Clone, Copy, Debug)]
pub struct FlagsRegister {
    pub zero: bool,
    pub subtract: bool,
    pub half_carry: bool,
    pub carry: bool,
}

/// The canonical packed-byte encoding of the four flags: bit 7 = zero,
/// bit 6 = subtract, bit 5 = half-carry, bit 4 = carry, bits 3-0 zero.
pub open spec fn flags_to_byte(f: FlagsRegister) -> u8 {
    (if f.zero { 0x80u8 } else { 0u8 })
        | (if f.subtract { 0x40u8 } else { 0u8 })
        | (if f.half_carry { 0x20u8 } else { 0u8 })
        | (if f.carry { 0x10u8 } else { 0u8 })
}

/// Decoding of a packed byte: each flag is read from its own bit;
/// bits 3-0 carry no information and are discarded.
pub open spec fn flags_from_byte(b: u8) -> FlagsRegister {
    FlagsRegister {
        zero: (b >> 7) & 1 != 0,
        subtract: (b >> 6) & 1 != 0,
        half_carry: (b >> 5) & 1 != 0,
        carry: (b >> 4) & 1 != 0,
    }
}

impl FlagsRegister {
    /// Packs the four flags into their canonical byte encoding.
    pub fn to_byte(&self) -> (r: u8)
        ensures
            r == flags_to_byte(*self),
    {
        (if self.zero { 0x80u8 } else { 0u8 })
            | (if self.subtract { 0x40u8 } else { 0u8 })
            | (if self.half_carry { 0x20u8 } else { 0u8 })
            | (if self.carry { 0x10u8 } else { 0u8 })
    }

    /// Reconstructs the four flags from bits 7-4 of a byte, discarding bits 3-0.
    pub fn from_byte(byte: u8) -> (r: FlagsRegister)
        ensures
            r == flags_from_byte(byte),
    {
        FlagsRegister {
            zero: (byte >> 7) & 1 != 0,
            subtract: (byte >> 6) & 1 != 0,
            half_carry: (byte >> 5) & 1 != 0,
            carry: (byte >> 4) & 1 != 0,
        }
    }
}

impl Default for FlagsRegister {
    /// All four flags clear.
    fn default() -> (r: FlagsRegister)
        ensures
            r == (FlagsRegister { zero: false, subtract: false, half_carry: false, carry: false }),
    {
        FlagsRegister { zero: false, subtract: false, half_carry: false, carry: false }
    }
}

/// Law: decoding the canonical encoding of any flag value gives the value back.
pub proof fn lemma_flags_byte_round_trip(f: FlagsRegister)
    ensures
        flags_from_byte(flags_to_byte(f)) == f,
{
    let z = f.zero;
    let s = f.subtract;
    let h = f.half_carry;
    let c = f.carry;
    assert({
        let b = (if z { 0x80u8 } else { 0u8 }) | (if s { 0x40u8 } else { 0u8 })
            | (if h { 0x20u8 } else { 0u8 }) | (if c { 0x10u8 } else { 0u8 });
        ((b >> 7) & 1 != 0) == z && ((b >> 6) & 1 != 0) == s && ((b >> 5) & 1 != 0) == h
            && ((b >> 4) & 1 != 0) == c
    }) by (bit_vector);
}

/// Law: encoding the decoding of any byte keeps bits 7-4 and zeroes bits 3-0.
pub proof fn lemma_byte_flags_round_trip(b: u8)
    ensures
        flags_to_byte(flags_from_byte(b)) == b & 0xF0,
{
    assert((if (b >> 7) & 1 != 0 { 0x80u8 } else { 0u8 })
        | (if (b >> 6) & 1 != 0 { 0x40u8 } else { 0u8 })
        | (if (b >> 5) & 1 != 0 { 0x20u8 } else { 0u8 })
        | (if (b >> 4) & 1 != 0 { 0x10u8 } else { 0u8 }) == b & 0xF0) by (bit_vector);
}

} // verus!
