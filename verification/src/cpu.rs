//! The arithmetic/logic executor. It owns one register file; given an
//! instruction it fetches the operand(s), computes the result with natural
//! wraparound arithmetic (modulo 256 for 8-bit, modulo 65536 for 16-bit),
//! recomputes all four flags from first principles, and writes the result
//! back — except for CP, which updates the flags only.

use vstd::prelude::*;

use crate::flags::FlagsRegister;
use crate::instruction::ADDHLTarget;
use crate::instruction::ArithmeticTarget;
use crate::instruction::Instruction;
use crate::registers::Registers;

verus! {

/// A carry or borrow coming into an operation, as the addend it contributes.
pub open spec fn carry_value(carry: bool) -> int {
    if carry {
        1
    } else {
        0
    }
}

/// The 8-bit sum with natural wraparound: `(a + b) mod 256`.
pub open spec fn add_result(a: u8, b: u8) -> u8 {
    ((a + b) % 256) as u8
}

/// Flags after an 8-bit add: zero of the result, subtract clear, half-carry
/// iff the true operand nibbles carry across the nibble boundary, carry iff
/// the unsigned 8-bit sum overflows.
pub open spec fn add_flags(a: u8, b: u8) -> FlagsRegister {
    FlagsRegister {
        zero: add_result(a, b) == 0,
        subtract: false,
        half_carry: (a & 0xF) + (b & 0xF) > 0xF,
        carry: a + b >= 256,
    }
}

/// The 8-bit sum including the carry-in: `(a + b + carry) mod 256`.
pub open spec fn adc_result(a: u8, b: u8, carry_in: bool) -> u8 {
    ((a + b + carry_value(carry_in)) % 256) as u8
}

/// Flags after add-with-carry: as for add, with the carry-in as an extra addend.
pub open spec fn adc_flags(a: u8, b: u8, carry_in: bool) -> FlagsRegister {
    FlagsRegister {
        zero: adc_result(a, b, carry_in) == 0,
        subtract: false,
        half_carry: (a & 0xF) + (b & 0xF) + carry_value(carry_in) > 0xF,
        carry: a + b + carry_value(carry_in) >= 256,
    }
}

/// The 8-bit difference with natural wraparound: `(a - b) mod 256`.
pub open spec fn sub_result(a: u8, b: u8) -> u8 {
    ((256 + a - b) % 256) as u8
}

/// Flags after an 8-bit subtract: zero of the result, subtract set,
/// half-carry iff the low nibble of the minuend borrows from the high one,
/// carry iff the minuend is less than the subtrahend.
pub open spec fn sub_flags(a: u8, b: u8) -> FlagsRegister {
    FlagsRegister {
        zero: sub_result(a, b) == 0,
        subtract: true,
        half_carry: (a & 0xF) < (b & 0xF),
        carry: a < b,
    }
}

/// The 8-bit difference including the borrow-in: `(a - b - borrow) mod 256`.
pub open spec fn sbc_result(a: u8, b: u8, borrow_in: bool) -> u8 {
    ((512 + a - b - carry_value(borrow_in)) % 256) as u8
}

/// Flags after subtract-with-borrow: as for subtract, with the borrow-in as
/// an extra subtrahend.
pub open spec fn sbc_flags(a: u8, b: u8, borrow_in: bool) -> FlagsRegister {
    FlagsRegister {
        zero: sbc_result(a, b, borrow_in) == 0,
        subtract: true,
        half_carry: (a & 0xF) < (b & 0xF) + carry_value(borrow_in),
        carry: a < b + carry_value(borrow_in),
    }
}

/// The 16-bit sum with natural wraparound: `(x + y) mod 65536`.
pub open spec fn addhl_result(x: u16, y: u16) -> u16 {
    ((x + y) % 0x10000) as u16
}

/// Flags after the wide add into HL: zero of the result, subtract clear,
/// half-carry iff the sum carries out of bit 11, carry iff the unsigned
/// 16-bit sum overflows.
pub open spec fn addhl_flags(x: u16, y: u16) -> FlagsRegister {
    FlagsRegister {
        zero: addhl_result(x, y) == 0,
        subtract: false,
        half_carry: (x & 0xFFF) + (y & 0xFFF) > 0xFFF,
        carry: x + y >= 0x10000,
    }
}

/// Flags after increment: zero of the result, subtract clear, half-carry iff
/// the low nibble was 0xF before the increment, and carry left unchanged.
pub open spec fn inc_flags(target: u8, previous: FlagsRegister) -> FlagsRegister {
    FlagsRegister {
        zero: add_result(target, 1) == 0,
        subtract: false,
        half_carry: (target & 0xF) == 0xF,
        carry: previous.carry,
    }
}

/// Flags after decrement: zero of the result, subtract set, half-carry iff
/// the low nibble was 0x0 before the decrement, and carry left unchanged.
pub open spec fn dec_flags(target: u8, previous: FlagsRegister) -> FlagsRegister {
    FlagsRegister {
        zero: sub_result(target, 1) == 0,
        subtract: true,
        half_carry: (target & 0xF) == 0,
        carry: previous.carry,
    }
}

/// Flags after a bitwise AND, OR or XOR: zero of the result, all others clear.
pub open spec fn logic_flags(result: u8) -> FlagsRegister {
    FlagsRegister { zero: result == 0, subtract: false, half_carry: false, carry: false }
}

/// The 8-bit register an operand selector names.
pub open spec fn target_value(r: Registers, target: ArithmeticTarget) -> u8 {
    match target {
        ArithmeticTarget::A => r.a,
        ArithmeticTarget::B => r.b,
        ArithmeticTarget::C => r.c,
        ArithmeticTarget::D => r.d,
        ArithmeticTarget::E => r.e,
        ArithmeticTarget::H => r.h,
        ArithmeticTarget::L => r.l,
    }
}

/// The register file after writing `value` to the register a selector names.
pub open spec fn with_target_value(r: Registers, target: ArithmeticTarget, value: u8) -> Registers {
    match target {
        ArithmeticTarget::A => Registers { a: value, ..r },
        ArithmeticTarget::B => Registers { b: value, ..r },
        ArithmeticTarget::C => Registers { c: value, ..r },
        ArithmeticTarget::D => Registers { d: value, ..r },
        ArithmeticTarget::E => Registers { e: value, ..r },
        ArithmeticTarget::H => Registers { h: value, ..r },
        ArithmeticTarget::L => Registers { l: value, ..r },
    }
}

/// The 16-bit pair a wide-add selector names.
pub open spec fn pair_value(r: Registers, target: ADDHLTarget) -> u16 {
    match target {
        ADDHLTarget::BC => r.bc(),
        ADDHLTarget::DE => r.de(),
        ADDHLTarget::HL => r.hl(),
    }
}

/// The register file after one instruction: operand fetch, ALU computation,
/// flag derivation, and writeback. This is the executor's complete contract.
pub open spec fn spec_execute(r: Registers, instruction: Instruction) -> Registers {
    match instruction {
        Instruction::ADD(target) => {
            let value = target_value(r, target);
            Registers { a: add_result(r.a, value), f: add_flags(r.a, value), ..r }
        },
        Instruction::ADDHL(target) => {
            let value = pair_value(r, target);
            (Registers { f: addhl_flags(r.hl(), value), ..r }).with_hl(addhl_result(r.hl(), value))
        },
        Instruction::ADC(target) => {
            let value = target_value(r, target);
            Registers {
                a: adc_result(r.a, value, r.f.carry),
                f: adc_flags(r.a, value, r.f.carry),
                ..r
            }
        },
        Instruction::SUB(target) => {
            let value = target_value(r, target);
            Registers { a: sub_result(r.a, value), f: sub_flags(r.a, value), ..r }
        },
        Instruction::SBC(target) => {
            let value = target_value(r, target);
            Registers {
                a: sbc_result(r.a, value, r.f.carry),
                f: sbc_flags(r.a, value, r.f.carry),
                ..r
            }
        },
        Instruction::AND(target) => {
            let value = target_value(r, target);
            Registers { a: r.a & value, f: logic_flags(r.a & value), ..r }
        },
        Instruction::OR(target) => {
            let value = target_value(r, target);
            Registers { a: r.a | value, f: logic_flags(r.a | value), ..r }
        },
        Instruction::XOR(target) => {
            let value = target_value(r, target);
            Registers { a: r.a ^ value, f: logic_flags(r.a ^ value), ..r }
        },
        Instruction::CP(target) => {
            let value = target_value(r, target);
            Registers { f: sub_flags(r.a, value), ..r }
        },
        Instruction::INC(target) => {
            let value = target_value(r, target);
            Registers {
                f: inc_flags(value, r.f),
                ..with_target_value(r, target, add_result(value, 1))
            }
        },
        Instruction::DEC(target) => {
            let value = target_value(r, target);
            Registers {
                f: dec_flags(value, r.f),
                ..with_target_value(r, target, sub_result(value, 1))
            }
        },
    }
}

/// Law: a compare updates the flags exactly as the corresponding subtract
/// would, and leaves every register — the targeted one included — unchanged.
pub proof fn lemma_cp_changes_flags_only(r: Registers, target: ArithmeticTarget)
    ensures
        ({
            let after = spec_execute(r, Instruction::CP(target));
            after.a == r.a && after.b == r.b && after.c == r.c && after.d == r.d && after.e == r.e
                && after.h == r.h && after.l == r.l && after.f == sub_flags(
                r.a,
                target_value(r, target),
            )
        }),
{
}

/// Every low nibble fits in four bits.
proof fn lemma_nibble_bound(x: u8)
    by (bit_vector)
    ensures
        x & 0xF <= 0xF,
{
}

/// Every low twelve-bit slice fits in twelve bits.
proof fn lemma_low_bits_bound(x: u16)
    by (bit_vector)
    ensures
        x & 0xFFF <= 0xFFF,
{
}

/// The executor: owns exactly one register file, mutated in place by every
/// call; no history and no hidden state between calls.
#[derive(Clone, Copy, Debug)]
pub struct CPU {
    pub registers: Registers,
}

impl Default for CPU {
    /// An executor over a zero-initialized register file.
    fn default() -> (r: CPU)
        ensures
            r.registers == Registers::zeroed(),
    {
        CPU { registers: Registers::default() }
    }
}

impl CPU {
    /// Runs one instruction: fetches the operand(s), computes the result and
    /// all four flags, and writes the result back — except for CP, which
    /// updates the flags only and leaves every register unmodified.
    #[verifier::rlimit(50)]
    pub fn execute(&mut self, instruction: Instruction)
        ensures
            final(self).registers == spec_execute(old(self).registers, instruction),
    {
        match instruction {
            Instruction::ADD(target) => {
                let value = self.get_value_from_target(target);
                let result = self.add(value);
                self.registers.a = result;
            },
            Instruction::ADDHL(target) => {
                let value = match target {
                    ADDHLTarget::BC => self.registers.get_bc(),
                    ADDHLTarget::DE => self.registers.get_de(),
                    ADDHLTarget::HL => self.registers.get_hl(),
                };
                let sum = self.addhl(value);
                self.registers.set_hl(sum);
            },
            Instruction::ADC(target) => {
                let value = self.get_value_from_target(target);
                let result = self.adc(value);
                self.registers.a = result;
            },
            Instruction::SUB(target) => {
                let value = self.get_value_from_target(target);
                let result = self.sub(value);
                self.registers.a = result;
            },
            Instruction::SBC(target) => {
                let value = self.get_value_from_target(target);
                let result = self.sbc(value);
                self.registers.a = result;
            },
            Instruction::AND(target) => {
                let value = self.get_value_from_target(target);
                let result = self.registers.a & value;
                self.registers.a = result;
                self.registers.f.zero = result == 0;
                self.registers.f.subtract = false;
                self.registers.f.half_carry = false;
                self.registers.f.carry = false;
            },
            Instruction::OR(target) => {
                let value = self.get_value_from_target(target);
                let result = self.registers.a | value;
                self.registers.a = result;
                self.registers.f.zero = result == 0;
                self.registers.f.subtract = false;
                self.registers.f.half_carry = false;
                self.registers.f.carry = false;
            },
            Instruction::XOR(target) => {
                let value = self.get_value_from_target(target);
                let result = self.registers.a ^ value;
                self.registers.a = result;
                self.registers.f.zero = result == 0;
                self.registers.f.subtract = false;
                self.registers.f.half_carry = false;
                self.registers.f.carry = false;
            },
            Instruction::CP(target) => {
                let value = self.get_value_from_target(target);
                self.sub(value);
            },
            Instruction::INC(target) => {
                match target {
                    ArithmeticTarget::A => {
                        let value = self.registers.a;
                        let result = self.inc(value);
                        self.registers.a = result;
                    },
                    ArithmeticTarget::B => {
                        let value = self.registers.b;
                        let result = self.inc(value);
                        self.registers.b = result;
                    },
                    ArithmeticTarget::C => {
                        let value = self.registers.c;
                        let result = self.inc(value);
                        self.registers.c = result;
                    },
                    ArithmeticTarget::D => {
                        let value = self.registers.d;
                        let result = self.inc(value);
                        self.registers.d = result;
                    },
                    ArithmeticTarget::E => {
                        let value = self.registers.e;
                        let result = self.inc(value);
                        self.registers.e = result;
                    },
                    ArithmeticTarget::H => {
                        let value = self.registers.h;
                        let result = self.inc(value);
                        self.registers.h = result;
                    },
                    ArithmeticTarget::L => {
                        let value = self.registers.l;
                        let result = self.inc(value);
                        self.registers.l = result;
                    },
                }
            },
            Instruction::DEC(target) => {
                match target {
                    ArithmeticTarget::A => {
                        let value = self.registers.a;
                        let result = self.dec(value);
                        self.registers.a = result;
                    },
                    ArithmeticTarget::B => {
                        let value = self.registers.b;
                        let result = self.dec(value);
                        self.registers.b = result;
                    },
                    ArithmeticTarget::C => {
                        let value = self.registers.c;
                        let result = self.dec(value);
                        self.registers.c = result;
                    },
                    ArithmeticTarget::D => {
                        let value = self.registers.d;
                        let result = self.dec(value);
                        self.registers.d = result;
                    },
                    ArithmeticTarget::E => {
                        let value = self.registers.e;
                        let result = self.dec(value);
                        self.registers.e = result;
                    },
                    ArithmeticTarget::H => {
                        let value = self.registers.h;
                        let result = self.dec(value);
                        self.registers.h = result;
                    },
                    ArithmeticTarget::L => {
                        let value = self.registers.l;
                        let result = self.dec(value);
                        self.registers.l = result;
                    },
                }
            },
        }
    }

    /// Fetches the 8-bit register the operand selector names.
    pub fn get_value_from_target(&self, target: ArithmeticTarget) -> (r: u8)
        ensures
            r == target_value(self.registers, target),
    {
        match target {
            ArithmeticTarget::A => self.registers.a,
            ArithmeticTarget::B => self.registers.b,
            ArithmeticTarget::C => self.registers.c,
            ArithmeticTarget::D => self.registers.d,
            ArithmeticTarget::E => self.registers.e,
            ArithmeticTarget::H => self.registers.h,
            ArithmeticTarget::L => self.registers.l,
        }
    }

    /// 8-bit add into A: returns `(A + value) mod 256` and recomputes all
    /// four flags; the carry flag is set iff `A + value >= 256`.
    pub fn add(&mut self, value: u8) -> (result: u8)
        ensures
            result == add_result(old(self).registers.a, value),
            final(self).registers == (Registers {
                f: add_flags(old(self).registers.a, value),
                ..old(self).registers
            }),
    {
        let a = self.registers.a;
        let sum: u16 = a as u16 + value as u16;
        let result = (sum % 0x100) as u8;
        proof {
            lemma_nibble_bound(a);
            lemma_nibble_bound(value);
        }
        self.registers.f.zero = result == 0;
        self.registers.f.subtract = false;
        self.registers.f.half_carry = (a & 0xF) + (value & 0xF) > 0xF;
        self.registers.f.carry = sum >= 0x100;
        result
    }

    /// 16-bit add into HL: returns `(HL + value) mod 65536` and recomputes
    /// all four flags; half-carry is the carry out of bit 11, carry the
    /// unsigned 16-bit overflow.
    pub fn addhl(&mut self, value: u16) -> (result: u16)
        ensures
            result == addhl_result(old(self).registers.hl(), value),
            final(self).registers == (Registers {
                f: addhl_flags(old(self).registers.hl(), value),
                ..old(self).registers
            }),
    {
        let hl = self.registers.get_hl();
        let sum: u32 = hl as u32 + value as u32;
        let result = (sum % 0x10000) as u16;
        proof {
            lemma_low_bits_bound(hl);
            lemma_low_bits_bound(value);
        }
        self.registers.f.zero = result == 0;
        self.registers.f.subtract = false;
        self.registers.f.half_carry = (hl & 0xFFF) + (value & 0xFFF) > 0xFFF;
        self.registers.f.carry = sum >= 0x10000;
        result
    }

    /// 8-bit add-with-carry into A: returns `(A + value + carry) mod 256`
    /// and recomputes all four flags, the carry-in counting as an extra
    /// addend for both half-carry and carry.
    pub fn adc(&mut self, value: u8) -> (result: u8)
        ensures
            result == adc_result(old(self).registers.a, value, old(self).registers.f.carry),
            final(self).registers == (Registers {
                f: adc_flags(old(self).registers.a, value, old(self).registers.f.carry),
                ..old(self).registers
            }),
    {
        let a = self.registers.a;
        let carry_in: u8 = if self.registers.f.carry {
            1
        } else {
            0
        };
        let sum: u16 = a as u16 + value as u16 + carry_in as u16;
        let result = (sum % 0x100) as u8;
        proof {
            lemma_nibble_bound(a);
            lemma_nibble_bound(value);
        }
        self.registers.f.zero = result == 0;
        self.registers.f.subtract = false;
        self.registers.f.half_carry = (a & 0xF) + (value & 0xF) + carry_in > 0xF;
        self.registers.f.carry = sum >= 0x100;
        result
    }

    /// 8-bit subtract from A: returns `(A - value) mod 256` and recomputes
    /// all four flags; half-carry is the borrow across the nibble boundary,
    /// carry is set iff `A < value`.
    pub fn sub(&mut self, value: u8) -> (result: u8)
        ensures
            result == sub_result(old(self).registers.a, value),
            final(self).registers == (Registers {
                f: sub_flags(old(self).registers.a, value),
                ..old(self).registers
            }),
    {
        let a = self.registers.a;
        let diff: u16 = (0x100 + a as u16 - value as u16) % 0x100;
        let result = diff as u8;
        self.registers.f.zero = result == 0;
        self.registers.f.subtract = true;
        self.registers.f.half_carry = (a & 0xF) < (value & 0xF);
        self.registers.f.carry = a < value;
        result
    }

    /// 8-bit subtract-with-borrow from A: returns `(A - value - carry) mod
    /// 256` and recomputes all four flags, the borrow-in counting as an
    /// extra subtrahend for both half-carry and carry.
    pub fn sbc(&mut self, value: u8) -> (result: u8)
        ensures
            result == sbc_result(old(self).registers.a, value, old(self).registers.f.carry),
            final(self).registers == (Registers {
                f: sbc_flags(old(self).registers.a, value, old(self).registers.f.carry),
                ..old(self).registers
            }),
    {
        let a = self.registers.a;
        let borrow_in: u8 = if self.registers.f.carry {
            1
        } else {
            0
        };
        let diff: u16 = (0x200 + a as u16 - value as u16 - borrow_in as u16) % 0x100;
        let result = diff as u8;
        proof {
            lemma_nibble_bound(a);
            lemma_nibble_bound(value);
        }
        self.registers.f.zero = result == 0;
        self.registers.f.subtract = true;
        self.registers.f.half_carry = (a & 0xF) < (value & 0xF) + borrow_in;
        self.registers.f.carry = (a as u16) < value as u16 + borrow_in as u16;
        result
    }

    /// Increment of one register: returns `(target + 1) mod 256`, recomputes
    /// zero, subtract and half-carry, and leaves the carry flag untouched.
    pub fn inc(&mut self, target: u8) -> (result: u8)
        ensures
            result == add_result(target, 1),
            final(self).registers == (Registers {
                f: inc_flags(target, old(self).registers.f),
                ..old(self).registers
            }),
    {
        let sum: u16 = target as u16 + 1;
        let result = (sum % 0x100) as u8;
        self.registers.f.zero = result == 0;
        self.registers.f.subtract = false;
        self.registers.f.half_carry = target & 0xF == 0xF;
        result
    }

    /// Decrement of one register: returns `(target - 1) mod 256`, recomputes
    /// zero, subtract and half-carry, and leaves the carry flag untouched.
    pub fn dec(&mut self, target: u8) -> (result: u8)
        ensures
            result == sub_result(target, 1),
            final(self).registers == (Registers {
                f: dec_flags(target, old(self).registers.f),
                ..old(self).registers
            }),
    {
        let diff: u16 = (0x100 + target as u16 - 1) % 0x100;
        let result = diff as u8;
        self.registers.f.zero = result == 0;
        self.registers.f.subtract = true;
        self.registers.f.half_carry = target & 0xF == 0;
        result
    }
}

} // verus!
