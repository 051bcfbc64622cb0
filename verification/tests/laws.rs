use alu_core::cpu::CPU;
use alu_core::flags::FlagsRegister;
use alu_core::instruction::{ADDHLTarget, ArithmeticTarget, Instruction};
use alu_core::registers::Registers;

fn sample_registers() -> Registers {
    Registers {
        a: 0x12,
        b: 0x34,
        c: 0x56,
        d: 0x78,
        e: 0x9A,
        f: FlagsRegister {
            zero: true,
            subtract: false,
            half_carry: true,
            carry: false,
        },
        h: 0xBC,
        l: 0xDE,
    }
}

#[test]
fn flags_encode_decode_every_byte() {
    // encode(decode(b)) keeps bits 7-4 and clears bits 3-0, for every byte
    for b in 0..=0xFFu8 {
        let f = FlagsRegister::from_byte(b);
        assert_eq!(f.to_byte(), b & 0xF0);
    }
}

#[test]
fn flags_decode_encode_every_value() {
    // decode(encode(f)) gives every one of the sixteen flag values back
    for bits in 0..16u8 {
        let f = FlagsRegister {
            zero: bits & 0b1000 != 0,
            subtract: bits & 0b0100 != 0,
            half_carry: bits & 0b0010 != 0,
            carry: bits & 0b0001 != 0,
        };
        let g = FlagsRegister::from_byte(f.to_byte());
        assert_eq!(g.zero, f.zero);
        assert_eq!(g.subtract, f.subtract);
        assert_eq!(g.half_carry, f.half_carry);
        assert_eq!(g.carry, f.carry);
    }
}

#[test]
fn flags_bit_positions() {
    let zero = FlagsRegister {
        zero: true,
        subtract: false,
        half_carry: false,
        carry: false,
    };
    assert_eq!(zero.to_byte(), 0x80);
    let subtract = FlagsRegister {
        zero: false,
        subtract: true,
        half_carry: false,
        carry: false,
    };
    assert_eq!(subtract.to_byte(), 0x40);
    let half_carry = FlagsRegister {
        zero: false,
        subtract: false,
        half_carry: true,
        carry: false,
    };
    assert_eq!(half_carry.to_byte(), 0x20);
    let carry = FlagsRegister {
        zero: false,
        subtract: false,
        half_carry: false,
        carry: true,
    };
    assert_eq!(carry.to_byte(), 0x10);
}

#[test]
fn pair_write_back_read_is_identity() {
    // set_pair(get_pair()) leaves the register file unchanged, for all four
    // pairs, including AF whose low slot is the flags register
    let mut r = sample_registers();
    let before = r;
    let af = r.get_af();
    r.set_af(af);
    let bc = r.get_bc();
    r.set_bc(bc);
    let de = r.get_de();
    r.set_de(de);
    let hl = r.get_hl();
    r.set_hl(hl);
    assert_eq!(r.a, before.a);
    assert_eq!(r.b, before.b);
    assert_eq!(r.c, before.c);
    assert_eq!(r.d, before.d);
    assert_eq!(r.e, before.e);
    assert_eq!(r.h, before.h);
    assert_eq!(r.l, before.l);
    assert_eq!(r.f.to_byte(), before.f.to_byte());
}

#[test]
fn pair_read_after_write() {
    let mut r = sample_registers();
    r.set_de(0xBEEF);
    assert_eq!(r.get_de(), 0xBEEF);
    assert_eq!(r.d, 0xBE);
    assert_eq!(r.e, 0xEF);
    r.set_hl(0x0102);
    assert_eq!(r.get_hl(), 0x0102);
    // the AF pair keeps bits 15-4 and discards bits 3-0 of what is written
    r.set_af(0xABCD);
    assert_eq!(r.get_af(), 0xABC0);
    assert_eq!(r.a, 0xAB);
    assert_eq!(r.f.to_byte(), 0xC0);
}

#[test]
fn add_wraps_modulo_256() {
    // result == (a + b) mod 256, carry iff a + b >= 256
    let mut cpu = CPU::default();
    cpu.registers.a = 200;
    cpu.registers.b = 100;
    cpu.execute(Instruction::ADD(ArithmeticTarget::B));
    assert_eq!(cpu.registers.a, 44);
    assert!(cpu.registers.f.carry);
    assert!(!cpu.registers.f.zero);
}

#[test]
fn add_half_carry_from_true_nibbles() {
    // 0x08 + 0x08 carries across the nibble boundary though neither the
    // result nibble nor the full sum overflows
    let mut cpu = CPU::default();
    cpu.registers.a = 0x08;
    cpu.registers.e = 0x08;
    cpu.execute(Instruction::ADD(ArithmeticTarget::E));
    assert_eq!(cpu.registers.a, 0x10);
    assert!(cpu.registers.f.half_carry);
    assert!(!cpu.registers.f.carry);
    assert!(!cpu.registers.f.zero);
}

#[test]
fn add_register_to_itself() {
    let mut cpu = CPU::default();
    cpu.registers.a = 0x90;
    cpu.execute(Instruction::ADD(ArithmeticTarget::A));
    assert_eq!(cpu.registers.a, 0x20);
    assert!(cpu.registers.f.carry);
}

#[test]
fn adc_saturated_operands() {
    // the largest possible sum: 0xFF + 0xFF + carry-in
    let mut cpu = CPU::default();
    cpu.registers.a = 0xFF;
    cpu.registers.l = 0xFF;
    cpu.registers.f.carry = true;
    cpu.execute(Instruction::ADC(ArithmeticTarget::L));
    assert_eq!(cpu.registers.a, 0xFF);
    assert!(cpu.registers.f.carry);
    assert!(cpu.registers.f.half_carry);
    assert!(!cpu.registers.f.zero);
}

#[test]
fn sbc_borrow_in_joins_difference() {
    let mut cpu = CPU::default();
    cpu.registers.a = 0x10;
    cpu.registers.h = 0x01;
    cpu.registers.f.carry = true;
    cpu.execute(Instruction::SBC(ArithmeticTarget::H));
    assert_eq!(cpu.registers.a, 0x0E);
    assert!(cpu.registers.f.subtract);
    assert!(cpu.registers.f.half_carry);
    assert!(!cpu.registers.f.carry);
}

#[test]
fn addhl_bc_and_de_targets() {
    let mut cpu = CPU::default();
    cpu.registers.set_hl(0x1234);
    cpu.registers.set_bc(0x0111);
    cpu.execute(Instruction::ADDHL(ADDHLTarget::BC));
    assert_eq!(cpu.registers.get_hl(), 0x1345);
    assert_eq!(cpu.registers.get_bc(), 0x0111);
    cpu.registers.set_de(0x0CBB);
    cpu.execute(Instruction::ADDHL(ADDHLTarget::DE));
    assert_eq!(cpu.registers.get_hl(), 0x2000);
    assert!(cpu.registers.f.half_carry);
    assert!(!cpu.registers.f.carry);
}

#[test]
fn cp_leaves_all_registers_unchanged() {
    let mut cpu = CPU::default();
    cpu.registers = sample_registers();
    let before = cpu.registers;
    cpu.execute(Instruction::CP(ArithmeticTarget::B));
    assert_eq!(cpu.registers.a, before.a);
    assert_eq!(cpu.registers.b, before.b);
    assert_eq!(cpu.registers.c, before.c);
    assert_eq!(cpu.registers.d, before.d);
    assert_eq!(cpu.registers.e, before.e);
    assert_eq!(cpu.registers.h, before.h);
    assert_eq!(cpu.registers.l, before.l);
    // 0x12 < 0x34: borrow, so carry set
    assert!(cpu.registers.f.carry);
    assert!(cpu.registers.f.subtract);
}

#[test]
fn inc_keeps_a_set_carry() {
    let mut cpu = CPU::default();
    cpu.registers.f.carry = true;
    cpu.registers.b = 0x01;
    cpu.execute(Instruction::INC(ArithmeticTarget::B));
    assert_eq!(cpu.registers.b, 0x02);
    assert!(cpu.registers.f.carry);
}

#[test]
fn dec_keeps_a_set_carry() {
    let mut cpu = CPU::default();
    cpu.registers.f.carry = true;
    cpu.registers.e = 0x02;
    cpu.execute(Instruction::DEC(ArithmeticTarget::E));
    assert_eq!(cpu.registers.e, 0x01);
    assert!(cpu.registers.f.carry);
}

#[test]
fn logic_ops_set_zero_flag() {
    let mut cpu = CPU::default();
    cpu.registers.a = 0xF0;
    cpu.registers.c = 0x0F;
    cpu.execute(Instruction::AND(ArithmeticTarget::C));
    assert_eq!(cpu.registers.a, 0x00);
    assert!(cpu.registers.f.zero);

    cpu.registers.a = 0x3C;
    cpu.execute(Instruction::XOR(ArithmeticTarget::A));
    assert_eq!(cpu.registers.a, 0x00);
    assert!(cpu.registers.f.zero);

    cpu.registers.a = 0x00;
    cpu.registers.d = 0x00;
    cpu.execute(Instruction::OR(ArithmeticTarget::D));
    assert_eq!(cpu.registers.a, 0x00);
    assert!(cpu.registers.f.zero);
}

#[test]
fn logic_ops_clear_stale_flags() {
    // AND, OR and XOR recompute all four flags, wiping whatever was there
    let mut cpu = CPU::default();
    cpu.registers.f = FlagsRegister {
        zero: false,
        subtract: true,
        half_carry: true,
        carry: true,
    };
    cpu.registers.a = 0x0F;
    cpu.registers.b = 0x05;
    cpu.execute(Instruction::OR(ArithmeticTarget::B));
    assert_eq!(cpu.registers.a, 0x0F);
    assert!(!cpu.registers.f.zero);
    assert!(!cpu.registers.f.subtract);
    assert!(!cpu.registers.f.half_carry);
    assert!(!cpu.registers.f.carry);
}

#[test]
fn default_is_zeroed() {
    let cpu = CPU::default();
    assert_eq!(cpu.registers.a, 0);
    assert_eq!(cpu.registers.b, 0);
    assert_eq!(cpu.registers.c, 0);
    assert_eq!(cpu.registers.d, 0);
    assert_eq!(cpu.registers.e, 0);
    assert_eq!(cpu.registers.h, 0);
    assert_eq!(cpu.registers.l, 0);
    assert_eq!(cpu.registers.f.to_byte(), 0);
}

#[test]
fn get_value_reads_every_target() {
    let cpu = CPU {
        registers: sample_registers(),
    };
    assert_eq!(cpu.get_value_from_target(ArithmeticTarget::A), 0x12);
    assert_eq!(cpu.get_value_from_target(ArithmeticTarget::B), 0x34);
    assert_eq!(cpu.get_value_from_target(ArithmeticTarget::C), 0x56);
    assert_eq!(cpu.get_value_from_target(ArithmeticTarget::D), 0x78);
    assert_eq!(cpu.get_value_from_target(ArithmeticTarget::E), 0x9A);
    assert_eq!(cpu.get_value_from_target(ArithmeticTarget::H), 0xBC);
    assert_eq!(cpu.get_value_from_target(ArithmeticTarget::L), 0xDE);
}

#[test]
fn inc_and_dec_reach_every_target() {
    let mut cpu = CPU::default();
    cpu.execute(Instruction::INC(ArithmeticTarget::A));
    cpu.execute(Instruction::INC(ArithmeticTarget::B));
    cpu.execute(Instruction::INC(ArithmeticTarget::C));
    cpu.execute(Instruction::INC(ArithmeticTarget::D));
    cpu.execute(Instruction::INC(ArithmeticTarget::E));
    cpu.execute(Instruction::INC(ArithmeticTarget::H));
    cpu.execute(Instruction::INC(ArithmeticTarget::L));
    assert_eq!(cpu.registers.a, 1);
    assert_eq!(cpu.registers.b, 1);
    assert_eq!(cpu.registers.c, 1);
    assert_eq!(cpu.registers.d, 1);
    assert_eq!(cpu.registers.e, 1);
    assert_eq!(cpu.registers.h, 1);
    assert_eq!(cpu.registers.l, 1);
    cpu.execute(Instruction::DEC(ArithmeticTarget::H));
    cpu.execute(Instruction::DEC(ArithmeticTarget::L));
    assert_eq!(cpu.registers.h, 0);
    assert_eq!(cpu.registers.l, 0);
    assert!(cpu.registers.f.zero);
}
