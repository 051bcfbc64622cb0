//! The instruction set: a closed tagged union naming an operation and an
//! operand selector (a single 8-bit register, or a 16-bit pair for the wide
//! add), decoupled from any opcode encoding. An instruction is an immutable
//! value, constructed per dispatch and consumed immediately.

use vstd::prelude::*;

verus! {

/// Selects one of the seven 8-bit general registers as an operand.
#[derive(Clone, Copy, Debug)]
pub enum ArithmeticTarget {
    A,
    B,
    C,
    D,
    E,
    H,
    L,
}

/// Selects one of the 16-bit register pairs as the operand of the wide add.
#[derive(Clone, Copy, Debug)]
pub enum ADDHLTarget {
    BC,
    DE,
    HL,
}

/// An operation together with its operand selector.
#[allow(non_camel_case_types)]
#[derive(Clone, Copy, Debug)]
pub enum Instruction {
    ADD(ArithmeticTarget),
    ADDHL(ADDHLTarget),
    ADC(ArithmeticTarget),
    SUB(ArithmeticTarget),
    SBC(ArithmeticTarget),
    AND(ArithmeticTarget),
    OR(ArithmeticTarget),
    XOR(ArithmeticTarget),
    /// Compares like SUB, but updates the flags only and stores no result.
    CP(ArithmeticTarget),
    INC(ArithmeticTarget),
    DEC(ArithmeticTarget),
}

} // verus!
