//! The execution unit of an 8-bit processor: a register file with 16-bit
//! paired access, a packed condition-flags register, and an arithmetic/logic
//! executor that mutates the registers and recomputes all four flags for
//! every instruction it runs.

pub mod cpu;
pub mod flags;
pub mod instruction;
pub mod registers;
