//! Witness generation support for the RV32 base ALU circuit.
//!
//! The library holds what a harness for the circuit has to decide and to check:
//!
//! - [`limbs`]: operands as little-endian limb sequences, and the integers they
//!   denote;
//! - [`opcode`]: the operations and their numbering in the instruction set;
//! - [`alu`]: what each operation computes, the oracle that the circuit is checked
//!   against;
//! - [`immediate`]: sign extension of the 12-bit immediate field and the literal
//!   that an instruction carries for it;
//! - [`random`]: the draws from the caller's generator;
//! - [`instruction`]: locations in the register store that share no cell, the
//!   instruction record, and the writes that stage its operands;
//! - [`driver`]: the plan for one instruction, and the verdict on what the
//!   execution pipeline wrote back;
//! - [`trace`]: extraction of the ALU's rows from the traces of a proving context,
//!   with the checks on their shape.
//!
//! The execution pipeline and the proving backend are not part of the library: a
//! caller performs the writes of a plan, runs the instruction, and hands back what
//! it read and the traces it got, all as plain values.

pub mod alu;
pub mod driver;
pub mod immediate;
pub mod instruction;
pub mod limbs;
pub mod opcode;
pub mod random;
pub mod trace;
