//! A decoder and formatter for the RV32I base integer instruction set.
//!
//! A 32-bit instruction word is classified into an opcode and up to three
//! operand descriptors; operands are resolved from the raw word on demand and
//! the whole instruction can be rendered as assembly text.

pub mod decoder;
pub mod display;
pub mod fields;
pub mod instruction;
pub mod reader;

pub use decoder::{DecodeError, EncodingSpace, RiscVDecoder, RISCV};
pub use fields::FieldSpec;
pub use instruction::{Instruction, Opcode, Operand, OperandSpec};
