//! A codec between raw EVM bytecode and a typed instruction model.
//!
//! Decoding classifies every leading byte through a fixed table and consumes
//! exactly the operand bytes that push instructions declare; encoding is its
//! exact inverse. The contracts speak of the byte table (`decode`), the
//! opcode model (`opcode`) and the encoding of opcode sequences (`encode`);
//! `laws` proves the round trip and that decoding is unique.

pub mod decode;
pub mod encode;
pub mod error;
pub mod laws;
pub mod opcode;
pub mod program;
pub mod text;
pub mod word;

pub use crate::decode::{decode_opcode, decode_program};
pub use crate::encode::{encode_opcode, encode_opcodes, encode_operands, encode_program};
pub use crate::error::DecodeError;
pub use crate::opcode::Opcode;
pub use crate::program::Program;
pub use crate::word::U256;
