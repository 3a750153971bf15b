use vstd::prelude::*;

verus! {

/// Why a byte sequence could not be decoded.
#[derive(Debug, Clone, Copy, PartialEq, Eq, Structural)]
pub enum DecodeError {
    /// The input as a whole is malformed (an empty instruction stream).
    InvalidBytecode,
    /// The leading byte is unassigned, or its declared operand runs past the
    /// end of the input; carries that byte.
    InvalidOpcode(u8),
}

} // verus!
