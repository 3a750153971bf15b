use vstd::prelude::*;
use crate::encode::encoding_of;
use crate::error::DecodeError;
use crate::opcode::Opcode;
use crate::program::Program;
use crate::word::{lemma_be_value_leading_zeros, u256_from_be_bytes};

verus! {

/// Whether `b` is the byte of an opcode that carries no operand.
pub open spec fn is_fixed_byte(b: u8) -> bool {
    ||| b <= 0x0B
    ||| 0x10 <= b <= 0x1D
    ||| b == 0x20
    ||| 0x30 <= b <= 0x48
    ||| 0x50 <= b <= 0x5B
    ||| 0xF0 <= b <= 0xF5
    ||| b == 0xFA
    ||| 0xFD <= b
}

/// Whether `b` is the byte of some opcode; the others are invalid.
pub open spec fn is_assigned(b: u8) -> bool {
    is_fixed_byte(b) || 0x60 <= b <= 0xA4
}

/// How many operand bytes follow the opcode byte `b`.
pub open spec fn operand_len(b: u8) -> nat {
    if 0x60 <= b <= 0x7F {
        (b - 0x5F) as nat
    } else {
        0
    }
}

/// Whether decoding at `pos` fails: the byte there is unassigned, or the
/// operand it declares runs past the end of `s`.
pub open spec fn fails_at(s: Seq<u8>, pos: int) -> bool {
    !is_assigned(s[pos]) || pos + 1 + operand_len(s[pos]) > s.len()
}

/// `op` is what decoding at `pos` yields: the canonical opcode whose byte
/// is `s[pos]` and whose operand is the bytes that follow it.
pub open spec fn decoded_at(s: Seq<u8>, pos: int, op: Opcode) -> bool {
    &&& op.canonical()
    &&& op.code() == s[pos] as int
    &&& op.operands() == s.subrange(pos + 1, pos + 1 + operand_len(s[pos]))
    &&& op.spec_size() == 1 + operand_len(s[pos])
}

/// The leading byte of the first instruction, from `pos` on, that fails to
/// decode; `None` when every instruction up to the end decodes.
pub open spec fn first_error(s: Seq<u8>, pos: int) -> Option<u8>
    decreases s.len() - pos,
{
    if pos < 0 || pos >= s.len() {
        None
    } else if fails_at(s, pos) {
        Some(s[pos])
    } else {
        first_error(s, pos + 1 + operand_len(s[pos]))
    }
}

/// `ops` is what decoding `s` yields: canonical opcodes that encode to `s`.
pub open spec fn decodes_to(s: Seq<u8>, ops: Seq<Opcode>) -> bool {
    &&& forall|i: int| 0 <= i < ops.len() ==> (#[trigger] ops[i]).canonical()
    &&& encoding_of(ops) == s
}

/// The opcode without operand whose byte is `b`, if there is one.
pub(crate) fn fixed_opcode(b: u8) -> (r: Option<Opcode>)
    ensures
        r is Some <==> is_fixed_byte(b),
        r matches Some(op) ==> op.is_fixed() && op.code() == b as int,
{
    match b {
        0x00 => Some(Opcode::STOP),
        0x01 => Some(Opcode::ADD),
        0x02 => Some(Opcode::MUL),
        0x03 => Some(Opcode::SUB),
        0x04 => Some(Opcode::DIV),
        0x05 => Some(Opcode::SDIV),
        0x06 => Some(Opcode::MOD),
        0x07 => Some(Opcode::SMOD),
        0x08 => Some(Opcode::ADDMOD),
        0x09 => Some(Opcode::MULMOD),
        0x0A => Some(Opcode::EXP),
        0x0B => Some(Opcode::SIGNEXTEND),
        0x10 => Some(Opcode::LT),
        0x11 => Some(Opcode::GT),
        0x12 => Some(Opcode::SLT),
        0x13 => Some(Opcode::SGT),
        0x14 => Some(Opcode::EQ),
        0x15 => Some(Opcode::ISZERO),
        0x16 => Some(Opcode::AND),
        0x17 => Some(Opcode::OR),
        0x18 => Some(Opcode::XOR),
        0x19 => Some(Opcode::NOT),
        0x1A => Some(Opcode::BYTE),
        0x1B => Some(Opcode::SHL),
        0x1C => Some(Opcode::SHR),
        0x1D => Some(Opcode::SAR),
        0x20 => Some(Opcode::SHA3),
        0x30 => Some(Opcode::ADDRESS),
        0x31 => Some(Opcode::BALANCE),
        0x32 => Some(Opcode::ORIGIN),
        0x33 => Some(Opcode::CALLER),
        0x34 => Some(Opcode::CALLVALUE),
        0x35 => Some(Opcode::CALLDATALOAD),
        0x36 => Some(Opcode::CALLDATASIZE),
        0x37 => Some(Opcode::CALLDATACOPY),
        0x38 => Some(Opcode::CODESIZE),
        0x39 => Some(Opcode::CODECOPY),
        0x3A => Some(Opcode::GASPRICE),
        0x3B => Some(Opcode::EXTCODESIZE),
        0x3C => Some(Opcode::EXTCODECOPY),
        0x3D => Some(Opcode::RETURNDATASIZE),
        0x3E => Some(Opcode::RETURNDATACOPY),
        0x3F => Some(Opcode::EXTCODEHASH),
        0x40 => Some(Opcode::BLOCKHASH),
        0x41 => Some(Opcode::COINBASE),
        0x42 => Some(Opcode::TIMESTAMP),
        0x43 => Some(Opcode::NUMBER),
        0x44 => Some(Opcode::DIFFICULTY),
        0x45 => Some(Opcode::GASLIMIT),
        0x46 => Some(Opcode::CHAINID),
        0x47 => Some(Opcode::SELFBALANCE),
        0x48 => Some(Opcode::BASEFEE),
        0x50 => Some(Opcode::POP),
        0x51 => Some(Opcode::MLOAD),
        0x52 => Some(Opcode::MSTORE),
        0x53 => Some(Opcode::MSTORE8),
        0x54 => Some(Opcode::SLOAD),
        0x55 => Some(Opcode::SSTORE),
        0x56 => Some(Opcode::JUMP),
        0x57 => Some(Opcode::JUMPI),
        0x58 => Some(Opcode::PC),
        0x59 => Some(Opcode::MSIZE),
        0x5A => Some(Opcode::GAS),
        0x5B => Some(Opcode::JUMPDEST),
        0xF0 => Some(Opcode::CREATE),
        0xF1 => Some(Opcode::CALL),
        0xF2 => Some(Opcode::CALLCODE),
        0xF3 => Some(Opcode::RETURN),
        0xF4 => Some(Opcode::DELEGATECALL),
        0xF5 => Some(Opcode::CREATE2),
        0xFA => Some(Opcode::STATICCALL),
        0xFD => Some(Opcode::REVERT),
        0xFE => Some(Opcode::INVALID),
        0xFF => Some(Opcode::SELFDESTRUCT),
        _ => None,
    }
}

/// Decodes the instruction that starts at `pos`.
fn decode_at(input: &[u8], pos: usize) -> (r: Result<Opcode, DecodeError>)
    requires
        pos < input@.len(),
    ensures
        match r {
            Ok(op) => !fails_at(input@, pos as int) && decoded_at(input@, pos as int, op),
            Err(e) => fails_at(input@, pos as int) && e == DecodeError::InvalidOpcode(input@[pos as int]),
        },
{
    let b = input[pos];
    let rest = input.len() - pos - 1;
    if b == 0x60 {
        if rest < 1 {
            return Err(DecodeError::InvalidOpcode(b));
        }
        let op = Opcode::PUSH1(input[pos + 1]);
        assert(op.operands() =~= input@.subrange(pos + 1, pos + 2));
        Ok(op)
    } else if 0x61 <= b && b <= 0x7F {
        let n: u8 = b - 0x5F;
        let len: usize = n as usize;
        if rest < len {
            return Err(DecodeError::InvalidOpcode(b));
        }
        let mut buffer: [u8; 32] = [0u8; 32];
        let mut bytes: Vec<u8> = Vec::new();
        let mut i: usize = 0;
        while i < len
            invariant
                2 <= len <= 32,
                pos + 1 + len <= input.len(),
                0 <= i <= len,
                bytes@ == input@.subrange(pos + 1, pos + 1 + i),
                forall|k: int| 0 <= k < 32 - len ==> buffer@[k] == 0,
                forall|k: int| 32 - len <= k < 32 - len + i ==> buffer@[k] == input@[pos + 1 + k - (32 - len)],
            decreases len - i,
        {
            let x = input[pos + 1 + i];
            buffer[32 - len + i] = x;
            bytes.push(x);
            i = i + 1;
            assert(bytes@ =~= input@.subrange(pos + 1, pos + 1 + i));
        }
        let ghost zeros = buffer@.subrange(0, 32 - len as int);
        proof {
            assert(buffer@ =~= zeros + bytes@);
            lemma_be_value_leading_zeros(zeros, bytes@);
        }
        let value = u256_from_be_bytes(&buffer);
        Ok(Opcode::PUSHn(n, value, bytes))
    } else if 0x80 <= b && b <= 0x8F {
        let op = Opcode::DUP(b - 0x7F);
        assert(op.operands() =~= input@.subrange(pos + 1, pos + 1));
        Ok(op)
    } else if 0x90 <= b && b <= 0x9F {
        let op = Opcode::SWAP(b - 0x8F);
        assert(op.operands() =~= input@.subrange(pos + 1, pos + 1));
        Ok(op)
    } else if 0xA0 <= b && b <= 0xA4 {
        let op = Opcode::LOG(b - 0xA0);
        assert(op.operands() =~= input@.subrange(pos + 1, pos + 1));
        Ok(op)
    } else {
        match fixed_opcode(b) {
            Some(op) => {
                assert(op.operands() =~= input@.subrange(pos + 1, pos + 1));
                Ok(op)
            },
            None => Err(DecodeError::InvalidOpcode(b)),
        }
    }
}

/// Decodes the instruction at the start of `input`. Its size is the number
/// of bytes it took. An empty input is invalid bytecode; an unassigned
/// leading byte, or an operand that runs past the end, is an invalid opcode
/// carrying that byte.
pub fn decode_opcode(input: &[u8]) -> (r: Result<Opcode, DecodeError>)
    ensures
        input@.len() == 0 ==> r == Err::<Opcode, DecodeError>(DecodeError::InvalidBytecode),
        input@.len() > 0 ==> match r {
            Ok(op) => !fails_at(input@, 0) && decoded_at(input@, 0, op),
            Err(e) => fails_at(input@, 0) && e == DecodeError::InvalidOpcode(input@[0]),
        },
{
    if input.len() == 0 {
        return Err(DecodeError::InvalidBytecode);
    }
    decode_at(input, 0)
}

/// Decodes all of `input`, one instruction after the other. The first
/// instruction that fails to decode fails the whole input.
pub fn decode_program(input: &[u8]) -> (r: Result<Program, DecodeError>)
    ensures
        match r {
            Ok(p) => first_error(input@, 0) is None && decodes_to(input@, p.0@) && p.wf(),
            Err(e) => first_error(input@, 0) matches Some(b) && e == DecodeError::InvalidOpcode(b),
        },
{
    let mut result: Vec<Opcode> = Vec::new();
    let mut pos: usize = 0;
    assert(input@.subrange(0, 0) =~= encoding_of(result@));
    while pos < input.len()
        invariant
            pos <= input@.len(),
            first_error(input@, 0) == first_error(input@, pos as int),
            decodes_to(input@.subrange(0, pos as int), result@),
        decreases input@.len() - pos,
    {
        match decode_at(input, pos) {
            Err(e) => {
                return Err(e);
            },
            Ok(op) => {
                let ghost prev = result@;
                let size = op.size();
                proof {
                    let next = pos + size;
                    assert(input@.subrange(0, next as int) =~= input@.subrange(0, pos as int) + op.encoding());
                }
                pos = pos + size;
                result.push(op);
                assert(result@.drop_last() =~= prev);
            },
        }
    }
    assert(input@.subrange(0, pos as int) =~= input@);
    Ok(Program(result))
}

} // verus!
