use vstd::prelude::*;
use crate::opcode::Opcode;
use crate::program::Program;

verus! {

/// The bytes that encode `ops`, one opcode after the other.
pub open spec fn encoding_of(ops: Seq<Opcode>) -> Seq<u8>
    decreases ops.len(),
{
    if ops.len() == 0 {
        Seq::empty()
    } else {
        encoding_of(ops.drop_last()) + ops.last().encoding()
    }
}

/// The byte that encodes `opcode`.
pub fn encode_opcode(opcode: &Opcode) -> (r: u8)
    requires
        opcode.wf(),
    ensures
        r as int == opcode.code(),
{
    match opcode {
        Opcode::PUSH1(_) => 0x60,
        Opcode::PUSHn(n, _, _) => 0x60 + *n - 1,
        Opcode::DUP(n) => 0x80 + *n - 1,
        Opcode::SWAP(n) => 0x90 + *n - 1,
        Opcode::LOG(n) => 0xA0 + *n,
        Opcode::STOP => 0x00,
        Opcode::ADD => 0x01,
        Opcode::MUL => 0x02,
        Opcode::SUB => 0x03,
        Opcode::DIV => 0x04,
        Opcode::SDIV => 0x05,
        Opcode::MOD => 0x06,
        Opcode::SMOD => 0x07,
        Opcode::ADDMOD => 0x08,
        Opcode::MULMOD => 0x09,
        Opcode::EXP => 0x0A,
        Opcode::SIGNEXTEND => 0x0B,
        Opcode::LT => 0x10,
        Opcode::GT => 0x11,
        Opcode::SLT => 0x12,
        Opcode::SGT => 0x13,
        Opcode::EQ => 0x14,
        Opcode::ISZERO => 0x15,
        Opcode::AND => 0x16,
        Opcode::OR => 0x17,
        Opcode::XOR => 0x18,
        Opcode::NOT => 0x19,
        Opcode::BYTE => 0x1A,
        Opcode::SHL => 0x1B,
        Opcode::SHR => 0x1C,
        Opcode::SAR => 0x1D,
        Opcode::SHA3 => 0x20,
        Opcode::ADDRESS => 0x30,
        Opcode::BALANCE => 0x31,
        Opcode::ORIGIN => 0x32,
        Opcode::CALLER => 0x33,
        Opcode::CALLVALUE => 0x34,
        Opcode::CALLDATALOAD => 0x35,
        Opcode::CALLDATASIZE => 0x36,
        Opcode::CALLDATACOPY => 0x37,
        Opcode::CODESIZE => 0x38,
        Opcode::CODECOPY => 0x39,
        Opcode::GASPRICE => 0x3A,
        Opcode::EXTCODESIZE => 0x3B,
        Opcode::EXTCODECOPY => 0x3C,
        Opcode::RETURNDATASIZE => 0x3D,
        Opcode::RETURNDATACOPY => 0x3E,
        Opcode::EXTCODEHASH => 0x3F,
        Opcode::BLOCKHASH => 0x40,
        Opcode::COINBASE => 0x41,
        Opcode::TIMESTAMP => 0x42,
        Opcode::NUMBER => 0x43,
        Opcode::DIFFICULTY => 0x44,
        Opcode::GASLIMIT => 0x45,
        Opcode::CHAINID => 0x46,
        Opcode::SELFBALANCE => 0x47,
        Opcode::BASEFEE => 0x48,
        Opcode::POP => 0x50,
        Opcode::MLOAD => 0x51,
        Opcode::MSTORE => 0x52,
        Opcode::MSTORE8 => 0x53,
        Opcode::SLOAD => 0x54,
        Opcode::SSTORE => 0x55,
        Opcode::JUMP => 0x56,
        Opcode::JUMPI => 0x57,
        Opcode::PC => 0x58,
        Opcode::MSIZE => 0x59,
        Opcode::GAS => 0x5A,
        Opcode::JUMPDEST => 0x5B,
        Opcode::CREATE => 0xF0,
        Opcode::CALL => 0xF1,
        Opcode::CALLCODE => 0xF2,
        Opcode::RETURN => 0xF3,
        Opcode::DELEGATECALL => 0xF4,
        Opcode::CREATE2 => 0xF5,
        Opcode::STATICCALL => 0xFA,
        Opcode::REVERT => 0xFD,
        Opcode::INVALID => 0xFE,
        Opcode::SELFDESTRUCT => 0xFF,
    }
}

/// The operand bytes that follow the opcode byte: the pushed bytes for a
/// push, none for the rest.
pub fn encode_operands(opcode: &Opcode) -> (r: Vec<u8>)
    ensures
        r@ == opcode.operands(),
{
    match opcode {
        Opcode::PUSH1(b) => {
            let r = vec![*b];
            assert(r@ =~= seq![*b]);
            r
        },
        Opcode::PUSHn(_, _, bs) => bs.clone(),
        _ => Vec::new(),
    }
}

/// The bytes that encode `opcodes`: each opcode's byte followed by its
/// operand bytes, in order.
pub fn encode_opcodes(opcodes: &Vec<Opcode>) -> (r: Vec<u8>)
    requires
        forall|i: int| 0 <= i < opcodes@.len() ==> (#[trigger] opcodes@[i]).wf(),
    ensures
        r@ == encoding_of(opcodes@),
{
    let mut bytecode: Vec<u8> = Vec::new();
    let mut i: usize = 0;
    assert(opcodes@.subrange(0, 0) =~= Seq::<Opcode>::empty());
    while i < opcodes.len()
        invariant
            0 <= i <= opcodes@.len(),
            forall|k: int| 0 <= k < opcodes@.len() ==> (#[trigger] opcodes@[k]).wf(),
            bytecode@ == encoding_of(opcodes@.subrange(0, i as int)),
        decreases opcodes@.len() - i,
    {
        let opcode = &opcodes[i];
        bytecode.push(encode_opcode(opcode));
        let mut operands = encode_operands(opcode);
        bytecode.append(&mut operands);
        proof {
            let done = opcodes@.subrange(0, i + 1);
            assert(done.drop_last() =~= opcodes@.subrange(0, i as int));
            assert(bytecode@ =~= encoding_of(done));
        }
        i = i + 1;
    }
    assert(opcodes@.subrange(0, i as int) =~= opcodes@);
    bytecode
}

/// The bytes that encode the program.
pub fn encode_program(program: Program) -> (r: Vec<u8>)
    requires
        program.wf(),
    ensures
        r@ == encoding_of(program.0@),
{
    encode_opcodes(&program.0)
}

} // verus!
