use vstd::prelude::*;
use crate::decode::{fixed_opcode, is_fixed_byte};
use crate::encode::encode_opcode;
use crate::word::{be_value, lemma_be_value_zeros, U256};

verus! {

/// One EVM instruction: a fixed-width opcode, or one that carries an operand.
#[derive(Clone, Debug, Eq, Hash, PartialOrd, Ord)]
pub enum Opcode {
    STOP,
    ADD,
    MUL,
    SUB,
    DIV,
    SDIV,
    MOD,
    SMOD,
    ADDMOD,
    MULMOD,
    EXP,
    SIGNEXTEND,
    LT,
    GT,
    SLT,
    SGT,
    EQ,
    ISZERO,
    AND,
    OR,
    XOR,
    NOT,
    BYTE,
    SHL,
    SHR,
    SAR,
    SHA3,
    ADDRESS,
    BALANCE,
    ORIGIN,
    CALLER,
    CALLVALUE,
    CALLDATALOAD,
    CALLDATASIZE,
    CALLDATACOPY,
    CODESIZE,
    CODECOPY,
    GASPRICE,
    EXTCODESIZE,
    EXTCODECOPY,
    RETURNDATASIZE,
    RETURNDATACOPY,
    EXTCODEHASH,
    BLOCKHASH,
    COINBASE,
    TIMESTAMP,
    NUMBER,
    DIFFICULTY,
    GASLIMIT,
    CHAINID,
    SELFBALANCE,
    BASEFEE,
    POP,
    MLOAD,
    MSTORE,
    MSTORE8,
    SLOAD,
    SSTORE,
    JUMP,
    JUMPI,
    PC,
    MSIZE,
    GAS,
    JUMPDEST,
    /// Push of a single operand byte.
    PUSH1(u8),
    /// Push of `n` operand bytes: the count, their big-endian value, and the
    /// bytes themselves as they stood in the input.
    PUSHn(u8, U256, Vec<u8>),
    /// Duplicate the stack slot at depth 1 to 16.
    DUP(u8),
    /// Swap with the stack slot at depth 1 to 16.
    SWAP(u8),
    /// Emit a log entry with 0 to 4 topics.
    LOG(u8),
    CREATE,
    CALL,
    CALLCODE,
    RETURN,
    DELEGATECALL,
    CREATE2,
    STATICCALL,
    REVERT,
    INVALID,
    SELFDESTRUCT,
}

impl Opcode {
    /// Whether the opcode carries no operand.
    pub open spec fn is_fixed(self) -> bool {
        !(self is PUSH1 || self is PUSHn || self is DUP || self is SWAP || self is LOG)
    }

    /// The number of bytes the opcode takes in an encoding: 2 for `PUSH1`,
    /// one more than the operand count for `PUSHn`, 1 for the rest.
    pub fn size(&self) -> (r: usize)
        ensures
            r == self.spec_size(),
    {
        match self {
            Opcode::PUSH1(_) => 2,
            Opcode::PUSHn(n, _, _) => 1 + *n as usize,
            _ => 1,
        }
    }

    /// Whether the opcode is a message call: `CALL`, `CALLCODE`, `DELEGATECALL` or `STATICCALL`.
    pub fn is_call(&self) -> (r: bool)
        ensures
            r == (*self is CALL || *self is CALLCODE || *self is DELEGATECALL
                || *self is STATICCALL),
    {
        matches!(self, Opcode::CALL | Opcode::CALLCODE | Opcode::DELEGATECALL | Opcode::STATICCALL)
    }

    /// Whether the opcode is one that ends or redirects the flow of control.
    pub fn is_control(&self) -> (r: bool)
        ensures
            r == (*self is STOP || *self is JUMP || *self is JUMPI || *self is RETURN
                || *self is REVERT || *self is INVALID || *self is SELFDESTRUCT),
    {
        matches!(self, Opcode::STOP | Opcode::JUMP | Opcode::JUMPI | Opcode::RETURN
            | Opcode::REVERT | Opcode::INVALID | Opcode::SELFDESTRUCT)
    }

    /// Whether the opcode is a `DUP`.
    pub fn is_dup(&self) -> (r: bool)
        ensures
            r == (*self is DUP),
    {
        matches!(self, Opcode::DUP(_))
    }

    /// Whether the opcode is one that halts execution.
    pub fn is_halt(&self) -> (r: bool)
        ensures
            r == (*self is STOP || *self is RETURN || *self is REVERT || *self is INVALID
                || *self is SELFDESTRUCT),
    {
        matches!(self, Opcode::STOP | Opcode::RETURN | Opcode::REVERT | Opcode::INVALID
            | Opcode::SELFDESTRUCT)
    }

    /// Whether the opcode is `JUMP` or `JUMPI`.
    pub fn is_jump(&self) -> (r: bool)
        ensures
            r == (*self is JUMP || *self is JUMPI),
    {
        matches!(self, Opcode::JUMP | Opcode::JUMPI)
    }

    /// Whether the opcode is `JUMPDEST`.
    pub fn is_jumpdest(&self) -> (r: bool)
        ensures
            r == (*self is JUMPDEST),
    {
        matches!(self, Opcode::JUMPDEST)
    }

    /// Whether the opcode is a `LOG`.
    pub fn is_log(&self) -> (r: bool)
        ensures
            r == (*self is LOG),
    {
        matches!(self, Opcode::LOG(_))
    }

    /// Whether the opcode is a memory access: `MLOAD`, `MSIZE`, `MSTORE` or `MSTORE8`.
    pub fn is_memory(&self) -> (r: bool)
        ensures
            r == (*self is MLOAD || *self is MSIZE || *self is MSTORE || *self is MSTORE8),
    {
        matches!(self, Opcode::MLOAD | Opcode::MSIZE | Opcode::MSTORE | Opcode::MSTORE8)
    }

    /// Whether the opcode is `POP`.
    pub fn is_pop(&self) -> (r: bool)
        ensures
            r == (*self is POP),
    {
        matches!(self, Opcode::POP)
    }

    /// Whether the opcode is a push of any width.
    pub fn is_push(&self) -> (r: bool)
        ensures
            r == (*self is PUSH1 || *self is PUSHn),
    {
        matches!(self, Opcode::PUSH1(_) | Opcode::PUSHn(_, _, _))
    }

    /// Whether the opcode is a storage access: `SLOAD` or `SSTORE`.
    pub fn is_storage(&self) -> (r: bool)
        ensures
            r == (*self is SLOAD || *self is SSTORE),
    {
        matches!(self, Opcode::SLOAD | Opcode::SSTORE)
    }

    /// Whether the opcode is a `SWAP`.
    pub fn is_swap(&self) -> (r: bool)
        ensures
            r == (*self is SWAP),
    {
        matches!(self, Opcode::SWAP(_))
    }

    /// Whether the opcode pushes the value zero.
    pub fn is_zero(&self) -> (r: bool)
        ensures
            r == match *self {
                Opcode::PUSH1(b) => b == 0,
                Opcode::PUSHn(_, v, _) => v.value() == 0,
                _ => false,
            },
    {
        match self {
            Opcode::PUSH1(b) => *b == 0,
            Opcode::PUSHn(_, v, _) => v.is_zero(),
            _ => false,
        }
    }

    /// Whether the opcode pushes the value one.
    pub fn is_one(&self) -> (r: bool)
        ensures
            r == match *self {
                Opcode::PUSH1(b) => b == 1,
                Opcode::PUSHn(_, v, _) => v.value() == 1,
                _ => false,
            },
    {
        match self {
            Opcode::PUSH1(b) => *b == 1,
            Opcode::PUSHn(_, v, _) => v.is_one(),
            _ => false,
        }
    }

    /// `self` is `op` with its pushed operand zeroed: a push keeps its width
    /// and its operand bytes become zeros; every other opcode stays as it is.
    #[verifier::opaque]
    pub open spec fn is_zeroed_of(self, op: Opcode) -> bool {
        match op {
            Opcode::PUSH1(_) => self == Opcode::PUSH1(0),
            Opcode::PUSHn(n, _, _) => self matches Opcode::PUSHn(m, v, bs) && m == n && v.value() == 0
                && bs@ == Seq::new(n as nat, |_i: int| 0u8),
            _ => self == op,
        }
    }

    /// The opcode of the same shape with its pushed operand zeroed.
    pub fn zeroed(&self) -> (r: Opcode)
        ensures
            r.is_zeroed_of(*self),
            self.wf() ==> r.wf(),
    {
        reveal(Opcode::is_zeroed_of);
        match self {
            Opcode::PUSH1(_) => Opcode::PUSH1(0),
            Opcode::PUSHn(n, _, _) => {
                let bytes: Vec<u8> = vec![0u8; *n as usize];
                assert(bytes@ =~= Seq::new(*n as nat, |_i: int| 0u8));
                proof {
                    lemma_be_value_zeros(bytes@);
                }
                Opcode::PUSHn(*n, U256::zero(), bytes)
            },
            Opcode::DUP(n) => Opcode::DUP(*n),
            Opcode::SWAP(n) => Opcode::SWAP(*n),
            Opcode::LOG(n) => Opcode::LOG(*n),
            _ => {
                proof {
                    lemma_fixed_byte(*self);
                }
                let op = fixed_opcode(encode_opcode(self)).unwrap();
                proof {
                    lemma_fixed_code_unique(op, *self);
                }
                op
            },
        }
    }

    /// Whether the opcode carries no operand.
    pub fn has_no_operand(&self) -> (r: bool)
        ensures
            r == self.is_fixed(),
    {
        !matches!(self, Opcode::PUSH1(_) | Opcode::PUSHn(_, _, _) | Opcode::DUP(_)
            | Opcode::SWAP(_) | Opcode::LOG(_))
    }

    /// The byte that encodes the opcode.
    pub open spec fn code(self) -> int {
        match self {
            Opcode::PUSH1(_) => 0x60,
            Opcode::PUSHn(n, _, _) => 0x60 + n - 1,
            Opcode::DUP(n) => 0x80 + n - 1,
            Opcode::SWAP(n) => 0x90 + n - 1,
            Opcode::LOG(n) => 0xA0 + n,
            Opcode::STOP => 0x00,
            Opcode::ADD => 0x01,
            Opcode::MUL => 0x02,
            Opcode::SUB => 0x03,
            Opcode::DIV => 0x04,
            Opcode::SDIV => 0x05,
            Opcode::MOD => 0x06,
            Opcode::SMOD => 0x07,
            Opcode::ADDMOD => 0x08,
            Opcode::MULMOD => 0x09,
            Opcode::EXP => 0x0A,
            Opcode::SIGNEXTEND => 0x0B,
            Opcode::LT => 0x10,
            Opcode::GT => 0x11,
            Opcode::SLT => 0x12,
            Opcode::SGT => 0x13,
            Opcode::EQ => 0x14,
            Opcode::ISZERO => 0x15,
            Opcode::AND => 0x16,
            Opcode::OR => 0x17,
            Opcode::XOR => 0x18,
            Opcode::NOT => 0x19,
            Opcode::BYTE => 0x1A,
            Opcode::SHL => 0x1B,
            Opcode::SHR => 0x1C,
            Opcode::SAR => 0x1D,
            Opcode::SHA3 => 0x20,
            Opcode::ADDRESS => 0x30,
            Opcode::BALANCE => 0x31,
            Opcode::ORIGIN => 0x32,
            Opcode::CALLER => 0x33,
            Opcode::CALLVALUE => 0x34,
            Opcode::CALLDATALOAD => 0x35,
            Opcode::CALLDATASIZE => 0x36,
            Opcode::CALLDATACOPY => 0x37,
            Opcode::CODESIZE => 0x38,
            Opcode::CODECOPY => 0x39,
            Opcode::GASPRICE => 0x3A,
            Opcode::EXTCODESIZE => 0x3B,
            Opcode::EXTCODECOPY => 0x3C,
            Opcode::RETURNDATASIZE => 0x3D,
            Opcode::RETURNDATACOPY => 0x3E,
            Opcode::EXTCODEHASH => 0x3F,
            Opcode::BLOCKHASH => 0x40,
            Opcode::COINBASE => 0x41,
            Opcode::TIMESTAMP => 0x42,
            Opcode::NUMBER => 0x43,
            Opcode::DIFFICULTY => 0x44,
            Opcode::GASLIMIT => 0x45,
            Opcode::CHAINID => 0x46,
            Opcode::SELFBALANCE => 0x47,
            Opcode::BASEFEE => 0x48,
            Opcode::POP => 0x50,
            Opcode::MLOAD => 0x51,
            Opcode::MSTORE => 0x52,
            Opcode::MSTORE8 => 0x53,
            Opcode::SLOAD => 0x54,
            Opcode::SSTORE => 0x55,
            Opcode::JUMP => 0x56,
            Opcode::JUMPI => 0x57,
            Opcode::PC => 0x58,
            Opcode::MSIZE => 0x59,
            Opcode::GAS => 0x5A,
            Opcode::JUMPDEST => 0x5B,
            Opcode::CREATE => 0xF0,
            Opcode::CALL => 0xF1,
            Opcode::CALLCODE => 0xF2,
            Opcode::RETURN => 0xF3,
            Opcode::DELEGATECALL => 0xF4,
            Opcode::CREATE2 => 0xF5,
            Opcode::STATICCALL => 0xFA,
            Opcode::REVERT => 0xFD,
            Opcode::INVALID => 0xFE,
            Opcode::SELFDESTRUCT => 0xFF,
        }
    }

    /// The operand bytes that follow the opcode byte in an encoding.
    pub open spec fn operands(self) -> Seq<u8> {
        match self {
            Opcode::PUSH1(b) => seq![b],
            Opcode::PUSHn(_, _, bs) => bs@,
            _ => Seq::empty(),
        }
    }

    /// The number of bytes the opcode takes in an encoding.
    pub open spec fn spec_size(self) -> nat {
        match self {
            Opcode::PUSH1(_) => 2,
            Opcode::PUSHn(n, _, _) => 1 + n as nat,
            _ => 1,
        }
    }

    /// The opcode can be built through the public model: a push of 1 to 32
    /// bytes whose value is their big-endian reading, a stack depth of 1 to
    /// 16, a topic count of 0 to 4.
    pub open spec fn wf(self) -> bool {
        match self {
            Opcode::PUSHn(n, v, bs) => 1 <= n <= 32 && bs@.len() == n && v.value() == be_value(bs@),
            Opcode::DUP(n) => 1 <= n <= 16,
            Opcode::SWAP(n) => 1 <= n <= 16,
            Opcode::LOG(n) => n <= 4,
            _ => true,
        }
    }

    /// The form the decoder produces: well formed, and a one-byte push is
    /// always `PUSH1`.
    pub open spec fn canonical(self) -> bool {
        self.wf() && !(self matches Opcode::PUSHn(n, _, _) && n == 1)
    }

    /// The complete encoding of the opcode.
    pub open spec fn encoding(self) -> Seq<u8> {
        seq![self.code() as u8] + self.operands()
    }

    /// Which kind of instruction: the code of a fixed opcode, or one tag per
    /// operand-carrying variant.
    pub open spec fn kind(self) -> int {
        match self {
            Opcode::PUSH1(_) => 0x100,
            Opcode::PUSHn(_, _, _) => 0x101,
            Opcode::DUP(_) => 0x102,
            Opcode::SWAP(_) => 0x103,
            Opcode::LOG(_) => 0x104,
            _ => self.code(),
        }
    }

    /// Two opcodes are the same instruction with the same operand.
    #[verifier::opaque]
    pub open spec fn same(self, o: Opcode) -> bool {
        &&& self.kind() == o.kind()
        &&& match (self, o) {
            (Opcode::PUSH1(a), Opcode::PUSH1(b)) => a == b,
            (Opcode::PUSHn(n, v, bs), Opcode::PUSHn(m, w, cs)) => n == m && v == w && bs@ == cs@,
            (Opcode::DUP(a), Opcode::DUP(b)) => a == b,
            (Opcode::SWAP(a), Opcode::SWAP(b)) => a == b,
            (Opcode::LOG(a), Opcode::LOG(b)) => a == b,
            _ => true,
        }
    }
}

/// The byte of an opcode without operand is one of the bytes of such opcodes.
proof fn lemma_fixed_byte(op: Opcode)
    requires
        op.is_fixed(),
    ensures
        0 <= op.code() <= 0xFF,
        is_fixed_byte(op.code() as u8),
{
}

/// Opcodes without operand are told apart by their byte.
pub(crate) proof fn lemma_fixed_code_unique(a: Opcode, b: Opcode)
    requires
        a.is_fixed(),
        b.is_fixed(),
        a.code() == b.code(),
    ensures
        a == b,
{
}

/// Whether two byte vectors hold the same bytes.
fn same_bytes(a: &Vec<u8>, b: &Vec<u8>) -> (r: bool)
    ensures
        r == (a@ == b@),
{
    if a.len() != b.len() {
        return false;
    }
    let mut i: usize = 0;
    while i < a.len()
        invariant
            a@.len() == b@.len(),
            0 <= i <= a@.len(),
            forall|k: int| 0 <= k < i ==> a@[k] == b@[k],
        decreases a@.len() - i,
    {
        if a[i] != b[i] {
            return false;
        }
        i = i + 1;
    }
    assert(a@ =~= b@);
    true
}

impl PartialEq for Opcode {
    fn eq(&self, o: &Opcode) -> (r: bool)
        ensures
            r == self.same(*o),
    {
        reveal(Opcode::same);
        match (self, o) {
            (Opcode::PUSH1(a), Opcode::PUSH1(b)) => *a == *b,
            (Opcode::PUSHn(n, v, bs), Opcode::PUSHn(m, w, cs)) => *n == *m && *v == *w && same_bytes(bs, cs),
            (Opcode::DUP(a), Opcode::DUP(b)) => *a == *b,
            (Opcode::SWAP(a), Opcode::SWAP(b)) => *a == *b,
            (Opcode::LOG(a), Opcode::LOG(b)) => *a == *b,
            _ => self.has_no_operand() && o.has_no_operand() && encode_opcode(self) == encode_opcode(o),
        }
    }
}

impl vstd::std_specs::cmp::PartialEqSpecImpl for Opcode {
    open spec fn obeys_eq_spec() -> bool {
        true
    }

    open spec fn eq_spec(&self, o: &Opcode) -> bool {
        self.same(*o)
    }
}

} // verus!
