use vstd::prelude::*;
use vstd::string::StringExecFns;
use crate::error::DecodeError;
use crate::opcode::Opcode;

verus! {

/// The digit `d` (below 16) in upper case.
pub open spec fn upper_digit(d: u8) -> Seq<char> {
    match d {
        0 => "0"@,
        1 => "1"@,
        2 => "2"@,
        3 => "3"@,
        4 => "4"@,
        5 => "5"@,
        6 => "6"@,
        7 => "7"@,
        8 => "8"@,
        9 => "9"@,
        10 => "A"@,
        11 => "B"@,
        12 => "C"@,
        13 => "D"@,
        14 => "E"@,
        15 => "F"@,
        _ => Seq::empty(),
    }
}

/// The digit `d` (below 16) in lower case.
pub open spec fn lower_digit(d: u8) -> Seq<char> {
    match d {
        0 => "0"@,
        1 => "1"@,
        2 => "2"@,
        3 => "3"@,
        4 => "4"@,
        5 => "5"@,
        6 => "6"@,
        7 => "7"@,
        8 => "8"@,
        9 => "9"@,
        10 => "a"@,
        11 => "b"@,
        12 => "c"@,
        13 => "d"@,
        14 => "e"@,
        15 => "f"@,
        _ => Seq::empty(),
    }
}

/// Each byte of `s` as two lower-case hexadecimal digits, high digit first.
pub open spec fn lower_hex(s: Seq<u8>) -> Seq<char>
    decreases s.len(),
{
    if s.len() == 0 {
        Seq::empty()
    } else {
        lower_hex(s.drop_last()) + lower_digit(s.last() / 16) + lower_digit(s.last() % 16)
    }
}

/// The byte `b` as two upper-case hexadecimal digits, high digit first.
pub open spec fn upper_hex_byte(b: u8) -> Seq<char> {
    upper_digit(b / 16) + upper_digit(b % 16)
}

/// `n` in decimal, without leading zeros.
pub open spec fn decimal(n: nat) -> Seq<char>
    decreases n,
{
    if n < 10 {
        upper_digit(n as u8)
    } else {
        decimal(n / 10) + upper_digit((n % 10) as u8)
    }
}

/// Relies on `hex::encode`: each byte as two lower-case hexadecimal digits,
/// high digit first.
#[verifier::external_body]
fn hex_encode(bytes: &Vec<u8>) -> (r: String)
    ensures
        r@ == lower_hex(bytes@),
{
    hex::encode(bytes)
}

/// The digit `d` in upper case.
fn digit(d: u8) -> (r: &'static str)
    requires
        d < 16,
    ensures
        r@ == upper_digit(d),
{
    match d {
        0 => "0",
        1 => "1",
        2 => "2",
        3 => "3",
        4 => "4",
        5 => "5",
        6 => "6",
        7 => "7",
        8 => "8",
        9 => "9",
        10 => "A",
        11 => "B",
        12 => "C",
        13 => "D",
        14 => "E",
        15 => "F",
        _ => "F",
    }
}

/// `n` in decimal.
fn decimal_string(n: u8) -> (r: String)
    ensures
        r@ == decimal(n as nat),
{
    let mut s = String::new();
    if n >= 100 {
        s.append(digit(n / 100));
    }
    if n >= 10 {
        s.append(digit(n / 10 % 10));
    }
    s.append(digit(n % 10));
    proof {
        let m = n as nat;
        if m >= 100 {
            assert(decimal(m / 100) == upper_digit((m / 100) as u8));
            assert(decimal(m / 10) == decimal(m / 100) + upper_digit((m / 10 % 10) as u8));
        } else if m >= 10 {
            assert(decimal(m / 10) == upper_digit((m / 10) as u8));
        }
        assert(s@ =~= decimal(m));
    }
    s
}

impl Opcode {
    /// The mnemonic of an opcode without operand.
    pub open spec fn mnemonic(self) -> Seq<char> {
        match self {
            Opcode::STOP => "STOP"@,
            Opcode::ADD => "ADD"@,
            Opcode::MUL => "MUL"@,
            Opcode::SUB => "SUB"@,
            Opcode::DIV => "DIV"@,
            Opcode::SDIV => "SDIV"@,
            Opcode::MOD => "MOD"@,
            Opcode::SMOD => "SMOD"@,
            Opcode::ADDMOD => "ADDMOD"@,
            Opcode::MULMOD => "MULMOD"@,
            Opcode::EXP => "EXP"@,
            Opcode::SIGNEXTEND => "SIGNEXTEND"@,
            Opcode::LT => "LT"@,
            Opcode::GT => "GT"@,
            Opcode::SLT => "SLT"@,
            Opcode::SGT => "SGT"@,
            Opcode::EQ => "EQ"@,
            Opcode::ISZERO => "ISZERO"@,
            Opcode::AND => "AND"@,
            Opcode::OR => "OR"@,
            Opcode::XOR => "XOR"@,
            Opcode::NOT => "NOT"@,
            Opcode::BYTE => "BYTE"@,
            Opcode::SHL => "SHL"@,
            Opcode::SHR => "SHR"@,
            Opcode::SAR => "SAR"@,
            Opcode::SHA3 => "SHA3"@,
            Opcode::ADDRESS => "ADDRESS"@,
            Opcode::BALANCE => "BALANCE"@,
            Opcode::ORIGIN => "ORIGIN"@,
            Opcode::CALLER => "CALLER"@,
            Opcode::CALLVALUE => "CALLVALUE"@,
            Opcode::CALLDATALOAD => "CALLDATALOAD"@,
            Opcode::CALLDATASIZE => "CALLDATASIZE"@,
            Opcode::CALLDATACOPY => "CALLDATACOPY"@,
            Opcode::CODESIZE => "CODESIZE"@,
            Opcode::CODECOPY => "CODECOPY"@,
            Opcode::GASPRICE => "GASPRICE"@,
            Opcode::EXTCODESIZE => "EXTCODESIZE"@,
            Opcode::EXTCODECOPY => "EXTCODECOPY"@,
            Opcode::RETURNDATASIZE => "RETURNDATASIZE"@,
            Opcode::RETURNDATACOPY => "RETURNDATACOPY"@,
            Opcode::EXTCODEHASH => "EXTCODEHASH"@,
            Opcode::BLOCKHASH => "BLOCKHASH"@,
            Opcode::COINBASE => "COINBASE"@,
            Opcode::TIMESTAMP => "TIMESTAMP"@,
            Opcode::NUMBER => "NUMBER"@,
            Opcode::DIFFICULTY => "DIFFICULTY"@,
            Opcode::GASLIMIT => "GASLIMIT"@,
            Opcode::CHAINID => "CHAINID"@,
            Opcode::SELFBALANCE => "SELFBALANCE"@,
            Opcode::BASEFEE => "BASEFEE"@,
            Opcode::POP => "POP"@,
            Opcode::MLOAD => "MLOAD"@,
            Opcode::MSTORE => "MSTORE"@,
            Opcode::MSTORE8 => "MSTORE8"@,
            Opcode::SLOAD => "SLOAD"@,
            Opcode::SSTORE => "SSTORE"@,
            Opcode::JUMP => "JUMP"@,
            Opcode::JUMPI => "JUMPI"@,
            Opcode::PC => "PC"@,
            Opcode::MSIZE => "MSIZE"@,
            Opcode::GAS => "GAS"@,
            Opcode::JUMPDEST => "JUMPDEST"@,
            Opcode::CREATE => "CREATE"@,
            Opcode::CALL => "CALL"@,
            Opcode::CALLCODE => "CALLCODE"@,
            Opcode::RETURN => "RETURN"@,
            Opcode::DELEGATECALL => "DELEGATECALL"@,
            Opcode::CREATE2 => "CREATE2"@,
            Opcode::STATICCALL => "STATICCALL"@,
            Opcode::REVERT => "REVERT"@,
            Opcode::INVALID => "INVALID"@,
            Opcode::SELFDESTRUCT => "SELFDESTRUCT"@,
            _ => Seq::empty(),
        }
    }

    /// How the opcode reads in assembly: its mnemonic, `PUSH<n> 0x<hex>` for
    /// a push, `DUP<n>`, `SWAP<n>` and `LOG<n>` for the others.
    pub open spec fn text(self) -> Seq<char> {
        match self {
            Opcode::PUSH1(b) => "PUSH1 0x"@ + lower_hex(seq![b]),
            Opcode::PUSHn(n, _, bs) => "PUSH"@ + decimal(n as nat) + " 0x"@ + lower_hex(bs@),
            Opcode::DUP(n) => "DUP"@ + decimal(n as nat),
            Opcode::SWAP(n) => "SWAP"@ + decimal(n as nat),
            Opcode::LOG(n) => "LOG"@ + decimal(n as nat),
            _ => self.mnemonic(),
        }
    }

    fn mnemonic_str(&self) -> (r: &'static str)
        requires
            self.is_fixed(),
        ensures
            r@ == self.mnemonic(),
    {
        match self {
            Opcode::STOP => "STOP",
            Opcode::ADD => "ADD",
            Opcode::MUL => "MUL",
            Opcode::SUB => "SUB",
            Opcode::DIV => "DIV",
            Opcode::SDIV => "SDIV",
            Opcode::MOD => "MOD",
            Opcode::SMOD => "SMOD",
            Opcode::ADDMOD => "ADDMOD",
            Opcode::MULMOD => "MULMOD",
            Opcode::EXP => "EXP",
            Opcode::SIGNEXTEND => "SIGNEXTEND",
            Opcode::LT => "LT",
            Opcode::GT => "GT",
            Opcode::SLT => "SLT",
            Opcode::SGT => "SGT",
            Opcode::EQ => "EQ",
            Opcode::ISZERO => "ISZERO",
            Opcode::AND => "AND",
            Opcode::OR => "OR",
            Opcode::XOR => "XOR",
            Opcode::NOT => "NOT",
            Opcode::BYTE => "BYTE",
            Opcode::SHL => "SHL",
            Opcode::SHR => "SHR",
            Opcode::SAR => "SAR",
            Opcode::SHA3 => "SHA3",
            Opcode::ADDRESS => "ADDRESS",
            Opcode::BALANCE => "BALANCE",
            Opcode::ORIGIN => "ORIGIN",
            Opcode::CALLER => "CALLER",
            Opcode::CALLVALUE => "CALLVALUE",
            Opcode::CALLDATALOAD => "CALLDATALOAD",
            Opcode::CALLDATASIZE => "CALLDATASIZE",
            Opcode::CALLDATACOPY => "CALLDATACOPY",
            Opcode::CODESIZE => "CODESIZE",
            Opcode::CODECOPY => "CODECOPY",
            Opcode::GASPRICE => "GASPRICE",
            Opcode::EXTCODESIZE => "EXTCODESIZE",
            Opcode::EXTCODECOPY => "EXTCODECOPY",
            Opcode::RETURNDATASIZE => "RETURNDATASIZE",
            Opcode::RETURNDATACOPY => "RETURNDATACOPY",
            Opcode::EXTCODEHASH => "EXTCODEHASH",
            Opcode::BLOCKHASH => "BLOCKHASH",
            Opcode::COINBASE => "COINBASE",
            Opcode::TIMESTAMP => "TIMESTAMP",
            Opcode::NUMBER => "NUMBER",
            Opcode::DIFFICULTY => "DIFFICULTY",
            Opcode::GASLIMIT => "GASLIMIT",
            Opcode::CHAINID => "CHAINID",
            Opcode::SELFBALANCE => "SELFBALANCE",
            Opcode::BASEFEE => "BASEFEE",
            Opcode::POP => "POP",
            Opcode::MLOAD => "MLOAD",
            Opcode::MSTORE => "MSTORE",
            Opcode::MSTORE8 => "MSTORE8",
            Opcode::SLOAD => "SLOAD",
            Opcode::SSTORE => "SSTORE",
            Opcode::JUMP => "JUMP",
            Opcode::JUMPI => "JUMPI",
            Opcode::PC => "PC",
            Opcode::MSIZE => "MSIZE",
            Opcode::GAS => "GAS",
            Opcode::JUMPDEST => "JUMPDEST",
            Opcode::CREATE => "CREATE",
            Opcode::CALL => "CALL",
            Opcode::CALLCODE => "CALLCODE",
            Opcode::RETURN => "RETURN",
            Opcode::DELEGATECALL => "DELEGATECALL",
            Opcode::CREATE2 => "CREATE2",
            Opcode::STATICCALL => "STATICCALL",
            Opcode::REVERT => "REVERT",
            Opcode::INVALID => "INVALID",
            Opcode::SELFDESTRUCT => "SELFDESTRUCT",
            _ => "",
        }
    }

    /// The opcode as it reads in assembly.
    pub fn to_string(&self) -> (r: String)
        ensures
            r@ == self.text(),
    {
        match self {
            Opcode::PUSH1(b) => {
                let mut s = String::new();
                s.append("PUSH1 0x");
                let bytes = vec![*b];
                let h = hex_encode(&bytes);
                s.append(h.as_str());
                assert(bytes@ =~= seq![*b]);
                s
            },
            Opcode::PUSHn(n, _, bs) => {
                let mut s = String::new();
                s.append("PUSH");
                let d = decimal_string(*n);
                s.append(d.as_str());
                s.append(" 0x");
                let h = hex_encode(bs);
                s.append(h.as_str());
                s
            },
            Opcode::DUP(n) => {
                let mut s = String::new();
                s.append("DUP");
                let d = decimal_string(*n);
                s.append(d.as_str());
                s
            },
            Opcode::SWAP(n) => {
                let mut s = String::new();
                s.append("SWAP");
                let d = decimal_string(*n);
                s.append(d.as_str());
                s
            },
            Opcode::LOG(n) => {
                let mut s = String::new();
                s.append("LOG");
                let d = decimal_string(*n);
                s.append(d.as_str());
                s
            },
            _ => {
                let mut s = String::new();
                s.append(self.mnemonic_str());
                s
            },
        }
    }
}

impl DecodeError {
    /// How the error reads in a message.
    pub open spec fn text(self) -> Seq<char> {
        match self {
            DecodeError::InvalidBytecode => "invalid EVM bytecode"@,
            DecodeError::InvalidOpcode(b) => "invalid EVM opcode 0x"@ + upper_hex_byte(b),
        }
    }

    /// The error as it reads in a message.
    pub fn to_string(&self) -> (r: String)
        ensures
            r@ == self.text(),
    {
        let mut s = String::new();
        match self {
            DecodeError::InvalidBytecode => {
                s.append("invalid EVM bytecode");
            },
            DecodeError::InvalidOpcode(b) => {
                s.append("invalid EVM opcode 0x");
                s.append(digit(*b / 16));
                s.append(digit(*b % 16));
            },
        }
        s
    }
}

} // verus!
