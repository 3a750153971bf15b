use evm_bytecode::{
    decode_opcode, decode_program, encode_opcode, encode_opcodes, encode_operands, encode_program,
    DecodeError, Opcode, Program, U256,
};

fn is_invalid_byte(b: u8) -> bool {
    matches!(b, 0x0C..=0x0F | 0x1E..=0x1F | 0x21..=0x2F | 0x49..=0x4F | 0x5C..=0x5F
        | 0xA5..=0xEF | 0xF6..=0xF9 | 0xFB..=0xFC)
}

#[test]
fn decodes_two_pushes_add_stop() {
    let input = [0x60, 0x01, 0x60, 0x02, 0x01, 0x00];
    let program = decode_program(&input).unwrap();
    assert_eq!(
        program.0,
        vec![Opcode::PUSH1(1), Opcode::PUSH1(2), Opcode::ADD, Opcode::STOP]
    );
    let shapes = program.opcode_set();
    assert_eq!(shapes.len(), 3);
    assert!(shapes.contains(&Opcode::PUSH1(0)));
    assert!(shapes.contains(&Opcode::ADD));
    assert!(shapes.contains(&Opcode::STOP));
    assert_eq!(encode_program(program), input.to_vec());
}

#[test]
fn unassigned_byte_is_invalid_opcode() {
    assert_eq!(decode_program(&[0x0C]), Err(DecodeError::InvalidOpcode(0x0C)));
    assert_eq!(decode_opcode(&[0x0C]), Err(DecodeError::InvalidOpcode(0x0C)));
}

#[test]
fn truncated_push_fails() {
    assert_eq!(decode_opcode(&[0x61, 0x01]), Err(DecodeError::InvalidOpcode(0x61)));
    assert_eq!(decode_program(&[0x61, 0x01]), Err(DecodeError::InvalidOpcode(0x61)));
    assert_eq!(decode_opcode(&[0x60]), Err(DecodeError::InvalidOpcode(0x60)));
    assert_eq!(decode_program(&[0x01, 0x7F, 0xAA]), Err(DecodeError::InvalidOpcode(0x7F)));
}

#[test]
fn empty_input() {
    assert_eq!(decode_opcode(&[]), Err(DecodeError::InvalidBytecode));
    assert_eq!(decode_program(&[]), Ok(Program(vec![])));
    assert_eq!(encode_program(Program(vec![])), Vec::<u8>::new());
}

#[test]
fn push32_keeps_bytes_and_value() {
    let mut input = vec![0x7F];
    let operand: Vec<u8> = (0..32u8).map(|i| if i < 3 { 0 } else { i }).collect();
    input.extend_from_slice(&operand);
    let op = decode_opcode(&input).unwrap();
    let mut hi: u128 = 0;
    let mut lo: u128 = 0;
    for (i, b) in operand.iter().enumerate() {
        if i < 16 {
            hi = (hi << 8) | *b as u128;
        } else {
            lo = (lo << 8) | *b as u128;
        }
    }
    assert_eq!(op, Opcode::PUSHn(32, U256 { hi, lo }, operand.clone()));
    assert_eq!(op.size(), 33);
    assert_eq!(encode_opcode(&op), 0x7F);
    assert_eq!(encode_operands(&op), operand);
}

#[test]
fn push2_with_leading_zero() {
    let op = decode_opcode(&[0x61, 0x00, 0x05, 0xFF]).unwrap();
    assert_eq!(op, Opcode::PUSHn(2, U256 { hi: 0, lo: 5 }, vec![0x00, 0x05]));
    assert!(!op.is_zero());
    assert_eq!(encode_opcodes(&vec![op]), vec![0x61, 0x00, 0x05]);
}

#[test]
fn every_leading_byte_is_handled() {
    for b in 0..=255u8 {
        let mut input = vec![b];
        input.extend_from_slice(&[0xAB; 32]);
        match decode_opcode(&input) {
            Ok(op) => {
                assert!(!is_invalid_byte(b), "byte {:#04x}", b);
                assert_eq!(encode_opcode(&op), b);
                let size = op.size();
                let mut again = vec![encode_opcode(&op)];
                again.extend(encode_operands(&op));
                assert_eq!(again, input[..size].to_vec());
            }
            Err(e) => {
                assert!(is_invalid_byte(b), "byte {:#04x}", b);
                assert_eq!(e, DecodeError::InvalidOpcode(b));
            }
        }
    }
}

#[test]
fn sizes_match_consumed_bytes() {
    let input = [0x60, 0x07, 0x62, 0x01, 0x02, 0x03, 0x80, 0x9F, 0xA4, 0x5B, 0xFF];
    let program = decode_program(&input).unwrap();
    let sizes: Vec<usize> = program.0.iter().map(|op| op.size()).collect();
    assert_eq!(sizes, vec![2, 4, 1, 1, 1, 1, 1]);
    assert_eq!(sizes.iter().sum::<usize>(), input.len());
    assert_eq!(
        program.0,
        vec![
            Opcode::PUSH1(7),
            Opcode::PUSHn(3, U256 { hi: 0, lo: 0x010203 }, vec![1, 2, 3]),
            Opcode::DUP(1),
            Opcode::SWAP(16),
            Opcode::LOG(4),
            Opcode::JUMPDEST,
            Opcode::SELFDESTRUCT,
        ]
    );
}

#[test]
fn round_trip_keeps_bytes() {
    let input = vec![
        0x61, 0x00, 0x00, 0x60, 0x00, 0x52, 0x7F, 0, 0, 0, 0, 0, 0, 0, 0, 0, 0, 0, 0, 0, 0, 0, 0,
        0, 0, 0, 0, 0, 0, 0, 0, 0, 0, 0, 0, 0, 0, 0, 0x01, 0xF3, 0xFE, 0xFA, 0x20,
    ];
    let program = decode_program(&input).unwrap();
    assert_eq!(program.0.len(), 8);
    assert_eq!(encode_program(program.clone()), input);
    assert_eq!(encode_opcodes(&program.0), input);
}

#[test]
fn encodes_parameterised_opcodes() {
    assert_eq!(encode_opcode(&Opcode::DUP(1)), 0x80);
    assert_eq!(encode_opcode(&Opcode::DUP(16)), 0x8F);
    assert_eq!(encode_opcode(&Opcode::SWAP(3)), 0x92);
    assert_eq!(encode_opcode(&Opcode::LOG(0)), 0xA0);
    assert_eq!(encode_opcode(&Opcode::LOG(4)), 0xA4);
    assert_eq!(encode_opcode(&Opcode::PUSH1(9)), 0x60);
    assert_eq!(encode_opcode(&Opcode::PUSHn(1, U256 { hi: 0, lo: 9 }, vec![9])), 0x60);
    assert_eq!(encode_opcode(&Opcode::PUSHn(5, U256 { hi: 0, lo: 0 }, vec![0; 5])), 0x64);
    assert_eq!(encode_operands(&Opcode::PUSH1(9)), vec![9]);
    assert_eq!(encode_operands(&Opcode::CALL), Vec::<u8>::new());
    assert_eq!(encode_operands(&Opcode::DUP(2)), Vec::<u8>::new());
}

#[test]
fn zeroed_keeps_shape() {
    let op = Opcode::PUSHn(3, U256 { hi: 0, lo: 0x0A0B0C }, vec![0x0A, 0x0B, 0x0C]);
    assert_eq!(op.zeroed(), Opcode::PUSHn(3, U256 { hi: 0, lo: 0 }, vec![0, 0, 0]));
    assert_eq!(Opcode::PUSH1(0x33).zeroed(), Opcode::PUSH1(0));
    assert_eq!(Opcode::DUP(4).zeroed(), Opcode::DUP(4));
    assert_eq!(Opcode::MSTORE.zeroed(), Opcode::MSTORE);
}

#[test]
fn opcode_set_collapses_push_operands() {
    let input = [0x61, 0x00, 0x01, 0x61, 0xFF, 0xFF, 0x62, 1, 2, 3, 0x80, 0x80, 0x81, 0x56];
    let shapes = decode_program(&input).unwrap().opcode_set();
    assert_eq!(
        shapes,
        vec![
            Opcode::PUSHn(2, U256 { hi: 0, lo: 0 }, vec![0, 0]),
            Opcode::PUSHn(3, U256 { hi: 0, lo: 0 }, vec![0, 0, 0]),
            Opcode::DUP(1),
            Opcode::DUP(2),
            Opcode::JUMP,
        ]
    );
}

#[test]
fn zero_and_one_pushes() {
    assert!(Opcode::PUSH1(0).is_zero());
    assert!(!Opcode::PUSH1(0).is_one());
    assert!(Opcode::PUSH1(1).is_one());
    assert!(Opcode::PUSHn(2, U256 { hi: 0, lo: 1 }, vec![0, 1]).is_one());
    assert!(Opcode::PUSHn(2, U256 { hi: 0, lo: 0 }, vec![0, 0]).is_zero());
    assert!(!Opcode::PUSHn(32, U256 { hi: 1, lo: 1 }, vec![0; 32]).is_one());
    assert!(!Opcode::ADD.is_zero());
    assert!(!Opcode::ADD.is_one());
}

#[test]
fn classification_predicates() {
    assert!(Opcode::DELEGATECALL.is_call());
    assert!(!Opcode::CREATE.is_call());
    assert!(Opcode::JUMPI.is_control());
    assert!(!Opcode::JUMPDEST.is_control());
    assert!(Opcode::DUP(3).is_dup());
    assert!(Opcode::REVERT.is_halt());
    assert!(!Opcode::JUMP.is_halt());
    assert!(Opcode::JUMP.is_jump());
    assert!(Opcode::JUMPDEST.is_jumpdest());
    assert!(Opcode::LOG(2).is_log());
    assert!(Opcode::MSTORE8.is_memory());
    assert!(!Opcode::SLOAD.is_memory());
    assert!(Opcode::POP.is_pop());
    assert!(Opcode::PUSH1(3).is_push());
    assert!(Opcode::PUSHn(2, U256 { hi: 0, lo: 0 }, vec![0, 0]).is_push());
    assert!(!Opcode::DUP(1).is_push());
    assert!(Opcode::SSTORE.is_storage());
    assert!(Opcode::SWAP(1).is_swap());
}

#[test]
fn renders_assembly() {
    assert_eq!(Opcode::STOP.to_string(), "STOP");
    assert_eq!(Opcode::RETURNDATACOPY.to_string(), "RETURNDATACOPY");
    assert_eq!(Opcode::PUSH1(0xAB).to_string(), "PUSH1 0xab");
    assert_eq!(Opcode::PUSH1(0x05).to_string(), "PUSH1 0x05");
    assert_eq!(
        Opcode::PUSHn(3, U256 { hi: 0, lo: 0x00FE10 }, vec![0x00, 0xFE, 0x10]).to_string(),
        "PUSH3 0x00fe10"
    );
    let op = decode_opcode(&[0x7F; 33]).unwrap();
    assert_eq!(op.to_string(), format!("PUSH32 0x{}", "7f".repeat(32)));
    assert_eq!(Opcode::DUP(16).to_string(), "DUP16");
    assert_eq!(Opcode::SWAP(2).to_string(), "SWAP2");
    assert_eq!(Opcode::LOG(0).to_string(), "LOG0");
}

#[test]
fn renders_errors() {
    assert_eq!(DecodeError::InvalidBytecode.to_string(), "invalid EVM bytecode");
    assert_eq!(DecodeError::InvalidOpcode(0x0C).to_string(), "invalid EVM opcode 0x0C");
    assert_eq!(DecodeError::InvalidOpcode(0xEF).to_string(), "invalid EVM opcode 0xEF");
}

#[test]
fn large_push_value_words() {
    let mut input = vec![0x7F];
    input.extend_from_slice(&[0xFF; 32]);
    let op = decode_opcode(&input).unwrap();
    assert_eq!(op, Opcode::PUSHn(32, U256 { hi: u128::MAX, lo: u128::MAX }, vec![0xFF; 32]));
    let mut input = vec![0x70];
    input.extend_from_slice(&[0x01; 17]);
    let op = decode_opcode(&input).unwrap();
    let lo = u128::from_be_bytes([0x01; 16]);
    assert_eq!(op, Opcode::PUSHn(17, U256 { hi: 1, lo }, vec![0x01; 17]));
}
