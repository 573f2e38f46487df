use lox_vm::{CouldNotDecodeOpcode, Opcode};

const ALL_OPCODES: [Opcode; 7] = [
    Opcode::Constant,
    Opcode::Negate,
    Opcode::Return,
    Opcode::Add,
    Opcode::Sub,
    Opcode::Mul,
    Opcode::Div,
];

#[test]
fn encode_is_the_stable_byte_mapping() {
    assert_eq!(Opcode::Constant.encode(), 0);
    assert_eq!(Opcode::Negate.encode(), 1);
    assert_eq!(Opcode::Return.encode(), 2);
    assert_eq!(Opcode::Add.encode(), 3);
    assert_eq!(Opcode::Sub.encode(), 4);
    assert_eq!(Opcode::Mul.encode(), 5);
    assert_eq!(Opcode::Div.encode(), 6);
}

#[test]
fn u8_from_opcode_matches_encode() {
    for op in ALL_OPCODES {
        assert_eq!(u8::from(op), op.encode());
    }
}

#[test]
fn decode_round_trips_every_opcode() {
    for op in ALL_OPCODES {
        assert_eq!(Opcode::decode(op.encode()), Ok(op));
    }
}

#[test]
fn decode_rejects_bytes_outside_the_set_and_carries_them() {
    for byte in [7u8, 8, 42, 100, 255] {
        assert_eq!(Opcode::decode(byte), Err(CouldNotDecodeOpcode { opcode: byte }));
    }
}

#[test]
fn instruction_width_is_two_for_constant_and_one_otherwise() {
    assert_eq!(Opcode::instruction_width(0), 2);
    for byte in [1u8, 2, 3, 4, 5, 6, 7, 255] {
        assert_eq!(Opcode::instruction_width(byte), 1);
    }
}
