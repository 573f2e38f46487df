//! The instruction set and its one-byte wire encoding.

use vstd::prelude::*;

verus! {

/// An instruction tag. Each tag maps to exactly one encoding byte;
/// the mapping is maintained by hand in `encode_spec` so that it does
/// not depend on declaration order.
#[derive(Clone, Copy, Debug, PartialEq, Eq, Structural)]
pub enum Opcode {
    /// Push a value from the constant pool; followed in the byte
    /// stream by one operand byte, the constant-pool index.
    Constant,
    /// Pop one value, push its arithmetic negation.
    Negate,
    /// Pop the top of the stack and report it as the run's result.
    Return,
    /// Pop two values, push their sum.
    Add,
    /// Pop two values, push their difference.
    Sub,
    /// Pop two values, push their product.
    Mul,
    /// Pop two values, push their quotient.
    Div,
}

/// The error of decoding a byte outside the defined instruction set;
/// carries the offending byte.
#[derive(Clone, Copy, Debug, PartialEq, Eq, Structural)]
pub struct CouldNotDecodeOpcode {
    pub opcode: u8,
}

/// The stable byte assigned to each instruction tag.
pub open spec fn encode_spec(op: Opcode) -> u8 {
    match op {
        Opcode::Constant => 0,
        Opcode::Negate => 1,
        Opcode::Return => 2,
        Opcode::Add => 3,
        Opcode::Sub => 4,
        Opcode::Mul => 5,
        Opcode::Div => 6,
    }
}

/// The instruction tag a byte stands for, if any: the inverse of
/// `encode_spec` on the bytes 0 through 6, and `None` elsewhere.
pub open spec fn decode_spec(byte: u8) -> Option<Opcode> {
    if byte == 0 {
        Some(Opcode::Constant)
    } else if byte == 1 {
        Some(Opcode::Negate)
    } else if byte == 2 {
        Some(Opcode::Return)
    } else if byte == 3 {
        Some(Opcode::Add)
    } else if byte == 4 {
        Some(Opcode::Sub)
    } else if byte == 5 {
        Some(Opcode::Mul)
    } else if byte == 6 {
        Some(Opcode::Div)
    } else {
        None
    }
}

impl Opcode {
    /// Encode this instruction tag as its wire byte.
    pub fn encode(self) -> (byte: u8)
        ensures
            byte == encode_spec(self),
    {
        match self {
            Opcode::Constant => 0,
            Opcode::Negate => 1,
            Opcode::Return => 2,
            Opcode::Add => 3,
            Opcode::Sub => 4,
            Opcode::Mul => 5,
            Opcode::Div => 6,
        }
    }

    /// Decode one wire byte. Returns the instruction tag whose
    /// encoding the byte is, and for a byte outside the defined set a
    /// decode error carrying that exact byte.
    pub fn decode(byte: u8) -> (r: Result<Opcode, CouldNotDecodeOpcode>)
        ensures
            r matches Ok(op) ==> decode_spec(byte) == Some(op),
            r matches Err(e) ==> decode_spec(byte) is None && e.opcode == byte,
            r is Ok <==> decode_spec(byte) is Some,
    {
        match byte {
            0 => Ok(Opcode::Constant),
            1 => Ok(Opcode::Negate),
            2 => Ok(Opcode::Return),
            3 => Ok(Opcode::Add),
            4 => Ok(Opcode::Sub),
            5 => Ok(Opcode::Mul),
            6 => Ok(Opcode::Div),
            _ => Err(CouldNotDecodeOpcode { opcode: byte }),
        }
    }

    /// How many bytes of the instruction stream the instruction that
    /// starts with `byte` occupies: two for `Constant` (tag plus the
    /// inline constant-pool index), one for every other byte,
    /// unrecognized bytes included, so that a corrupt stream can
    /// still be walked.
    pub fn instruction_width(byte: u8) -> (w: usize)
        ensures
            decode_spec(byte) == Some(Opcode::Constant) ==> w == 2,
            decode_spec(byte) != Some(Opcode::Constant) ==> w == 1,
    {
        if byte == 0 {
            2
        } else {
            1
        }
    }
}

impl From<Opcode> for u8 {
    /// The wire byte of an instruction tag, as `Opcode::encode` gives
    /// it.
    fn from(op: Opcode) -> (byte: u8) {
        op.encode()
    }
}

impl vstd::std_specs::convert::FromSpecImpl<Opcode> for u8 {
    open spec fn obeys_from_spec() -> bool {
        true
    }

    open spec fn from_spec(op: Opcode) -> u8 {
        encode_spec(op)
    }
}

/// The wire format round-trips: decoding the encoding of any defined
/// instruction tag gives that tag back.
pub proof fn lemma_opcode_round_trip(op: Opcode)
    ensures
        decode_spec(encode_spec(op)) == Some(op),
{
}

/// Every byte above the defined set fails to decode.
pub proof fn lemma_decode_rejects_high_bytes(byte: u8)
    requires
        byte > 6,
    ensures
        decode_spec(byte) is None,
{
}

} // verus!
