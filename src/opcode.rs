use vstd::prelude::*;

verus! {

/// The instruction set. Each opcode is one byte on the wire; the byte is
/// translated into this type once, when it is decoded.
#[derive(Debug, Clone, Copy, PartialEq, Eq, Structural)]
pub enum OpCode {
    Halt,
    PushConst,
    StoreLocal,
    LoadLocal,
    Jump,
    JumpIfZero,
    Mul,
    Rem,
    LessThan,
    Increment,
}

/// The instruction that a byte names, if any.
pub open spec fn opcode_of(b: u8) -> Option<OpCode> {
    if b == 0 {
        Some(OpCode::Halt)
    } else if b == 1 {
        Some(OpCode::PushConst)
    } else if b == 2 {
        Some(OpCode::StoreLocal)
    } else if b == 3 {
        Some(OpCode::LoadLocal)
    } else if b == 4 {
        Some(OpCode::Jump)
    } else if b == 5 {
        Some(OpCode::JumpIfZero)
    } else if b == 6 {
        Some(OpCode::Mul)
    } else if b == 7 {
        Some(OpCode::Rem)
    } else if b == 8 {
        Some(OpCode::LessThan)
    } else if b == 9 {
        Some(OpCode::Increment)
    } else {
        None
    }
}

/// The byte that encodes an instruction.
pub open spec fn byte_of(op: OpCode) -> u8 {
    match op {
        OpCode::Halt => 0,
        OpCode::PushConst => 1,
        OpCode::StoreLocal => 2,
        OpCode::LoadLocal => 3,
        OpCode::Jump => 4,
        OpCode::JumpIfZero => 5,
        OpCode::Mul => 6,
        OpCode::Rem => 7,
        OpCode::LessThan => 8,
        OpCode::Increment => 9,
    }
}

impl OpCode {
    /// Decodes an opcode byte; `None` for a byte that names no instruction.
    pub fn from_byte(b: u8) -> (r: Option<OpCode>)
        ensures
            r == opcode_of(b),
    {
        match b {
            0 => Some(OpCode::Halt),
            1 => Some(OpCode::PushConst),
            2 => Some(OpCode::StoreLocal),
            3 => Some(OpCode::LoadLocal),
            4 => Some(OpCode::Jump),
            5 => Some(OpCode::JumpIfZero),
            6 => Some(OpCode::Mul),
            7 => Some(OpCode::Rem),
            8 => Some(OpCode::LessThan),
            9 => Some(OpCode::Increment),
            _ => None,
        }
    }

    /// The wire byte of this opcode.
    pub fn to_byte(self) -> (r: u8)
        ensures
            r == byte_of(self),
            opcode_of(r) == Some(self),
    {
        match self {
            OpCode::Halt => 0,
            OpCode::PushConst => 1,
            OpCode::StoreLocal => 2,
            OpCode::LoadLocal => 3,
            OpCode::Jump => 4,
            OpCode::JumpIfZero => 5,
            OpCode::Mul => 6,
            OpCode::Rem => 7,
            OpCode::LessThan => 8,
            OpCode::Increment => 9,
        }
    }
}

} // verus!
