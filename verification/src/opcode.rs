//! The operation that an instruction asks for.

use vstd::prelude::*;
use crate::error::HandlerError;

verus! {

/// The two operations on a record.
#[derive(Debug, Clone, Copy, PartialEq, Eq, Structural)]
pub enum Opcode {
    /// Raise the mentor counter by one.
    IncrementMentor,
    /// Raise the mentee counter by one.
    IncrementMentee,
}

impl Opcode {
    /// The operation that the byte `code` stands for: 0 raises the mentor
    /// counter, 1 the mentee counter, and no other byte stands for one.
    pub open spec fn of_byte(code: u8) -> Option<Opcode> {
        if code == 0 {
            Some(Opcode::IncrementMentor)
        } else if code == 1 {
            Some(Opcode::IncrementMentee)
        } else {
            None
        }
    }

    /// What an instruction asks for. Its first byte decides; the bytes
    /// after it are not looked at.
    pub open spec fn of_instruction(instruction: Seq<u8>) -> Result<Opcode, HandlerError> {
        if instruction.len() == 0 {
            Err(HandlerError::MissingInstructionData)
        } else {
            match Self::of_byte(instruction[0]) {
                Some(op) => Ok(op),
                None => Err(HandlerError::InvalidOpcode),
            }
        }
    }

    /// The operation that `code` stands for, if it stands for one.
    pub fn from_byte(code: u8) -> (r: Option<Opcode>)
        ensures
            r == Self::of_byte(code),
    {
        match code {
            0 => Some(Opcode::IncrementMentor),
            1 => Some(Opcode::IncrementMentee),
            _ => None,
        }
    }

    /// Reads the operation off an instruction: `MissingInstructionData`
    /// where there is no byte, `InvalidOpcode` where the first byte is
    /// neither 0 nor 1.
    pub fn parse(instruction: &[u8]) -> (r: Result<Opcode, HandlerError>)
        ensures
            r == Self::of_instruction(instruction@),
    {
        if instruction.len() == 0 {
            return Err(HandlerError::MissingInstructionData);
        }
        match Self::from_byte(instruction[0]) {
            Some(op) => Ok(op),
            None => Err(HandlerError::InvalidOpcode),
        }
    }
}

} // verus!
