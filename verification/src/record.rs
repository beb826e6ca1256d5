//! The two-counter record, its encoding, and how an operation changes it.

use vstd::prelude::*;
use crate::codec::{le_value, pair_bytes, read_pair, write_pair, PAIR_LEN};
use crate::error::HandlerError;
use crate::opcode::Opcode;

verus! {

/// Number of bytes in the encoding of a record.
pub const RECORD_LEN: usize = PAIR_LEN;

/// The state held in an account: how many mentors and how many mentees
/// have been counted so far.
#[derive(Debug, Clone, Copy, PartialEq, Eq, Structural)]
pub struct TargetAccount {
    pub mentor_counter: u32,
    pub mentee_counter: u32,
}

impl TargetAccount {
    /// The encoding of the record: the mentor counter in four bytes, then
    /// the mentee counter in four bytes, each least significant byte first.
    pub open spec fn encoding(self) -> Seq<u8> {
        pair_bytes(self.mentor_counter, self.mentee_counter)
    }

    /// Whether `bytes` is the encoding of some record, which is so exactly
    /// when there are `RECORD_LEN` of them.
    pub open spec fn is_encoding(bytes: Seq<u8>) -> bool {
        bytes.len() == RECORD_LEN
    }

    /// The record that `bytes` encodes.
    pub open spec fn decoded(bytes: Seq<u8>) -> TargetAccount
        recommends
            Self::is_encoding(bytes),
    {
        TargetAccount {
            mentor_counter: le_value(bytes.subrange(0, 4)) as u32,
            mentee_counter: le_value(bytes.subrange(4, 8)) as u32,
        }
    }

    /// The record after `op`, or `None` where the counter that `op` raises
    /// is already at its largest value.
    pub open spec fn applied(self, op: Opcode) -> Option<TargetAccount> {
        match op {
            Opcode::IncrementMentor => if self.mentor_counter < u32::MAX {
                Some(
                    TargetAccount {
                        mentor_counter: (self.mentor_counter + 1) as u32,
                        mentee_counter: self.mentee_counter,
                    },
                )
            } else {
                None
            },
            Opcode::IncrementMentee => if self.mentee_counter < u32::MAX {
                Some(
                    TargetAccount {
                        mentor_counter: self.mentor_counter,
                        mentee_counter: (self.mentee_counter + 1) as u32,
                    },
                )
            } else {
                None
            },
        }
    }

    /// A record with both counters at zero.
    pub fn new() -> (r: TargetAccount)
        ensures
            r.mentor_counter == 0,
            r.mentee_counter == 0,
    {
        TargetAccount { mentor_counter: 0, mentee_counter: 0 }
    }

    /// Decodes a record. The slice must hold the encoding and nothing else:
    /// a shorter or a longer one is refused as `CorruptRecord`.
    pub fn try_from_slice(bytes: &[u8]) -> (r: Result<TargetAccount, HandlerError>)
        ensures
            Self::is_encoding(bytes@) ==> r == Ok::<TargetAccount, HandlerError>(
                Self::decoded(bytes@),
            ),
            !Self::is_encoding(bytes@) ==> r == Err::<TargetAccount, HandlerError>(
                HandlerError::CorruptRecord,
            ),
    {
        match read_pair(bytes) {
            Ok(pair) => Ok(TargetAccount { mentor_counter: pair.0, mentee_counter: pair.1 }),
            Err(_) => Err(HandlerError::CorruptRecord),
        }
    }

    /// Encodes the record.
    pub fn to_vec(&self) -> (bytes: Vec<u8>)
        ensures
            bytes@ == self.encoding(),
            Self::is_encoding(bytes@),
    {
        match write_pair(self.mentor_counter, self.mentee_counter) {
            Ok(bytes) => bytes,
            Err(_) => unreached(),
        }
    }

    /// Raises the counter that `op` names by one. A counter at its largest
    /// value is not raised: the call fails with `CounterOverflow`.
    pub fn apply(&self, op: Opcode) -> (r: Result<TargetAccount, HandlerError>)
        ensures
            match self.applied(op) {
                Some(next) => r == Ok::<TargetAccount, HandlerError>(next),
                None => r == Err::<TargetAccount, HandlerError>(HandlerError::CounterOverflow),
            },
    {
        match op {
            Opcode::IncrementMentor => match self.mentor_counter.checked_add(1) {
                Some(raised) => Ok(
                    TargetAccount { mentor_counter: raised, mentee_counter: self.mentee_counter },
                ),
                None => Err(HandlerError::CounterOverflow),
            },
            Opcode::IncrementMentee => match self.mentee_counter.checked_add(1) {
                Some(raised) => Ok(
                    TargetAccount { mentor_counter: self.mentor_counter, mentee_counter: raised },
                ),
                None => Err(HandlerError::CounterOverflow),
            },
        }
    }
}

} // verus!
