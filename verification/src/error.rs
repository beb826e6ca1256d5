//! Why a request to the handler was turned down.

use vstd::prelude::*;

verus! {

/// The reasons for which the handler refuses a request. Every failure is
/// final for the call that met it, and none of them leaves a trace in the
/// account's buffer.
#[derive(Debug, Clone, Copy, PartialEq, Eq, Structural)]
pub enum HandlerError {
    /// The list of accounts is empty.
    MissingAccount,
    /// The first account belongs to another program.
    NotOwner,
    /// The instruction holds no byte at all.
    MissingInstructionData,
    /// The first byte of the instruction names no known operation.
    InvalidOpcode,
    /// The account's buffer is not the encoding of a record.
    CorruptRecord,
    /// The counter to be raised already holds the largest value.
    CounterOverflow,
}

} // verus!
