//! What holds of the handler on every input, proved from its definitions.

use vstd::prelude::*;
use crate::account::Account;
use crate::codec::{le_bytes, lemma_le_bytes_of_le_value, lemma_le_value_of_le_bytes};
use crate::error::HandlerError;
use crate::handler::{buffer_after, processed};
use crate::opcode::Opcode;
use crate::record::TargetAccount;

verus! {

/// Encoding a record and decoding the bytes gives the record back, whatever
/// the two counters hold.
pub proof fn lemma_round_trip(record: TargetAccount)
    ensures
        TargetAccount::is_encoding(record.encoding()),
        TargetAccount::decoded(record.encoding()) == record,
{
    let bytes = record.encoding();
    lemma_le_value_of_le_bytes(record.mentor_counter);
    lemma_le_value_of_le_bytes(record.mentee_counter);
    assert(bytes.subrange(0, 4) =~= le_bytes(record.mentor_counter));
    assert(bytes.subrange(4, 8) =~= le_bytes(record.mentee_counter));
}

/// Every buffer of the right length is the encoding of the record that it
/// decodes to: no two buffers hold the same record.
pub proof fn lemma_encoding_of_decoded(bytes: Seq<u8>)
    requires
        TargetAccount::is_encoding(bytes),
    ensures
        TargetAccount::decoded(bytes).encoding() == bytes,
{
    lemma_le_bytes_of_le_value(bytes.subrange(0, 4));
    lemma_le_bytes_of_le_value(bytes.subrange(4, 8));
    assert(TargetAccount::decoded(bytes).encoding() =~= bytes);
}

/// On an account of the program that holds a record, an instruction whose
/// first byte is 0 succeeds while the mentor counter has room, and leaves
/// the record with that counter raised by one and the other as it was.
pub proof fn lemma_mentor_raised(
    program_id: Seq<u8>,
    accounts: Seq<Account>,
    instruction: Seq<u8>,
)
    requires
        accounts.len() > 0,
        accounts[0].owner@ == program_id,
        TargetAccount::is_encoding(accounts[0].data@),
        instruction.len() > 0,
        instruction[0] == 0,
        TargetAccount::decoded(accounts[0].data@).mentor_counter < u32::MAX,
    ensures
        processed(program_id, accounts, instruction) is Ok,
        TargetAccount::is_encoding(buffer_after(program_id, accounts, instruction)),
        TargetAccount::decoded(buffer_after(program_id, accounts, instruction)) == (TargetAccount {
            mentor_counter: (TargetAccount::decoded(accounts[0].data@).mentor_counter + 1) as u32,
            mentee_counter: TargetAccount::decoded(accounts[0].data@).mentee_counter,
        }),
{
    let before = TargetAccount::decoded(accounts[0].data@);
    lemma_round_trip(before.applied(Opcode::IncrementMentor).unwrap());
}

/// On an account of the program that holds a record, an instruction whose
/// first byte is 1 succeeds while the mentee counter has room, and leaves
/// the record with that counter raised by one and the other as it was.
pub proof fn lemma_mentee_raised(
    program_id: Seq<u8>,
    accounts: Seq<Account>,
    instruction: Seq<u8>,
)
    requires
        accounts.len() > 0,
        accounts[0].owner@ == program_id,
        TargetAccount::is_encoding(accounts[0].data@),
        instruction.len() > 0,
        instruction[0] == 1,
        TargetAccount::decoded(accounts[0].data@).mentee_counter < u32::MAX,
    ensures
        processed(program_id, accounts, instruction) is Ok,
        TargetAccount::is_encoding(buffer_after(program_id, accounts, instruction)),
        TargetAccount::decoded(buffer_after(program_id, accounts, instruction)) == (TargetAccount {
            mentor_counter: TargetAccount::decoded(accounts[0].data@).mentor_counter,
            mentee_counter: (TargetAccount::decoded(accounts[0].data@).mentee_counter + 1) as u32,
        }),
{
    let before = TargetAccount::decoded(accounts[0].data@);
    lemma_round_trip(before.applied(Opcode::IncrementMentee).unwrap());
}

/// On an account of the program that holds a record, an instruction whose
/// first byte is neither 0 nor 1 fails with `InvalidOpcode`, and the buffer
/// keeps every byte.
pub proof fn lemma_invalid_opcode_refused(
    program_id: Seq<u8>,
    accounts: Seq<Account>,
    instruction: Seq<u8>,
)
    requires
        accounts.len() > 0,
        accounts[0].owner@ == program_id,
        TargetAccount::is_encoding(accounts[0].data@),
        instruction.len() > 0,
        instruction[0] != 0,
        instruction[0] != 1,
    ensures
        processed(program_id, accounts, instruction) == Err::<Seq<u8>, HandlerError>(
            HandlerError::InvalidOpcode,
        ),
        buffer_after(program_id, accounts, instruction) == accounts[0].data@,
{
}

/// An account of another owner is refused with `NotOwner` and keeps every
/// byte, whatever the buffer and the instruction hold.
pub proof fn lemma_foreign_owner_refused(
    program_id: Seq<u8>,
    accounts: Seq<Account>,
    instruction: Seq<u8>,
)
    requires
        accounts.len() > 0,
        accounts[0].owner@ != program_id,
    ensures
        processed(program_id, accounts, instruction) == Err::<Seq<u8>, HandlerError>(
            HandlerError::NotOwner,
        ),
        buffer_after(program_id, accounts, instruction) == accounts[0].data@,
{
}

/// A buffer that holds a record holds one after any request, successful or
/// not: the handler never leaves it with another length.
pub proof fn lemma_buffer_stays_record(
    program_id: Seq<u8>,
    accounts: Seq<Account>,
    instruction: Seq<u8>,
)
    requires
        accounts.len() > 0,
        TargetAccount::is_encoding(accounts[0].data@),
    ensures
        TargetAccount::is_encoding(buffer_after(program_id, accounts, instruction)),
{
    match processed(program_id, accounts, instruction) {
        Ok(bytes) => {
            let op = Opcode::of_instruction(instruction).unwrap();
            lemma_round_trip(TargetAccount::decoded(accounts[0].data@).applied(op).unwrap());
        },
        Err(_) => {},
    }
}

/// Requests add up. Where a first instruction has succeeded, and a second
/// one succeeds on the account as the first left it, the buffer holds the
/// record to which both operations were applied, in that order.
pub proof fn lemma_requests_in_sequence(
    program_id: Seq<u8>,
    accounts: Seq<Account>,
    first: Seq<u8>,
    later: Seq<Account>,
    second: Seq<u8>,
)
    requires
        accounts.len() > 0,
        later.len() > 0,
        later[0].owner@ == accounts[0].owner@,
        later[0].data@ == buffer_after(program_id, accounts, first),
        processed(program_id, accounts, first) is Ok,
        processed(program_id, later, second) is Ok,
    ensures
        Opcode::of_instruction(first) is Ok,
        Opcode::of_instruction(second) is Ok,
        TargetAccount::decoded(accounts[0].data@).applied(Opcode::of_instruction(first).unwrap())
            is Some,
        TargetAccount::decoded(accounts[0].data@).applied(
            Opcode::of_instruction(first).unwrap(),
        ).unwrap().applied(Opcode::of_instruction(second).unwrap()) is Some,
        TargetAccount::decoded(buffer_after(program_id, later, second))
            == TargetAccount::decoded(accounts[0].data@).applied(
            Opcode::of_instruction(first).unwrap(),
        ).unwrap().applied(Opcode::of_instruction(second).unwrap()).unwrap(),
{
    let start = TargetAccount::decoded(accounts[0].data@);
    let middle = start.applied(Opcode::of_instruction(first).unwrap()).unwrap();
    lemma_round_trip(middle);
    let end = middle.applied(Opcode::of_instruction(second).unwrap()).unwrap();
    lemma_round_trip(end);
}

} // verus!
