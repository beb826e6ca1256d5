//! The handler: one request, checked and carried out on the first account.

use vstd::prelude::*;
use crate::account::{Account, Identity};
use crate::error::HandlerError;
use crate::opcode::Opcode;
use crate::record::TargetAccount;

verus! {

/// What a request does to an account that holds `data` and belongs to
/// `owner`, when the program `program_id` gets `instruction`: the bytes that
/// the account holds afterwards, or the reason for which it is left as it is.
///
/// The checks come in a fixed order: ownership, then the record in the
/// buffer, then the instruction, then the counter's room to grow.
pub open spec fn handled(
    program_id: Seq<u8>,
    owner: Seq<u8>,
    data: Seq<u8>,
    instruction: Seq<u8>,
) -> Result<Seq<u8>, HandlerError> {
    if owner != program_id {
        Err(HandlerError::NotOwner)
    } else if !TargetAccount::is_encoding(data) {
        Err(HandlerError::CorruptRecord)
    } else {
        match Opcode::of_instruction(instruction) {
            Err(reason) => Err(reason),
            Ok(op) => match TargetAccount::decoded(data).applied(op) {
                None => Err(HandlerError::CounterOverflow),
                Some(next) => Ok(next.encoding()),
            },
        }
    }
}

/// What a request does to a list of accounts: `handled` on the first of
/// them, or `MissingAccount` where there is none.
pub open spec fn processed(
    program_id: Seq<u8>,
    accounts: Seq<Account>,
    instruction: Seq<u8>,
) -> Result<Seq<u8>, HandlerError> {
    if accounts.len() == 0 {
        Err(HandlerError::MissingAccount)
    } else {
        handled(program_id, accounts[0].owner@, accounts[0].data@, instruction)
    }
}

/// The bytes that the first account holds once the request is over: the new
/// encoding after a success, the old bytes after a failure.
pub open spec fn buffer_after(
    program_id: Seq<u8>,
    accounts: Seq<Account>,
    instruction: Seq<u8>,
) -> Seq<u8>
    recommends
        accounts.len() > 0,
{
    match processed(program_id, accounts, instruction) {
        Ok(bytes) => bytes,
        Err(_) => accounts[0].data@,
    }
}

/// Puts `bytes` in the place of what `buffer` holds, byte by byte.
fn overwrite(buffer: &mut Vec<u8>, bytes: &[u8])
    requires
        old(buffer)@.len() == bytes@.len(),
    ensures
        final(buffer)@ == bytes@,
{
    let mut i: usize = 0;
    while i < bytes.len()
        invariant
            i <= bytes@.len(),
            buffer@.len() == bytes@.len(),
            forall|j: int| 0 <= j < i ==> buffer@[j] == bytes@[j],
        decreases bytes@.len() - i,
    {
        buffer[i] = bytes[i];
        i += 1;
    }
    assert(buffer@ =~= bytes@);
}

/// Carries out one request on one account.
///
/// The request succeeds where the account belongs to `program_id`, its
/// buffer holds the encoding of a record, the first byte of `instruction`
/// names a counter, and that counter has room. The buffer then holds the
/// encoding of the new record. Otherwise the call says which of these
/// failed first, and nothing in the account has changed.
pub fn process_account(program_id: &Identity, account: &mut Account, instruction: &[u8]) -> (r:
    Result<(), HandlerError>)
    ensures
        final(account).owner == old(account).owner,
        match handled(program_id@, old(account).owner@, old(account).data@, instruction@) {
            Ok(bytes) => r is Ok && final(account).data@ == bytes,
            Err(reason) => r == Err::<(), HandlerError>(reason) && *final(account) == *old(
                account,
            ),
        },
{
    if !account.is_owned_by(program_id) {
        return Err(HandlerError::NotOwner);
    }
    let record = match TargetAccount::try_from_slice(account.data.as_slice()) {
        Ok(record) => record,
        Err(reason) => return Err(reason),
    };
    let op = match Opcode::parse(instruction) {
        Ok(op) => op,
        Err(reason) => return Err(reason),
    };
    let next = match record.apply(op) {
        Ok(next) => next,
        Err(reason) => return Err(reason),
    };
    let bytes = next.to_vec();
    overwrite(&mut account.data, bytes.as_slice());
    Ok(())
}

/// Handles one instruction sent to the program `program_id`.
///
/// Only the first account is looked at, and only its buffer can change: on
/// success it holds the encoding of the record with one counter raised. On
/// failure every account is as it was.
pub fn process_instruction(
    program_id: &Identity,
    accounts: &mut [Account],
    instruction_data: &[u8],
) -> (r: Result<(), HandlerError>)
    ensures
        final(accounts)@.len() == old(accounts)@.len(),
        forall|i: int| 1 <= i < old(accounts)@.len() ==> final(accounts)@[i] == old(accounts)@[i],
        old(accounts)@.len() > 0 ==> final(accounts)@[0].data@ == buffer_after(
            program_id@,
            old(accounts)@,
            instruction_data@,
        ),
        match processed(program_id@, old(accounts)@, instruction_data@) {
            Ok(bytes) => {
                &&& r is Ok
                &&& final(accounts)@[0].owner == old(accounts)@[0].owner
                &&& final(accounts)@[0].data@ == bytes
            },
            Err(reason) => r == Err::<(), HandlerError>(reason) && final(accounts)@ == old(
                accounts,
            )@,
        },
{
    match accounts.first_mut() {
        Some(account) => process_account(program_id, account, instruction_data),
        None => Err(HandlerError::MissingAccount),
    }
}

} // verus!
