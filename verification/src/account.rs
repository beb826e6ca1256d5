//! Accounts as the handler sees them: who owns one, and the bytes it holds.

use vstd::prelude::*;
use vstd::std_specs::cmp::PartialEqSpecImpl;
use solana_program::pubkey::Pubkey;

verus! {

/// Number of bytes in an identity.
pub const IDENTITY_LEN: usize = 32;

/// The identity of a program, or of the owner of an account.
#[derive(Debug, Clone, Copy)]
pub struct Identity {
    pub bytes: [u8; IDENTITY_LEN],
}

impl View for Identity {
    type V = Seq<u8>;

    open spec fn view(&self) -> Seq<u8> {
        self.bytes@
    }
}

/// `Pubkey::new_from_array` on each side, then `==` on the two keys.
///
/// Not proved: that two keys are equal exactly when they hold the same
/// bytes.
#[verifier::external_body]
fn same_key(left: &[u8; IDENTITY_LEN], right: &[u8; IDENTITY_LEN]) -> (same: bool)
    ensures
        same == (left@ == right@),
{
    Pubkey::new_from_array(*left) == Pubkey::new_from_array(*right)
}

impl Identity {
    /// The identity with the given bytes.
    pub fn new(bytes: [u8; IDENTITY_LEN]) -> (id: Identity)
        ensures
            id.bytes == bytes,
            id@ == bytes@,
    {
        Identity { bytes }
    }
}

impl PartialEq for Identity {
    /// Two identities are equal when their bytes are.
    fn eq(&self, other: &Identity) -> (same: bool) {
        same_key(&self.bytes, &other.bytes)
    }
}

impl Eq for Identity {

}

impl PartialEqSpecImpl for Identity {
    open spec fn obeys_eq_spec() -> bool {
        true
    }

    open spec fn eq_spec(&self, other: &Identity) -> bool {
        self@ == other@
    }
}

/// An account: the identity of its owner and its buffer.
#[derive(Debug, Clone, PartialEq, Eq)]
pub struct Account {
    pub owner: Identity,
    pub data: Vec<u8>,
}

impl Account {
    /// An account of `owner` that holds `data`.
    pub fn new(owner: Identity, data: Vec<u8>) -> (account: Account)
        ensures
            account.owner == owner,
            account.data == data,
    {
        Account { owner, data }
    }

    /// Whether `program_id` owns the account.
    pub fn is_owned_by(&self, program_id: &Identity) -> (owned: bool)
        ensures
            owned == (self.owner@ == program_id@),
    {
        self.owner == *program_id
    }
}

} // verus!
