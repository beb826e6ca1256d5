//! A counter record kept in the buffer of a program-owned account, and the
//! handler that updates it.
//!
//! A request names the program it is sent to, a list of accounts and an
//! instruction. The handler checks that the first account belongs to the
//! program, decodes the record in its buffer, raises the counter that the
//! first byte of the instruction names, and writes the record back. A request
//! that fails any check leaves every account as it was.
//!
//! The encoding is read and written by `borsh`; identities are compared as
//! `solana_program` compares its keys. What is taken on trust of the two is
//! said on the private functions of `codec` and `account` that make the calls.

pub mod account;
pub mod codec;
pub mod error;
pub mod handler;
pub mod laws;
pub mod opcode;
pub mod record;

pub use crate::account::{Account, Identity};
pub use crate::error::HandlerError;
pub use crate::handler::{process_account, process_instruction};
pub use crate::opcode::Opcode;
pub use crate::record::TargetAccount;
