//! A custody controller for fungible tokens: it decodes a small instruction
//! buffer and works out the token-program call that moves a token account into
//! the custody of a program-derived authority, or pays out of such an account.
pub mod error;
pub mod instruction;
pub mod ledger;
pub mod processor;

pub use ledger::{InstructionModel, LedgerInstruction};

pub use error::BankError;
pub use instruction::{BankInstruction, InstructionView, AMOUNT_LEN, NOTE_LEN};
pub use processor::{
    derive_custody_authority, AccountRef, Invocation, InvocationModel, Processor, DEPOSIT_ACCOUNTS,
    DEPOSIT_RENT_SYSVAR, DEPOSIT_TOKEN_PROGRAM, WITHDRAW_ACCOUNTS, WITHDRAW_RENT_SYSVAR, WITHDRAW_TOKEN_PROGRAM,
};
