use vstd::prelude::*;
use crate::amount::Amount;
use crate::transaction::Kind;

verus! {

/// Failures of an account-level operation.
#[derive(Clone, Copy, Debug, PartialEq, Eq, Structural)]
pub enum AccountError {
    /// The account was charged back and accepts no further event.
    AccountLocked,
    /// Crediting the deposit would exceed the largest representable total.
    TotalOverflow { total: Amount, amount: Amount },
    /// The referenced ledger entry does not admit the requested transition.
    Transaction(TransactionError),
    /// The balance does not cover the requested movement of funds.
    Balance(BalanceError),
}

/// Failures tied to the ledger entry that an event refers to.
#[derive(Clone, Copy, Debug, PartialEq, Eq, Structural)]
pub enum TransactionError {
    NotFound { tx_id: u32 },
    InvalidResolutionTarget { tx_id: u32, expected_kind: Kind },
    NotDisputed { tx_id: u32 },
    AlreadyDisputed { tx_id: u32 },
    AlreadyResolved { tx_id: u32 },
    AlreadyChargedBack { tx_id: u32 },
}

/// Failures of the balance arithmetic.
#[derive(Clone, Copy, Debug, PartialEq, Eq, Structural)]
pub enum BalanceError {
    InsufficientAvailableFunds { available: Amount, required: Amount },
    InsufficientHeldFunds { held: Amount, required: Amount },
}

/// Failures of handling one input record.
#[derive(Clone, Copy, Debug, PartialEq, Eq, Structural)]
pub enum ProcessError {
    /// The record's type tag names no known event.
    UnrecognizedEventType,
    /// The event was decoded but its account rejected it.
    Account(AccountError),
}

} // verus!
