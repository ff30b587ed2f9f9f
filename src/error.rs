//! Why an operation was refused. Every refusal leaves the state unchanged.
use vstd::prelude::*;

verus! {

#[derive(Debug, Clone, Copy, PartialEq, Eq, Structural)]
pub enum HTLCError {
    /// The timelock given is not after the current time.
    NotFutureTimelock,
    /// The record's timelock has not been reached yet.
    NotPastTimelock,
    /// The record has no hashlock to redeem against.
    HashlockNotSet,
    /// The secret does not hash to the record's hashlock.
    HashlockMismatch,
    /// The record's hashlock was already set.
    HashlockAlreadySet,
    /// The funds were already paid to the receiver.
    AlreadyRedeemed,
    /// The funds were already returned to the sender.
    AlreadyUnlocked,
    /// A deposit of nothing.
    ZeroAmount,
    /// The caller, or the account it names, is not the one the rule asks for.
    Unauthorized,
    /// The token account holds another token than the one named.
    WrongToken,
    /// No record, or no correlation, under that key.
    NotFound,
    /// A record with that id exists already.
    DuplicateId,
    /// The source id is already correlated with another id.
    DuplicateSourceCorrelation,
    /// The paying account holds less than the amount.
    InsufficientFunds,
    /// The commit counter exists already.
    AlreadyInitialized,
    /// The commit counter does not exist yet.
    NotInitialized,
}

} // verus!
