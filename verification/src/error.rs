//! Errors that end an operation.
use vstd::prelude::*;

verus! {

/// Failures of the ledger and of the LP contract's answers, passed through to
/// the caller as they are.
#[derive(Debug, Clone, Copy, PartialEq, Eq, Structural)]
pub enum StdError {
    /// The ledger holds no pool record.
    NotFound,
    /// The LP contract's answer is missing or is not the answer to the query
    /// that the operation makes.
    ParseErr,
}

/// Why an operation was refused. Each one ends the operation before anything
/// is written to the ledger.
#[derive(Debug, Clone, Copy, PartialEq, Eq, Structural)]
pub enum ContractError {
    /// A ledger or query failure, passed through.
    Std(StdError),
    /// No coin came with a call that expects payment.
    MustSendCoin {},
    /// More than one coin came with a call that expects payment.
    InvalidOneTypeCoin {},
    /// The coin sent is not of the pool's denomination.
    InvalidDenom {},
    /// The caller is not the game contract.
    InvalidContractAddress {},
    /// The pool holds less than the amount to borrow.
    NotEnoughPool {},
    /// The caller has approved no LP shares for redemption.
    InvalidLPAllowance {},
    /// The caller's approval has expired.
    InvalidExpires {},
}

impl From<StdError> for ContractError {
    fn from(e: StdError) -> (r: ContractError) {
        ContractError::Std(e)
    }
}

impl vstd::std_specs::convert::FromSpecImpl<StdError> for ContractError {
    open spec fn obeys_from_spec() -> bool {
        true
    }

    open spec fn from_spec(e: StdError) -> ContractError {
        ContractError::Std(e)
    }
}

} // verus!
