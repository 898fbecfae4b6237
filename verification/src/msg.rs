//! Requests that the pool accepts.
use vstd::prelude::*;

verus! {

/// Configuration given once, at creation. Both addresses are taken as they
/// are: whoever creates the pool has had the host validate them.
#[derive(Debug, Clone, PartialEq, Eq)]
pub struct InstantiateMsg {
    pub lp_contract: String,
    pub game_contract: String,
}

/// A state-changing request.
#[derive(Debug, Clone, Copy, PartialEq, Eq, Structural)]
pub enum ExecuteMsg {
    /// Pay the attached coin into the pool for LP shares.
    Deposit {},
    /// Redeem the LP shares that the caller has approved for the pool.
    Withdraw {},
    /// Add the attached coin to the fee pool. Game contract only.
    ProvideFee {},
    /// Lend `amount` out of the pool to the caller. Game contract only.
    BorrowBalance { amount: u128 },
    /// Pay the attached coin back into the pool. Game contract only.
    PayBack {},
}

/// A read-only request.
#[derive(Debug, Clone, Copy, PartialEq, Eq, Structural)]
pub enum QueryMsg {
    /// The whole pool record.
    GetPool {},
}

} // verus!
