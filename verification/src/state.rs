//! The pool record and the ledger that keeps it.
use vstd::prelude::*;
use crate::error::StdError;

verus! {

/// The one record of a deployment.
#[derive(Debug, PartialEq, Eq)]
pub struct Pool {
    /// Denomination of the base currency; fixed at creation.
    pub denom: String,
    /// Base currency held and open to withdrawal and borrowing.
    pub balance: u128,
    /// Fees accrued; kept apart from `balance` and never redeemed by shares.
    pub fee_pool: u128,
    /// Principal lent to the game contract and not yet paid back.
    pub borrow_balance: u128,
    /// Address of the LP share contract; fixed at creation.
    pub lp_contract: String,
    /// Address of the one contract that may provide fees, borrow and pay
    /// back; fixed at creation.
    pub game_contract: String,
}

/// A [`Pool`] as a mathematical value, its amounts unbounded.
pub struct PoolView {
    pub denom: Seq<char>,
    pub balance: nat,
    pub fee_pool: nat,
    pub borrow_balance: nat,
    pub lp_contract: Seq<char>,
    pub game_contract: Seq<char>,
}

impl PoolView {
    /// Every amount of the record can be held in 128 bits.
    pub open spec fn fits(self) -> bool {
        &&& self.balance <= u128::MAX
        &&& self.fee_pool <= u128::MAX
        &&& self.borrow_balance <= u128::MAX
    }
}

impl View for Pool {
    type V = PoolView;

    open spec fn view(&self) -> PoolView {
        PoolView {
            denom: self.denom@,
            balance: self.balance as nat,
            fee_pool: self.fee_pool as nat,
            borrow_balance: self.borrow_balance as nat,
            lp_contract: self.lp_contract@,
            game_contract: self.game_contract@,
        }
    }
}

impl Clone for Pool {
    fn clone(&self) -> (res: Self)
        ensures
            res == *self,
    {
        Pool {
            denom: self.denom.clone(),
            balance: self.balance,
            fee_pool: self.fee_pool,
            borrow_balance: self.borrow_balance,
            lp_contract: self.lp_contract.clone(),
            game_contract: self.game_contract.clone(),
        }
    }
}

/// The persisted state of a deployment: empty until the pool is created, one
/// record from then on. Operations take it as an explicit handle.
#[derive(Debug, Clone, PartialEq, Eq)]
pub struct Ledger {
    pub pool: Option<Pool>,
}

impl View for Ledger {
    type V = Option<PoolView>;

    open spec fn view(&self) -> Option<PoolView> {
        match self.pool {
            Some(pool) => Some(pool@),
            None => None,
        }
    }
}

impl Ledger {
    /// A ledger that holds no record yet.
    pub fn new() -> (ledger: Ledger)
        ensures
            ledger.pool is None,
    {
        Ledger { pool: None }
    }
}

/// Writes `pool` as the ledger's record, replacing the one it held.
pub fn save_pool(storage: &mut Ledger, pool: &Pool) -> (r: Result<(), StdError>)
    ensures
        r is Ok,
        final(storage).pool == Some(*pool),
{
    storage.pool = Some(pool.clone());
    Ok(())
}

/// Reads the ledger's record; fails with `NotFound` where there is none.
pub fn load_pool(storage: &Ledger) -> (r: Result<Pool, StdError>)
    ensures
        match storage.pool {
            Some(pool) => r == Ok::<Pool, StdError>(pool),
            None => r == Err::<Pool, StdError>(StdError::NotFound),
        },
{
    match &storage.pool {
        Some(pool) => Ok(pool.clone()),
        None => Err(StdError::NotFound),
    }
}

} // verus!
