//! Checks that gate every change of the ledger. Each one only reads, so an
//! operation can run them all before it writes anything.
use vstd::prelude::*;
use crate::error::ContractError;
use crate::state::{Pool, PoolView};
use crate::types::{MessageInfo, MessageInfoView};

verus! {

/// The payment that comes with a call is exactly one coin of the pool's
/// denomination. No coin, more than one coin and a coin of another
/// denomination each have their own error, looked for in this order.
pub open spec fn denom_check(info: MessageInfoView, pool: PoolView) -> Result<(), ContractError> {
    if info.funds.len() == 0 {
        Err(ContractError::MustSendCoin {})
    } else if info.funds.len() > 1 {
        Err(ContractError::InvalidOneTypeCoin {})
    } else if info.funds[0].denom != pool.denom {
        Err(ContractError::InvalidDenom {})
    } else {
        Ok(())
    }
}

/// The caller is the pool's game contract.
pub open spec fn game_contract_check(info: MessageInfoView, pool: PoolView) -> Result<
    (),
    ContractError,
> {
    if info.sender == pool.game_contract {
        Ok(())
    } else {
        Err(ContractError::InvalidContractAddress {})
    }
}

/// The pool's balance covers `amount`.
pub open spec fn enough_pool_check(pool: PoolView, amount: nat) -> Result<(), ContractError> {
    if pool.balance >= amount {
        Ok(())
    } else {
        Err(ContractError::NotEnoughPool {})
    }
}

/// Checks that exactly one coin was sent and that it is of the pool's
/// denomination.
pub fn check_denom(info: &MessageInfo, pool: &Pool) -> (r: Result<(), ContractError>)
    ensures
        r == denom_check(info@, pool@),
{
    if info.funds.len() == 0 {
        return Err(ContractError::MustSendCoin {});
    }
    if info.funds.len() > 1 {
        return Err(ContractError::InvalidOneTypeCoin {});
    }
    let coin = &info.funds[0];
    if coin.denom == pool.denom {
        Ok(())
    } else {
        Err(ContractError::InvalidDenom {})
    }
}

/// Checks that the caller is the pool's game contract.
pub fn check_game_contract(info: &MessageInfo, pool: &Pool) -> (r: Result<(), ContractError>)
    ensures
        r == game_contract_check(info@, pool@),
{
    if pool.game_contract == info.sender {
        Ok(())
    } else {
        Err(ContractError::InvalidContractAddress {})
    }
}

/// Checks that the pool holds at least `amount`.
pub fn check_enough_pool(pool: &Pool, amount: u128) -> (r: Result<(), ContractError>)
    ensures
        r == enough_pool_check(pool@, amount as nat),
{
    if pool.balance < amount {
        Err(ContractError::NotEnoughPool {})
    } else {
        Ok(())
    }
}

} // verus!
