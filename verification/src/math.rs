//! Share arithmetic: how many LP shares a deposit mints, and how much base
//! currency an allowance of shares redeems.
use vstd::prelude::*;
use cosmwasm_std::Uint128;

verus! {

/// `value * numerator / denominator`, rounded down.
pub open spec fn ratio_floor(value: nat, numerator: nat, denominator: nat) -> nat {
    value * numerator / denominator
}

/// Shares minted for `deposit`, by the pool's balance before the deposit and
/// the LP token's total supply: one share per unit while either is zero, and
/// the deposit's part of the balance applied to the supply, rounded down,
/// from then on.
pub open spec fn mint_amount(deposit: nat, balance: nat, supply: nat) -> nat {
    if balance == 0 || supply == 0 {
        deposit
    } else {
        ratio_floor(deposit, supply, balance)
    }
}

/// Base currency redeemed by `allowance` shares out of a total of `supply`:
/// the allowance's part of the supply applied to the balance, rounded down;
/// the whole balance where no share exists.
pub open spec fn withdraw_amount(balance: nat, allowance: nat, supply: nat) -> nat {
    if supply == 0 {
        balance
    } else {
        ratio_floor(balance, allowance, supply)
    }
}

/// `n` as a 128-bit amount, where it is one.
pub open spec fn fit(n: nat) -> Option<u128> {
    if n <= u128::MAX {
        Some(n as u128)
    } else {
        None
    }
}

/// Calls `cosmwasm_std::Uint128::checked_multiply_ratio`, which multiplies in
/// 256 bits and divides rounding down. The result is `Some` of the quotient
/// where the denominator is not zero and the quotient is a 128-bit amount,
/// and `None` otherwise.
#[verifier::external_body]
fn checked_multiply_ratio(value: u128, numerator: u128, denominator: u128) -> (r: Option<u128>)
    ensures
        match r {
            Some(q) => denominator != 0 && q == ratio_floor(
                value as nat,
                numerator as nat,
                denominator as nat,
            ),
            None => denominator == 0 || ratio_floor(
                value as nat,
                numerator as nat,
                denominator as nat,
            ) > u128::MAX,
        },
{
    match Uint128::new(value).checked_multiply_ratio(numerator, denominator) {
        Ok(q) => Some(q.u128()),
        Err(_) => None,
    }
}

/// Shares to mint for `deposit`; `None` where their number is no 128-bit
/// amount.
pub fn lp_mint_amount(deposit: u128, balance: u128, supply: u128) -> (m: Option<u128>)
    ensures
        m == fit(mint_amount(deposit as nat, balance as nat, supply as nat)),
{
    if balance == 0 || supply == 0 {
        Some(deposit)
    } else {
        checked_multiply_ratio(deposit, supply, balance)
    }
}

/// Base currency to pay out for `allowance` shares; `None` where the amount
/// is no 128-bit amount.
pub fn withdraw_balance(balance: u128, allowance: u128, supply: u128) -> (w: Option<u128>)
    ensures
        w == fit(withdraw_amount(balance as nat, allowance as nat, supply as nat)),
{
    if supply == 0 {
        Some(balance)
    } else {
        checked_multiply_ratio(balance, allowance, supply)
    }
}

} // verus!
