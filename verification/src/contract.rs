//! The operations on the ledger. Each one loads the pool record, runs its
//! checks, computes the new record and the response, and only then writes
//! the record back: a call that fails leaves the ledger as it was.
//!
//! What an operation does is stated by its outcome in [`crate::model`].
//! Amounts are held in 128 bits, so each operation asks of its caller that
//! the amounts of a successful outcome fit ([`in_limits`]); [`within_limits`]
//! tests just that.
use vstd::prelude::*;
use vstd::string::StringExecFns;
use crate::error::{ContractError, StdError};
use crate::helper::{check_denom, check_enough_pool, check_game_contract};
use crate::math::{lp_mint_amount, mint_amount, ratio_floor, withdraw_balance};
use crate::model::{
    borrow_outcome, deposit_outcome, execute_outcome, in_limits, lp_query_outcome,
    payback_outcome, provide_fee_outcome, saturating_sub, withdraw_outcome,
};
use crate::msg::{ExecuteMsg, InstantiateMsg, QueryMsg};
use crate::query::{
    is_expired, AllowanceAndTotalSupplyResponse, LPQuery, LPQueryMsg, LPQueryResponse,
};
use crate::response::{AttributeValue, AttributeView, Effect, Response, ResponseView};
use crate::state::{load_pool, save_pool, Ledger, Pool, PoolView};
use crate::types::{coin, Env, MessageInfo, MessageInfoView};

verus! {

/// The denomination of the base currency.
pub const DENOM: &'static str = "uconst";

/// The record of a pool that has just been created: nothing held, nothing
/// accrued, nothing lent.
pub open spec fn initial_pool(lp_contract: Seq<char>, game_contract: Seq<char>) -> PoolView {
    PoolView {
        denom: DENOM@,
        balance: 0,
        fee_pool: 0,
        borrow_balance: 0,
        lp_contract,
        game_contract,
    }
}

/// What the creation of a pool reports: that it happened, and who did it.
pub open spec fn instantiate_response(info: MessageInfoView) -> ResponseView {
    ResponseView {
        messages: Seq::empty(),
        attributes: seq![
            AttributeView::text("method"@, "instantiate"@),
            AttributeView::text("owner"@, info.sender),
        ],
    }
}

/// Creates the pool: writes its first record to the ledger, with the two
/// contract addresses of `msg`.
pub fn instantiate(ledger: &mut Ledger, _env: &Env, info: &MessageInfo, msg: InstantiateMsg) -> (r:
    Result<Response, ContractError>)
    ensures
        r matches Ok(response) && response@ == instantiate_response(info@),
        final(ledger)@ == Some(initial_pool(msg.lp_contract@, msg.game_contract@)),
{
    let pool = Pool {
        denom: DENOM.to_owned(),
        balance: 0,
        fee_pool: 0,
        lp_contract: msg.lp_contract,
        borrow_balance: 0,
        game_contract: msg.game_contract,
    };
    match save_pool(ledger, &pool) {
        Ok(_) => {},
        Err(e) => return Err(ContractError::from(e)),
    }
    let response = Response::new().add_attribute(
        "method".to_owned(),
        AttributeValue::Text("instantiate".to_owned()),
    ).add_attribute("owner".to_owned(), AttributeValue::Text(info.sender.clone()));
    assert(response@.attributes =~= instantiate_response(info@).attributes);
    Ok(response)
}

/// The question that `msg` has for the LP contract, to be put before the
/// request is carried out with [`execute`]: `None` where it has none, and
/// the error where a check that comes before the question fails.
pub fn lp_query(ledger: &Ledger, env: &Env, info: &MessageInfo, msg: &ExecuteMsg) -> (r: Result<
    Option<LPQuery>,
    ContractError,
>)
    ensures
        match lp_query_outcome(ledger@, env@, info@, *msg) {
            Ok(Some(q)) => r matches Ok(Some(query)) && query@ == q,
            Ok(None) => r matches Ok(None),
            Err(e) => r == Err::<Option<LPQuery>, ContractError>(e),
        },
{
    match msg {
        ExecuteMsg::Deposit {} => {
            let pool = match load_pool(ledger) {
                Ok(pool) => pool,
                Err(e) => return Err(ContractError::from(e)),
            };
            match check_denom(info, &pool) {
                Ok(_) => {},
                Err(e) => return Err(e),
            }
            Ok(Some(LPQuery { contract_addr: pool.lp_contract, msg: LPQueryMsg::TotalSupply {} }))
        },
        ExecuteMsg::Withdraw {} => {
            let pool = match load_pool(ledger) {
                Ok(pool) => pool,
                Err(e) => return Err(ContractError::from(e)),
            };
            Ok(
                Some(
                    LPQuery {
                        contract_addr: pool.lp_contract,
                        msg: LPQueryMsg::AllowanceAndTotalSupply {
                            owner: info.sender.clone(),
                            spender: env.contract.address.clone(),
                        },
                    },
                ),
            )
        },
        _ => Ok(None),
    }
}

/// Whether `msg` can be carried out with 128-bit amounts, which is what
/// [`execute`] asks of its caller: true also of a request that `execute`
/// refuses.
pub fn within_limits(
    ledger: &Ledger,
    env: &Env,
    info: &MessageInfo,
    msg: &ExecuteMsg,
    reply: &Option<LPQueryResponse>,
) -> (b: bool)
    ensures
        b == in_limits(execute_outcome(ledger@, env@, info@, *msg, *reply)),
{
    let pool = match &ledger.pool {
        Some(pool) => pool,
        None => return true,
    };
    match msg {
        ExecuteMsg::Deposit {} => match reply {
            Some(LPQueryResponse::TotalSupply(supply)) => {
                if check_denom(info, pool).is_err() {
                    return true;
                }
                let amount = info.funds[0].amount;
                proof {
                    let o = deposit_outcome(ledger@, info@, *supply as nat)->Ok_0;
                    assert(o.response.messages[0].amount() == mint_amount(
                        amount as nat,
                        pool.balance as nat,
                        *supply as nat,
                    ));
                }
                pool.balance.checked_add(amount).is_some() && lp_mint_amount(
                    amount,
                    pool.balance,
                    *supply,
                ).is_some()
            },
            _ => true,
        },
        ExecuteMsg::Withdraw {} => match reply {
            Some(LPQueryResponse::AllowanceAndTotalSupply(lp)) => {
                lp.allowance == 0 || is_expired(&lp.expires, &env.block) || withdraw_balance(
                    pool.balance,
                    lp.allowance,
                    lp.total_supply,
                ).is_some()
            },
            _ => true,
        },
        ExecuteMsg::ProvideFee {} => {
            if check_game_contract(info, pool).is_err() || check_denom(info, pool).is_err() {
                return true;
            }
            pool.fee_pool.checked_add(info.funds[0].amount).is_some()
        },
        ExecuteMsg::BorrowBalance { amount } => {
            if check_game_contract(info, pool).is_err() {
                return true;
            }
            if check_enough_pool(pool, *amount).is_err() {
                return true;
            }
            pool.borrow_balance.checked_add(*amount).is_some()
        },
        ExecuteMsg::PayBack {} => {
            if check_game_contract(info, pool).is_err() || check_denom(info, pool).is_err() {
                return true;
            }
            pool.balance.checked_add(info.funds[0].amount).is_some()
        },
    }
}

/// Carries out `msg` on the ledger, given the LP contract's answer `reply`
/// to the question of [`lp_query`].
pub fn execute(
    ledger: &mut Ledger,
    env: &Env,
    info: &MessageInfo,
    msg: ExecuteMsg,
    reply: Option<LPQueryResponse>,
) -> (r: Result<Response, ContractError>)
    requires
        in_limits(execute_outcome(old(ledger)@, env@, info@, msg, reply)),
    ensures
        match execute_outcome(old(ledger)@, env@, info@, msg, reply) {
            Ok(o) => {
                &&& r matches Ok(response)
                &&& response@ == o.response
                &&& final(ledger)@ == Some(o.pool)
            },
            Err(e) => r == Err::<Response, ContractError>(e) && *final(ledger) == *old(ledger),
        },
        final(ledger).pool is Some <==> old(ledger).pool is Some,
{
    match msg {
        ExecuteMsg::Deposit {} => match reply {
            Some(LPQueryResponse::TotalSupply(supply)) => deposit(ledger, info, supply),
            _ => match lp_query(ledger, env, info, &msg) {
                Ok(_) => Err(ContractError::Std(StdError::ParseErr)),
                Err(e) => Err(e),
            },
        },
        ExecuteMsg::Withdraw {} => match reply {
            Some(LPQueryResponse::AllowanceAndTotalSupply(lp)) => withdraw(ledger, env, info, lp),
            _ => match lp_query(ledger, env, info, &msg) {
                Ok(_) => Err(ContractError::Std(StdError::ParseErr)),
                Err(e) => Err(e),
            },
        },
        ExecuteMsg::ProvideFee {} => provide_fee(ledger, info),
        ExecuteMsg::BorrowBalance { amount } => borrow_balance(ledger, info, amount),
        ExecuteMsg::PayBack {} => payback(ledger, info),
    }
}

/// Adds the attached coin to the fee pool. Game contract only.
pub fn provide_fee(ledger: &mut Ledger, info: &MessageInfo) -> (r: Result<Response, ContractError>)
    requires
        in_limits(provide_fee_outcome(old(ledger)@, info@)),
    ensures
        match provide_fee_outcome(old(ledger)@, info@) {
            Ok(o) => {
                &&& r matches Ok(response)
                &&& response@ == o.response
                &&& final(ledger)@ == Some(o.pool)
            },
            Err(e) => r == Err::<Response, ContractError>(e) && *final(ledger) == *old(ledger),
        },
{
    let mut pool = match load_pool(ledger) {
        Ok(pool) => pool,
        Err(e) => return Err(ContractError::from(e)),
    };
    match check_game_contract(info, &pool) {
        Ok(_) => {},
        Err(e) => return Err(e),
    }
    match check_denom(info, &pool) {
        Ok(_) => {},
        Err(e) => return Err(e),
    }
    pool.fee_pool = pool.fee_pool + info.funds[0].amount;
    match save_pool(ledger, &pool) {
        Ok(_) => {},
        Err(e) => return Err(ContractError::from(e)),
    }
    Ok(Response::new())
}

/// Pays the attached coin back into the pool and retires half of its amount
/// of borrowed principal. Game contract only.
pub fn payback(ledger: &mut Ledger, info: &MessageInfo) -> (r: Result<Response, ContractError>)
    requires
        in_limits(payback_outcome(old(ledger)@, info@)),
    ensures
        match payback_outcome(old(ledger)@, info@) {
            Ok(o) => {
                &&& r matches Ok(response)
                &&& response@ == o.response
                &&& final(ledger)@ == Some(o.pool)
            },
            Err(e) => r == Err::<Response, ContractError>(e) && *final(ledger) == *old(ledger),
        },
        r is Ok ==> {
            let before = old(ledger)@->0;
            let after = final(ledger)@->0;
            let paid = info@.funds[0].amount;
            &&& after.balance == before.balance + paid
            &&& after.borrow_balance == saturating_sub(before.borrow_balance, paid / 2)
        },
{
    let mut pool = match load_pool(ledger) {
        Ok(pool) => pool,
        Err(e) => return Err(ContractError::from(e)),
    };
    match check_game_contract(info, &pool) {
        Ok(_) => {},
        Err(e) => return Err(e),
    }
    match check_denom(info, &pool) {
        Ok(_) => {},
        Err(e) => return Err(e),
    }
    let denom_amount = info.funds[0].amount;
    pool.balance = pool.balance + denom_amount;
    pool.borrow_balance = pool.borrow_balance.saturating_sub(denom_amount / 2);
    match save_pool(ledger, &pool) {
        Ok(_) => {},
        Err(e) => return Err(ContractError::from(e)),
    }
    Ok(Response::new())
}

/// Lends `amount` out of the pool to the caller. Game contract only.
pub fn borrow_balance(ledger: &mut Ledger, info: &MessageInfo, amount: u128) -> (r: Result<
    Response,
    ContractError,
>)
    requires
        in_limits(borrow_outcome(old(ledger)@, info@, amount as nat)),
    ensures
        match borrow_outcome(old(ledger)@, info@, amount as nat) {
            Ok(o) => {
                &&& r matches Ok(response)
                &&& response@ == o.response
                &&& final(ledger)@ == Some(o.pool)
            },
            Err(e) => r == Err::<Response, ContractError>(e) && *final(ledger) == *old(ledger),
        },
        r is Ok ==> {
            let before = old(ledger)@->0;
            let after = final(ledger)@->0;
            &&& amount <= before.balance
            &&& after.balance == before.balance - amount
            &&& after.borrow_balance == before.borrow_balance + amount
        },
        old(ledger)@ matches Some(pool) && info@.sender == pool.game_contract && amount
            > pool.balance ==> r == Err::<Response, ContractError>(ContractError::NotEnoughPool {}),
{
    let mut pool = match load_pool(ledger) {
        Ok(pool) => pool,
        Err(e) => return Err(ContractError::from(e)),
    };
    match check_game_contract(info, &pool) {
        Ok(_) => {},
        Err(e) => return Err(e),
    }
    match check_enough_pool(&pool, amount) {
        Ok(_) => {},
        Err(e) => return Err(e),
    }
    pool.balance = pool.balance - amount;
    pool.borrow_balance = pool.borrow_balance + amount;
    match save_pool(ledger, &pool) {
        Ok(_) => {},
        Err(e) => return Err(ContractError::from(e)),
    }
    let send = Effect::Send {
        to_address: info.sender.clone(),
        amount: coin(amount, pool.denom.as_str()),
    };
    let response = Response::new().add_message(send);
    proof {
        let o = borrow_outcome(old(ledger)@, info@, amount as nat)->Ok_0;
        assert(response@.messages =~= o.response.messages);
    }
    Ok(response)
}

/// Pays the attached coin into the pool and has LP shares minted to the
/// caller, given the LP token's total supply.
pub fn deposit(ledger: &mut Ledger, info: &MessageInfo, lp_total_supply: u128) -> (r: Result<
    Response,
    ContractError,
>)
    requires
        in_limits(deposit_outcome(old(ledger)@, info@, lp_total_supply as nat)),
    ensures
        match deposit_outcome(old(ledger)@, info@, lp_total_supply as nat) {
            Ok(o) => {
                &&& r matches Ok(response)
                &&& response@ == o.response
                &&& final(ledger)@ == Some(o.pool)
            },
            Err(e) => r == Err::<Response, ContractError>(e) && *final(ledger) == *old(ledger),
        },
        r matches Ok(response) ==> {
            let before = old(ledger)@->0;
            let after = final(ledger)@->0;
            let amount = info@.funds[0].amount;
            let minted = response@.messages[0].amount();
            &&& after.balance == before.balance + amount
            &&& response@.messages.len() == 1
            &&& before.balance == 0 || lp_total_supply == 0 ==> minted == amount
            &&& before.balance != 0 && lp_total_supply != 0 ==> minted == ratio_floor(
                amount,
                lp_total_supply as nat,
                before.balance,
            )
        },
{
    let mut pool = match load_pool(ledger) {
        Ok(pool) => pool,
        Err(e) => return Err(ContractError::from(e)),
    };
    match check_denom(info, &pool) {
        Ok(_) => {},
        Err(e) => return Err(e),
    }
    let deposit_amount = info.funds[0].amount;
    proof {
        let o = deposit_outcome(old(ledger)@, info@, lp_total_supply as nat)->Ok_0;
        assert(o.response.messages[0].amount() <= u128::MAX);
    }
    let shares = lp_mint_amount(deposit_amount, pool.balance, lp_total_supply).unwrap();
    pool.balance = pool.balance + deposit_amount;
    match save_pool(ledger, &pool) {
        Ok(_) => {},
        Err(e) => return Err(ContractError::from(e)),
    }
    let mint = Effect::Mint {
        lp_contract: pool.lp_contract.clone(),
        recipient: info.sender.clone(),
        amount: shares,
    };
    let response = Response::new().add_message(mint).add_attribute(
        "method".to_owned(),
        AttributeValue::Text("deposit".to_owned()),
    ).add_attribute("denom".to_owned(), AttributeValue::Text(info.funds[0].denom.clone()))
        .add_attribute("deposit_amount".to_owned(), AttributeValue::Amount(deposit_amount));
    proof {
        let o = deposit_outcome(old(ledger)@, info@, lp_total_supply as nat)->Ok_0;
        assert(response@.messages =~= o.response.messages);
        assert(response@.attributes =~= o.response.attributes);
    }
    Ok(response)
}

/// Redeems the LP shares that the caller has approved for the pool, given
/// the LP contract's answer `lp` on the caller's allowance.
pub fn withdraw(
    ledger: &mut Ledger,
    env: &Env,
    info: &MessageInfo,
    lp: AllowanceAndTotalSupplyResponse,
) -> (r: Result<Response, ContractError>)
    requires
        in_limits(withdraw_outcome(old(ledger)@, env@, info@, lp)),
    ensures
        match withdraw_outcome(old(ledger)@, env@, info@, lp) {
            Ok(o) => {
                &&& r matches Ok(response)
                &&& response@ == o.response
                &&& final(ledger)@ == Some(o.pool)
            },
            Err(e) => r == Err::<Response, ContractError>(e) && *final(ledger) == *old(ledger),
        },
{
    let mut pool = match load_pool(ledger) {
        Ok(pool) => pool,
        Err(e) => return Err(ContractError::from(e)),
    };
    let AllowanceAndTotalSupplyResponse { total_supply, allowance, expires } = lp;
    if allowance == 0 {
        return Err(ContractError::InvalidLPAllowance {});
    }
    if is_expired(&expires, &env.block) {
        return Err(ContractError::InvalidExpires {});
    }
    proof {
        let o = withdraw_outcome(old(ledger)@, env@, info@, lp)->Ok_0;
        assert(o.response.messages[1].amount() <= u128::MAX);
    }
    let amount = withdraw_balance(pool.balance, allowance, total_supply).unwrap();
    pool.balance = pool.balance.saturating_sub(amount);
    match save_pool(ledger, &pool) {
        Ok(_) => {},
        Err(e) => return Err(ContractError::from(e)),
    }
    let burn = Effect::BurnFrom {
        lp_contract: pool.lp_contract.clone(),
        owner: info.sender.clone(),
        amount: allowance,
    };
    let send = Effect::Send {
        to_address: info.sender.clone(),
        amount: coin(amount, pool.denom.as_str()),
    };
    let response = Response::new().add_message(burn).add_message(send).add_attribute(
        "method".to_owned(),
        AttributeValue::Text("withdraw".to_owned()),
    ).add_attribute("lp_amount".to_owned(), AttributeValue::Amount(allowance)).add_attribute(
        pool.denom.clone().concat("_amount"),
        AttributeValue::Amount(amount),
    );
    proof {
        let o = withdraw_outcome(old(ledger)@, env@, info@, lp)->Ok_0;
        assert(response@.messages =~= o.response.messages);
        assert(response@.attributes =~= o.response.attributes);
    }
    Ok(response)
}

/// Answers a read-only request.
pub fn query(ledger: &Ledger, _env: &Env, msg: QueryMsg) -> (r: Result<Pool, StdError>)
    ensures
        match ledger.pool {
            Some(pool) => r == Ok::<Pool, StdError>(pool),
            None => r == Err::<Pool, StdError>(StdError::NotFound),
        },
{
    match msg {
        QueryMsg::GetPool {} => get_pool(ledger),
    }
}

/// The whole pool record, open to anyone.
pub fn get_pool(ledger: &Ledger) -> (r: Result<Pool, StdError>)
    ensures
        match ledger.pool {
            Some(pool) => r == Ok::<Pool, StdError>(pool),
            None => r == Err::<Pool, StdError>(StdError::NotFound),
        },
{
    let pool = match load_pool(ledger) {
        Ok(pool) => pool,
        Err(e) => return Err(e),
    };
    Ok(pool)
}

} // verus!
