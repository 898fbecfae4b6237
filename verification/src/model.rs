//! The operations as functions on mathematical values: from the ledger and a
//! request to the new pool record and the response, or to the error that
//! ends the operation. Amounts are unbounded here; [`in_limits`] says when an
//! outcome can be held in 128-bit amounts.
use vstd::prelude::*;
use crate::error::{ContractError, StdError};
use crate::helper::{denom_check, enough_pool_check, game_contract_check};
use crate::math::{mint_amount, withdraw_amount};
use crate::msg::ExecuteMsg;
use crate::query::{AllowanceAndTotalSupplyResponse, LPQueryMsgView, LPQueryResponse, LPQueryView};
use crate::response::{AttributeView, EffectView, ResponseView};
use crate::state::PoolView;
use crate::types::{CoinView, EnvView, MessageInfoView};

verus! {

/// What a successful operation leaves behind: the record to write back and
/// the response to hand to the host.
pub struct Outcome {
    pub pool: PoolView,
    pub response: ResponseView,
}

impl Outcome {
    /// Every amount of the record and of the response can be held in 128
    /// bits.
    pub open spec fn fits(self) -> bool {
        self.pool.fits() && self.response.fits()
    }
}

/// An operation that succeeds does so with amounts that can be held in 128
/// bits.
pub open spec fn in_limits(outcome: Result<Outcome, ContractError>) -> bool {
    outcome matches Ok(o) ==> o.fits()
}

/// `a - b`, and zero where `b` is the larger.
pub open spec fn saturating_sub(a: nat, b: nat) -> nat {
    if a >= b {
        (a - b) as nat
    } else {
        0
    }
}

/// The record that an operation works on: the ledger's, or `NotFound` where
/// the ledger is empty.
pub open spec fn loaded(ledger: Option<PoolView>) -> Result<PoolView, ContractError> {
    match ledger {
        Some(pool) => Ok(pool),
        None => Err(ContractError::Std(StdError::NotFound)),
    }
}

/// What a deposit checks before it asks for the LP token's total supply:
/// that there is a pool, and that the payment is one coin of its
/// denomination.
pub open spec fn deposit_checks(ledger: Option<PoolView>, info: MessageInfoView) -> Result<
    PoolView,
    ContractError,
> {
    match loaded(ledger) {
        Err(e) => Err(e),
        Ok(pool) => match denom_check(info, pool) {
            Err(e) => Err(e),
            Ok(_) => Ok(pool),
        },
    }
}

/// Deposit: the coin's amount is added to the balance, and the LP contract
/// is to mint [`mint_amount`] shares to the caller, by the balance before
/// the deposit and the total supply `supply`. The response reports the
/// coin.
pub open spec fn deposit_outcome(
    ledger: Option<PoolView>,
    info: MessageInfoView,
    supply: nat,
) -> Result<Outcome, ContractError> {
    match deposit_checks(ledger, info) {
        Err(e) => Err(e),
        Ok(pool) => {
            let amount = info.funds[0].amount;
            Ok(
                Outcome {
                    pool: PoolView { balance: pool.balance + amount, ..pool },
                    response: ResponseView {
                        messages: seq![
                            EffectView::Mint {
                                lp_contract: pool.lp_contract,
                                recipient: info.sender,
                                amount: mint_amount(amount, pool.balance, supply),
                            },
                        ],
                        attributes: seq![
                            AttributeView::text("method"@, "deposit"@),
                            AttributeView::text("denom"@, info.funds[0].denom),
                            AttributeView::amount("deposit_amount"@, amount),
                        ],
                    },
                },
            )
        },
    }
}

/// Withdraw: refused where the caller's allowance is zero or has expired in
/// the current block. Else the allowance redeems [`withdraw_amount`] of base
/// currency: the balance goes down by it, to zero at the lowest; the LP
/// contract is to burn the allowance from the caller, and then the amount is
/// to be sent to the caller. The response reports both amounts.
pub open spec fn withdraw_outcome(
    ledger: Option<PoolView>,
    env: EnvView,
    info: MessageInfoView,
    lp: AllowanceAndTotalSupplyResponse,
) -> Result<Outcome, ContractError> {
    match loaded(ledger) {
        Err(e) => Err(e),
        Ok(pool) => if lp.allowance == 0 {
            Err(ContractError::InvalidLPAllowance {})
        } else if lp.expires.expired_at(env.height, env.time) {
            Err(ContractError::InvalidExpires {})
        } else {
            let amount = withdraw_amount(
                pool.balance,
                lp.allowance as nat,
                lp.total_supply as nat,
            );
            Ok(
                Outcome {
                    pool: PoolView { balance: saturating_sub(pool.balance, amount), ..pool },
                    response: ResponseView {
                        messages: seq![
                            EffectView::BurnFrom {
                                lp_contract: pool.lp_contract,
                                owner: info.sender,
                                amount: lp.allowance as nat,
                            },
                            EffectView::Send {
                                to_address: info.sender,
                                amount: CoinView { denom: pool.denom, amount },
                            },
                        ],
                        attributes: seq![
                            AttributeView::text("method"@, "withdraw"@),
                            AttributeView::amount("lp_amount"@, lp.allowance as nat),
                            AttributeView::amount(pool.denom + "_amount"@, amount),
                        ],
                    },
                },
            )
        },
    }
}

/// What the game contract's paying operations check: that there is a pool,
/// that the caller is its game contract, and that the payment is one coin of
/// its denomination, in this order.
pub open spec fn paid_by_game_checks(ledger: Option<PoolView>, info: MessageInfoView) -> Result<
    PoolView,
    ContractError,
> {
    match loaded(ledger) {
        Err(e) => Err(e),
        Ok(pool) => match game_contract_check(info, pool) {
            Err(e) => Err(e),
            Ok(_) => match denom_check(info, pool) {
                Err(e) => Err(e),
                Ok(_) => Ok(pool),
            },
        },
    }
}

/// Provide fee: the coin's amount is added to the fee pool. The response is
/// empty.
pub open spec fn provide_fee_outcome(ledger: Option<PoolView>, info: MessageInfoView) -> Result<
    Outcome,
    ContractError,
> {
    match paid_by_game_checks(ledger, info) {
        Err(e) => Err(e),
        Ok(pool) => Ok(
            Outcome {
                pool: PoolView { fee_pool: pool.fee_pool + info.funds[0].amount, ..pool },
                response: ResponseView::empty(),
            },
        ),
    }
}

/// Pay back: the coin's amount is added to the balance, and half of it,
/// rounded down, retires borrowed principal, down to zero at the lowest. The
/// response is empty.
pub open spec fn payback_outcome(ledger: Option<PoolView>, info: MessageInfoView) -> Result<
    Outcome,
    ContractError,
> {
    match paid_by_game_checks(ledger, info) {
        Err(e) => Err(e),
        Ok(pool) => {
            let amount = info.funds[0].amount;
            Ok(
                Outcome {
                    pool: PoolView {
                        balance: pool.balance + amount,
                        borrow_balance: saturating_sub(pool.borrow_balance, amount / 2),
                        ..pool
                    },
                    response: ResponseView::empty(),
                },
            )
        },
    }
}

/// Borrow: refused unless the caller is the game contract and the balance
/// covers `amount`. Else `amount` moves from the balance to the borrowed
/// principal and is to be sent to the caller.
pub open spec fn borrow_outcome(
    ledger: Option<PoolView>,
    info: MessageInfoView,
    amount: nat,
) -> Result<Outcome, ContractError> {
    match loaded(ledger) {
        Err(e) => Err(e),
        Ok(pool) => match game_contract_check(info, pool) {
            Err(e) => Err(e),
            Ok(_) => match enough_pool_check(pool, amount) {
                Err(e) => Err(e),
                Ok(_) => Ok(
                    Outcome {
                        pool: PoolView {
                            balance: (pool.balance - amount) as nat,
                            borrow_balance: pool.borrow_balance + amount,
                            ..pool
                        },
                        response: ResponseView {
                            messages: seq![
                                EffectView::Send {
                                    to_address: info.sender,
                                    amount: CoinView { denom: pool.denom, amount },
                                },
                            ],
                            attributes: Seq::empty(),
                        },
                    },
                ),
            },
        },
    }
}

/// The question that a request has for the LP contract, once the checks
/// that come before it have passed: a deposit asks for the total supply, a
/// withdrawal for the caller's allowance to the pool; the others ask
/// nothing.
pub open spec fn lp_query_outcome(
    ledger: Option<PoolView>,
    env: EnvView,
    info: MessageInfoView,
    msg: ExecuteMsg,
) -> Result<Option<LPQueryView>, ContractError> {
    match msg {
        ExecuteMsg::Deposit {} => match deposit_checks(ledger, info) {
            Err(e) => Err(e),
            Ok(pool) => Ok(
                Some(
                    LPQueryView {
                        contract_addr: pool.lp_contract,
                        msg: LPQueryMsgView::TotalSupply,
                    },
                ),
            ),
        },
        ExecuteMsg::Withdraw {} => match loaded(ledger) {
            Err(e) => Err(e),
            Ok(pool) => Ok(
                Some(
                    LPQueryView {
                        contract_addr: pool.lp_contract,
                        msg: LPQueryMsgView::AllowanceAndTotalSupply {
                            owner: info.sender,
                            spender: env.contract,
                        },
                    },
                ),
            ),
        },
        _ => Ok(None),
    }
}

/// A request's outcome, by its kind. Where the answer `reply` is not the
/// answer to the request's question, the request fails with `ParseErr`,
/// unless a check that comes before the question has failed already.
pub open spec fn execute_outcome(
    ledger: Option<PoolView>,
    env: EnvView,
    info: MessageInfoView,
    msg: ExecuteMsg,
    reply: Option<LPQueryResponse>,
) -> Result<Outcome, ContractError> {
    match msg {
        ExecuteMsg::Deposit {} => match reply {
            Some(LPQueryResponse::TotalSupply(supply)) => deposit_outcome(
                ledger,
                info,
                supply as nat,
            ),
            _ => match deposit_checks(ledger, info) {
                Err(e) => Err(e),
                Ok(_) => Err(ContractError::Std(StdError::ParseErr)),
            },
        },
        ExecuteMsg::Withdraw {} => match reply {
            Some(LPQueryResponse::AllowanceAndTotalSupply(lp)) => withdraw_outcome(
                ledger,
                env,
                info,
                lp,
            ),
            _ => match loaded(ledger) {
                Err(e) => Err(e),
                Ok(_) => Err(ContractError::Std(StdError::ParseErr)),
            },
        },
        ExecuteMsg::ProvideFee {} => provide_fee_outcome(ledger, info),
        ExecuteMsg::BorrowBalance { amount } => borrow_outcome(ledger, info, amount as nat),
        ExecuteMsg::PayBack {} => payback_outcome(ledger, info),
    }
}

} // verus!
