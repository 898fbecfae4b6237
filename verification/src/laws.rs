//! What holds of every request, proved of the outcomes that the operations
//! are held to.
use vstd::prelude::*;
use crate::error::ContractError;
use crate::helper::{denom_check, game_contract_check};
use crate::math::withdraw_amount;
use crate::model::{
    borrow_outcome, deposit_outcome, execute_outcome, payback_outcome, provide_fee_outcome,
    withdraw_outcome, Outcome,
};
use crate::msg::ExecuteMsg;
use crate::query::{AllowanceAndTotalSupplyResponse, LPQueryResponse};
use crate::response::EffectView;
use crate::state::PoolView;
use crate::types::{CoinView, EnvView, MessageInfoView};

verus! {

/// A deposit of one coin of the pool's denomination succeeds, adds the
/// coin's amount to the balance and leaves the rest of the record alone. Its
/// one effect mints shares to the caller: as many as were deposited where
/// the balance before the deposit or the total supply is zero, and the
/// deposit's part of the balance applied to the supply otherwise.
pub proof fn law_deposit(pool: PoolView, info: MessageInfoView, supply: nat)
    requires
        denom_check(info, pool) is Ok,
    ensures
        deposit_outcome(Some(pool), info, supply) matches Ok(o) && {
            let amount = info.funds[0].amount;
            let minted = o.response.messages[0].amount();
            &&& o.pool == PoolView { balance: pool.balance + amount, ..pool }
            &&& o.response.messages == seq![
                EffectView::Mint {
                    lp_contract: pool.lp_contract,
                    recipient: info.sender,
                    amount: minted,
                },
            ]
            &&& pool.balance == 0 || supply == 0 ==> minted == amount
            &&& pool.balance != 0 && supply != 0 ==> minted == amount * supply / pool.balance
        },
{
}

/// All shares redeem the whole balance: a withdrawal whose allowance is the
/// total supply sends the caller the pool's entire balance and leaves none.
pub proof fn law_withdraw_total_supply(
    pool: PoolView,
    env: EnvView,
    info: MessageInfoView,
    lp: AllowanceAndTotalSupplyResponse,
)
    requires
        lp.allowance == lp.total_supply,
        lp.allowance != 0,
        !lp.expires.expired_at(env.height, env.time),
    ensures
        withdraw_outcome(Some(pool), env, info, lp) matches Ok(o) && {
            &&& o.pool == PoolView { balance: 0, ..pool }
            &&& o.response.messages.len() == 2
            &&& o.response.messages[1] == EffectView::Send {
                to_address: info.sender,
                amount: CoinView { denom: pool.denom, amount: pool.balance },
            }
        },
{
    lemma_whole_ratio(pool.balance, lp.total_supply as nat);
}

/// An allowance within the total supply never redeems more than the pool
/// holds, so such a withdrawal lowers the balance by exactly what it sends.
pub proof fn law_withdraw_within_balance(
    pool: PoolView,
    env: EnvView,
    info: MessageInfoView,
    lp: AllowanceAndTotalSupplyResponse,
)
    requires
        lp.allowance <= lp.total_supply,
    ensures
        withdraw_outcome(Some(pool), env, info, lp) matches Ok(o) ==> {
            &&& o.response.messages.len() == 2
            &&& o.response.messages[1].amount() <= pool.balance
            &&& o.pool.balance == pool.balance - o.response.messages[1].amount()
        },
{
    let balance = pool.balance;
    let allowance = lp.allowance as nat;
    let supply = lp.total_supply as nat;
    if supply != 0 {
        assert(balance * allowance / supply <= balance) by (nonlinear_arith)
            requires
                allowance <= supply,
                supply != 0,
        ;
    }
}

/// Out and back: a first deposit into an empty pool, with no share in
/// existence, mints as many shares as were deposited; once the LP contract
/// has minted them they are the total supply, and redeeming all of them
/// sends the same amount back and empties the pool.
pub proof fn law_deposit_withdraw_round_trip(
    pool: PoolView,
    env: EnvView,
    info: MessageInfoView,
    lp: AllowanceAndTotalSupplyResponse,
)
    requires
        pool.balance == 0,
        denom_check(info, pool) is Ok,
        lp.total_supply == info.funds[0].amount,
        lp.allowance == lp.total_supply,
        lp.allowance != 0,
        !lp.expires.expired_at(env.height, env.time),
    ensures
        deposit_outcome(Some(pool), info, 0) matches Ok(deposited) && {
            &&& deposited.response.messages[0].amount() == info.funds[0].amount
            &&& withdraw_outcome(Some(deposited.pool), env, info, lp) matches Ok(withdrawn)
            &&& withdrawn.response.messages[1].amount() == info.funds[0].amount
            &&& withdrawn.pool == pool
        },
{
    let deposited = deposit_outcome(Some(pool), info, 0)->Ok_0;
    lemma_whole_ratio(deposited.pool.balance, lp.total_supply as nat);
}

/// The game contract borrows what the balance covers and no more: an amount
/// above the balance is refused with `NotEnoughPool`; any other moves from
/// the balance to the borrowed principal and is sent to the caller.
pub proof fn law_borrow(pool: PoolView, info: MessageInfoView, amount: nat)
    requires
        game_contract_check(info, pool) is Ok,
    ensures
        amount > pool.balance ==> borrow_outcome(Some(pool), info, amount) == Err::<
            Outcome,
            ContractError,
        >(ContractError::NotEnoughPool {}),
        amount <= pool.balance ==> (borrow_outcome(Some(pool), info, amount) matches Ok(o) && {
            &&& o.pool.balance == pool.balance - amount
            &&& o.pool.borrow_balance == pool.borrow_balance + amount
            &&& o.pool.fee_pool == pool.fee_pool
            &&& o.response.messages.len() == 1
            &&& o.response.messages[0] == EffectView::Send {
                to_address: info.sender,
                amount: CoinView { denom: pool.denom, amount },
            }
        }),
{
}

/// A payment back by the game contract raises the balance by the whole
/// amount paid and lowers the borrowed principal by half of it, rounded
/// down, stopping at zero.
pub proof fn law_payback(pool: PoolView, info: MessageInfoView)
    requires
        game_contract_check(info, pool) is Ok,
        denom_check(info, pool) is Ok,
    ensures
        payback_outcome(Some(pool), info) matches Ok(o) && {
            let paid = info.funds[0].amount;
            &&& o.pool.balance == pool.balance + paid
            &&& paid / 2 <= pool.borrow_balance ==> o.pool.borrow_balance == pool.borrow_balance
                - paid / 2
            &&& paid / 2 > pool.borrow_balance ==> o.pool.borrow_balance == 0
            &&& o.pool.fee_pool == pool.fee_pool
            &&& o.response.messages.len() == 0
        },
{
}

/// A fee provided by the game contract is added to the fee pool and to
/// nothing else.
pub proof fn law_provide_fee(pool: PoolView, info: MessageInfoView)
    requires
        game_contract_check(info, pool) is Ok,
        denom_check(info, pool) is Ok,
    ensures
        provide_fee_outcome(Some(pool), info) matches Ok(o) && {
            &&& o.pool == PoolView { fee_pool: pool.fee_pool + info.funds[0].amount, ..pool }
            &&& o.response.messages.len() == 0
        },
{
}

/// Providing a fee, borrowing and paying back are the game contract's alone:
/// from any other caller each of them fails with `InvalidContractAddress`,
/// whatever else the request holds.
pub proof fn law_game_contract_only(
    pool: PoolView,
    env: EnvView,
    info: MessageInfoView,
    msg: ExecuteMsg,
    reply: Option<LPQueryResponse>,
)
    requires
        msg is ProvideFee || msg is BorrowBalance || msg is PayBack,
        info.sender != pool.game_contract,
    ensures
        execute_outcome(Some(pool), env, info, msg, reply) == Err::<Outcome, ContractError>(
            ContractError::InvalidContractAddress {},
        ),
{
}

/// A request that expects payment fails unless exactly one coin of the
/// pool's denomination comes with it: with `MustSendCoin` where none does,
/// with `InvalidOneTypeCoin` where more than one does, and with
/// `InvalidDenom` where the one coin is of another denomination. For the
/// game contract's requests this is said of calls by the game contract.
pub proof fn law_payment(
    pool: PoolView,
    env: EnvView,
    info: MessageInfoView,
    msg: ExecuteMsg,
    reply: Option<LPQueryResponse>,
)
    requires
        msg is Deposit || msg is ProvideFee || msg is PayBack,
        msg is Deposit || info.sender == pool.game_contract,
    ensures
        info.funds.len() == 0 ==> execute_outcome(Some(pool), env, info, msg, reply) == Err::<
            Outcome,
            ContractError,
        >(ContractError::MustSendCoin {}),
        info.funds.len() > 1 ==> execute_outcome(Some(pool), env, info, msg, reply) == Err::<
            Outcome,
            ContractError,
        >(ContractError::InvalidOneTypeCoin {}),
        info.funds.len() == 1 && info.funds[0].denom != pool.denom ==> execute_outcome(
            Some(pool),
            env,
            info,
            msg,
            reply,
        ) == Err::<Outcome, ContractError>(ContractError::InvalidDenom {}),
{
}

/// A withdrawal on an allowance of zero fails with `InvalidLPAllowance`, and
/// one on an allowance that has expired with `InvalidExpires`.
pub proof fn law_withdraw_allowance(
    pool: PoolView,
    env: EnvView,
    info: MessageInfoView,
    lp: AllowanceAndTotalSupplyResponse,
)
    ensures
        lp.allowance == 0 ==> withdraw_outcome(Some(pool), env, info, lp) == Err::<
            Outcome,
            ContractError,
        >(ContractError::InvalidLPAllowance {}),
        lp.allowance != 0 && lp.expires.expired_at(env.height, env.time) ==> withdraw_outcome(
            Some(pool),
            env,
            info,
            lp,
        ) == Err::<Outcome, ContractError>(ContractError::InvalidExpires {}),
{
}

/// No request changes what was fixed at creation: the denomination and the
/// two contract addresses.
pub proof fn law_configuration_is_fixed(
    pool: PoolView,
    env: EnvView,
    info: MessageInfoView,
    msg: ExecuteMsg,
    reply: Option<LPQueryResponse>,
)
    ensures
        execute_outcome(Some(pool), env, info, msg, reply) matches Ok(o) ==> {
            &&& o.pool.denom == pool.denom
            &&& o.pool.lp_contract == pool.lp_contract
            &&& o.pool.game_contract == pool.game_contract
        },
{
}

/// Each amount of the record moves only by the requests that are meant to
/// move it: the balance rises only by a deposit or a payment back and falls
/// only by a withdrawal or a loan; the fee pool changes only by a fee
/// provided, and never falls; the borrowed principal rises only by a loan
/// and falls only by a payment back.
pub proof fn law_amounts_move_by_their_requests(
    pool: PoolView,
    env: EnvView,
    info: MessageInfoView,
    msg: ExecuteMsg,
    reply: Option<LPQueryResponse>,
)
    ensures
        execute_outcome(Some(pool), env, info, msg, reply) matches Ok(o) ==> {
            &&& o.pool.balance > pool.balance ==> msg is Deposit || msg is PayBack
            &&& o.pool.balance < pool.balance ==> msg is Withdraw || msg is BorrowBalance
            &&& o.pool.fee_pool >= pool.fee_pool
            &&& o.pool.fee_pool != pool.fee_pool ==> msg is ProvideFee
            &&& o.pool.borrow_balance > pool.borrow_balance ==> msg is BorrowBalance
            &&& o.pool.borrow_balance < pool.borrow_balance ==> msg is PayBack
        },
{
}

/// Before the pool is created every request fails with `NotFound`.
pub proof fn law_nothing_before_creation(
    env: EnvView,
    info: MessageInfoView,
    msg: ExecuteMsg,
    reply: Option<LPQueryResponse>,
)
    ensures
        execute_outcome(None, env, info, msg, reply) is Err,
{
}

/// `balance * supply / supply` is `balance` for a supply other than zero.
proof fn lemma_whole_ratio(balance: nat, supply: nat)
    requires
        supply != 0,
    ensures
        withdraw_amount(balance, supply, supply) == balance,
{
    assert(balance * supply / supply == balance) by (nonlinear_arith)
        requires
            supply != 0,
    ;
}

} // verus!
