use amg_bank::contract::{
    borrow_balance, deposit, execute, lp_query, payback, provide_fee, withdraw, within_limits,
};
use amg_bank::msg::ExecuteMsg;
use amg_bank::query::{
    AllowanceAndTotalSupplyResponse, Expiration, LPQuery, LPQueryMsg, LPQueryResponse,
};
use amg_bank::response::{Attribute, AttributeValue, Effect, Response};
use amg_bank::state::{Ledger, Pool};
use amg_bank::types::{coin, BlockInfo, Coin, ContractInfo, Env, MessageInfo};
use amg_bank::{ContractError, StdError};

fn pool(denom: &str, balance: u128, fee_pool: u128, borrow_balance: u128) -> Pool {
    Pool {
        denom: String::from(denom),
        balance,
        fee_pool,
        borrow_balance,
        lp_contract: String::from("lp"),
        game_contract: String::from("game"),
    }
}

fn ledger(balance: u128, fee_pool: u128, borrow_balance: u128) -> Ledger {
    Ledger { pool: Some(pool("uconst", balance, fee_pool, borrow_balance)) }
}

fn call(sender: &str, funds: Vec<Coin>) -> MessageInfo {
    MessageInfo { sender: String::from(sender), funds }
}

fn env_at(height: u64, time: u64) -> Env {
    Env {
        block: BlockInfo { height, time, chain_id: String::from("test") },
        contract: ContractInfo { address: String::from("bank") },
    }
}

fn env() -> Env {
    env_at(100, 5_000)
}

fn allowance(total_supply: u128, allowance: u128) -> AllowanceAndTotalSupplyResponse {
    AllowanceAndTotalSupplyResponse { total_supply, allowance, expires: Expiration::Never {} }
}

fn text(key: &str, value: &str) -> Attribute {
    Attribute { key: String::from(key), value: AttributeValue::Text(String::from(value)) }
}

fn amount(key: &str, value: u128) -> Attribute {
    Attribute { key: String::from(key), value: AttributeValue::Amount(value) }
}

fn minted(recipient: &str, shares: u128, denom: &str, paid: u128) -> Response {
    Response {
        messages: vec![mint(recipient, shares)],
        attributes: vec![
            text("method", "deposit"),
            text("denom", denom),
            amount("deposit_amount", paid),
        ],
    }
}

fn redeemed(owner: &str, shares: u128, denom: &str, paid: u128) -> Response {
    let paid_key = format!("{}_amount", denom);
    Response {
        messages: vec![burn(owner, shares), send(owner, paid, denom)],
        attributes: vec![
            text("method", "withdraw"),
            amount("lp_amount", shares),
            amount(paid_key.as_str(), paid),
        ],
    }
}

fn lent(to: &str, sum: u128) -> Response {
    Response { messages: vec![send(to, sum, "uconst")], attributes: vec![] }
}

fn nothing() -> Response {
    Response { messages: vec![], attributes: vec![] }
}

fn mint(recipient: &str, amount: u128) -> Effect {
    Effect::Mint { lp_contract: String::from("lp"), recipient: String::from(recipient), amount }
}

fn burn(owner: &str, amount: u128) -> Effect {
    Effect::BurnFrom { lp_contract: String::from("lp"), owner: String::from(owner), amount }
}

fn send(to: &str, amount: u128, denom: &str) -> Effect {
    Effect::Send { to_address: String::from(to), amount: coin(amount, denom) }
}

#[test]
fn scenario_first_and_second_deposit() {
    let mut ledger = Ledger { pool: Some(pool("x", 0, 0, 0)) };
    let first = deposit(&mut ledger, &call("alice", vec![coin(100, "x")]), 0);
    assert_eq!(first, Ok(minted("alice", 100, "x", 100)));
    assert_eq!(ledger.pool, Some(pool("x", 100, 0, 0)));

    let second = deposit(&mut ledger, &call("bob", vec![coin(50, "x")]), 100);
    assert_eq!(second, Ok(minted("bob", 50, "x", 50)));
    assert_eq!(ledger.pool, Some(pool("x", 150, 0, 0)));
}

#[test]
fn scenario_borrow_then_pay_back_double() {
    let mut ledger = ledger(100, 0, 0);
    let borrowed = borrow_balance(&mut ledger, &call("game", vec![]), 40);
    assert_eq!(borrowed, Ok(lent("game", 40)));
    assert_eq!(ledger.pool, Some(pool("uconst", 60, 0, 40)));

    let paid = payback(&mut ledger, &call("game", vec![coin(80, "uconst")]));
    assert_eq!(paid, Ok(nothing()));
    assert_eq!(ledger.pool, Some(pool("uconst", 140, 0, 0)));
}

#[test]
fn scenario_withdraw_without_allowance() {
    let mut ledger = ledger(100, 3, 4);
    let r = withdraw(&mut ledger, &env(), &call("alice", vec![]), allowance(100, 0));
    assert_eq!(r, Err(ContractError::InvalidLPAllowance {}));
    assert_eq!(ledger.pool, Some(pool("uconst", 100, 3, 4)));
}

#[test]
fn deposit_adds_the_amount_to_the_balance() {
    let mut ledger = ledger(1000, 5, 6);
    let r = deposit(&mut ledger, &call("alice", vec![coin(30, "uconst")]), 500);
    assert_eq!(r, Ok(minted("alice", 15, "uconst", 30)));
    assert_eq!(ledger.pool, Some(pool("uconst", 1030, 5, 6)));
}

#[test]
fn deposit_mints_the_amount_while_no_share_exists() {
    let mut ledger = ledger(1000, 0, 0);
    let r = deposit(&mut ledger, &call("alice", vec![coin(30, "uconst")]), 0);
    assert_eq!(r, Ok(minted("alice", 30, "uconst", 30)));
    assert_eq!(ledger.pool, Some(pool("uconst", 1030, 0, 0)));
}

#[test]
fn deposit_mints_the_amount_while_the_balance_is_zero() {
    let mut ledger = ledger(0, 0, 0);
    let r = deposit(&mut ledger, &call("alice", vec![coin(30, "uconst")]), 77);
    assert_eq!(r, Ok(minted("alice", 30, "uconst", 30)));
    assert_eq!(ledger.pool, Some(pool("uconst", 30, 0, 0)));
}

#[test]
fn deposit_rounds_the_shares_down() {
    let mut ledger = ledger(3, 0, 0);
    let r = deposit(&mut ledger, &call("alice", vec![coin(2, "uconst")]), 4);
    assert_eq!(r, Ok(minted("alice", 2, "uconst", 2)));
    assert_eq!(ledger.pool, Some(pool("uconst", 5, 0, 0)));
}

#[test]
fn deposit_of_zero_mints_nothing() {
    let mut ledger = ledger(10, 0, 0);
    let r = deposit(&mut ledger, &call("alice", vec![coin(0, "uconst")]), 10);
    assert_eq!(r, Ok(minted("alice", 0, "uconst", 0)));
    assert_eq!(ledger.pool, Some(pool("uconst", 10, 0, 0)));
}

#[test]
fn deposit_is_open_to_any_caller() {
    let mut ledger = ledger(0, 0, 0);
    let r = deposit(&mut ledger, &call("game", vec![coin(1, "uconst")]), 0);
    assert_eq!(r, Ok(minted("game", 1, "uconst", 1)));
}

#[test]
fn deposit_round_trip_returns_the_deposit() {
    let mut ledger = ledger(0, 0, 0);
    let r = deposit(&mut ledger, &call("alice", vec![coin(250, "uconst")]), 0);
    assert_eq!(r, Ok(minted("alice", 250, "uconst", 250)));
    let r = withdraw(&mut ledger, &env(), &call("alice", vec![]), allowance(250, 250));
    assert_eq!(
        r,
        Ok(redeemed("alice", 250, "uconst", 250))
    );
    assert_eq!(ledger.pool, Some(pool("uconst", 0, 0, 0)));
}

#[test]
fn withdraw_burns_then_sends() {
    let mut ledger = ledger(1000, 7, 8);
    let r = withdraw(&mut ledger, &env(), &call("alice", vec![]), allowance(100, 30));
    assert_eq!(
        r,
        Ok(redeemed("alice", 30, "uconst", 300))
    );
    assert_eq!(ledger.pool, Some(pool("uconst", 700, 7, 8)));
}

#[test]
fn withdraw_rounds_the_amount_down() {
    let mut ledger = ledger(7, 0, 0);
    let r = withdraw(&mut ledger, &env(), &call("alice", vec![]), allowance(3, 1));
    assert_eq!(r, Ok(redeemed("alice", 1, "uconst", 2)));
    assert_eq!(ledger.pool, Some(pool("uconst", 5, 0, 0)));
}

#[test]
fn withdraw_with_no_share_in_existence_pays_the_whole_balance() {
    let mut ledger = ledger(40, 0, 0);
    let r = withdraw(&mut ledger, &env(), &call("alice", vec![]), allowance(0, 5));
    assert_eq!(r, Ok(redeemed("alice", 5, "uconst", 40)));
    assert_eq!(ledger.pool, Some(pool("uconst", 0, 0, 0)));
}

#[test]
fn withdraw_of_more_than_the_balance_leaves_zero() {
    let mut ledger = ledger(100, 0, 0);
    let r = withdraw(&mut ledger, &env(), &call("alice", vec![]), allowance(10, 30));
    assert_eq!(
        r,
        Ok(redeemed("alice", 30, "uconst", 300))
    );
    assert_eq!(ledger.pool, Some(pool("uconst", 0, 0, 0)));
}

#[test]
fn withdraw_pays_in_the_pools_denomination() {
    let mut ledger = Ledger { pool: Some(pool("x", 10, 0, 0)) };
    let r = withdraw(&mut ledger, &env(), &call("alice", vec![]), allowance(10, 5));
    assert_eq!(r, Ok(redeemed("alice", 5, "x", 5)));
}

#[test]
fn withdraw_on_an_expired_allowance_is_invalid_expires() {
    let at_height = AllowanceAndTotalSupplyResponse {
        total_supply: 100,
        allowance: 30,
        expires: Expiration::AtHeight(100),
    };
    let at_time = AllowanceAndTotalSupplyResponse {
        total_supply: 100,
        allowance: 30,
        expires: Expiration::AtTime(5_000),
    };
    for (lp, env) in [
        (at_height, env_at(100, 0)),
        (at_height, env_at(101, 0)),
        (at_height, env_at(u64::MAX, 0)),
        (at_time, env_at(0, 5_000)),
        (at_time, env_at(0, 5_001)),
        (at_time, env_at(0, u64::MAX)),
    ] {
        let mut ledger = ledger(1000, 0, 0);
        let r = withdraw(&mut ledger, &env, &call("alice", vec![]), lp);
        assert_eq!(r, Err(ContractError::InvalidExpires {}));
        assert_eq!(ledger.pool, Some(pool("uconst", 1000, 0, 0)));
    }
}

#[test]
fn withdraw_before_the_allowance_expires_succeeds() {
    let at_height = AllowanceAndTotalSupplyResponse {
        total_supply: 100,
        allowance: 30,
        expires: Expiration::AtHeight(100),
    };
    let at_time = AllowanceAndTotalSupplyResponse {
        total_supply: 100,
        allowance: 30,
        expires: Expiration::AtTime(5_000),
    };
    let never = AllowanceAndTotalSupplyResponse {
        total_supply: 100,
        allowance: 30,
        expires: Expiration::Never {},
    };
    for (lp, env) in [
        (at_height, env_at(99, u64::MAX)),
        (at_height, env_at(0, 0)),
        (at_time, env_at(u64::MAX, 4_999)),
        (at_time, env_at(0, 0)),
        (never, env_at(u64::MAX, u64::MAX)),
    ] {
        let mut ledger = ledger(1000, 0, 0);
        let r = withdraw(&mut ledger, &env, &call("alice", vec![]), lp);
        assert_eq!(
            r,
            Ok(redeemed("alice", 30, "uconst", 300))
        );
        assert_eq!(ledger.pool, Some(pool("uconst", 700, 0, 0)));
    }
}

#[test]
fn withdraw_checks_the_allowance_before_its_expiry() {
    let lp = AllowanceAndTotalSupplyResponse {
        total_supply: 100,
        allowance: 0,
        expires: Expiration::AtHeight(1),
    };
    let mut ledger = ledger(1000, 0, 0);
    let r = withdraw(&mut ledger, &env(), &call("alice", vec![]), lp);
    assert_eq!(r, Err(ContractError::InvalidLPAllowance {}));
}

#[test]
fn provide_fee_adds_to_the_fee_pool_only() {
    let mut ledger = ledger(100, 5, 7);
    let r = provide_fee(&mut ledger, &call("game", vec![coin(12, "uconst")]));
    assert_eq!(r, Ok(nothing()));
    assert_eq!(ledger.pool, Some(pool("uconst", 100, 17, 7)));
}

#[test]
fn borrow_of_the_whole_balance_succeeds() {
    let mut ledger = ledger(100, 0, 5);
    let r = borrow_balance(&mut ledger, &call("game", vec![]), 100);
    assert_eq!(r, Ok(lent("game", 100)));
    assert_eq!(ledger.pool, Some(pool("uconst", 0, 0, 105)));
}

#[test]
fn borrow_of_more_than_the_balance_is_not_enough_pool() {
    let mut ledger = ledger(100, 1, 2);
    let r = borrow_balance(&mut ledger, &call("game", vec![]), 101);
    assert_eq!(r, Err(ContractError::NotEnoughPool {}));
    assert_eq!(ledger.pool, Some(pool("uconst", 100, 1, 2)));
}

#[test]
fn borrow_checks_the_caller_before_the_balance() {
    let mut ledger = ledger(100, 0, 0);
    let r = borrow_balance(&mut ledger, &call("alice", vec![]), 101);
    assert_eq!(r, Err(ContractError::InvalidContractAddress {}));
}

#[test]
fn payback_retires_half_of_the_amount_rounded_down() {
    let mut ledger = ledger(10, 0, 100);
    let r = payback(&mut ledger, &call("game", vec![coin(81, "uconst")]));
    assert_eq!(r, Ok(nothing()));
    assert_eq!(ledger.pool, Some(pool("uconst", 91, 0, 60)));
}

#[test]
fn payback_stops_the_borrowed_principal_at_zero() {
    let mut owing = ledger(10, 0, 10);
    let r = payback(&mut owing, &call("game", vec![coin(80, "uconst")]));
    assert_eq!(r, Ok(nothing()));
    assert_eq!(owing.pool, Some(pool("uconst", 90, 0, 0)));

    let mut clear = ledger(0, 0, 0);
    let r = payback(&mut clear, &call("game", vec![coin(1, "uconst")]));
    assert_eq!(r, Ok(nothing()));
    assert_eq!(clear.pool, Some(pool("uconst", 1, 0, 0)));
}

#[test]
fn only_the_game_contract_provides_fees_borrows_and_pays_back() {
    for sender in ["alice", "lp", "bank", ""] {
        let mut ledger = ledger(100, 1, 2);
        let paying = call(sender, vec![coin(10, "uconst")]);
        assert_eq!(
            provide_fee(&mut ledger, &paying),
            Err(ContractError::InvalidContractAddress {})
        );
        assert_eq!(payback(&mut ledger, &paying), Err(ContractError::InvalidContractAddress {}));
        assert_eq!(
            borrow_balance(&mut ledger, &call(sender, vec![]), 10),
            Err(ContractError::InvalidContractAddress {})
        );
        assert_eq!(ledger.pool, Some(pool("uconst", 100, 1, 2)));
    }
}

#[test]
fn the_caller_is_checked_before_the_payment() {
    let mut ledger = ledger(100, 1, 2);
    let unpaid = call("alice", vec![]);
    assert_eq!(provide_fee(&mut ledger, &unpaid), Err(ContractError::InvalidContractAddress {}));
    assert_eq!(payback(&mut ledger, &unpaid), Err(ContractError::InvalidContractAddress {}));
}

#[test]
fn a_wrong_payment_fails_and_leaves_the_ledger_unchanged() {
    let cases = [
        (vec![], ContractError::MustSendCoin {}),
        (vec![coin(1, "uconst"), coin(2, "uconst")], ContractError::InvalidOneTypeCoin {}),
        (vec![coin(1, "uatom"), coin(2, "uconst")], ContractError::InvalidOneTypeCoin {}),
        (vec![coin(1, "uatom")], ContractError::InvalidDenom {}),
    ];
    for (funds, error) in cases {
        let mut ledger = ledger(100, 1, 2);
        assert_eq!(deposit(&mut ledger, &call("alice", funds.clone()), 100), Err(error));
        assert_eq!(provide_fee(&mut ledger, &call("game", funds.clone())), Err(error));
        assert_eq!(payback(&mut ledger, &call("game", funds.clone())), Err(error));
        assert_eq!(ledger.pool, Some(pool("uconst", 100, 1, 2)));
    }
}

#[test]
fn nothing_happens_before_the_pool_is_created() {
    let not_found = Err(ContractError::Std(StdError::NotFound));
    let paying = call("game", vec![coin(10, "uconst")]);
    let mut ledger = Ledger::new();
    assert_eq!(deposit(&mut ledger, &paying, 0), not_found);
    assert_eq!(withdraw(&mut ledger, &env(), &paying, allowance(10, 10)), not_found);
    assert_eq!(provide_fee(&mut ledger, &paying), not_found);
    assert_eq!(borrow_balance(&mut ledger, &paying, 0), not_found);
    assert_eq!(payback(&mut ledger, &paying), not_found);
    assert_eq!(ledger.pool, None);
}

#[test]
fn execute_carries_out_each_request() {
    let mut ledger = ledger(100, 0, 0);
    let paying = call("game", vec![coin(50, "uconst")]);

    let r = execute(
        &mut ledger,
        &env(),
        &paying,
        ExecuteMsg::Deposit {},
        Some(LPQueryResponse::TotalSupply(100)),
    );
    assert_eq!(r, Ok(minted("game", 50, "uconst", 50)));
    assert_eq!(ledger.pool, Some(pool("uconst", 150, 0, 0)));

    let r = execute(
        &mut ledger,
        &env(),
        &call("alice", vec![]),
        ExecuteMsg::Withdraw {},
        Some(LPQueryResponse::AllowanceAndTotalSupply(allowance(150, 50))),
    );
    assert_eq!(r, Ok(redeemed("alice", 50, "uconst", 50)));
    assert_eq!(ledger.pool, Some(pool("uconst", 100, 0, 0)));

    let r = execute(&mut ledger, &env(), &paying, ExecuteMsg::ProvideFee {}, None);
    assert_eq!(r, Ok(nothing()));
    assert_eq!(ledger.pool, Some(pool("uconst", 100, 50, 0)));

    let r = execute(
        &mut ledger,
        &env(),
        &call("game", vec![]),
        ExecuteMsg::BorrowBalance { amount: 25 },
        None,
    );
    assert_eq!(r, Ok(lent("game", 25)));
    assert_eq!(ledger.pool, Some(pool("uconst", 75, 50, 25)));

    let r = execute(&mut ledger, &env(), &paying, ExecuteMsg::PayBack {}, None);
    assert_eq!(r, Ok(nothing()));
    assert_eq!(ledger.pool, Some(pool("uconst", 125, 50, 0)));
}

#[test]
fn execute_ignores_an_answer_that_the_request_did_not_ask_for() {
    let mut ledger = ledger(100, 0, 0);
    let r = execute(
        &mut ledger,
        &env(),
        &call("game", vec![]),
        ExecuteMsg::BorrowBalance { amount: 25 },
        Some(LPQueryResponse::TotalSupply(9)),
    );
    assert_eq!(r, Ok(lent("game", 25)));
}

#[test]
fn execute_without_the_answer_it_asked_for_is_a_parse_error() {
    let parse_err = Err(ContractError::Std(StdError::ParseErr));
    let paying = call("alice", vec![coin(50, "uconst")]);
    let mut ledger = ledger(100, 0, 0);
    for reply in [None, Some(LPQueryResponse::AllowanceAndTotalSupply(allowance(10, 10)))] {
        let r = execute(&mut ledger, &env(), &paying, ExecuteMsg::Deposit {}, reply);
        assert_eq!(r, parse_err);
    }
    for reply in [None, Some(LPQueryResponse::TotalSupply(10))] {
        let r = execute(&mut ledger, &env(), &paying, ExecuteMsg::Withdraw {}, reply);
        assert_eq!(r, parse_err);
    }
    assert_eq!(ledger.pool, Some(pool("uconst", 100, 0, 0)));
}

#[test]
fn execute_reports_a_failed_check_before_a_missing_answer() {
    let mut ledger = ledger(100, 0, 0);
    let r = execute(&mut ledger, &env(), &call("alice", vec![]), ExecuteMsg::Deposit {}, None);
    assert_eq!(r, Err(ContractError::MustSendCoin {}));

    let mut empty = Ledger::new();
    let r = execute(&mut empty, &env(), &call("alice", vec![]), ExecuteMsg::Withdraw {}, None);
    assert_eq!(r, Err(ContractError::Std(StdError::NotFound)));
}

#[test]
fn a_deposit_asks_for_the_total_supply() {
    let ledger = ledger(100, 0, 0);
    let paying = call("alice", vec![coin(50, "uconst")]);
    assert_eq!(
        lp_query(&ledger, &env(), &paying, &ExecuteMsg::Deposit {}),
        Ok(Some(LPQuery { contract_addr: String::from("lp"), msg: LPQueryMsg::TotalSupply {} }))
    );
}

#[test]
fn a_deposit_with_a_wrong_payment_asks_nothing() {
    let ledger = ledger(100, 0, 0);
    assert_eq!(
        lp_query(&ledger, &env(), &call("alice", vec![]), &ExecuteMsg::Deposit {}),
        Err(ContractError::MustSendCoin {})
    );
    assert_eq!(
        lp_query(&ledger, &env(), &call("alice", vec![coin(1, "x")]), &ExecuteMsg::Deposit {}),
        Err(ContractError::InvalidDenom {})
    );
}

#[test]
fn a_withdrawal_asks_for_the_callers_allowance_to_the_pool() {
    let ledger = ledger(100, 0, 0);
    assert_eq!(
        lp_query(&ledger, &env(), &call("alice", vec![]), &ExecuteMsg::Withdraw {}),
        Ok(Some(LPQuery {
            contract_addr: String::from("lp"),
            msg: LPQueryMsg::AllowanceAndTotalSupply {
                owner: String::from("alice"),
                spender: String::from("bank"),
            },
        }))
    );
}

#[test]
fn the_game_contracts_requests_ask_nothing() {
    let ledger = ledger(100, 0, 0);
    let info = call("alice", vec![]);
    for msg in [
        ExecuteMsg::ProvideFee {},
        ExecuteMsg::BorrowBalance { amount: 1 },
        ExecuteMsg::PayBack {},
    ] {
        assert_eq!(lp_query(&ledger, &env(), &info, &msg), Ok(None));
        assert_eq!(lp_query(&Ledger::new(), &env(), &info, &msg), Ok(None));
    }
}

#[test]
fn a_question_before_the_pool_is_created_is_not_found() {
    let info = call("alice", vec![coin(50, "uconst")]);
    for msg in [ExecuteMsg::Deposit {}, ExecuteMsg::Withdraw {}] {
        assert_eq!(
            lp_query(&Ledger::new(), &env(), &info, &msg),
            Err(ContractError::Std(StdError::NotFound))
        );
    }
}

#[test]
fn requests_with_small_amounts_are_within_limits() {
    let ledger = ledger(100, 0, 0);
    let paying = call("game", vec![coin(50, "uconst")]);
    let supply = Some(LPQueryResponse::TotalSupply(100));
    let approved = Some(LPQueryResponse::AllowanceAndTotalSupply(allowance(100, 10)));
    assert!(within_limits(&ledger, &env(), &paying, &ExecuteMsg::Deposit {}, &supply));
    assert!(within_limits(&ledger, &env(), &paying, &ExecuteMsg::Withdraw {}, &approved));
    assert!(within_limits(&ledger, &env(), &paying, &ExecuteMsg::ProvideFee {}, &None));
    assert!(within_limits(&ledger, &env(), &paying, &ExecuteMsg::PayBack {}, &None));
    assert!(within_limits(
        &ledger,
        &env(),
        &paying,
        &ExecuteMsg::BorrowBalance { amount: 100 },
        &None
    ));
}

#[test]
fn amounts_beyond_128_bits_are_not_within_limits() {
    let max = u128::MAX;
    let paying = call("game", vec![coin(1, "uconst")]);
    let supply = |n| Some(LPQueryResponse::TotalSupply(n));

    let full = ledger(max, max, max);
    assert!(!within_limits(&full, &env(), &paying, &ExecuteMsg::Deposit {}, &supply(0)));
    assert!(!within_limits(&full, &env(), &paying, &ExecuteMsg::ProvideFee {}, &None));
    assert!(!within_limits(&full, &env(), &paying, &ExecuteMsg::PayBack {}, &None));
    assert!(!within_limits(
        &full,
        &env(),
        &paying,
        &ExecuteMsg::BorrowBalance { amount: 1 },
        &None
    ));

    let small = ledger(1, 0, 0);
    let large = call("alice", vec![coin(max - 1, "uconst")]);
    assert!(within_limits(&small, &env(), &large, &ExecuteMsg::Deposit {}, &supply(1)));
    assert!(!within_limits(&small, &env(), &large, &ExecuteMsg::Deposit {}, &supply(2)));

    let rich = ledger(max, 0, 0);
    let doubled = Some(LPQueryResponse::AllowanceAndTotalSupply(allowance(1, 2)));
    let whole = Some(LPQueryResponse::AllowanceAndTotalSupply(allowance(2, 2)));
    assert!(!within_limits(&rich, &env(), &paying, &ExecuteMsg::Withdraw {}, &doubled));
    assert!(within_limits(&rich, &env(), &paying, &ExecuteMsg::Withdraw {}, &whole));
}

#[test]
fn requests_that_are_refused_are_within_limits() {
    let max = u128::MAX;
    let full = ledger(max, max, max);
    let stranger = call("alice", vec![coin(1, "uconst")]);
    let unpaid = call("game", vec![]);
    let none_approved = Some(LPQueryResponse::AllowanceAndTotalSupply(allowance(1, 0)));
    assert!(within_limits(&full, &env(), &stranger, &ExecuteMsg::ProvideFee {}, &None));
    assert!(within_limits(&full, &env(), &stranger, &ExecuteMsg::PayBack {}, &None));
    assert!(within_limits(&full, &env(), &unpaid, &ExecuteMsg::PayBack {}, &None));
    assert!(within_limits(&full, &env(), &unpaid, &ExecuteMsg::Deposit {}, &None));
    assert!(within_limits(&full, &env(), &unpaid, &ExecuteMsg::Withdraw {}, &none_approved));
    assert!(within_limits(&Ledger::new(), &env(), &stranger, &ExecuteMsg::PayBack {}, &None));
}
