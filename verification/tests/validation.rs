use amg_bank::helper::{check_denom, check_enough_pool, check_game_contract};
use amg_bank::state::Pool;
use amg_bank::types::{coin, Coin, MessageInfo};
use amg_bank::ContractError;

fn pool_with(balance: u128) -> Pool {
    Pool {
        denom: String::from("uconst"),
        balance,
        fee_pool: 0,
        borrow_balance: 0,
        lp_contract: String::from("lp"),
        game_contract: String::from("game"),
    }
}

fn call(sender: &str, funds: Vec<Coin>) -> MessageInfo {
    MessageInfo { sender: String::from(sender), funds }
}

#[test]
fn coin_holds_amount_and_denom() {
    assert_eq!(coin(15, "uconst"), Coin { denom: String::from("uconst"), amount: 15 });
    assert_eq!(coin(0, ""), Coin { denom: String::new(), amount: 0 });
}

#[test]
fn one_coin_of_the_pools_denom_passes() {
    let info = call("anyone", vec![coin(5, "uconst")]);
    assert_eq!(check_denom(&info, &pool_with(0)), Ok(()));
}

#[test]
fn a_coin_of_amount_zero_passes() {
    let info = call("anyone", vec![coin(0, "uconst")]);
    assert_eq!(check_denom(&info, &pool_with(0)), Ok(()));
}

#[test]
fn no_coin_is_must_send_coin() {
    let info = call("anyone", vec![]);
    assert_eq!(check_denom(&info, &pool_with(0)), Err(ContractError::MustSendCoin {}));
}

#[test]
fn two_coins_are_invalid_one_type_coin() {
    let info = call("anyone", vec![coin(5, "uconst"), coin(5, "uconst")]);
    assert_eq!(check_denom(&info, &pool_with(0)), Err(ContractError::InvalidOneTypeCoin {}));
}

#[test]
fn the_number_of_coins_is_checked_before_their_denom() {
    let info = call("anyone", vec![coin(5, "other"), coin(5, "another"), coin(1, "uconst")]);
    assert_eq!(check_denom(&info, &pool_with(0)), Err(ContractError::InvalidOneTypeCoin {}));
}

#[test]
fn another_denom_is_invalid_denom() {
    let info = call("anyone", vec![coin(5, "uatom")]);
    assert_eq!(check_denom(&info, &pool_with(0)), Err(ContractError::InvalidDenom {}));
    let info = call("anyone", vec![coin(5, "uconst ")]);
    assert_eq!(check_denom(&info, &pool_with(0)), Err(ContractError::InvalidDenom {}));
    let info = call("anyone", vec![coin(5, "UCONST")]);
    assert_eq!(check_denom(&info, &pool_with(0)), Err(ContractError::InvalidDenom {}));
}

#[test]
fn the_game_contract_passes() {
    let info = call("game", vec![]);
    assert_eq!(check_game_contract(&info, &pool_with(0)), Ok(()));
}

#[test]
fn any_other_caller_is_invalid_contract_address() {
    for sender in ["lp", "gam", "game2", "", "Game"] {
        let info = call(sender, vec![]);
        assert_eq!(
            check_game_contract(&info, &pool_with(0)),
            Err(ContractError::InvalidContractAddress {})
        );
    }
}

#[test]
fn a_balance_that_covers_the_amount_passes() {
    assert_eq!(check_enough_pool(&pool_with(100), 99), Ok(()));
    assert_eq!(check_enough_pool(&pool_with(100), 100), Ok(()));
    assert_eq!(check_enough_pool(&pool_with(0), 0), Ok(()));
    assert_eq!(check_enough_pool(&pool_with(u128::MAX), u128::MAX), Ok(()));
}

#[test]
fn a_smaller_balance_is_not_enough_pool() {
    assert_eq!(check_enough_pool(&pool_with(100), 101), Err(ContractError::NotEnoughPool {}));
    assert_eq!(check_enough_pool(&pool_with(0), 1), Err(ContractError::NotEnoughPool {}));
}
