use cosmwasm_std::StdError;
use cw20_guardian::amount::{Decimal256, Uint256};
use cw20_guardian::contract::execute_liquidate_collateral;
use cw20_guardian::error::ContractError;
use cw20_guardian::liquidation::{Liquidation, Reply, Request, Settlement, Step};
use cw20_guardian::settlement::{checked_liquidation_value, checked_settlement};
use cw20_guardian::types::{
    AddrInput, Attribute, Borrower, Config, Env, Guardian, Message, MessageInfo, Response,
};

const ONE: u64 = 1_000_000_000_000_000_000;

fn uint(n: u128) -> Uint256 {
    Uint256 { limbs: [n as u64, (n >> 64) as u64, 0, 0] }
}

fn rate(n: u128) -> Decimal256 {
    Decimal256 { limbs: [n as u64, (n >> 64) as u64, 0, 0] }
}

fn top_bit() -> Uint256 {
    Uint256 { limbs: [0, 0, 0, 1 << 63] }
}

fn begin(liquidator_fee: u128) -> Liquidation {
    let config = Config {
        owner: "owner".to_string(),
        anchor_market_contract: "market".to_string(),
        anchor_overseer_contract: "overseer".to_string(),
        anchor_liquidation_contract: "liquidation".to_string(),
        anchor_oracle_contract: "oracle".to_string(),
        liquidator_fee,
    };
    let env = Env { block_height: 12, block_time: 3400, contract_address: "guardian".to_string() };
    let info = MessageInfo { sender: "dave".to_string() };
    let address =
        AddrInput { input: "Carol".to_string(), validated: Ok("carol".to_string()) };
    execute_liquidate_collateral(Ok(config), env, info, address).unwrap()
}

fn tokens(list: &[(&str, u128)]) -> Vec<(String, Uint256)> {
    list.iter().map(|t| (t.0.to_string(), uint(t.1))).collect()
}

fn guardians(list: &[(&str, &str)]) -> Reply {
    Reply::Guardians(Borrower {
        guardians: list
            .iter()
            .map(|g| Guardian { address: g.0.to_string(), pair_address: g.1.to_string() })
            .collect(),
    })
}

/// Gives an answer and expects the liquidation to go on.
fn go_on(at: Liquidation, reply: Reply) -> Liquidation {
    assert!(at.accepts(&reply));
    match at.resume(reply) {
        Ok(Step::Ask(next)) => next,
        other => panic!("{:?}", other),
    }
}

/// Gives an answer and expects the liquidation to end.
fn end(at: Liquidation, reply: Reply) -> Response {
    assert!(at.accepts(&reply));
    match at.resume(reply) {
        Ok(Step::Done(response)) => response,
        other => panic!("{:?}", other),
    }
}

/// A liquidation that waits for the guardians of a loan of 1100 coins with a
/// limit of 1000, where 200 coins' worth would be liquidated.
fn settled(liquidator_fee: u128) -> Liquidation {
    let at = begin(liquidator_fee);
    let at = go_on(at, Reply::Loan(uint(1_100_000_000)));
    let at = go_on(at, Reply::Collaterals(tokens(&[("bluna", 90_000_000), ("beth", 7)])));
    let at = go_on(at, Reply::Limit(uint(1_000_000_000)));
    let at = go_on(at, Reply::Timeframe(60));
    let at = go_on(at, Reply::Price(rate(4 * ONE as u128)));
    let at = go_on(at, Reply::Price(rate(ONE as u128 / 2)));
    go_on(at, Reply::Amounts(tokens(&[("bluna", 49_999_999), ("beth", 9)])))
}

fn keys_and_values(attributes: &[Attribute]) -> Vec<(String, String)> {
    attributes.iter().map(|a| (a.key.clone(), a.value.clone())).collect()
}

fn pairs(list: &[(&str, &str)]) -> Vec<(String, String)> {
    list.iter().map(|p| (p.0.to_string(), p.1.to_string())).collect()
}

#[test]
fn questions_are_asked_in_order() {
    let at = begin(0);
    assert_eq!(
        at.request(),
        Request::BorrowerInfo {
            market: "market".to_string(),
            borrower: "carol".to_string(),
            block_height: 12
        }
    );
    let at = go_on(at, Reply::Loan(uint(100)));
    assert_eq!(
        at.request(),
        Request::Collaterals { overseer: "overseer".to_string(), borrower: "carol".to_string() }
    );
    let at = go_on(at, Reply::Collaterals(tokens(&[("bluna", 5), ("beth", 6)])));
    assert_eq!(
        at.request(),
        Request::BorrowLimit {
            overseer: "overseer".to_string(),
            borrower: "carol".to_string(),
            block_time: 3400
        }
    );
    let at = go_on(at, Reply::Limit(uint(100)));
    assert_eq!(at.request(), Request::OverseerConfig { overseer: "overseer".to_string() });
    let at = go_on(at, Reply::Timeframe(60));
    let price = |base: &str| Request::Price {
        oracle: "oracle".to_string(),
        base: base.to_string(),
        quote: "uusd".to_string(),
        block_time: 3400,
        valid_timeframe: 60,
    };
    assert_eq!(at.request(), price("bluna"));
    let at = go_on(at, Reply::Price(rate(3)));
    assert_eq!(at.request(), price("beth"));
    let at = go_on(at, Reply::Price(rate(4)));
    assert_eq!(
        at.request(),
        Request::LiquidationAmount {
            liquidation: "liquidation".to_string(),
            borrow_amount: uint(100),
            borrow_limit: uint(100),
            collaterals: tokens(&[("bluna", 5), ("beth", 6)]),
            collateral_prices: vec![rate(3), rate(4)],
        }
    );
    let at = go_on(at, Reply::Amounts(tokens(&[])));
    assert_eq!(at.request(), Request::Guardians { address: "Carol".to_string() });
    let at = go_on(at, guardians(&[("anc", "pool")]));
    assert_eq!(
        at.request(),
        Request::Allowance {
            token: "anc".to_string(),
            owner: "Carol".to_string(),
            spender: "guardian".to_string()
        }
    );
    let at = go_on(at, Reply::Allowance(9));
    assert_eq!(
        at.request(),
        Request::ReverseSimulation {
            pair: "pool".to_string(),
            denom: "uusd".to_string(),
            ask_amount: 10_000_000
        }
    );
    let at = go_on(at, Reply::Offer(8));
    assert_eq!(
        at.request(),
        Request::Simulation {
            pair: "pool".to_string(),
            token: "anc".to_string(),
            offer_amount: 8
        }
    );
}

#[test]
fn loan_below_its_limit_is_left_alone() {
    let at = go_on(begin(0), Reply::Loan(uint(99)));
    let at = go_on(at, Reply::Collaterals(tokens(&[])));
    assert_eq!(at.resume(Reply::Limit(uint(100))), Err(ContractError::CollateralRatioSafe));
}

#[test]
fn limits_are_compared_in_full_width() {
    let at = go_on(begin(0), Reply::Loan(uint(u128::MAX)));
    let at = go_on(at, Reply::Collaterals(tokens(&[])));
    assert_eq!(at.resume(Reply::Limit(top_bit())), Err(ContractError::CollateralRatioSafe));
}

#[test]
fn failed_answer_ends_the_liquidation() {
    let failed = || Reply::Failed(StdError::generic_err("no answer"));
    let error = || Err(ContractError::Std(StdError::generic_err("no answer")));
    assert_eq!(begin(0).resume(failed()), error());
    assert_eq!(settled(0).resume(failed()), error());
    let at = go_on(settled(0), guardians(&[("anc", "pool")]));
    assert_eq!(at.resume(failed()), error());
}

#[test]
fn no_collateral_needs_no_price() {
    let at = go_on(begin(0), Reply::Loan(uint(100)));
    let at = go_on(at, Reply::Collaterals(tokens(&[])));
    let at = go_on(at, Reply::Limit(uint(100)));
    let at = go_on(at, Reply::Timeframe(60));
    assert!(matches!(at.request(), Request::LiquidationAmount { .. }));
}

#[test]
fn guardians_repay_the_loan() {
    // 49_999_999 at 4 is 199_999_996, and 9 at a half is 4 rounded down.
    let at = settled(50_000_000_000_000_000);
    let at = go_on(at, guardians(&[("anc", "pool_a"), ("mir", "pool_m")]));
    // 110 coins are asked for, and 10 more.
    let at = go_on(at, Reply::Allowance(30_000_000));
    let at = go_on(at, Reply::Offer(60_000_000));
    let at = go_on(at, Reply::Return(55_000_000));
    assert_eq!(
        at.request(),
        Request::Allowance {
            token: "mir".to_string(),
            owner: "Carol".to_string(),
            spender: "guardian".to_string()
        }
    );
    let at = go_on(at, Reply::Allowance(90_000_000));
    assert_eq!(
        at.request(),
        Request::ReverseSimulation {
            pair: "pool_m".to_string(),
            denom: "uusd".to_string(),
            ask_amount: 65_000_000
        }
    );
    let at = go_on(at, Reply::Offer(20_000_000));
    let response = end(at, Reply::Return(64_999_999));
    assert_eq!(
        keys_and_values(&response.attributes),
        pairs(&[
            ("borrower_loan", "1100000000"),
            ("borrower_limit", "1000000000"),
            ("liquidation_value", "200000000"),
            ("ask_amount_init", "110000000"),
            ("repayment_amount", "100000000"),
            ("guardian_offer_amount", "30000000"),
            ("expected_ust", "55000000"),
            ("ask_amount_left", "65000000"),
            ("guardian_offer_amount", "20000000"),
            ("expected_ust", "64999999"),
            ("ask_amount_left", "1"),
        ])
    );
    let transfer = |token: &str, amount| Message::TransferFrom {
        token: token.to_string(),
        owner: "Carol".to_string(),
        recipient: "guardian".to_string(),
        amount,
    };
    let swap = |token: &str, pair: &str, amount| Message::Swap {
        token: token.to_string(),
        pair: pair.to_string(),
        amount,
    };
    assert_eq!(
        response.messages,
        vec![
            transfer("anc", 30_000_000),
            swap("anc", "pool_a", 30_000_000),
            transfer("mir", 20_000_000),
            swap("mir", "pool_m", 20_000_000),
            Message::RepayStable { wallet: "Carol".to_string(), amount: 100_000_000 },
            Message::BankSend { to_address: "dave".to_string(), amount: 10_000_000 },
        ]
    );
}

#[test]
fn too_large_a_shortfall_goes_to_the_overseer() {
    let at = go_on(begin(0), Reply::Loan(uint(1_991_000_000)));
    let at = go_on(at, Reply::Collaterals(tokens(&[])));
    let at = go_on(at, Reply::Limit(uint(1_000_000_000)));
    let at = go_on(at, Reply::Timeframe(60));
    let at = go_on(at, Reply::Amounts(tokens(&[])));
    let at = go_on(at, guardians(&[("anc", "pool")]));
    let at = go_on(at, Reply::Allowance(5));
    let at = go_on(at, Reply::Offer(5));
    let response = end(at, Reply::Return(1_000_000));
    assert_eq!(
        response.messages,
        vec![Message::LiquidateCollateral {
            overseer: "overseer".to_string(),
            borrower: "Carol".to_string()
        }]
    );
    assert_eq!(response.attributes.len(), 8);
}

#[test]
fn shortfall_just_below_the_limit_is_repaid() {
    let at = go_on(begin(0), Reply::Loan(uint(1_991_000_000)));
    let at = go_on(at, Reply::Collaterals(tokens(&[])));
    let at = go_on(at, Reply::Limit(uint(1_000_000_000)));
    let at = go_on(at, Reply::Timeframe(60));
    let at = go_on(at, Reply::Amounts(tokens(&[])));
    let at = go_on(at, guardians(&[("anc", "pool")]));
    let at = go_on(at, Reply::Allowance(5));
    let at = go_on(at, Reply::Offer(5));
    let response = end(at, Reply::Return(1_000_001));
    assert_eq!(response.messages.len(), 4);
    assert_eq!(
        response.messages[2],
        Message::RepayStable { wallet: "Carol".to_string(), amount: 991_000_000 }
    );
}

#[test]
fn without_guardians_a_small_sum_is_still_repaid() {
    let response = end(settled(0), guardians(&[]));
    assert_eq!(
        response.messages,
        vec![
            Message::RepayStable { wallet: "Carol".to_string(), amount: 100_000_000 },
            Message::BankSend { to_address: "dave".to_string(), amount: 0 },
        ]
    );
    assert_eq!(response.attributes.len(), 5);
}

#[test]
fn where_nothing_is_asked_only_the_first_guardian_has_its_turn() {
    let at = go_on(begin(0), Reply::Loan(uint(100)));
    let at = go_on(at, Reply::Collaterals(tokens(&[])));
    let at = go_on(at, Reply::Limit(uint(100)));
    let at = go_on(at, Reply::Timeframe(60));
    let at = go_on(at, Reply::Amounts(tokens(&[])));
    let at = go_on(at, guardians(&[("anc", "pool"), ("mir", "pool")]));
    let at = go_on(at, Reply::Allowance(5));
    let at = go_on(at, Reply::Offer(5));
    let response = end(at, Reply::Return(1));
    assert_eq!(response.messages.len(), 4);
}

#[test]
fn offer_is_the_smaller_of_need_and_allowance() {
    let offered = |allowance, required| {
        let at = go_on(settled(0), guardians(&[("anc", "pool")]));
        let at = go_on(at, Reply::Allowance(allowance));
        match go_on(at, Reply::Offer(required)) {
            Liquidation::Return { offer, .. } => offer,
            other => panic!("{:?}", other),
        }
    };
    assert_eq!(offered(3, 4), 3);
    assert_eq!(offered(4, 3), 3);
    assert_eq!(offered(4, 4), 4);
}

#[test]
fn answers_out_of_place_or_range_are_not_accepted() {
    assert!(!begin(0).accepts(&Reply::Limit(uint(1))));
    assert!(!begin(0).accepts(&Reply::Return(1)));
    let at = go_on(settled(0), guardians(&[("anc", "pool")]));
    let at = go_on(at, Reply::Allowance(5));
    let at = go_on(at, Reply::Offer(5));
    assert!(at.accepts(&Reply::Return(110_000_000)));
    assert!(!at.accepts(&Reply::Return(110_000_001)));
}

#[test]
fn amounts_out_of_range_are_not_accepted() {
    let priced = |loan: Uint256, fee: u128| {
        let at = go_on(begin(fee), Reply::Loan(loan));
        let at = go_on(at, Reply::Collaterals(tokens(&[("bluna", 1)])));
        let at = go_on(at, Reply::Limit(uint(0)));
        let at = go_on(at, Reply::Timeframe(60));
        go_on(at, Reply::Price(rate(ONE as u128)))
    };
    let huge = || Reply::Amounts(vec![("bluna".to_string(), top_bit())]);
    // The product with the price does not fit.
    assert!(!priced(uint(1), 0).accepts(&huge()));
    // The fee on the value does not fit.
    let large = Uint256 { limbs: [0, 0, 0, 1] };
    let list = || Reply::Amounts(vec![("bluna".to_string(), large)]);
    assert!(priced(uint(1), 0).accepts(&list()));
    assert!(!priced(uint(1), u128::MAX).accepts(&list()));
    // What is asked for, with the buffer, has to fit into 128 bits.
    let none = || Reply::Amounts(tokens(&[]));
    assert!(priced(uint(u128::MAX - 10_000_000), 0).accepts(&none()));
    assert!(!priced(uint(u128::MAX - 9_999_999), 0).accepts(&none()));
    assert!(!priced(Uint256 { limbs: [0, 0, 1, 0] }, 0).accepts(&none()));
}

#[test]
fn value_counts_pairs_only() {
    let amounts = tokens(&[("a", 10), ("b", 3), ("c", 1000)]);
    let prices = vec![rate(2 * ONE as u128), rate(ONE as u128 / 2)];
    assert_eq!(checked_liquidation_value(&amounts, &prices), Some(uint(21)));
    assert_eq!(checked_liquidation_value(&tokens(&[]), &prices), Some(uint(0)));
}

#[test]
fn value_out_of_range_is_reported() {
    let one = Decimal256 { limbs: [1, 0, 0, 0] };
    let two = vec![("a".to_string(), Uint256::max()), ("b".to_string(), Uint256::max())];
    assert!(checked_liquidation_value(&two, &vec![one, one]).is_some());
    let doubled = Decimal256 { limbs: [2, 0, 0, 0] };
    assert_eq!(checked_liquidation_value(&two, &vec![one, doubled]), None);
    assert!(Uint256::max().sum_overflows(&uint(1)));
    assert!(!Uint256::max().sum_overflows(&Uint256::zero()));
    assert!(top_bit().sum_overflows(&top_bit()));
    assert!(!uint(u128::MAX).sum_overflows(&top_bit()));
}

#[test]
fn value_carries_across_limbs() {
    let amounts = tokens(&[("a", u128::MAX), ("b", 1)]);
    let prices = vec![rate(ONE as u128), rate(ONE as u128)];
    assert_eq!(
        checked_liquidation_value(&amounts, &prices),
        Some(Uint256 { limbs: [0, 0, 1, 0] })
    );
}

#[test]
fn settlement_adds_up() {
    assert_eq!(
        checked_settlement(&uint(110), &uint(100), 123_456_789_012_345_678, &uint(1000)),
        Some(Settlement { liquidator_fee: 123, repayment_amount: 10, ask_amount: 133 })
    );
    assert_eq!(
        checked_settlement(&uint(100), &uint(100), 0, &uint(1000)),
        Some(Settlement { liquidator_fee: 0, repayment_amount: 0, ask_amount: 0 })
    );
    assert_eq!(
        checked_settlement(&uint(100), &uint(100), 3 * ONE as u128, &uint(7)),
        Some(Settlement { liquidator_fee: 21, repayment_amount: 0, ask_amount: 21 })
    );
    // The smallest and the largest rate.
    assert_eq!(
        checked_settlement(&uint(1), &uint(1), 1, &uint(ONE as u128)).map(|s| s.liquidator_fee),
        Some(1)
    );
    assert_eq!(
        checked_settlement(&uint(1), &uint(1), u128::MAX, &uint(1)).map(|s| s.liquidator_fee),
        Some(340_282_366_920_938_463_463)
    );
    assert_eq!(checked_settlement(&Uint256::max(), &Uint256::max(), ONE as u128, &uint(1)), None);
}

#[test]
fn large_loans_are_written_out() {
    let at = go_on(begin(0), Reply::Loan(Uint256::max()));
    let at = go_on(at, Reply::Collaterals(tokens(&[])));
    let at = go_on(at, Reply::Limit(Uint256::max()));
    let at = go_on(at, Reply::Timeframe(60));
    let at = go_on(at, Reply::Amounts(tokens(&[])));
    let response = end(at, guardians(&[]));
    assert_eq!(
        response.attributes[0].value,
        "115792089237316195423570985008687907853269984665640564039457584007913129639935"
    );
    assert_eq!(response.attributes[2].value, "0");
}
