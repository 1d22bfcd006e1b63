use cosmwasm_std::StdError;
use cw20_guardian::amount::{Decimal256, Uint256};
use cw20_guardian::error::ContractError;
use cw20_guardian::liquidation::{stable_denom, Request};
use cw20_guardian::types::Message;
use cw20_guardian::wire::{
    encode_message, encode_request, execute_call, smart_query, Coin, SmartQuery, WireMessage,
};

fn encoded(request: Request) -> (String, String) {
    let query = encode_request(&request).unwrap().unwrap();
    (query.contract_addr, String::from_utf8(query.msg).unwrap())
}

fn to(contract: &str, json: &str) -> (String, String) {
    (contract.to_string(), json.to_string())
}

fn called(message: Message) -> (String, String) {
    match encode_message(&message).unwrap() {
        WireMessage::Execute { contract_addr, msg, funds } => {
            assert!(funds.is_empty());
            (contract_addr, String::from_utf8(msg).unwrap())
        }
        other => panic!("{:?}", other),
    }
}

#[test]
fn market_is_asked_for_the_loan() {
    assert_eq!(
        encoded(Request::BorrowerInfo {
            market: "market".to_string(),
            borrower: "carol".to_string(),
            block_height: 12
        }),
        to("market", r#"{"borrower_info":{"borrower":"carol","block_height":12}}"#)
    );
}

#[test]
fn overseer_is_asked() {
    assert_eq!(
        encoded(Request::Collaterals {
            overseer: "overseer".to_string(),
            borrower: "ca\"rol".to_string()
        }),
        to("overseer", r#"{"collaterals":{"borrower":"ca\"rol"}}"#)
    );
    assert_eq!(
        encoded(Request::BorrowLimit {
            overseer: "overseer".to_string(),
            borrower: "carol".to_string(),
            block_time: 3400
        }),
        to("overseer", r#"{"borrow_limit":{"borrower":"carol","block_time":3400}}"#)
    );
    assert_eq!(
        encoded(Request::OverseerConfig { overseer: "overseer".to_string() }),
        to("overseer", r#"{"config":{}}"#)
    );
}

#[test]
fn liquidation_contract_is_asked() {
    let head = r#"{"liquidation_amount":{"borrow_amount":"18446744073709551616","borrow_limit":"7","#;
    let tail = r#""collaterals":[["bluna","5"],["beth","6"]],"collateral_prices":["1.5","1"]}}"#;
    assert_eq!(
        encoded(Request::LiquidationAmount {
            liquidation: "liquidation".to_string(),
            borrow_amount: Uint256 { limbs: [0, 1, 0, 0] },
            borrow_limit: Uint256 { limbs: [7, 0, 0, 0] },
            collaterals: vec![
                ("bluna".to_string(), Uint256 { limbs: [5, 0, 0, 0] }),
                ("beth".to_string(), Uint256 { limbs: [6, 0, 0, 0] }),
            ],
            collateral_prices: vec![
                Decimal256 { limbs: [1_500_000_000_000_000_000, 0, 0, 0] },
                Decimal256 { limbs: [1_000_000_000_000_000_000, 0, 0, 0] },
            ],
        }),
        to("liquidation", &format!("{}{}", head, tail))
    );
}

#[test]
fn token_and_pool_are_asked() {
    assert_eq!(
        encoded(Request::Allowance {
            token: "anc".to_string(),
            owner: "carol".to_string(),
            spender: "guardian".to_string()
        }),
        to("anc", r#"{"allowance":{"owner":"carol","spender":"guardian"}}"#)
    );
    assert_eq!(
        encoded(Request::ReverseSimulation {
            pair: "pool".to_string(),
            denom: "uusd".to_string(),
            ask_amount: 17
        }),
        to(
            "pool",
            r#"{"reverse_simulation":{"ask_asset":{"info":{"native_token":{"denom":"uusd"}},"amount":"17"}}}"#
        )
    );
    assert_eq!(
        encoded(Request::Simulation {
            pair: "pool".to_string(),
            token: "anc".to_string(),
            offer_amount: 18
        }),
        to(
            "pool",
            r#"{"simulation":{"offer_asset":{"info":{"token":{"contract_addr":"anc"}},"amount":"18"}}}"#
        )
    );
}

#[test]
fn price_and_guardians_are_not_asked_that_way() {
    assert!(encode_request(&Request::Guardians { address: "carol".to_string() }).is_none());
    assert!(encode_request(&Request::Price {
        oracle: "oracle".to_string(),
        base: "bluna".to_string(),
        quote: stable_denom(),
        block_time: 3400,
        valid_timeframe: 60
    })
    .is_none());
}

#[test]
fn tokens_are_fetched_and_swapped() {
    assert_eq!(
        called(Message::TransferFrom {
            token: "anc".to_string(),
            owner: "carol".to_string(),
            recipient: "guardian".to_string(),
            amount: 30
        }),
        to("anc", r#"{"transfer_from":{"owner":"carol","recipient":"guardian","amount":"30"}}"#)
    );
    let hook = cosmwasm_std::Binary(
        br#"{"swap":{"belief_price":null,"max_spread":null,"to":null}}"#.to_vec(),
    );
    let json = format!(
        r#"{{"send":{{"contract":"pool","amount":"30","msg":"{}"}}}}"#,
        hook.to_base64()
    );
    assert_eq!(
        called(Message::Swap {
            token: "anc".to_string(),
            pair: "pool".to_string(),
            amount: 30
        }),
        to("anc", &json)
    );
}

#[test]
fn overseer_is_told_to_liquidate() {
    assert_eq!(
        called(Message::LiquidateCollateral {
            overseer: "overseer".to_string(),
            borrower: "carol".to_string()
        }),
        to("overseer", r#"{"liquidate_collateral":{"borrower":"carol"}}"#)
    );
}

#[test]
fn coins_are_paid_in_the_stable_denomination() {
    let coins = |amount| vec![Coin { denom: "uusd".to_string(), amount }];
    assert_eq!(
        encode_message(&Message::RepayStable { wallet: "carol".to_string(), amount: 100 }),
        Ok(WireMessage::Repay {
            contract_addr: "carol".to_string(),
            amount: 100,
            funds: coins(100)
        })
    );
    assert_eq!(
        encode_message(&Message::BankSend { to_address: "dave".to_string(), amount: 5 }),
        Ok(WireMessage::Send { to_address: "dave".to_string(), coins: coins(5) })
    );
}

#[test]
fn encodings_are_carried_over() {
    let error = || StdError::generic_err("cannot encode");
    assert_eq!(
        smart_query("pool".to_string(), Ok(vec![1, 2])),
        Ok(SmartQuery { contract_addr: "pool".to_string(), msg: vec![1, 2] })
    );
    assert_eq!(
        smart_query("pool".to_string(), Err(error())),
        Err(ContractError::Std(error()))
    );
    assert_eq!(
        execute_call("pool".to_string(), Ok(vec![3])),
        Ok(WireMessage::Execute {
            contract_addr: "pool".to_string(),
            msg: vec![3],
            funds: vec![]
        })
    );
    assert_eq!(
        execute_call("pool".to_string(), Err(error())),
        Err(ContractError::Std(error()))
    );
}
