use cosmwasm_std::StdError;
use cw20_guardian::contract::{
    execute, execute_add_guardian, execute_liquidate_collateral, execute_update_config,
    execute_whitelist_cw20, instantiate, query, query_config, query_guardians, Execution,
};
use cw20_guardian::error::ContractError;
use cw20_guardian::liquidation::{Liquidation, Request};
use cw20_guardian::types::{
    AddrInput, Attribute, Borrower, Config, ConfigResponse, Deps, Env, ExecuteMsg, Guardian,
    InstantiateMsg, MessageInfo, Outcome, QueryMsg, QueryResponse, Response, State, Write,
};

fn addr(text: &str) -> AddrInput {
    AddrInput { input: text.to_string(), validated: Ok(text.to_lowercase()) }
}

fn bad(text: &str) -> AddrInput {
    AddrInput {
        input: text.to_string(),
        validated: Err(StdError::generic_err(format!("invalid {}", text))),
    }
}

fn invalid(text: &str) -> ContractError {
    ContractError::Std(StdError::generic_err(format!("invalid {}", text)))
}

fn missing(kind: &str) -> StdError {
    StdError::not_found(kind)
}

fn info(sender: &str) -> MessageInfo {
    MessageInfo { sender: sender.to_string() }
}

fn env() -> Env {
    Env { block_height: 12, block_time: 3400, contract_address: "guardian".to_string() }
}

fn config(owner: &str) -> Config {
    Config {
        owner: owner.to_string(),
        anchor_market_contract: "market".to_string(),
        anchor_overseer_contract: "overseer".to_string(),
        anchor_liquidation_contract: "liquidation".to_string(),
        anchor_oracle_contract: "oracle".to_string(),
        liquidator_fee: 50_000_000_000_000_000,
    }
}

fn state(tokens: &[&str]) -> State {
    State { whitelisted_cw20s: tokens.iter().map(|t| t.to_string()).collect() }
}

fn guardian(address: &str, pair: &str) -> Guardian {
    Guardian { address: address.to_string(), pair_address: pair.to_string() }
}

fn action(name: &str) -> Response {
    Response {
        attributes: vec![Attribute { key: "action".to_string(), value: name.to_string() }],
        messages: vec![],
    }
}

fn instantiate_msg() -> InstantiateMsg {
    InstantiateMsg {
        owner: addr("Owner"),
        anchor_market_contract: addr("Market"),
        anchor_overseer_contract: addr("Overseer"),
        anchor_liquidation_contract: addr("Liquidation"),
        anchor_oracle_contract: addr("Oracle"),
        liquidator_fee: 50_000_000_000_000_000,
    }
}

#[test]
fn instantiate_writes_an_empty_whitelist_and_then_the_settings() {
    let outcome = instantiate(instantiate_msg()).unwrap();
    assert_eq!(
        outcome,
        Outcome {
            writes: vec![Write::State(state(&[])), Write::Config(config("owner"))],
            response: Response { attributes: vec![], messages: vec![] },
        }
    );
}

#[test]
fn instantiate_reports_the_first_invalid_address() {
    let mut msg = instantiate_msg();
    msg.anchor_oracle_contract = bad("oracle");
    msg.anchor_overseer_contract = bad("overseer");
    assert_eq!(instantiate(msg), Err(invalid("overseer")));

    let mut msg = instantiate_msg();
    msg.owner = bad("owner");
    msg.anchor_market_contract = bad("market");
    assert_eq!(instantiate(msg), Err(invalid("owner")));

    let mut msg = instantiate_msg();
    msg.anchor_market_contract = bad("market");
    assert_eq!(instantiate(msg), Err(invalid("market")));

    let mut msg = instantiate_msg();
    msg.anchor_liquidation_contract = bad("liquidation");
    assert_eq!(instantiate(msg), Err(invalid("liquidation")));

    let mut msg = instantiate_msg();
    msg.anchor_oracle_contract = bad("oracle");
    assert_eq!(instantiate(msg), Err(invalid("oracle")));
}

#[test]
fn update_config_changes_only_the_owner() {
    let outcome = execute_update_config(Ok(config("alice")), info("alice"), addr("BOB")).unwrap();
    assert_eq!(
        outcome,
        Outcome {
            writes: vec![Write::Config(config("bob"))],
            response: action("update_config"),
        }
    );
}

#[test]
fn update_config_is_for_the_owner() {
    assert_eq!(
        execute_update_config(Ok(config("alice")), info("eve"), addr("eve")),
        Err(ContractError::Unauthorized)
    );
    // The owner is checked before the address.
    assert_eq!(
        execute_update_config(Ok(config("alice")), info("eve"), bad("eve")),
        Err(ContractError::Unauthorized)
    );
    assert_eq!(
        execute_update_config(Ok(config("alice")), info("alice"), bad("x")),
        Err(invalid("x"))
    );
    assert_eq!(
        execute_update_config(Err(missing("config")), info("alice"), addr("x")),
        Err(ContractError::Std(missing("config")))
    );
}

#[test]
fn ownership_moves_on() {
    let outcome = execute_update_config(Ok(config("alice")), info("alice"), addr("bob")).unwrap();
    let next = |outcome: &Outcome| match &outcome.writes[0] {
        Write::Config(c) => c.owner.clone(),
        _ => panic!("no settings"),
    };
    let owner = next(&outcome);
    assert_eq!(
        execute_update_config(Ok(config(&owner)), info("alice"), addr("alice")),
        Err(ContractError::Unauthorized)
    );
    assert!(execute_update_config(Ok(config(&owner)), info("bob"), addr("carol")).is_ok());
}

#[test]
fn whitelist_appends_a_new_token() {
    let outcome = execute_whitelist_cw20(
        Ok(config("alice")),
        Ok(state(&["anc"])),
        info("alice"),
        addr("MIR"),
    )
    .unwrap();
    assert_eq!(
        outcome,
        Outcome {
            writes: vec![Write::State(state(&["anc", "mir"]))],
            response: action("whitelist_cw20"),
        }
    );
}

#[test]
fn whitelisting_twice_writes_nothing() {
    let outcome = execute_whitelist_cw20(
        Ok(config("alice")),
        Ok(state(&["anc", "mir"])),
        info("alice"),
        addr("anc"),
    )
    .unwrap();
    assert_eq!(outcome, Outcome { writes: vec![], response: action("whitelist_cw20") });
}

#[test]
fn whitelist_errors_come_in_order() {
    let call = |config, state, sender: &str, token| {
        execute_whitelist_cw20(config, state, info(sender), token)
    };
    assert_eq!(
        call(Err(missing("config")), Err(missing("state")), "eve", bad("t")),
        Err(ContractError::Std(missing("config")))
    );
    assert_eq!(
        call(Ok(config("alice")), Err(missing("state")), "eve", bad("t")),
        Err(ContractError::Unauthorized)
    );
    assert_eq!(
        call(Ok(config("alice")), Err(missing("state")), "alice", bad("t")),
        Err(invalid("t"))
    );
    assert_eq!(
        call(Ok(config("alice")), Err(missing("state")), "alice", addr("t")),
        Err(ContractError::Std(missing("state")))
    );
}

fn added(borrower: Result<Borrower, StdError>, token: &str, pair: &str) -> Vec<Guardian> {
    let outcome = execute_add_guardian(
        Ok(state(&["anc", "mir", "mine"])),
        borrower,
        info("carol"),
        addr(token),
        addr(pair),
    )
    .unwrap();
    assert_eq!(outcome.response, action("add_guardian"));
    assert_eq!(outcome.writes.len(), 1);
    match outcome.writes.into_iter().next() {
        Some(Write::Borrower { key, borrower }) => {
            assert_eq!(key, "carol");
            borrower.guardians
        }
        _ => panic!("no record"),
    }
}

#[test]
fn first_guardian_starts_a_record() {
    assert_eq!(added(Err(missing("borrower")), "ANC", "POOL"), vec![guardian("anc", "pool")]);
}

#[test]
fn guardian_is_appended_and_replaces_its_predecessor() {
    let before = Borrower {
        guardians: vec![guardian("anc", "p1"), guardian("mir", "p2"), guardian("mine", "p3")],
    };
    assert_eq!(
        added(Ok(before), "mir", "p4"),
        vec![guardian("anc", "p1"), guardian("mine", "p3"), guardian("mir", "p4")]
    );
}

#[test]
fn only_the_first_duplicate_is_replaced() {
    let before = Borrower { guardians: vec![guardian("anc", "p1"), guardian("anc", "p2")] };
    assert_eq!(
        added(Ok(before), "anc", "p3"),
        vec![guardian("anc", "p2"), guardian("anc", "p3")]
    );
}

#[test]
fn registering_twice_is_registering_once() {
    let once = added(Ok(Borrower { guardians: vec![guardian("mir", "p2")] }), "anc", "p1");
    let twice = added(Ok(Borrower { guardians: vec![guardian("mir", "p2"), guardian("anc", "p1")] }), "anc", "p1");
    assert_eq!(once, twice);
}

#[test]
fn guardian_needs_a_whitelisted_token() {
    let call = |state, token, pair| {
        execute_add_guardian(state, Err(missing("borrower")), info("carol"), token, pair)
    };
    assert_eq!(
        call(Ok(state(&["anc"])), addr("mir"), addr("p")),
        Err(ContractError::Unauthorized)
    );
    assert_eq!(
        call(Ok(state(&["anc"])), addr("mir"), bad("p")),
        Err(invalid("p"))
    );
    assert_eq!(call(Ok(state(&["anc"])), bad("t"), bad("p")), Err(invalid("t")));
    assert_eq!(
        call(Err(missing("state")), bad("t"), bad("p")),
        Err(ContractError::Std(missing("state")))
    );
}

#[test]
fn execute_dispatches() {
    let deps = || Deps {
        config: Ok(config("alice")),
        state: Ok(state(&["anc"])),
        borrower: Ok(Borrower { guardians: vec![] }),
    };
    let finished = |r: Result<Execution, ContractError>| match r {
        Ok(Execution::Finished(outcome)) => outcome.response,
        other => panic!("{:?}", other),
    };
    let run = |sender: &str, msg| execute(deps(), env(), info(sender), msg);
    assert_eq!(
        finished(run("alice", ExecuteMsg::WhitelistCw20 { address: addr("mir") })),
        action("whitelist_cw20")
    );
    assert_eq!(
        finished(run("alice", ExecuteMsg::UpdateConfig { owner: addr("bob") })),
        action("update_config")
    );
    assert_eq!(
        finished(run(
            "carol",
            ExecuteMsg::AddGuardian { cw20_address: addr("anc"), pair_address: addr("p") }
        )),
        action("add_guardian")
    );
    assert_eq!(
        run("carol", ExecuteMsg::UpdateConfig { owner: addr("carol") }),
        Err(ContractError::Unauthorized)
    );
    match run("dave", ExecuteMsg::LiquidateCollateral { address: addr("Carol") }) {
        Ok(Execution::Liquidating(Liquidation::Loan { task })) => {
            assert_eq!(task.sender, "dave");
            assert_eq!(task.address, "Carol");
            assert_eq!(task.borrower, "carol");
            assert_eq!(task.config, config("alice"));
            assert_eq!(task.env, env());
        }
        other => panic!("{:?}", other),
    }
}

#[test]
fn liquidation_begins_with_the_loan() {
    let begun =
        execute_liquidate_collateral(Ok(config("alice")), env(), info("dave"), addr("Carol"))
            .unwrap();
    assert_eq!(
        begun.request(),
        Request::BorrowerInfo {
            market: "market".to_string(),
            borrower: "carol".to_string(),
            block_height: 12,
        }
    );
    assert_eq!(
        execute_liquidate_collateral(Err(missing("config")), env(), info("dave"), bad("x")),
        Err(ContractError::Std(missing("config")))
    );
    assert_eq!(
        execute_liquidate_collateral(Ok(config("alice")), env(), info("dave"), bad("x")),
        Err(invalid("x"))
    );
}

#[test]
fn queries_report_the_records() {
    let response = ConfigResponse {
        owner: "alice".to_string(),
        anchor_market_contract: "market".to_string(),
        anchor_overseer_contract: "overseer".to_string(),
        anchor_liquidation_contract: "liquidation".to_string(),
        anchor_oracle_contract: "oracle".to_string(),
        liquidator_fee: 50_000_000_000_000_000,
    };
    let deps = || Deps {
        config: Ok(config("alice")),
        state: Err(missing("state")),
        borrower: Ok(Borrower { guardians: vec![guardian("anc", "p")] }),
    };
    assert_eq!(query(deps(), QueryMsg::Config), Ok(QueryResponse::Config(response)));
    assert_eq!(
        query(deps(), QueryMsg::Guardians { address: addr("carol") }),
        Ok(QueryResponse::Guardians(Borrower { guardians: vec![guardian("anc", "p")] }))
    );
    assert_eq!(
        query(deps(), QueryMsg::Guardians { address: bad("carol") }),
        Err(invalid("carol"))
    );
    assert_eq!(
        query_config(Err(missing("config"))),
        Err(ContractError::Std(missing("config")))
    );
    assert_eq!(
        query_guardians(Err(missing("borrower")), addr("carol")),
        Err(ContractError::Std(missing("borrower")))
    );
}

#[test]
fn own_errors_have_a_text() {
    assert_eq!(ContractError::Unauthorized.message(), Some("Unauthorized".to_string()));
    assert_eq!(
        ContractError::CollateralRatioSafe.message(),
        Some("collateral ratio is safe".to_string())
    );
    assert_eq!(ContractError::Std(missing("x")).message(), None);
}
