//! The entry points of the contract.
//!
//! The host validates the addresses of a message, loads the records it needs
//! and calls the entry point with what came of that; it then writes the
//! records of the [`Outcome`] and answers with its response. A liquidation
//! needs more than that and is carried on as a [`Liquidation`].

use cosmwasm_std::StdError;
use vstd::prelude::*;

use crate::error::ContractError;
use crate::liquidation::{Liquidation, LiquidationView, Task, TaskView};
use crate::types::{
    texts, viewed, AddrInput, AddrInputView, Attribute, Borrower, Config, ConfigResponse, ConfigView,
    Deps, DepsView, Env, EnvView, ExecuteMsg, ExecuteMsgView, Guardian, GuardianView,
    InstantiateMsg, InstantiateMsgView, MessageInfo, Outcome, OutcomeView, QueryMsg, QueryMsgView,
    QueryResponse, QueryResponseView, Response, ResponseView, State, Write, WriteView,
};

verus! {

/// What a message leads to.
#[derive(Debug, PartialEq)]
pub enum Execution {
    /// It is decided.
    Finished(Outcome),
    /// A liquidation has begun.
    Liquidating(Liquidation),
}

#[verifier::ext_equal]
pub enum ExecutionView {
    Finished(OutcomeView),
    Liquidating(LiquidationView),
}

impl View for Execution {
    type V = ExecutionView;

    open spec fn view(&self) -> ExecutionView {
        match self {
            Execution::Finished(outcome) => ExecutionView::Finished(outcome@),
            Execution::Liquidating(liquidation) => ExecutionView::Liquidating(liquidation@),
        }
    }
}

// ---------------------------------------------------------------------------
// The rules.

/// An answer that only notes which action was taken.
pub open spec fn action_response(action: Seq<char>) -> ResponseView {
    ResponseView { attributes: seq![("action"@, action)], messages: Seq::empty() }
}

/// Creation: every address has to be valid, and the first one that is not
/// gives the error. The whitelist starts out empty.
pub open spec fn instantiated(msg: InstantiateMsgView) -> Result<OutcomeView, ContractError> {
    match (
        msg.owner.validated,
        msg.anchor_market_contract.validated,
        msg.anchor_overseer_contract.validated,
        msg.anchor_liquidation_contract.validated,
        msg.anchor_oracle_contract.validated,
    ) {
        (Err(e), _, _, _, _) => Err(ContractError::Std(e)),
        (_, Err(e), _, _, _) => Err(ContractError::Std(e)),
        (_, _, Err(e), _, _) => Err(ContractError::Std(e)),
        (_, _, _, Err(e), _) => Err(ContractError::Std(e)),
        (_, _, _, _, Err(e)) => Err(ContractError::Std(e)),
        (Ok(owner), Ok(market), Ok(overseer), Ok(liquidation), Ok(oracle)) => Ok(
            OutcomeView {
                writes: seq![
                    WriteView::State(Seq::empty()),
                    WriteView::Config(
                        ConfigView {
                            owner,
                            anchor_market_contract: market,
                            anchor_overseer_contract: overseer,
                            anchor_liquidation_contract: liquidation,
                            anchor_oracle_contract: oracle,
                            liquidator_fee: msg.liquidator_fee,
                        },
                    ),
                ],
                response: ResponseView { attributes: Seq::empty(), messages: Seq::empty() },
            },
        ),
    }
}

/// A change of owner: only the owner may make it, and nothing else changes.
pub open spec fn config_updated(
    config: Result<ConfigView, StdError>,
    sender: Seq<char>,
    owner: AddrInputView,
) -> Result<OutcomeView, ContractError> {
    match config {
        Err(e) => Err(ContractError::Std(e)),
        Ok(config) => if config.owner != sender {
            Err(ContractError::Unauthorized)
        } else {
            match owner.validated {
                Err(e) => Err(ContractError::Std(e)),
                Ok(owner) => Ok(
                    OutcomeView {
                        writes: seq![WriteView::Config(ConfigView { owner, ..config })],
                        response: action_response("update_config"@),
                    },
                ),
            }
        },
    }
}

/// A token for the whitelist: only the owner may add it, and a token that is
/// already there is left where it is.
pub open spec fn cw20_whitelisted(
    config: Result<ConfigView, StdError>,
    state: Result<Seq<Seq<char>>, StdError>,
    sender: Seq<char>,
    address: AddrInputView,
) -> Result<OutcomeView, ContractError> {
    match config {
        Err(e) => Err(ContractError::Std(e)),
        Ok(config) => if config.owner != sender {
            Err(ContractError::Unauthorized)
        } else {
            match (address.validated, state) {
                (Err(e), _) => Err(ContractError::Std(e)),
                (_, Err(e)) => Err(ContractError::Std(e)),
                (Ok(address), Ok(state)) => Ok(
                    OutcomeView {
                        writes: if state.contains(address) {
                            Seq::empty()
                        } else {
                            seq![WriteView::State(state.push(address))]
                        },
                        response: action_response("whitelist_cw20"@),
                    },
                ),
            }
        },
    }
}

/// Whether the first guardian for the token `address` stands at `i`.
pub open spec fn first_at(guardians: Seq<GuardianView>, address: Seq<char>, i: int) -> bool {
    &&& 0 <= i < guardians.len()
    &&& guardians[i].address == address
    &&& forall|j: int| 0 <= j < i ==> (#[trigger] guardians[j]).address != address
}

/// The guardians without the first one for the token `address`; all of them,
/// where there is none.
pub open spec fn without_first(
    guardians: Seq<GuardianView>,
    address: Seq<char>,
) -> Seq<GuardianView> {
    if exists|i: int| first_at(guardians, address, i) {
        guardians.remove(choose|i: int| first_at(guardians, address, i))
    } else {
        guardians
    }
}

/// The guardians once `guardian` is registered: it comes last, in place of an
/// earlier one for the same token.
pub open spec fn registered(
    guardians: Seq<GuardianView>,
    guardian: GuardianView,
) -> Seq<GuardianView> {
    without_first(guardians, guardian.address).push(guardian)
}

/// A guardian for the sender: its token has to be whitelisted. A sender whose
/// record cannot be loaded has no guardians yet.
pub open spec fn guardian_added(
    state: Result<Seq<Seq<char>>, StdError>,
    borrower: Result<Seq<GuardianView>, StdError>,
    sender: Seq<char>,
    cw20_address: AddrInputView,
    pair_address: AddrInputView,
) -> Result<OutcomeView, ContractError> {
    match (state, cw20_address.validated, pair_address.validated) {
        (Err(e), _, _) => Err(ContractError::Std(e)),
        (_, Err(e), _) => Err(ContractError::Std(e)),
        (_, _, Err(e)) => Err(ContractError::Std(e)),
        (Ok(state), Ok(address), Ok(pair_address)) => if !state.contains(address) {
            Err(ContractError::Unauthorized)
        } else {
            let guardians = match borrower {
                Ok(guardians) => guardians,
                Err(_) => Seq::empty(),
            };
            Ok(
                OutcomeView {
                    writes: seq![
                        WriteView::Borrower {
                            key: sender,
                            borrower: registered(guardians, GuardianView { address, pair_address }),
                        },
                    ],
                    response: action_response("add_guardian"@),
                },
            )
        },
    }
}

/// The start of a liquidation: it waits for the amount of the loan.
pub open spec fn liquidation_begun(
    config: Result<ConfigView, StdError>,
    env: EnvView,
    sender: Seq<char>,
    address: AddrInputView,
) -> Result<LiquidationView, ContractError> {
    match (config, address.validated) {
        (Err(e), _) => Err(ContractError::Std(e)),
        (_, Err(e)) => Err(ContractError::Std(e)),
        (Ok(config), Ok(borrower)) => Ok(
            LiquidationView::Loan {
                task: TaskView { env, sender, address: address.input, borrower, config },
            },
        ),
    }
}

/// A decided message as an execution.
pub open spec fn finished(
    r: Result<OutcomeView, ContractError>,
) -> Result<ExecutionView, ContractError> {
    match r {
        Ok(outcome) => Ok(ExecutionView::Finished(outcome)),
        Err(e) => Err(e),
    }
}

/// What a message leads to, whichever it is.
pub open spec fn executed(
    deps: DepsView,
    env: EnvView,
    sender: Seq<char>,
    msg: ExecuteMsgView,
) -> Result<ExecutionView, ContractError> {
    match msg {
        ExecuteMsgView::WhitelistCw20 { address } => finished(
            cw20_whitelisted(deps.config, deps.state, sender, address),
        ),
        ExecuteMsgView::UpdateConfig { owner } => finished(
            config_updated(deps.config, sender, owner),
        ),
        ExecuteMsgView::AddGuardian { cw20_address, pair_address } => finished(
            guardian_added(deps.state, deps.borrower, sender, cw20_address, pair_address),
        ),
        ExecuteMsgView::LiquidateCollateral { address } => match liquidation_begun(
            deps.config,
            env,
            sender,
            address,
        ) {
            Ok(liquidation) => Ok(ExecutionView::Liquidating(liquidation)),
            Err(e) => Err(e),
        },
    }
}

/// The guardians of an address: it has to be valid and to have a record.
pub open spec fn guardians_of(
    borrower: Result<Seq<GuardianView>, StdError>,
    address: AddrInputView,
) -> Result<Seq<GuardianView>, ContractError> {
    match (address.validated, borrower) {
        (Err(e), _) => Err(ContractError::Std(e)),
        (_, Err(e)) => Err(ContractError::Std(e)),
        (_, Ok(guardians)) => Ok(guardians),
    }
}

/// The settings, where they can be loaded.
pub open spec fn config_of(
    config: Result<ConfigView, StdError>,
) -> Result<ConfigView, ContractError> {
    match config {
        Ok(config) => Ok(config),
        Err(e) => Err(ContractError::Std(e)),
    }
}

/// The answer to a query, whichever it is.
pub open spec fn answered(
    deps: DepsView,
    msg: QueryMsgView,
) -> Result<QueryResponseView, ContractError> {
    match msg {
        QueryMsgView::Config => match config_of(deps.config) {
            Ok(config) => Ok(QueryResponseView::Config(config)),
            Err(e) => Err(e),
        },
        QueryMsgView::Guardians { address } => match guardians_of(deps.borrower, address) {
            Ok(guardians) => Ok(QueryResponseView::Guardians(guardians)),
            Err(e) => Err(e),
        },
    }
}

// ---------------------------------------------------------------------------
// The code.

/// See the rule [`action_response`].
fn respond(action: &str) -> (r: Response)
    ensures
        r@ == action_response(action@),
{
    let mut attributes: Vec<Attribute> = Vec::new();
    attributes.push(Attribute { key: "action".to_owned(), value: action.to_owned() });
    let response = Response { attributes, messages: Vec::new() };
    assert(response@ =~= action_response(action@));
    response
}

/// An outcome with a single record to write.
fn write_one(write: Write, response: Response) -> (r: Outcome)
    ensures
        r@ == (OutcomeView { writes: seq![write@], response: response@ }),
        r.writes@ == seq![write],
{
    let mut writes: Vec<Write> = Vec::new();
    writes.push(write);
    let outcome = Outcome { writes, response };
    assert(outcome@.writes =~= seq![write@]);
    outcome
}

/// Whether `address` is in the list.
fn contains(list: &Vec<String>, address: &String) -> (r: bool)
    ensures
        r == texts(list@).contains(address@),
{
    let ghost all = texts(list@);
    let mut i: usize = 0;
    while i < list.len()
        invariant
            i <= list.len(),
            all == texts(list@),
            forall|k: int| 0 <= k < i ==> all[k] != address@,
        decreases list.len() - i,
    {
        if list[i] == *address {
            assert(all[i as int] == address@);
            return true;
        }
        i += 1;
    }
    assert(!all.contains(address@));
    false
}

/// Creates the contract.
pub fn instantiate(msg: InstantiateMsg) -> (r: Result<Outcome, ContractError>)
    ensures
        viewed(r) == instantiated(msg@),
        r matches Ok(outcome) ==> {
            &&& outcome.writes@[0] matches Write::State(state)
            &&& state.whitelisted_cw20s@.len() == 0
            &&& outcome.writes@[1] matches Write::Config(config)
            &&& config.owner == msg.owner.validated->Ok_0
            &&& config.anchor_market_contract == msg.anchor_market_contract.validated->Ok_0
            &&& config.anchor_overseer_contract == msg.anchor_overseer_contract.validated->Ok_0
            &&& config.anchor_liquidation_contract
                == msg.anchor_liquidation_contract.validated->Ok_0
            &&& config.anchor_oracle_contract == msg.anchor_oracle_contract.validated->Ok_0
            &&& config.liquidator_fee == msg.liquidator_fee
        },
{
    let owner = match msg.owner.validated {
        Ok(addr) => addr,
        Err(e) => return Err(ContractError::Std(e)),
    };
    let anchor_market_contract = match msg.anchor_market_contract.validated {
        Ok(addr) => addr,
        Err(e) => return Err(ContractError::Std(e)),
    };
    let anchor_overseer_contract = match msg.anchor_overseer_contract.validated {
        Ok(addr) => addr,
        Err(e) => return Err(ContractError::Std(e)),
    };
    let anchor_liquidation_contract = match msg.anchor_liquidation_contract.validated {
        Ok(addr) => addr,
        Err(e) => return Err(ContractError::Std(e)),
    };
    let anchor_oracle_contract = match msg.anchor_oracle_contract.validated {
        Ok(addr) => addr,
        Err(e) => return Err(ContractError::Std(e)),
    };
    let config = Config {
        owner,
        anchor_market_contract,
        anchor_overseer_contract,
        anchor_liquidation_contract,
        anchor_oracle_contract,
        liquidator_fee: msg.liquidator_fee,
    };
    let state = State { whitelisted_cw20s: Vec::new() };
    assert(state@ =~= Seq::empty());
    let mut writes: Vec<Write> = Vec::new();
    writes.push(Write::State(state));
    writes.push(Write::Config(config));
    let response = Response { attributes: Vec::new(), messages: Vec::new() };
    let outcome = Outcome { writes, response };
    assert(outcome@ =~= instantiated(msg@)->Ok_0);
    Ok(outcome)
}

/// Carries out a message.
pub fn execute(deps: Deps, env: Env, info: MessageInfo, msg: ExecuteMsg) -> (r: Result<
    Execution,
    ContractError,
>)
    ensures
        viewed(r) == executed(deps@, env@, info@, msg@),
        r matches Ok(Execution::Liquidating(liquidation)) ==> liquidation@.wf(),
{
    match msg {
        ExecuteMsg::WhitelistCw20 { address } => match execute_whitelist_cw20(
            deps.config,
            deps.state,
            info,
            address,
        ) {
            Ok(outcome) => Ok(Execution::Finished(outcome)),
            Err(e) => Err(e),
        },
        ExecuteMsg::UpdateConfig { owner } => match execute_update_config(
            deps.config,
            info,
            owner,
        ) {
            Ok(outcome) => Ok(Execution::Finished(outcome)),
            Err(e) => Err(e),
        },
        ExecuteMsg::AddGuardian { cw20_address, pair_address } => match execute_add_guardian(
            deps.state,
            deps.borrower,
            info,
            cw20_address,
            pair_address,
        ) {
            Ok(outcome) => Ok(Execution::Finished(outcome)),
            Err(e) => Err(e),
        },
        ExecuteMsg::LiquidateCollateral { address } => match execute_liquidate_collateral(
            deps.config,
            env,
            info,
            address,
        ) {
            Ok(liquidation) => Ok(Execution::Liquidating(liquidation)),
            Err(e) => Err(e),
        },
    }
}

/// Begins to bring a borrower's loan back to its limit.
pub fn execute_liquidate_collateral(
    config: Result<Config, StdError>,
    env: Env,
    info: MessageInfo,
    address: AddrInput,
) -> (r: Result<Liquidation, ContractError>)
    ensures
        viewed(r) == liquidation_begun(viewed(config), env@, info@, address@),
        r matches Ok(liquidation) ==> liquidation@.wf(),
{
    let config = match config {
        Ok(config) => config,
        Err(e) => return Err(ContractError::Std(e)),
    };
    let borrower = match address.validated {
        Ok(addr) => addr,
        Err(e) => return Err(ContractError::Std(e)),
    };
    Ok(
        Liquidation::Loan {
            task: Task { env, sender: info.sender, address: address.input, borrower, config },
        },
    )
}

/// Registers a guardian for the sender.
pub fn execute_add_guardian(
    state: Result<State, StdError>,
    borrower: Result<Borrower, StdError>,
    info: MessageInfo,
    cw20_address: AddrInput,
    pair_address: AddrInput,
) -> (r: Result<Outcome, ContractError>)
    ensures
        viewed(r) == guardian_added(
            viewed(state),
            viewed(borrower),
            info@,
            cw20_address@,
            pair_address@,
        ),
        r matches Ok(outcome) ==> {
            &&& outcome.writes@[0] matches Write::Borrower { key, borrower: record }
            &&& key == info.sender
            &&& record.guardians@.last().address == cw20_address.validated->Ok_0
            &&& record.guardians@.last().pair_address == pair_address.validated->Ok_0
        },
{
    let state = match state {
        Ok(state) => state,
        Err(e) => return Err(ContractError::Std(e)),
    };
    let address = match cw20_address.validated {
        Ok(addr) => addr,
        Err(e) => return Err(ContractError::Std(e)),
    };
    let pair_address = match pair_address.validated {
        Ok(addr) => addr,
        Err(e) => return Err(ContractError::Std(e)),
    };
    if !contains(&state.whitelisted_cw20s, &address) {
        return Err(ContractError::Unauthorized);
    }
    let mut borrower = match borrower {
        Ok(borrower) => borrower,
        Err(_) => {
            let none = Borrower { guardians: Vec::new() };
            assert(none@ =~= Seq::empty());
            none
        },
    };
    register(&mut borrower, Guardian { address, pair_address });
    Ok(write_one(Write::Borrower { key: info.sender, borrower }, respond("add_guardian")))
}

/// See the rule [`registered`].
fn register(borrower: &mut Borrower, guardian: Guardian)
    ensures
        final(borrower)@ == registered(old(borrower)@, guardian@),
        final(borrower).guardians@.last() == guardian,
{
    let ghost before = borrower@;
    let mut i: usize = 0;
    while i < borrower.guardians.len()
        invariant
            i <= borrower.guardians.len(),
            borrower@ == before,
            forall|k: int| 0 <= k < i ==> (#[trigger] before[k]).address != guardian.address@,
        ensures
            borrower@ == before,
            i < borrower.guardians.len() ==> first_at(before, guardian.address@, i as int),
            i >= borrower.guardians.len() ==> forall|k: int|
                0 <= k < before.len() ==> (#[trigger] before[k]).address != guardian.address@,
        decreases borrower.guardians.len() - i,
    {
        assert(before[i as int] == borrower.guardians[i as int]@);
        if borrower.guardians[i].address == guardian.address {
            break;
        }
        i += 1;
    }
    if i < borrower.guardians.len() {
        proof {
            let j = choose|j: int| first_at(before, guardian.address@, j);
            assert(first_at(before, guardian.address@, i as int));
            assert(j == i);
        }
        borrower.guardians.remove(i);
        assert(borrower@ =~= before.remove(i as int));
    }
    assert(borrower@ == without_first(before, guardian.address@));
    borrower.guardians.push(guardian);
    assert(borrower@ =~= registered(before, guardian@));
}

/// Hands the contract to another owner.
pub fn execute_update_config(
    config: Result<Config, StdError>,
    info: MessageInfo,
    owner: AddrInput,
) -> (r: Result<Outcome, ContractError>)
    ensures
        viewed(r) == config_updated(viewed(config), info@, owner@),
        r matches Ok(outcome) ==> {
            &&& outcome.writes@[0] matches Write::Config(next)
            &&& next == (Config { owner: owner.validated->Ok_0, ..config->Ok_0 })
        },
{
    let mut config = match config {
        Ok(config) => config,
        Err(e) => return Err(ContractError::Std(e)),
    };
    if config.owner != info.sender {
        return Err(ContractError::Unauthorized);
    }
    config.owner = match owner.validated {
        Ok(addr) => addr,
        Err(e) => return Err(ContractError::Std(e)),
    };
    Ok(write_one(Write::Config(config), respond("update_config")))
}

/// Lets a token serve as a guardian.
pub fn execute_whitelist_cw20(
    config: Result<Config, StdError>,
    state: Result<State, StdError>,
    info: MessageInfo,
    address: AddrInput,
) -> (r: Result<Outcome, ContractError>)
    ensures
        viewed(r) == cw20_whitelisted(viewed(config), viewed(state), info@, address@),
        r matches Ok(outcome) ==> outcome.writes@.len() > 0 ==> {
            &&& outcome.writes@[0] matches Write::State(next)
            &&& next.whitelisted_cw20s@ == state->Ok_0.whitelisted_cw20s@.push(
                address.validated->Ok_0,
            )
        },
{
    let config = match config {
        Ok(config) => config,
        Err(e) => return Err(ContractError::Std(e)),
    };
    if config.owner != info.sender {
        return Err(ContractError::Unauthorized);
    }
    let address = match address.validated {
        Ok(addr) => addr,
        Err(e) => return Err(ContractError::Std(e)),
    };
    let mut state = match state {
        Ok(state) => state,
        Err(e) => return Err(ContractError::Std(e)),
    };
    let ghost before = state@;
    if contains(&state.whitelisted_cw20s, &address) {
        let outcome = Outcome { writes: Vec::new(), response: respond("whitelist_cw20") };
        assert(outcome@.writes =~= Seq::empty());
        Ok(outcome)
    } else {
        state.whitelisted_cw20s.push(address);
        assert(state@ =~= before.push(address@));
        Ok(write_one(Write::State(state), respond("whitelist_cw20")))
    }
}

/// Answers a query.
pub fn query(deps: Deps, msg: QueryMsg) -> (r: Result<QueryResponse, ContractError>)
    ensures
        viewed(r) == answered(deps@, msg@),
{
    match msg {
        QueryMsg::Config => match query_config(deps.config) {
            Ok(config) => Ok(QueryResponse::Config(config)),
            Err(e) => Err(e),
        },
        QueryMsg::Guardians { address } => match query_guardians(deps.borrower, address) {
            Ok(borrower) => Ok(QueryResponse::Guardians(borrower)),
            Err(e) => Err(e),
        },
    }
}

/// Reports the settings.
pub fn query_config(config: Result<Config, StdError>) -> (r: Result<ConfigResponse, ContractError>)
    ensures
        viewed(r) == config_of(viewed(config)),
        config matches Ok(stored) ==> {
            &&& r matches Ok(reported)
            &&& reported.owner == stored.owner
            &&& reported.anchor_market_contract == stored.anchor_market_contract
            &&& reported.anchor_overseer_contract == stored.anchor_overseer_contract
            &&& reported.anchor_liquidation_contract == stored.anchor_liquidation_contract
            &&& reported.anchor_oracle_contract == stored.anchor_oracle_contract
            &&& reported.liquidator_fee == stored.liquidator_fee
        },
{
    match config {
        Ok(config) => Ok(
            ConfigResponse {
                owner: config.owner,
                anchor_market_contract: config.anchor_market_contract,
                anchor_overseer_contract: config.anchor_overseer_contract,
                anchor_liquidation_contract: config.anchor_liquidation_contract,
                anchor_oracle_contract: config.anchor_oracle_contract,
                liquidator_fee: config.liquidator_fee,
            },
        ),
        Err(e) => Err(ContractError::Std(e)),
    }
}

/// Reports the guardians of an address.
pub fn query_guardians(borrower: Result<Borrower, StdError>, address: AddrInput) -> (r: Result<
    Borrower,
    ContractError,
>)
    ensures
        viewed(r) == guardians_of(viewed(borrower), address@),
        address.validated is Ok && borrower is Ok ==> r == Ok::<Borrower, ContractError>(
            borrower->Ok_0,
        ),
{
    match address.validated {
        Ok(_) => match borrower {
            Ok(borrower) => Ok(borrower),
            Err(e) => Err(ContractError::Std(e)),
        },
        Err(e) => Err(ContractError::Std(e)),
    }
}

} // verus!
