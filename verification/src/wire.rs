//! Questions and messages in the form in which they cross to other contracts.

use cosmwasm_std::StdError;
use vstd::prelude::*;

use crate::amount::{Decimal256, Uint256};
use crate::error::ContractError;
use crate::liquidation::{
    rates_view, stable_denom, stable_denom_text, tokens_view, Request, RequestView,
};
use crate::types::{Message, MessageView};

verus! {

/// The bytes of an ASCII text.
pub open spec fn ascii(text: Seq<char>) -> Seq<u8> {
    Seq::new(text.len(), |i: int| text[i] as u8)
}

// ---------------------------------------------------------------------------
// Encodings that other crates define.

/// How `to_binary` renders `moneymarket::market::QueryMsg::BorrowerInfo`.
pub uninterp spec fn borrower_info_json(borrower: Seq<char>, block_height: u64) -> Seq<u8>;

/// How `to_binary` renders `moneymarket::overseer::QueryMsg::Collaterals`.
pub uninterp spec fn collaterals_json(borrower: Seq<char>) -> Seq<u8>;

/// How `to_binary` renders `moneymarket::overseer::QueryMsg::BorrowLimit`.
pub uninterp spec fn borrow_limit_json(borrower: Seq<char>, block_time: u64) -> Seq<u8>;

/// How `to_binary` renders
/// `moneymarket::liquidation::QueryMsg::LiquidationAmount`.
pub uninterp spec fn liquidation_amount_json(
    borrow_amount: nat,
    borrow_limit: nat,
    collaterals: Seq<(Seq<char>, nat)>,
    collateral_prices: Seq<nat>,
) -> Seq<u8>;

/// How `to_binary` renders
/// `moneymarket::overseer::ExecuteMsg::LiquidateCollateral`.
pub uninterp spec fn liquidate_collateral_json(borrower: Seq<char>) -> Seq<u8>;

/// How `to_binary` renders `cw20::Cw20QueryMsg::Allowance`.
pub uninterp spec fn allowance_json(owner: Seq<char>, spender: Seq<char>) -> Seq<u8>;

/// How `to_binary` renders `cw20::Cw20ExecuteMsg::TransferFrom`.
pub uninterp spec fn transfer_from_json(
    owner: Seq<char>,
    recipient: Seq<char>,
    amount: u128,
) -> Seq<u8>;

/// How `to_binary` renders `cw20::Cw20ExecuteMsg::Send`.
pub uninterp spec fn send_json(contract: Seq<char>, amount: u128, msg: Seq<u8>) -> Seq<u8>;

/// How `to_binary` renders `astroport::pair::QueryMsg::ReverseSimulation` for
/// a native coin.
pub uninterp spec fn reverse_simulation_json(denom: Seq<char>, amount: u128) -> Seq<u8>;

/// How `to_binary` renders `astroport::pair::QueryMsg::Simulation` for a
/// token.
pub uninterp spec fn simulation_json(token: Seq<char>, amount: u128) -> Seq<u8>;

/// An encoding that succeeded with `json`. The encoder writes to memory and has
/// no failing case for the types that are encoded here.
pub open spec fn renders(r: Result<Vec<u8>, StdError>, json: Seq<u8>) -> bool {
    r is Ok && r->Ok_0@ == json
}

/// `cosmwasm_std::to_binary` on a `moneymarket` query for a borrower's loan.
#[verifier::external_body]
fn borrower_info_msg(borrower: &String, block_height: u64) -> (r: Result<Vec<u8>, StdError>)
    ensures
        renders(r, borrower_info_json(borrower@, block_height)),
{
    cosmwasm_std::to_binary(
        &moneymarket::market::QueryMsg::BorrowerInfo {
            borrower: borrower.clone(),
            block_height: Some(block_height),
        },
    ).map(|binary| binary.0)
}

/// `cosmwasm_std::to_binary` on a `moneymarket` query for a borrower's
/// collateral.
#[verifier::external_body]
fn collaterals_msg(borrower: &String) -> (r: Result<Vec<u8>, StdError>)
    ensures
        renders(r, collaterals_json(borrower@)),
{
    cosmwasm_std::to_binary(
        &moneymarket::overseer::QueryMsg::Collaterals { borrower: borrower.clone() },
    ).map(|binary| binary.0)
}

/// `cosmwasm_std::to_binary` on a `moneymarket` query for a borrow limit.
#[verifier::external_body]
fn borrow_limit_msg(borrower: &String, block_time: u64) -> (r: Result<Vec<u8>, StdError>)
    ensures
        renders(r, borrow_limit_json(borrower@, block_time)),
{
    cosmwasm_std::to_binary(
        &moneymarket::overseer::QueryMsg::BorrowLimit {
            borrower: borrower.clone(),
            block_time: Some(block_time),
        },
    ).map(|binary| binary.0)
}

/// `cosmwasm_std::to_binary` on the `moneymarket` query for the overseer's
/// settings: a JSON object whose one member, `config`, is an empty object.
#[verifier::external_body]
fn overseer_config_msg() -> (r: Result<Vec<u8>, StdError>)
    ensures
        renders(r, ascii("{\"config\":{}}"@)),
{
    cosmwasm_std::to_binary(&moneymarket::overseer::QueryMsg::Config {  }).map(|binary| binary.0)
}

/// `cosmwasm_std::to_binary` on a `moneymarket` query for what would be
/// liquidated.
#[verifier::external_body]
fn liquidation_amount_msg(
    borrow_amount: &Uint256,
    borrow_limit: &Uint256,
    collaterals: &Vec<(String, Uint256)>,
    collateral_prices: &Vec<Decimal256>,
) -> (r: Result<Vec<u8>, StdError>)
    ensures
        renders(
            r,
            liquidation_amount_json(
                borrow_amount@,
                borrow_limit@,
                tokens_view(collaterals@),
                rates_view(collateral_prices@),
            ),
        ),
{
    let uint = |a: &Uint256| cosmwasm_bignumber::Uint256(bigint::U256(a.limbs));
    let rate = |a: &Decimal256| cosmwasm_bignumber::Decimal256(bigint::U256(a.limbs));
    cosmwasm_std::to_binary(
        &moneymarket::liquidation::QueryMsg::LiquidationAmount {
            borrow_amount: uint(borrow_amount),
            borrow_limit: uint(borrow_limit),
            collaterals: collaterals.iter().map(|c| (c.0.clone(), uint(&c.1))).collect(),
            collateral_prices: collateral_prices.iter().map(rate).collect(),
        },
    ).map(|binary| binary.0)
}

/// `cosmwasm_std::to_binary` on a `moneymarket` order to liquidate.
#[verifier::external_body]
fn liquidate_collateral_msg(borrower: &String) -> (r: Result<Vec<u8>, StdError>)
    ensures
        renders(r, liquidate_collateral_json(borrower@)),
{
    cosmwasm_std::to_binary(
        &moneymarket::overseer::ExecuteMsg::LiquidateCollateral { borrower: borrower.clone() },
    ).map(|binary| binary.0)
}

/// `cosmwasm_std::to_binary` on a `cw20` query for an allowance.
#[verifier::external_body]
fn allowance_msg(owner: &String, spender: &String) -> (r: Result<Vec<u8>, StdError>)
    ensures
        renders(r, allowance_json(owner@, spender@)),
{
    cosmwasm_std::to_binary(
        &cw20::Cw20QueryMsg::Allowance { owner: owner.clone(), spender: spender.clone() },
    ).map(|binary| binary.0)
}

/// `cosmwasm_std::to_binary` on a `cw20` order to move tokens of another
/// account.
#[verifier::external_body]
fn transfer_from_msg(owner: &String, recipient: &String, amount: u128) -> (r: Result<
    Vec<u8>,
    StdError,
>)
    ensures
        renders(r, transfer_from_json(owner@, recipient@, amount)),
{
    cosmwasm_std::to_binary(
        &cw20::Cw20ExecuteMsg::TransferFrom {
            owner: owner.clone(),
            recipient: recipient.clone(),
            amount: cosmwasm_std::Uint128::from(amount),
        },
    ).map(|binary| binary.0)
}

/// `cosmwasm_std::to_binary` on a `cw20` order to send tokens to a contract
/// with a message for it.
#[verifier::external_body]
fn send_msg(contract: &String, amount: u128, msg: Vec<u8>) -> (r: Result<Vec<u8>, StdError>)
    ensures
        renders(r, send_json(contract@, amount, msg@)),
{
    cosmwasm_std::to_binary(
        &cw20::Cw20ExecuteMsg::Send {
            contract: contract.clone(),
            amount: cosmwasm_std::Uint128::from(amount),
            msg: cosmwasm_std::Binary(msg),
        },
    ).map(|binary| binary.0)
}

/// `cosmwasm_std::to_binary` on the `astroport` hook that swaps what was sent,
/// at any price: a JSON object whose one member, `swap`, holds three nulls.
#[verifier::external_body]
fn swap_hook_msg() -> (r: Result<Vec<u8>, StdError>)
    ensures
        renders(r, swap_hook()),
{
    cosmwasm_std::to_binary(
        &astroport::pair::Cw20HookMsg::Swap { belief_price: None, max_spread: None, to: None },
    ).map(|binary| binary.0)
}

/// The hook that makes a pool swap what it was sent, at any price.
pub open spec fn swap_hook() -> Seq<u8> {
    ascii("{\"swap\":{\"belief_price\":null,\"max_spread\":null,\"to\":null}}"@)
}

/// `cosmwasm_std::to_binary` on an `astroport` query for what buys an amount
/// of a native coin.
#[verifier::external_body]
fn reverse_simulation_msg(denom: &String, amount: u128) -> (r: Result<Vec<u8>, StdError>)
    ensures
        renders(r, reverse_simulation_json(denom@, amount)),
{
    cosmwasm_std::to_binary(
        &astroport::pair::QueryMsg::ReverseSimulation {
            ask_asset: astroport::asset::Asset {
                info: astroport::asset::AssetInfo::NativeToken { denom: denom.clone() },
                amount: cosmwasm_std::Uint128::from(amount),
            },
        },
    ).map(|binary| binary.0)
}

/// `cosmwasm_std::to_binary` on an `astroport` query for what an amount of a
/// token buys.
#[verifier::external_body]
fn simulation_msg(token: &String, amount: u128) -> (r: Result<Vec<u8>, StdError>)
    ensures
        renders(r, simulation_json(token@, amount)),
{
    let contract_addr = cosmwasm_std::Addr::unchecked(token.clone());
    cosmwasm_std::to_binary(
        &astroport::pair::QueryMsg::Simulation {
            offer_asset: astroport::asset::Asset {
                info: astroport::asset::AssetInfo::Token { contract_addr },
                amount: cosmwasm_std::Uint128::from(amount),
            },
        },
    ).map(|binary| binary.0)
}

// ---------------------------------------------------------------------------
// Questions.

/// A question to another contract, encoded.
#[derive(Debug, PartialEq)]
pub struct SmartQuery {
    pub contract_addr: String,
    pub msg: Vec<u8>,
}

pub struct SmartQueryView {
    pub contract_addr: Seq<char>,
    pub msg: Seq<u8>,
}

impl View for SmartQuery {
    type V = SmartQueryView;

    open spec fn view(&self) -> SmartQueryView {
        SmartQueryView { contract_addr: self.contract_addr@, msg: self.msg@ }
    }
}

/// Who a question goes to.
pub open spec fn addressee(request: RequestView) -> Seq<char> {
    match request {
        RequestView::BorrowerInfo { market, .. } => market,
        RequestView::Collaterals { overseer, .. } => overseer,
        RequestView::BorrowLimit { overseer, .. } => overseer,
        RequestView::OverseerConfig { overseer } => overseer,
        RequestView::Price { oracle, .. } => oracle,
        RequestView::LiquidationAmount { liquidation, .. } => liquidation,
        RequestView::Guardians { address } => address,
        RequestView::Allowance { token, .. } => token,
        RequestView::ReverseSimulation { pair, .. } => pair,
        RequestView::Simulation { pair, .. } => pair,
    }
}

/// Whether a question is put to another contract as it stands. The others are
/// a price, which has a querier of its own, and the contract's own records.
pub open spec fn is_smart(request: RequestView) -> bool {
    !(request is Price) && !(request is Guardians)
}

/// How a question to another contract is encoded.
pub open spec fn request_json(request: RequestView) -> Seq<u8>
    recommends
        is_smart(request),
{
    match request {
        RequestView::BorrowerInfo { borrower, block_height, .. } => borrower_info_json(
            borrower,
            block_height,
        ),
        RequestView::Collaterals { borrower, .. } => collaterals_json(borrower),
        RequestView::BorrowLimit { borrower, block_time, .. } => borrow_limit_json(
            borrower,
            block_time,
        ),
        RequestView::OverseerConfig { .. } => ascii("{\"config\":{}}"@),
        RequestView::LiquidationAmount {
            borrow_amount,
            borrow_limit,
            collaterals,
            collateral_prices,
            ..
        } => liquidation_amount_json(borrow_amount, borrow_limit, collaterals, collateral_prices),
        RequestView::Allowance { owner, spender, .. } => allowance_json(owner, spender),
        RequestView::ReverseSimulation { denom, ask_amount, .. } => reverse_simulation_json(
            denom,
            ask_amount,
        ),
        RequestView::Simulation { token, offer_amount, .. } => simulation_json(
            token,
            offer_amount,
        ),
        _ => Seq::empty(),
    }
}

/// A question to `contract_addr` from the result of encoding it.
pub fn smart_query(contract_addr: String, msg: Result<Vec<u8>, StdError>) -> (r: Result<
    SmartQuery,
    ContractError,
>)
    ensures
        match msg {
            Ok(bytes) => r is Ok && r->Ok_0@ == (SmartQueryView {
                contract_addr: contract_addr@,
                msg: bytes@,
            }),
            Err(e) => r == Err::<SmartQuery, ContractError>(ContractError::Std(e)),
        },
{
    match msg {
        Ok(msg) => Ok(SmartQuery { contract_addr, msg }),
        Err(e) => Err(ContractError::Std(e)),
    }
}

/// Encodes a question to another contract; `None` for a question that is not
/// put that way.
pub fn encode_request(request: &Request) -> (r: Option<Result<SmartQuery, ContractError>>)
    ensures
        r is Some <==> is_smart(request@),
        r matches Some(encoded) ==> encoded is Ok && encoded->Ok_0@ == (SmartQueryView {
            contract_addr: addressee(request@),
            msg: request_json(request@),
        }),
{
    match request {
        Request::BorrowerInfo { market, borrower, block_height } => Some(
            smart_query(market.clone(), borrower_info_msg(borrower, *block_height)),
        ),
        Request::Collaterals { overseer, borrower } => Some(
            smart_query(overseer.clone(), collaterals_msg(borrower)),
        ),
        Request::BorrowLimit { overseer, borrower, block_time } => Some(
            smart_query(overseer.clone(), borrow_limit_msg(borrower, *block_time)),
        ),
        Request::OverseerConfig { overseer } => Some(
            smart_query(overseer.clone(), overseer_config_msg()),
        ),
        Request::LiquidationAmount {
            liquidation,
            borrow_amount,
            borrow_limit,
            collaterals,
            collateral_prices,
        } => Some(
            smart_query(
                liquidation.clone(),
                liquidation_amount_msg(
                    borrow_amount,
                    borrow_limit,
                    collaterals,
                    collateral_prices,
                ),
            ),
        ),
        Request::Allowance { token, owner, spender } => Some(
            smart_query(token.clone(), allowance_msg(owner, spender)),
        ),
        Request::ReverseSimulation { pair, denom, ask_amount } => Some(
            smart_query(pair.clone(), reverse_simulation_msg(denom, *ask_amount)),
        ),
        Request::Simulation { pair, token, offer_amount } => Some(
            smart_query(pair.clone(), simulation_msg(token, *offer_amount)),
        ),
        Request::Price { .. } => None,
        Request::Guardians { .. } => None,
    }
}

// ---------------------------------------------------------------------------
// Messages.

/// An amount of a native coin.
#[derive(Debug, PartialEq)]
pub struct Coin {
    pub denom: String,
    pub amount: u128,
}

pub struct CoinView {
    pub denom: Seq<char>,
    pub amount: u128,
}

impl View for Coin {
    type V = CoinView;

    open spec fn view(&self) -> CoinView {
        CoinView { denom: self.denom@, amount: self.amount }
    }
}

/// A message that is ready to be sent.
#[derive(Debug, PartialEq)]
pub enum WireMessage {
    /// Call a contract with an encoded message.
    Execute { contract_addr: String, msg: Vec<u8>, funds: Vec<Coin> },
    /// Call the wallet contract `contract_addr` to repay `amount`. The wallet
    /// shares its message type with the host, which encodes it.
    Repay { contract_addr: String, amount: u128, funds: Vec<Coin> },
    /// Pay coins to an account.
    Send { to_address: String, coins: Vec<Coin> },
}

#[verifier::ext_equal]
pub enum WireMessageView {
    Execute { contract_addr: Seq<char>, msg: Seq<u8>, funds: Seq<CoinView> },
    Repay { contract_addr: Seq<char>, amount: u128, funds: Seq<CoinView> },
    Send { to_address: Seq<char>, coins: Seq<CoinView> },
}

/// The coins of a list.
pub open spec fn coins_view(list: Seq<Coin>) -> Seq<CoinView> {
    Seq::new(list.len(), |i: int| list[i]@)
}

impl View for WireMessage {
    type V = WireMessageView;

    open spec fn view(&self) -> WireMessageView {
        match self {
            WireMessage::Execute { contract_addr, msg, funds } => WireMessageView::Execute {
                contract_addr: contract_addr@,
                msg: msg@,
                funds: coins_view(funds@),
            },
            WireMessage::Repay { contract_addr, amount, funds } => WireMessageView::Repay {
                contract_addr: contract_addr@,
                amount: *amount,
                funds: coins_view(funds@),
            },
            WireMessage::Send { to_address, coins } => WireMessageView::Send {
                to_address: to_address@,
                coins: coins_view(coins@),
            },
        }
    }
}

/// A call of a contract, without funds, from its encoding.
pub open spec fn call(contract_addr: Seq<char>, msg: Seq<u8>) -> WireMessageView {
    WireMessageView::Execute { contract_addr, msg, funds: Seq::empty() }
}

/// An amount of the coin that loans are taken in.
pub open spec fn stable_coins(amount: u128) -> Seq<CoinView> {
    seq![CoinView { denom: stable_denom_text(), amount }]
}

/// How a message is sent.
pub open spec fn wire_message(message: MessageView) -> WireMessageView {
    match message {
        MessageView::TransferFrom { token, owner, recipient, amount } => call(
            token,
            transfer_from_json(owner, recipient, amount),
        ),
        MessageView::Swap { token, pair, amount } => call(
            token,
            send_json(pair, amount, swap_hook()),
        ),
        MessageView::LiquidateCollateral { overseer, borrower } => call(
            overseer,
            liquidate_collateral_json(borrower),
        ),
        MessageView::RepayStable { wallet, amount } => WireMessageView::Repay {
            contract_addr: wallet,
            amount,
            funds: stable_coins(amount),
        },
        MessageView::BankSend { to_address, amount } => WireMessageView::Send {
            to_address,
            coins: stable_coins(amount),
        },
    }
}

/// See the rule [`stable_coins`].
fn stable(amount: u128) -> (r: Vec<Coin>)
    ensures
        coins_view(r@) == stable_coins(amount),
{
    let mut coins: Vec<Coin> = Vec::new();
    coins.push(Coin { denom: stable_denom(), amount });
    assert(coins_view(coins@) =~= stable_coins(amount));
    coins
}

/// A call of `contract_addr`, without funds, from the result of encoding it.
pub fn execute_call(contract_addr: String, msg: Result<Vec<u8>, StdError>) -> (r: Result<
    WireMessage,
    ContractError,
>)
    ensures
        match msg {
            Ok(bytes) => r is Ok && r->Ok_0@ == call(contract_addr@, bytes@),
            Err(e) => r == Err::<WireMessage, ContractError>(ContractError::Std(e)),
        },
{
    match msg {
        Ok(msg) => {
            let funds: Vec<Coin> = Vec::new();
            assert(coins_view(funds@) =~= Seq::empty());
            Ok(WireMessage::Execute { contract_addr, msg, funds })
        },
        Err(e) => Err(ContractError::Std(e)),
    }
}

/// Makes a message ready to be sent.
pub fn encode_message(message: &Message) -> (r: Result<WireMessage, ContractError>)
    ensures
        r is Ok,
        r->Ok_0@ == wire_message(message@),
{
    match message {
        Message::TransferFrom { token, owner, recipient, amount } => execute_call(
            token.clone(),
            transfer_from_msg(owner, recipient, *amount),
        ),
        Message::Swap { token, pair, amount } => match swap_hook_msg() {
            Ok(hook) => execute_call(token.clone(), send_msg(pair, *amount, hook)),
            Err(e) => Err(ContractError::Std(e)),
        },
        Message::LiquidateCollateral { overseer, borrower } => execute_call(
            overseer.clone(),
            liquidate_collateral_msg(borrower),
        ),
        Message::RepayStable { wallet, amount } => Ok(
            WireMessage::Repay {
                contract_addr: wallet.clone(),
                amount: *amount,
                funds: stable(*amount),
            },
        ),
        Message::BankSend { to_address, amount } => Ok(
            WireMessage::Send { to_address: to_address.clone(), coins: stable(*amount) },
        ),
    }
}

// ---------------------------------------------------------------------------
// Laws.

/// A payment carries one coin, the stable one, in the very amount of its
/// message, whatever that is; and a repayment hands the wallet exactly what it
/// is told to repay.
pub proof fn payments_carry_their_amount(message: Message, encoded: WireMessage)
    requires
        encoded@ == wire_message(message@),
    ensures
        match message {
            Message::BankSend { to_address: payee, amount } => encoded matches WireMessage::Send {
                to_address,
                coins,
            } && to_address@ == payee@ && coins@.len() == 1 && coins@[0].denom@ == "uusd"@
                && coins@[0].amount == amount,
            Message::RepayStable { wallet, amount } => encoded matches WireMessage::Repay {
                contract_addr,
                amount: repaid,
                funds,
            } && contract_addr@ == wallet@ && repaid == amount && funds@.len() == 1
                && funds@[0].denom@ == "uusd"@ && funds@[0].amount == repaid,
            _ => encoded matches WireMessage::Execute { funds, .. } && funds@.len() == 0,
        },
{
    match (message, encoded) {
        (Message::BankSend { amount, .. }, WireMessage::Send { coins, .. }) => {
            assert(coins_view(coins@).len() == coins@.len());
            assert(coins_view(coins@)[0] == coins@[0]@);
        },
        (Message::RepayStable { amount, .. }, WireMessage::Repay { funds, .. }) => {
            assert(coins_view(funds@).len() == funds@.len());
            assert(coins_view(funds@)[0] == funds@[0]@);
        },
        (_, WireMessage::Execute { funds, .. }) => {
            assert(coins_view(funds@).len() == funds@.len());
        },
        _ => {},
    }
}

/// An order goes to the contract that has to carry it out: a token is told to
/// move its own balance from the owner to the recipient, or to send it to the
/// pool with the hook to swap it, and the overseer is told whom to liquidate.
pub proof fn orders_reach_their_contract(message: Message, encoded: WireMessage)
    requires
        encoded@ == wire_message(message@),
    ensures
        match message {
            Message::TransferFrom { token, owner, recipient, amount } => encoded matches
                WireMessage::Execute { contract_addr, msg, .. } && contract_addr@ == token@ && msg@
                == transfer_from_json(owner@, recipient@, amount),
            Message::Swap { token, pair, amount } => encoded matches WireMessage::Execute {
                contract_addr,
                msg,
                ..
            } && contract_addr@ == token@ && msg@ == send_json(pair@, amount, swap_hook()),
            Message::LiquidateCollateral { overseer, borrower } => encoded matches
                WireMessage::Execute { contract_addr, msg, .. } && contract_addr@ == overseer@
                && msg@ == liquidate_collateral_json(borrower@),
            _ => !(encoded is Execute),
        },
{
}

/// A question is put to the contract that it names, with all that it asks
/// about; only prices and guardians are not asked of a contract as they stand.
pub proof fn questions_reach_their_contract(request: Request, query: SmartQuery)
    requires
        is_smart(request@) ==> query@ == (SmartQueryView {
            contract_addr: addressee(request@),
            msg: request_json(request@),
        }),
    ensures
        is_smart(request@) <==> !(request is Price) && !(request is Guardians),
        match request {
            Request::BorrowerInfo { market, borrower, block_height } => {
                &&& query.contract_addr@ == market@
                &&& query.msg@ == borrower_info_json(borrower@, block_height)
            },
            Request::Collaterals { overseer, borrower } => {
                &&& query.contract_addr@ == overseer@
                &&& query.msg@ == collaterals_json(borrower@)
            },
            Request::BorrowLimit { overseer, borrower, block_time } => {
                &&& query.contract_addr@ == overseer@
                &&& query.msg@ == borrow_limit_json(borrower@, block_time)
            },
            Request::OverseerConfig { overseer } => {
                &&& query.contract_addr@ == overseer@
                &&& query.msg@ == ascii("{\"config\":{}}"@)
            },
            Request::LiquidationAmount {
                liquidation,
                borrow_amount,
                borrow_limit,
                collaterals,
                collateral_prices,
            } => {
                &&& query.contract_addr@ == liquidation@
                &&& query.msg@ == liquidation_amount_json(
                    borrow_amount@,
                    borrow_limit@,
                    tokens_view(collaterals@),
                    rates_view(collateral_prices@),
                )
            },
            Request::Allowance { token, owner, spender } => {
                &&& query.contract_addr@ == token@
                &&& query.msg@ == allowance_json(owner@, spender@)
            },
            Request::ReverseSimulation { pair, denom, ask_amount } => {
                &&& query.contract_addr@ == pair@
                &&& query.msg@ == reverse_simulation_json(denom@, ask_amount)
            },
            Request::Simulation { pair, token, offer_amount } => {
                &&& query.contract_addr@ == pair@
                &&& query.msg@ == simulation_json(token@, offer_amount)
            },
            _ => true,
        },
{
}

} // verus!
