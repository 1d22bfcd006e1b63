//! What the contract keeps, what it is told and what it answers, each with
//! the mathematical value that contracts speak of.

use cosmwasm_std::StdError;
use vstd::prelude::*;

verus! {

/// A result whose success is seen through its view.
pub open spec fn viewed<T: View, E>(r: Result<T, E>) -> Result<T::V, E> {
    match r {
        Ok(t) => Ok(t@),
        Err(e) => Err(e),
    }
}

/// The texts of a list of strings.
pub open spec fn texts(list: Seq<String>) -> Seq<Seq<char>> {
    Seq::new(list.len(), |i: int| list[i]@)
}

// ---------------------------------------------------------------------------
// Records in storage.

/// The settings of the contract.
#[derive(Debug, PartialEq)]
pub struct Config {
    pub owner: String,
    pub anchor_market_contract: String,
    pub anchor_overseer_contract: String,
    pub anchor_liquidation_contract: String,
    pub anchor_oracle_contract: String,
    /// The share of the liquidated value that the liquidator earns, a decimal
    /// with eighteen places counted in its smallest unit.
    pub liquidator_fee: u128,
}

pub struct ConfigView {
    pub owner: Seq<char>,
    pub anchor_market_contract: Seq<char>,
    pub anchor_overseer_contract: Seq<char>,
    pub anchor_liquidation_contract: Seq<char>,
    pub anchor_oracle_contract: Seq<char>,
    pub liquidator_fee: u128,
}

impl View for Config {
    type V = ConfigView;

    open spec fn view(&self) -> ConfigView {
        ConfigView {
            owner: self.owner@,
            anchor_market_contract: self.anchor_market_contract@,
            anchor_overseer_contract: self.anchor_overseer_contract@,
            anchor_liquidation_contract: self.anchor_liquidation_contract@,
            anchor_oracle_contract: self.anchor_oracle_contract@,
            liquidator_fee: self.liquidator_fee,
        }
    }
}

/// The tokens that may serve as guardians.
#[derive(Debug, PartialEq)]
pub struct State {
    pub whitelisted_cw20s: Vec<String>,
}

impl View for State {
    type V = Seq<Seq<char>>;

    open spec fn view(&self) -> Seq<Seq<char>> {
        texts(self.whitelisted_cw20s@)
    }
}

/// A token that a borrower lets the contract sell, and the pool to sell it in.
#[derive(Debug, PartialEq)]
pub struct Guardian {
    pub address: String,
    pub pair_address: String,
}

pub struct GuardianView {
    pub address: Seq<char>,
    pub pair_address: Seq<char>,
}

impl View for Guardian {
    type V = GuardianView;

    open spec fn view(&self) -> GuardianView {
        GuardianView { address: self.address@, pair_address: self.pair_address@ }
    }
}

/// The guardians of one borrower, in the order in which they are sold.
#[derive(Debug, PartialEq)]
pub struct Borrower {
    pub guardians: Vec<Guardian>,
}

impl View for Borrower {
    type V = Seq<GuardianView>;

    open spec fn view(&self) -> Seq<GuardianView> {
        Seq::new(self.guardians@.len(), |i: int| self.guardians@[i]@)
    }
}

// ---------------------------------------------------------------------------
// Calls of the contract.

/// An address as it was passed in, together with what the host's validation
/// made of it.
#[derive(Debug, PartialEq)]
pub struct AddrInput {
    pub input: String,
    pub validated: Result<String, StdError>,
}

pub struct AddrInputView {
    pub input: Seq<char>,
    pub validated: Result<Seq<char>, StdError>,
}

impl View for AddrInput {
    type V = AddrInputView;

    open spec fn view(&self) -> AddrInputView {
        AddrInputView { input: self.input@, validated: viewed(self.validated) }
    }
}

/// The block and the contract that a message runs in.
#[derive(Debug, PartialEq)]
pub struct Env {
    pub block_height: u64,
    /// The time of the block in seconds.
    pub block_time: u64,
    pub contract_address: String,
}

pub struct EnvView {
    pub block_height: u64,
    pub block_time: u64,
    pub contract_address: Seq<char>,
}

impl View for Env {
    type V = EnvView;

    open spec fn view(&self) -> EnvView {
        EnvView {
            block_height: self.block_height,
            block_time: self.block_time,
            contract_address: self.contract_address@,
        }
    }
}

/// Who sent a message.
#[derive(Debug, PartialEq)]
pub struct MessageInfo {
    pub sender: String,
}

impl View for MessageInfo {
    type V = Seq<char>;

    open spec fn view(&self) -> Seq<char> {
        self.sender@
    }
}

/// What loading the records that a message needs gave.
#[derive(Debug, PartialEq)]
pub struct Deps {
    pub config: Result<Config, StdError>,
    pub state: Result<State, StdError>,
    /// For a message, the record of its sender; for a query, that of the
    /// address it asks about.
    pub borrower: Result<Borrower, StdError>,
}

pub struct DepsView {
    pub config: Result<ConfigView, StdError>,
    pub state: Result<Seq<Seq<char>>, StdError>,
    pub borrower: Result<Seq<GuardianView>, StdError>,
}

impl View for Deps {
    type V = DepsView;

    open spec fn view(&self) -> DepsView {
        DepsView {
            config: viewed(self.config),
            state: viewed(self.state),
            borrower: viewed(self.borrower),
        }
    }
}

/// The settings that the contract is created with.
#[derive(Debug, PartialEq)]
pub struct InstantiateMsg {
    pub owner: AddrInput,
    pub anchor_market_contract: AddrInput,
    pub anchor_overseer_contract: AddrInput,
    pub anchor_liquidation_contract: AddrInput,
    pub anchor_oracle_contract: AddrInput,
    /// See [`Config::liquidator_fee`].
    pub liquidator_fee: u128,
}

pub struct InstantiateMsgView {
    pub owner: AddrInputView,
    pub anchor_market_contract: AddrInputView,
    pub anchor_overseer_contract: AddrInputView,
    pub anchor_liquidation_contract: AddrInputView,
    pub anchor_oracle_contract: AddrInputView,
    pub liquidator_fee: u128,
}

impl View for InstantiateMsg {
    type V = InstantiateMsgView;

    open spec fn view(&self) -> InstantiateMsgView {
        InstantiateMsgView {
            owner: self.owner@,
            anchor_market_contract: self.anchor_market_contract@,
            anchor_overseer_contract: self.anchor_overseer_contract@,
            anchor_liquidation_contract: self.anchor_liquidation_contract@,
            anchor_oracle_contract: self.anchor_oracle_contract@,
            liquidator_fee: self.liquidator_fee,
        }
    }
}

/// The messages that the contract executes.
#[derive(Debug, PartialEq)]
pub enum ExecuteMsg {
    /// Let a token serve as a guardian; for the owner.
    WhitelistCw20 { address: AddrInput },
    /// Hand the contract to another owner; for the owner.
    UpdateConfig { owner: AddrInput },
    /// Register a token, and the pool to sell it in, for the sender.
    AddGuardian { cw20_address: AddrInput, pair_address: AddrInput },
    /// Bring the loan of a borrower back to the limit.
    LiquidateCollateral { address: AddrInput },
}

pub enum ExecuteMsgView {
    WhitelistCw20 { address: AddrInputView },
    UpdateConfig { owner: AddrInputView },
    AddGuardian { cw20_address: AddrInputView, pair_address: AddrInputView },
    LiquidateCollateral { address: AddrInputView },
}

impl View for ExecuteMsg {
    type V = ExecuteMsgView;

    open spec fn view(&self) -> ExecuteMsgView {
        match self {
            ExecuteMsg::WhitelistCw20 { address } => ExecuteMsgView::WhitelistCw20 {
                address: address@,
            },
            ExecuteMsg::UpdateConfig { owner } => ExecuteMsgView::UpdateConfig { owner: owner@ },
            ExecuteMsg::AddGuardian { cw20_address, pair_address } => ExecuteMsgView::AddGuardian {
                cw20_address: cw20_address@,
                pair_address: pair_address@,
            },
            ExecuteMsg::LiquidateCollateral { address } => ExecuteMsgView::LiquidateCollateral {
                address: address@,
            },
        }
    }
}

/// The questions that the contract answers.
#[derive(Debug, PartialEq)]
pub enum QueryMsg {
    Config,
    Guardians { address: AddrInput },
}

pub enum QueryMsgView {
    Config,
    Guardians { address: AddrInputView },
}

impl View for QueryMsg {
    type V = QueryMsgView;

    open spec fn view(&self) -> QueryMsgView {
        match self {
            QueryMsg::Config => QueryMsgView::Config,
            QueryMsg::Guardians { address } => QueryMsgView::Guardians { address: address@ },
        }
    }
}

/// The settings as a query reports them.
#[derive(Debug, PartialEq)]
pub struct ConfigResponse {
    pub owner: String,
    pub anchor_market_contract: String,
    pub anchor_overseer_contract: String,
    pub anchor_liquidation_contract: String,
    pub anchor_oracle_contract: String,
    /// See [`Config::liquidator_fee`].
    pub liquidator_fee: u128,
}

impl View for ConfigResponse {
    type V = ConfigView;

    open spec fn view(&self) -> ConfigView {
        ConfigView {
            owner: self.owner@,
            anchor_market_contract: self.anchor_market_contract@,
            anchor_overseer_contract: self.anchor_overseer_contract@,
            anchor_liquidation_contract: self.anchor_liquidation_contract@,
            anchor_oracle_contract: self.anchor_oracle_contract@,
            liquidator_fee: self.liquidator_fee,
        }
    }
}

/// The answer to a [`QueryMsg`].
#[derive(Debug, PartialEq)]
pub enum QueryResponse {
    Config(ConfigResponse),
    Guardians(Borrower),
}

pub enum QueryResponseView {
    Config(ConfigView),
    Guardians(Seq<GuardianView>),
}

impl View for QueryResponse {
    type V = QueryResponseView;

    open spec fn view(&self) -> QueryResponseView {
        match self {
            QueryResponse::Config(config) => QueryResponseView::Config(config@),
            QueryResponse::Guardians(borrower) => QueryResponseView::Guardians(borrower@),
        }
    }
}

// ---------------------------------------------------------------------------
// What a message leads to.

/// A message that the contract sends on.
#[derive(Debug, PartialEq)]
pub enum Message {
    /// Ask `token` to move `amount` from `owner` to `recipient`.
    TransferFrom { token: String, owner: String, recipient: String, amount: u128 },
    /// Ask `token` to send `amount` to `pair` for it to swap.
    Swap { token: String, pair: String, amount: u128 },
    /// Ask `overseer` to liquidate the collateral of `borrower`.
    LiquidateCollateral { overseer: String, borrower: String },
    /// Hand `amount` of the stable coin to `wallet` for it to repay its loan.
    RepayStable { wallet: String, amount: u128 },
    /// Pay `amount` of the stable coin to `to_address`.
    BankSend { to_address: String, amount: u128 },
}

pub enum MessageView {
    TransferFrom { token: Seq<char>, owner: Seq<char>, recipient: Seq<char>, amount: u128 },
    Swap { token: Seq<char>, pair: Seq<char>, amount: u128 },
    LiquidateCollateral { overseer: Seq<char>, borrower: Seq<char> },
    RepayStable { wallet: Seq<char>, amount: u128 },
    BankSend { to_address: Seq<char>, amount: u128 },
}

impl View for Message {
    type V = MessageView;

    open spec fn view(&self) -> MessageView {
        match self {
            Message::TransferFrom { token, owner, recipient, amount } => MessageView::TransferFrom {
                token: token@,
                owner: owner@,
                recipient: recipient@,
                amount: *amount,
            },
            Message::Swap { token, pair, amount } => MessageView::Swap {
                token: token@,
                pair: pair@,
                amount: *amount,
            },
            Message::LiquidateCollateral { overseer, borrower } => {
                MessageView::LiquidateCollateral { overseer: overseer@, borrower: borrower@ }
            },
            Message::RepayStable { wallet, amount } => MessageView::RepayStable {
                wallet: wallet@,
                amount: *amount,
            },
            Message::BankSend { to_address, amount } => MessageView::BankSend {
                to_address: to_address@,
                amount: *amount,
            },
        }
    }
}

/// A note for the log of the chain.
#[derive(Debug, PartialEq)]
pub struct Attribute {
    pub key: String,
    pub value: String,
}

impl View for Attribute {
    type V = (Seq<char>, Seq<char>);

    open spec fn view(&self) -> (Seq<char>, Seq<char>) {
        (self.key@, self.value@)
    }
}

/// The notes of a list.
pub open spec fn attributes_view(list: Seq<Attribute>) -> Seq<(Seq<char>, Seq<char>)> {
    Seq::new(list.len(), |i: int| list[i]@)
}

/// The messages of a list.
pub open spec fn messages_view(list: Seq<Message>) -> Seq<MessageView> {
    Seq::new(list.len(), |i: int| list[i]@)
}

/// What a message is answered: notes for the log, and messages to send on.
#[derive(Debug, PartialEq)]
pub struct Response {
    pub attributes: Vec<Attribute>,
    pub messages: Vec<Message>,
}

#[verifier::ext_equal]
pub struct ResponseView {
    pub attributes: Seq<(Seq<char>, Seq<char>)>,
    pub messages: Seq<MessageView>,
}

impl View for Response {
    type V = ResponseView;

    open spec fn view(&self) -> ResponseView {
        ResponseView {
            attributes: attributes_view(self.attributes@),
            messages: messages_view(self.messages@),
        }
    }
}

/// A record to put into storage.
#[derive(Debug, PartialEq)]
pub enum Write {
    Config(Config),
    State(State),
    Borrower { key: String, borrower: Borrower },
}

pub enum WriteView {
    Config(ConfigView),
    State(Seq<Seq<char>>),
    Borrower { key: Seq<char>, borrower: Seq<GuardianView> },
}

impl View for Write {
    type V = WriteView;

    open spec fn view(&self) -> WriteView {
        match self {
            Write::Config(config) => WriteView::Config(config@),
            Write::State(state) => WriteView::State(state@),
            Write::Borrower { key, borrower } => WriteView::Borrower {
                key: key@,
                borrower: borrower@,
            },
        }
    }
}

/// The records to write, first to last, and the answer to give once they are
/// written.
#[derive(Debug, PartialEq)]
pub struct Outcome {
    pub writes: Vec<Write>,
    pub response: Response,
}

#[verifier::ext_equal]
pub struct OutcomeView {
    pub writes: Seq<WriteView>,
    pub response: ResponseView,
}

impl View for Outcome {
    type V = OutcomeView;

    open spec fn view(&self) -> OutcomeView {
        OutcomeView {
            writes: Seq::new(self.writes@.len(), |i: int| self.writes@[i]@),
            response: self.response@,
        }
    }
}

} // verus!
