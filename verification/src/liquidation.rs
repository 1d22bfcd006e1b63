//! Bringing a loan back to its limit.
//!
//! A liquidation asks the chain one question after another and decides, from
//! each answer, what to ask next or how to end. [`Liquidation`] is where it
//! stands, `Liquidation::request` what it asks there, and
//! `Liquidation::resume` where an answer takes it; both are in `decision`.

use cosmwasm_std::StdError;
use vstd::prelude::*;

use crate::amount::{Decimal256, Uint256};
use crate::types::{
    attributes_view, messages_view, Attribute, Borrower, Config, ConfigView, Env, EnvView,
    Guardian, GuardianView, Message, MessageView, Response, ResponseView,
};

verus! {

/// Added to what the guardians are asked for, against rounding and price
/// moves: ten whole coins.
pub const GUARDIAN_BUFFER: u64 = 10_000_000;

/// The least shortfall that sends a loan to the overseer: a thousand whole
/// coins.
pub const SHORTFALL_LIMIT: u64 = 1_000_000_000;

/// The coin that loans are taken in.
pub open spec fn stable_denom_text() -> Seq<char> {
    "uusd"@
}

/// The coin that loans are taken in.
pub fn stable_denom() -> (r: String)
    ensures
        r@ == stable_denom_text(),
{
    "uusd".to_owned()
}

/// Amounts of tokens, each with the token's address.
pub open spec fn tokens_view(list: Seq<(String, Uint256)>) -> Seq<(Seq<char>, nat)> {
    Seq::new(list.len(), |i: int| (list[i].0@, list[i].1@))
}

/// The decimals of a list, in smallest units.
pub open spec fn rates_view(list: Seq<Decimal256>) -> Seq<nat> {
    Seq::new(list.len(), |i: int| list[i]@)
}

// ---------------------------------------------------------------------------
// What is liquidated.

/// A liquidation that was asked for: whose loan, by whom, where, and under
/// which settings.
#[derive(Debug, PartialEq)]
pub struct Task {
    pub env: Env,
    pub sender: String,
    /// The borrower's address as it was passed in.
    pub address: String,
    /// The borrower's address as the host validated it.
    pub borrower: String,
    pub config: Config,
}

pub struct TaskView {
    pub env: EnvView,
    pub sender: Seq<char>,
    pub address: Seq<char>,
    pub borrower: Seq<char>,
    pub config: ConfigView,
}

impl View for Task {
    type V = TaskView;

    open spec fn view(&self) -> TaskView {
        TaskView {
            env: self.env@,
            sender: self.sender@,
            address: self.address@,
            borrower: self.borrower@,
            config: self.config@,
        }
    }
}

/// The sums that a liquidation is about, in the smallest unit of the coin.
#[derive(Clone, Copy, Debug, PartialEq, Eq)]
pub struct Settlement {
    /// What the liquidator earns.
    pub liquidator_fee: u128,
    /// How far the loan is above its limit.
    pub repayment_amount: u128,
    /// Both together.
    pub ask_amount: u128,
}

/// The guardians of the borrower, and how far selling them has come.
#[derive(Debug, PartialEq)]
pub struct Swaps {
    pub guardians: Vec<Guardian>,
    /// The guardian whose turn it is.
    pub next: usize,
    /// What is still missing.
    pub ask_amount_left: u128,
    pub attributes: Vec<Attribute>,
    pub messages: Vec<Message>,
}

#[verifier::ext_equal]
pub struct SwapsView {
    pub guardians: Seq<GuardianView>,
    pub next: int,
    pub ask_amount_left: u128,
    pub attributes: Seq<(Seq<char>, Seq<char>)>,
    pub messages: Seq<MessageView>,
}

/// The guardians of a list.
pub open spec fn guardians_view(list: Seq<Guardian>) -> Seq<GuardianView> {
    Seq::new(list.len(), |i: int| list[i]@)
}

impl View for Swaps {
    type V = SwapsView;

    open spec fn view(&self) -> SwapsView {
        SwapsView {
            guardians: guardians_view(self.guardians@),
            next: self.next as int,
            ask_amount_left: self.ask_amount_left,
            attributes: attributes_view(self.attributes@),
            messages: messages_view(self.messages@),
        }
    }
}

// ---------------------------------------------------------------------------
// Questions and answers.

/// A question for the chain.
#[derive(Debug, PartialEq)]
pub enum Request {
    /// Of the market: the loan of a borrower.
    BorrowerInfo { market: String, borrower: String, block_height: u64 },
    /// Of the overseer: the collateral of a borrower.
    Collaterals { overseer: String, borrower: String },
    /// Of the overseer: how much a borrower may owe.
    BorrowLimit { overseer: String, borrower: String, block_time: u64 },
    /// Of the overseer: its settings.
    OverseerConfig { overseer: String },
    /// Of the oracle: what one `base` costs in `quote`, not older at
    /// `block_time` than `valid_timeframe`.
    Price { oracle: String, base: String, quote: String, block_time: u64, valid_timeframe: u64 },
    /// Of the liquidation contract: how much of each collateral would go.
    LiquidationAmount {
        liquidation: String,
        borrow_amount: Uint256,
        borrow_limit: Uint256,
        collaterals: Vec<(String, Uint256)>,
        collateral_prices: Vec<Decimal256>,
    },
    /// Of this contract: the guardians of a borrower.
    Guardians { address: String },
    /// Of a token: how much of `owner`'s balance `spender` may move.
    Allowance { token: String, owner: String, spender: String },
    /// Of a pool: how much of the other asset buys `ask_amount` of `denom`.
    ReverseSimulation { pair: String, denom: String, ask_amount: u128 },
    /// Of a pool: what `offer_amount` of `token` buys.
    Simulation { pair: String, token: String, offer_amount: u128 },
}

#[verifier::ext_equal]
pub enum RequestView {
    BorrowerInfo { market: Seq<char>, borrower: Seq<char>, block_height: u64 },
    Collaterals { overseer: Seq<char>, borrower: Seq<char> },
    BorrowLimit { overseer: Seq<char>, borrower: Seq<char>, block_time: u64 },
    OverseerConfig { overseer: Seq<char> },
    Price {
        oracle: Seq<char>,
        base: Seq<char>,
        quote: Seq<char>,
        block_time: u64,
        valid_timeframe: u64,
    },
    LiquidationAmount {
        liquidation: Seq<char>,
        borrow_amount: nat,
        borrow_limit: nat,
        collaterals: Seq<(Seq<char>, nat)>,
        collateral_prices: Seq<nat>,
    },
    Guardians { address: Seq<char> },
    Allowance { token: Seq<char>, owner: Seq<char>, spender: Seq<char> },
    ReverseSimulation { pair: Seq<char>, denom: Seq<char>, ask_amount: u128 },
    Simulation { pair: Seq<char>, token: Seq<char>, offer_amount: u128 },
}

impl View for Request {
    type V = RequestView;

    open spec fn view(&self) -> RequestView {
        match self {
            Request::BorrowerInfo { market, borrower, block_height } => RequestView::BorrowerInfo {
                market: market@,
                borrower: borrower@,
                block_height: *block_height,
            },
            Request::Collaterals { overseer, borrower } => RequestView::Collaterals {
                overseer: overseer@,
                borrower: borrower@,
            },
            Request::BorrowLimit { overseer, borrower, block_time } => RequestView::BorrowLimit {
                overseer: overseer@,
                borrower: borrower@,
                block_time: *block_time,
            },
            Request::OverseerConfig { overseer } => RequestView::OverseerConfig {
                overseer: overseer@,
            },
            Request::Price { oracle, base, quote, block_time, valid_timeframe } => {
                RequestView::Price {
                    oracle: oracle@,
                    base: base@,
                    quote: quote@,
                    block_time: *block_time,
                    valid_timeframe: *valid_timeframe,
                }
            },
            Request::LiquidationAmount {
                liquidation,
                borrow_amount,
                borrow_limit,
                collaterals,
                collateral_prices,
            } => RequestView::LiquidationAmount {
                liquidation: liquidation@,
                borrow_amount: borrow_amount@,
                borrow_limit: borrow_limit@,
                collaterals: tokens_view(collaterals@),
                collateral_prices: rates_view(collateral_prices@),
            },
            Request::Guardians { address } => RequestView::Guardians { address: address@ },
            Request::Allowance { token, owner, spender } => RequestView::Allowance {
                token: token@,
                owner: owner@,
                spender: spender@,
            },
            Request::ReverseSimulation { pair, denom, ask_amount } => {
                RequestView::ReverseSimulation {
                    pair: pair@,
                    denom: denom@,
                    ask_amount: *ask_amount,
                }
            },
            Request::Simulation { pair, token, offer_amount } => RequestView::Simulation {
                pair: pair@,
                token: token@,
                offer_amount: *offer_amount,
            },
        }
    }
}

/// An answer from the chain.
#[derive(Debug, PartialEq)]
pub enum Reply {
    /// There is none.
    Failed(StdError),
    /// The amount of the loan.
    Loan(Uint256),
    /// The collateral of the borrower.
    Collaterals(Vec<(String, Uint256)>),
    /// The borrow limit.
    Limit(Uint256),
    /// How old a price may be, in seconds.
    Timeframe(u64),
    /// The price of a collateral.
    Price(Decimal256),
    /// The collateral that would be liquidated.
    Amounts(Vec<(String, Uint256)>),
    /// The borrower's guardians.
    Guardians(Borrower),
    /// What may be taken of a guardian.
    Allowance(u128),
    /// What would have to be offered of a guardian.
    Offer(u128),
    /// What the offer would bring.
    Return(u128),
}

#[verifier::ext_equal]
pub enum ReplyView {
    Failed(StdError),
    Loan(nat),
    Collaterals(Seq<(Seq<char>, nat)>),
    Limit(nat),
    Timeframe(u64),
    Price(nat),
    Amounts(Seq<(Seq<char>, nat)>),
    Guardians(Seq<GuardianView>),
    Allowance(u128),
    Offer(u128),
    Return(u128),
}

impl View for Reply {
    type V = ReplyView;

    open spec fn view(&self) -> ReplyView {
        match self {
            Reply::Failed(e) => ReplyView::Failed(*e),
            Reply::Loan(loan) => ReplyView::Loan(loan@),
            Reply::Collaterals(list) => ReplyView::Collaterals(tokens_view(list@)),
            Reply::Limit(limit) => ReplyView::Limit(limit@),
            Reply::Timeframe(seconds) => ReplyView::Timeframe(*seconds),
            Reply::Price(rate) => ReplyView::Price(rate@),
            Reply::Amounts(list) => ReplyView::Amounts(tokens_view(list@)),
            Reply::Guardians(borrower) => ReplyView::Guardians(borrower@),
            Reply::Allowance(amount) => ReplyView::Allowance(*amount),
            Reply::Offer(amount) => ReplyView::Offer(*amount),
            Reply::Return(amount) => ReplyView::Return(*amount),
        }
    }
}

// ---------------------------------------------------------------------------
// Where a liquidation stands.

/// Where a liquidation stands, named after what it waits for.
#[derive(Debug, PartialEq)]
pub enum Liquidation {
    Loan { task: Task },
    Collaterals { task: Task, loan: Uint256 },
    Limit { task: Task, loan: Uint256, collaterals: Vec<(String, Uint256)> },
    Timeframe { task: Task, loan: Uint256, limit: Uint256, collaterals: Vec<(String, Uint256)> },
    Price {
        task: Task,
        loan: Uint256,
        limit: Uint256,
        collaterals: Vec<(String, Uint256)>,
        timeframe: u64,
        prices: Vec<Decimal256>,
    },
    Amounts {
        task: Task,
        loan: Uint256,
        limit: Uint256,
        collaterals: Vec<(String, Uint256)>,
        prices: Vec<Decimal256>,
    },
    Guardians { task: Task, settlement: Settlement, attributes: Vec<Attribute> },
    Allowance { task: Task, settlement: Settlement, swaps: Swaps },
    Offer { task: Task, settlement: Settlement, swaps: Swaps, allowance: u128 },
    Return { task: Task, settlement: Settlement, swaps: Swaps, offer: u128 },
}

#[verifier::ext_equal]
pub enum LiquidationView {
    Loan { task: TaskView },
    Collaterals { task: TaskView, loan: nat },
    Limit { task: TaskView, loan: nat, collaterals: Seq<(Seq<char>, nat)> },
    Timeframe { task: TaskView, loan: nat, limit: nat, collaterals: Seq<(Seq<char>, nat)> },
    Price {
        task: TaskView,
        loan: nat,
        limit: nat,
        collaterals: Seq<(Seq<char>, nat)>,
        timeframe: u64,
        prices: Seq<nat>,
    },
    Amounts {
        task: TaskView,
        loan: nat,
        limit: nat,
        collaterals: Seq<(Seq<char>, nat)>,
        prices: Seq<nat>,
    },
    Guardians {
        task: TaskView,
        settlement: Settlement,
        attributes: Seq<(Seq<char>, Seq<char>)>,
    },
    Allowance { task: TaskView, settlement: Settlement, swaps: SwapsView },
    Offer { task: TaskView, settlement: Settlement, swaps: SwapsView, allowance: u128 },
    Return { task: TaskView, settlement: Settlement, swaps: SwapsView, offer: u128 },
}

impl View for Liquidation {
    type V = LiquidationView;

    open spec fn view(&self) -> LiquidationView {
        match self {
            Liquidation::Loan { task } => LiquidationView::Loan { task: task@ },
            Liquidation::Collaterals { task, loan } => LiquidationView::Collaterals {
                task: task@,
                loan: loan@,
            },
            Liquidation::Limit { task, loan, collaterals } => LiquidationView::Limit {
                task: task@,
                loan: loan@,
                collaterals: tokens_view(collaterals@),
            },
            Liquidation::Timeframe { task, loan, limit, collaterals } => {
                LiquidationView::Timeframe {
                    task: task@,
                    loan: loan@,
                    limit: limit@,
                    collaterals: tokens_view(collaterals@),
                }
            },
            Liquidation::Price { task, loan, limit, collaterals, timeframe, prices } => {
                LiquidationView::Price {
                    task: task@,
                    loan: loan@,
                    limit: limit@,
                    collaterals: tokens_view(collaterals@),
                    timeframe: *timeframe,
                    prices: rates_view(prices@),
                }
            },
            Liquidation::Amounts { task, loan, limit, collaterals, prices } => {
                LiquidationView::Amounts {
                    task: task@,
                    loan: loan@,
                    limit: limit@,
                    collaterals: tokens_view(collaterals@),
                    prices: rates_view(prices@),
                }
            },
            Liquidation::Guardians { task, settlement, attributes } => LiquidationView::Guardians {
                task: task@,
                settlement: *settlement,
                attributes: attributes_view(attributes@),
            },
            Liquidation::Allowance { task, settlement, swaps } => LiquidationView::Allowance {
                task: task@,
                settlement: *settlement,
                swaps: swaps@,
            },
            Liquidation::Offer { task, settlement, swaps, allowance } => LiquidationView::Offer {
                task: task@,
                settlement: *settlement,
                swaps: swaps@,
                allowance: *allowance,
            },
            Liquidation::Return { task, settlement, swaps, offer } => LiquidationView::Return {
                task: task@,
                settlement: *settlement,
                swaps: swaps@,
                offer: *offer,
            },
        }
    }
}

/// What an answer leads to.
#[derive(Debug, PartialEq)]
pub enum Step {
    /// The liquidation goes on with the next question.
    Ask(Liquidation),
    /// The liquidation is decided.
    Done(Response),
}

#[verifier::ext_equal]
pub enum StepView {
    Ask(LiquidationView),
    Done(ResponseView),
}

impl View for Step {
    type V = StepView;

    open spec fn view(&self) -> StepView {
        match self {
            Step::Ask(liquidation) => StepView::Ask(liquidation@),
            Step::Done(response) => StepView::Done(response@),
        }
    }
}

} // verus!
