//! The decisions of a liquidation: what it asks, and where an answer takes it.

use vstd::pervasive::unreached;
use vstd::prelude::*;

use crate::amount::{decimal_text, less_than, uint128_text, uint256_text, Decimal256, Uint256};
use crate::error::ContractError;
use crate::liquidation::{
    rates_view, stable_denom, stable_denom_text, tokens_view, Liquidation,
    LiquidationView, Reply, ReplyView, Request, RequestView, Settlement, Step, StepView, Swaps,
    SwapsView, Task, TaskView, GUARDIAN_BUFFER, SHORTFALL_LIMIT,
};
use crate::settlement::{
    checked_liquidation_value, checked_settlement, liquidation_value, settlement_fits,
    settlement_of, value_fits,
};
use crate::types::{
    attributes_view, messages_view, viewed, Attribute, GuardianView, Message, MessageView, Response,
    ResponseView,
};

verus! {

// ---------------------------------------------------------------------------
// The rules.

/// The liquidation after `prices` are known: it asks for the next one, or,
/// with a price for every collateral, for what would be liquidated.
pub open spec fn with_prices(
    task: TaskView,
    loan: nat,
    limit: nat,
    collaterals: Seq<(Seq<char>, nat)>,
    timeframe: u64,
    prices: Seq<nat>,
) -> LiquidationView {
    if prices.len() < collaterals.len() {
        LiquidationView::Price { task, loan, limit, collaterals, timeframe, prices }
    } else {
        LiquidationView::Amounts { task, loan, limit, collaterals, prices }
    }
}

/// What is noted before the guardians' turn.
pub open spec fn opening_notes(
    loan: nat,
    limit: nat,
    value: nat,
    settlement: Settlement,
) -> Seq<(Seq<char>, Seq<char>)> {
    seq![
        ("borrower_loan"@, decimal_text(loan)),
        ("borrower_limit"@, decimal_text(limit)),
        ("liquidation_value"@, decimal_text(value)),
        ("ask_amount_init"@, decimal_text(settlement.ask_amount as nat)),
        ("repayment_amount"@, decimal_text(settlement.repayment_amount as nat)),
    ]
}

/// The guardians before the first one's turn: what is asked for, and the
/// buffer, is missing.
pub open spec fn opening_swaps(
    settlement: Settlement,
    guardians: Seq<GuardianView>,
    attributes: Seq<(Seq<char>, Seq<char>)>,
) -> SwapsView {
    SwapsView {
        guardians,
        next: 0,
        ask_amount_left: (settlement.ask_amount + GUARDIAN_BUFFER) as u128,
        attributes,
        messages: Seq::empty(),
    }
}

/// What is taken of a guardian: what is needed of it, but not more than the
/// borrower allowed.
pub open spec fn offer_of(required: u128, allowance: u128) -> u128 {
    if required <= allowance {
        required
    } else {
        allowance
    }
}

/// The messages that sell `offer` of the guardian whose turn it is: to the
/// contract, and from there to the pool.
pub open spec fn sale(task: TaskView, swaps: SwapsView, offer: u128) -> Seq<MessageView> {
    let guardian = swaps.guardians[swaps.next];
    seq![
        MessageView::TransferFrom {
            token: guardian.address,
            owner: task.address,
            recipient: task.env.contract_address,
            amount: offer,
        },
        MessageView::Swap {
            token: guardian.address,
            pair: guardian.pair_address,
            amount: offer,
        },
    ]
}

/// The guardians once `offer` of the one whose turn it is was sold for
/// `proceeds`.
pub open spec fn after_sale(
    task: TaskView,
    swaps: SwapsView,
    offer: u128,
    proceeds: u128,
) -> SwapsView {
    let left = (swaps.ask_amount_left - proceeds) as u128;
    SwapsView {
        guardians: swaps.guardians,
        next: swaps.next + 1,
        ask_amount_left: left,
        attributes: swaps.attributes.push(("expected_ust"@, decimal_text(proceeds as nat))).push(
            ("ask_amount_left"@, decimal_text(left as nat)),
        ),
        messages: swaps.messages + sale(task, swaps, offer),
    }
}

/// How a liquidation ends. With too much still missing, nothing is sold and
/// the overseer liquidates the collateral as usual. Otherwise the guardians
/// are sold, the loan is brought back to its limit and the liquidator is paid.
pub open spec fn closing(
    task: TaskView,
    settlement: Settlement,
    swaps: SwapsView,
) -> ResponseView {
    ResponseView {
        attributes: swaps.attributes,
        messages: if swaps.ask_amount_left >= SHORTFALL_LIMIT {
            seq![
                MessageView::LiquidateCollateral {
                    overseer: task.config.anchor_overseer_contract,
                    borrower: task.address,
                },
            ]
        } else {
            swaps.messages + seq![
                MessageView::RepayStable {
                    wallet: task.address,
                    amount: settlement.repayment_amount,
                },
                MessageView::BankSend {
                    to_address: task.sender,
                    amount: settlement.liquidator_fee,
                },
            ]
        },
    }
}

/// The next guardian's turn, or the end where there is none left or `stop`.
pub open spec fn next_turn(
    task: TaskView,
    settlement: Settlement,
    swaps: SwapsView,
    stop: bool,
) -> StepView {
    if stop || swaps.next >= swaps.guardians.len() {
        StepView::Done(closing(task, settlement, swaps))
    } else {
        StepView::Ask(LiquidationView::Allowance { task, settlement, swaps })
    }
}

impl LiquidationView {
    /// Whether a liquidation can stand here: past the check of the limit the
    /// loan is not below it, and the question is about something that exists.
    pub open spec fn wf(self) -> bool {
        match self {
            LiquidationView::Timeframe { loan, limit, .. } => limit <= loan,
            LiquidationView::Price { loan, limit, collaterals, prices, .. } => limit <= loan
                && prices.len() < collaterals.len(),
            LiquidationView::Amounts { loan, limit, .. } => limit <= loan,
            LiquidationView::Guardians { settlement, .. } => settlement.ask_amount + GUARDIAN_BUFFER
                <= u128::MAX,
            LiquidationView::Allowance { swaps, .. } => 0 <= swaps.next < swaps.guardians.len(),
            LiquidationView::Offer { swaps, .. } => 0 <= swaps.next < swaps.guardians.len(),
            LiquidationView::Return { swaps, .. } => 0 <= swaps.next < swaps.guardians.len(),
            _ => true,
        }
    }

    /// What is asked here.
    pub open spec fn request(self) -> RequestView {
        match self {
            LiquidationView::Loan { task } => RequestView::BorrowerInfo {
                market: task.config.anchor_market_contract,
                borrower: task.borrower,
                block_height: task.env.block_height,
            },
            LiquidationView::Collaterals { task, .. } => RequestView::Collaterals {
                overseer: task.config.anchor_overseer_contract,
                borrower: task.borrower,
            },
            LiquidationView::Limit { task, .. } => RequestView::BorrowLimit {
                overseer: task.config.anchor_overseer_contract,
                borrower: task.borrower,
                block_time: task.env.block_time,
            },
            LiquidationView::Timeframe { task, .. } => RequestView::OverseerConfig {
                overseer: task.config.anchor_overseer_contract,
            },
            LiquidationView::Price { task, collaterals, timeframe, prices, .. } => {
                RequestView::Price {
                    oracle: task.config.anchor_oracle_contract,
                    base: collaterals[prices.len() as int].0,
                    quote: stable_denom_text(),
                    block_time: task.env.block_time,
                    valid_timeframe: timeframe,
                }
            },
            LiquidationView::Amounts { task, loan, limit, collaterals, prices } => {
                RequestView::LiquidationAmount {
                    liquidation: task.config.anchor_liquidation_contract,
                    borrow_amount: loan,
                    borrow_limit: limit,
                    collaterals,
                    collateral_prices: prices,
                }
            },
            LiquidationView::Guardians { task, .. } => RequestView::Guardians {
                address: task.address,
            },
            LiquidationView::Allowance { task, swaps, .. } => RequestView::Allowance {
                token: swaps.guardians[swaps.next].address,
                owner: task.address,
                spender: task.env.contract_address,
            },
            LiquidationView::Offer { swaps, .. } => RequestView::ReverseSimulation {
                pair: swaps.guardians[swaps.next].pair_address,
                denom: stable_denom_text(),
                ask_amount: swaps.ask_amount_left,
            },
            LiquidationView::Return { swaps, offer, .. } => RequestView::Simulation {
                pair: swaps.guardians[swaps.next].pair_address,
                token: swaps.guardians[swaps.next].address,
                offer_amount: offer,
            },
        }
    }

    /// Whether the answer is one to the question that is asked here, and all
    /// sums that follow from it are in range.
    pub open spec fn accepts(self, reply: ReplyView) -> bool {
        match (self, reply) {
            (_, ReplyView::Failed(_)) => true,
            (LiquidationView::Loan { .. }, ReplyView::Loan(_)) => true,
            (LiquidationView::Collaterals { .. }, ReplyView::Collaterals(_)) => true,
            (LiquidationView::Limit { .. }, ReplyView::Limit(_)) => true,
            (LiquidationView::Timeframe { .. }, ReplyView::Timeframe(_)) => true,
            (LiquidationView::Price { .. }, ReplyView::Price(_)) => true,
            (
                LiquidationView::Amounts { task, loan, limit, prices, .. },
                ReplyView::Amounts(amounts),
            ) => value_fits(amounts, prices) && settlement_fits(
                loan,
                limit,
                task.config.liquidator_fee as nat,
                liquidation_value(amounts, prices),
            ),
            (LiquidationView::Guardians { .. }, ReplyView::Guardians(_)) => true,
            (LiquidationView::Allowance { .. }, ReplyView::Allowance(_)) => true,
            (LiquidationView::Offer { .. }, ReplyView::Offer(_)) => true,
            (LiquidationView::Return { swaps, .. }, ReplyView::Return(proceeds)) => proceeds
                <= swaps.ask_amount_left,
            _ => false,
        }
    }

    /// Where an answer leads, for an answer that is accepted here.
    pub open spec fn resume(self, reply: ReplyView) -> Result<StepView, ContractError>
        recommends
            self.accepts(reply),
    {
        match (self, reply) {
            (_, ReplyView::Failed(e)) => Err(ContractError::Std(e)),
            (LiquidationView::Loan { task }, ReplyView::Loan(loan)) => Ok(
                StepView::Ask(LiquidationView::Collaterals { task, loan }),
            ),
            (
                LiquidationView::Collaterals { task, loan },
                ReplyView::Collaterals(collaterals),
            ) => Ok(StepView::Ask(LiquidationView::Limit { task, loan, collaterals })),
            (LiquidationView::Limit { task, loan, collaterals }, ReplyView::Limit(limit)) => {
                if loan < limit {
                    Err(ContractError::CollateralRatioSafe)
                } else {
                    Ok(StepView::Ask(LiquidationView::Timeframe { task, loan, limit, collaterals }))
                }
            },
            (
                LiquidationView::Timeframe { task, loan, limit, collaterals },
                ReplyView::Timeframe(timeframe),
            ) => Ok(
                StepView::Ask(
                    with_prices(task, loan, limit, collaterals, timeframe, Seq::empty()),
                ),
            ),
            (
                LiquidationView::Price { task, loan, limit, collaterals, timeframe, prices },
                ReplyView::Price(price),
            ) => Ok(
                StepView::Ask(
                    with_prices(task, loan, limit, collaterals, timeframe, prices.push(price)),
                ),
            ),
            (
                LiquidationView::Amounts { task, loan, limit, prices, .. },
                ReplyView::Amounts(amounts),
            ) => {
                let value = liquidation_value(amounts, prices);
                let settlement = settlement_of(
                    loan,
                    limit,
                    task.config.liquidator_fee as nat,
                    value,
                );
                Ok(
                    StepView::Ask(
                        LiquidationView::Guardians {
                            task,
                            settlement,
                            attributes: opening_notes(loan, limit, value, settlement),
                        },
                    ),
                )
            },
            (
                LiquidationView::Guardians { task, settlement, attributes },
                ReplyView::Guardians(guardians),
            ) => Ok(
                next_turn(
                    task,
                    settlement,
                    opening_swaps(settlement, guardians, attributes),
                    false,
                ),
            ),
            (
                LiquidationView::Allowance { task, settlement, swaps },
                ReplyView::Allowance(allowance),
            ) => Ok(StepView::Ask(LiquidationView::Offer { task, settlement, swaps, allowance })),
            (
                LiquidationView::Offer { task, settlement, swaps, allowance },
                ReplyView::Offer(required),
            ) => {
                let offer = offer_of(required, allowance);
                let attributes = swaps.attributes.push(
                    ("guardian_offer_amount"@, decimal_text(offer as nat)),
                );
                Ok(
                    StepView::Ask(
                        LiquidationView::Return {
                            task,
                            settlement,
                            swaps: SwapsView { attributes, ..swaps },
                            offer,
                        },
                    ),
                )
            },
            (
                LiquidationView::Return { task, settlement, swaps, offer },
                ReplyView::Return(proceeds),
            ) => Ok(
                next_turn(
                    task,
                    settlement,
                    after_sale(task, swaps, offer, proceeds),
                    settlement.ask_amount == 0,
                ),
            ),
            _ => arbitrary(),
        }
    }
}

// ---------------------------------------------------------------------------
// Lists.

/// Appends a note.
fn note(list: &mut Vec<Attribute>, key: &str, value: String)
    ensures
        attributes_view(final(list)@) == attributes_view(old(list)@).push((key@, value@)),
{
    list.push(Attribute { key: key.to_owned(), value });
    assert(attributes_view(list@) =~= attributes_view(old(list)@).push((key@, value@)));
}

/// Appends a message.
fn post(list: &mut Vec<Message>, message: Message)
    ensures
        messages_view(final(list)@) == messages_view(old(list)@).push(message@),
{
    list.push(message);
    assert(messages_view(list@) =~= messages_view(old(list)@).push(message@));
}

/// Copies a list of token amounts.
fn copy_tokens(list: &Vec<(String, Uint256)>) -> (r: Vec<(String, Uint256)>)
    ensures
        tokens_view(r@) == tokens_view(list@),
{
    let mut copy: Vec<(String, Uint256)> = Vec::new();
    let mut i: usize = 0;
    while i < list.len()
        invariant
            i <= list.len(),
            copy.len() == i,
            forall|k: int|
                0 <= k < i ==> #[trigger] copy[k].0@ == list[k].0@ && copy[k].1@ == list[k].1@,
        decreases list.len() - i,
    {
        copy.push((list[i].0.clone(), list[i].1));
        i += 1;
    }
    assert(tokens_view(copy@) =~= tokens_view(list@));
    copy
}

/// Copies a list of decimals.
fn copy_rates(list: &Vec<Decimal256>) -> (r: Vec<Decimal256>)
    ensures
        rates_view(r@) == rates_view(list@),
{
    let mut copy: Vec<Decimal256> = Vec::new();
    let mut i: usize = 0;
    while i < list.len()
        invariant
            i <= list.len(),
            copy.len() == i,
            forall|k: int| 0 <= k < i ==> #[trigger] copy[k]@ == list[k]@,
        decreases list.len() - i,
    {
        copy.push(list[i]);
        i += 1;
    }
    assert(rates_view(copy@) =~= rates_view(list@));
    copy
}

// ---------------------------------------------------------------------------
// The code.

/// See the rule [`with_prices`].
fn ask_price(
    task: Task,
    loan: Uint256,
    limit: Uint256,
    collaterals: Vec<(String, Uint256)>,
    timeframe: u64,
    prices: Vec<Decimal256>,
) -> (r: Liquidation)
    ensures
        r@ == with_prices(
            task@,
            loan@,
            limit@,
            tokens_view(collaterals@),
            timeframe,
            rates_view(prices@),
        ),
{
    if prices.len() < collaterals.len() {
        Liquidation::Price { task, loan, limit, collaterals, timeframe, prices }
    } else {
        Liquidation::Amounts { task, loan, limit, collaterals, prices }
    }
}

/// See the rule [`closing`].
fn close(task: Task, settlement: Settlement, swaps: Swaps) -> (r: Response)
    ensures
        r@ == closing(task@, settlement, swaps@),
{
    let attributes = swaps.attributes;
    let mut messages = swaps.messages;
    if swaps.ask_amount_left >= SHORTFALL_LIMIT as u128 {
        messages = Vec::new();
        post(
            &mut messages,
            Message::LiquidateCollateral {
                overseer: task.config.anchor_overseer_contract,
                borrower: task.address,
            },
        );
    } else {
        post(
            &mut messages,
            Message::RepayStable {
                wallet: task.address.clone(),
                amount: settlement.repayment_amount,
            },
        );
        post(
            &mut messages,
            Message::BankSend { to_address: task.sender, amount: settlement.liquidator_fee },
        );
    }
    let response = Response { attributes, messages };
    assert(response@ =~= closing(task@, settlement, swaps@));
    response
}

/// See the rule [`next_turn`].
fn turn(task: Task, settlement: Settlement, swaps: Swaps, stop: bool) -> (r: Step)
    ensures
        r@ == next_turn(task@, settlement, swaps@, stop),
{
    if stop || swaps.next >= swaps.guardians.len() {
        Step::Done(close(task, settlement, swaps))
    } else {
        Step::Ask(Liquidation::Allowance { task, settlement, swaps })
    }
}

/// See the rule [`after_sale`].
fn sell(task: &Task, swaps: Swaps, offer: u128, proceeds: u128) -> (r: Swaps)
    requires
        swaps.next < swaps.guardians.len(),
        proceeds <= swaps.ask_amount_left,
    ensures
        r@ == after_sale(task@, swaps@, offer, proceeds),
{
    let ask_amount_left: u128 = swaps.ask_amount_left - proceeds;
    let mut attributes = swaps.attributes;
    let mut messages = swaps.messages;
    let guardian = &swaps.guardians[swaps.next];
    post(
        &mut messages,
        Message::TransferFrom {
            token: guardian.address.clone(),
            owner: task.address.clone(),
            recipient: task.env.contract_address.clone(),
            amount: offer,
        },
    );
    post(
        &mut messages,
        Message::Swap {
            token: guardian.address.clone(),
            pair: guardian.pair_address.clone(),
            amount: offer,
        },
    );
    note(&mut attributes, "expected_ust", uint128_text(proceeds));
    note(&mut attributes, "ask_amount_left", uint128_text(ask_amount_left));
    let sold = Swaps {
        guardians: swaps.guardians,
        next: swaps.next + 1,
        ask_amount_left,
        attributes,
        messages,
    };
    assert(sold@ =~= after_sale(task@, swaps@, offer, proceeds));
    sold
}

impl Liquidation {
    /// What is asked here.
    pub fn request(&self) -> (r: Request)
        requires
            self@.wf(),
        ensures
            r@ == self@.request(),
    {
        match self {
            Liquidation::Loan { task } => Request::BorrowerInfo {
                market: task.config.anchor_market_contract.clone(),
                borrower: task.borrower.clone(),
                block_height: task.env.block_height,
            },
            Liquidation::Collaterals { task, .. } => Request::Collaterals {
                overseer: task.config.anchor_overseer_contract.clone(),
                borrower: task.borrower.clone(),
            },
            Liquidation::Limit { task, .. } => Request::BorrowLimit {
                overseer: task.config.anchor_overseer_contract.clone(),
                borrower: task.borrower.clone(),
                block_time: task.env.block_time,
            },
            Liquidation::Timeframe { task, .. } => Request::OverseerConfig {
                overseer: task.config.anchor_overseer_contract.clone(),
            },
            Liquidation::Price { task, collaterals, timeframe, prices, .. } => Request::Price {
                oracle: task.config.anchor_oracle_contract.clone(),
                base: collaterals[prices.len()].0.clone(),
                quote: stable_denom(),
                block_time: task.env.block_time,
                valid_timeframe: *timeframe,
            },
            Liquidation::Amounts { task, loan, limit, collaterals, prices } => {
                Request::LiquidationAmount {
                    liquidation: task.config.anchor_liquidation_contract.clone(),
                    borrow_amount: *loan,
                    borrow_limit: *limit,
                    collaterals: copy_tokens(collaterals),
                    collateral_prices: copy_rates(prices),
                }
            },
            Liquidation::Guardians { task, .. } => Request::Guardians {
                address: task.address.clone(),
            },
            Liquidation::Allowance { task, swaps, .. } => Request::Allowance {
                token: swaps.guardians[swaps.next].address.clone(),
                owner: task.address.clone(),
                spender: task.env.contract_address.clone(),
            },
            Liquidation::Offer { swaps, .. } => Request::ReverseSimulation {
                pair: swaps.guardians[swaps.next].pair_address.clone(),
                denom: stable_denom(),
                ask_amount: swaps.ask_amount_left,
            },
            Liquidation::Return { swaps, offer, .. } => Request::Simulation {
                pair: swaps.guardians[swaps.next].pair_address.clone(),
                token: swaps.guardians[swaps.next].address.clone(),
                offer_amount: *offer,
            },
        }
    }

    /// Whether [`Liquidation::resume`] can go on from the answer. Where it
    /// cannot, the message has to be aborted.
    pub fn accepts(&self, reply: &Reply) -> (r: bool)
        requires
            self@.wf(),
        ensures
            r == self@.accepts(reply@),
    {
        match (self, reply) {
            (_, Reply::Failed(_)) => true,
            (Liquidation::Loan { .. }, Reply::Loan(_)) => true,
            (Liquidation::Collaterals { .. }, Reply::Collaterals(_)) => true,
            (Liquidation::Limit { .. }, Reply::Limit(_)) => true,
            (Liquidation::Timeframe { .. }, Reply::Timeframe(_)) => true,
            (Liquidation::Price { .. }, Reply::Price(_)) => true,
            (Liquidation::Amounts { task, loan, limit, prices, .. }, Reply::Amounts(amounts)) => {
                match checked_liquidation_value(amounts, prices) {
                    Some(value) => checked_settlement(
                        loan,
                        limit,
                        task.config.liquidator_fee,
                        &value,
                    ).is_some(),
                    None => false,
                }
            },
            (Liquidation::Guardians { .. }, Reply::Guardians(_)) => true,
            (Liquidation::Allowance { .. }, Reply::Allowance(_)) => true,
            (Liquidation::Offer { .. }, Reply::Offer(_)) => true,
            (Liquidation::Return { swaps, .. }, Reply::Return(proceeds)) => *proceeds
                <= swaps.ask_amount_left,
            _ => false,
        }
    }

    /// Goes on from an answer to what was asked.
    pub fn resume(self, reply: Reply) -> (r: Result<Step, ContractError>)
        requires
            self@.wf(),
            self@.accepts(reply@),
        ensures
            viewed(r) == self@.resume(reply@),
            r matches Ok(Step::Ask(next)) ==> next@.wf(),
    {
        match (self, reply) {
            (_, Reply::Failed(e)) => Err(ContractError::Std(e)),
            (Liquidation::Loan { task }, Reply::Loan(loan)) => Ok(
                Step::Ask(Liquidation::Collaterals { task, loan }),
            ),
            (Liquidation::Collaterals { task, loan }, Reply::Collaterals(collaterals)) => Ok(
                Step::Ask(Liquidation::Limit { task, loan, collaterals }),
            ),
            (Liquidation::Limit { task, loan, collaterals }, Reply::Limit(limit)) => {
                if less_than(&loan, &limit) {
                    Err(ContractError::CollateralRatioSafe)
                } else {
                    Ok(Step::Ask(Liquidation::Timeframe { task, loan, limit, collaterals }))
                }
            },
            (
                Liquidation::Timeframe { task, loan, limit, collaterals },
                Reply::Timeframe(timeframe),
            ) => {
                let prices: Vec<Decimal256> = Vec::new();
                assert(rates_view(prices@) =~= Seq::<nat>::empty());
                Ok(Step::Ask(ask_price(task, loan, limit, collaterals, timeframe, prices)))
            },
            (
                Liquidation::Price { task, loan, limit, collaterals, timeframe, mut prices },
                Reply::Price(price),
            ) => {
                let ghost before = rates_view(prices@);
                prices.push(price);
                assert(rates_view(prices@) =~= before.push(price@));
                Ok(Step::Ask(ask_price(task, loan, limit, collaterals, timeframe, prices)))
            },
            (
                Liquidation::Amounts { task, loan, limit, prices, .. },
                Reply::Amounts(amounts),
            ) => {
                let value = checked_liquidation_value(&amounts, &prices).unwrap();
                let settlement = checked_settlement(
                    &loan,
                    &limit,
                    task.config.liquidator_fee,
                    &value,
                ).unwrap();
                let mut attributes: Vec<Attribute> = Vec::new();
                note(&mut attributes, "borrower_loan", uint256_text(&loan));
                note(&mut attributes, "borrower_limit", uint256_text(&limit));
                note(&mut attributes, "liquidation_value", uint256_text(&value));
                note(&mut attributes, "ask_amount_init", uint128_text(settlement.ask_amount));
                note(
                    &mut attributes,
                    "repayment_amount",
                    uint128_text(settlement.repayment_amount),
                );
                assert(attributes_view(attributes@) =~= opening_notes(
                    loan@,
                    limit@,
                    value@,
                    settlement,
                ));
                Ok(Step::Ask(Liquidation::Guardians { task, settlement, attributes }))
            },
            (
                Liquidation::Guardians { task, settlement, attributes },
                Reply::Guardians(borrower),
            ) => {
                let swaps = Swaps {
                    guardians: borrower.guardians,
                    next: 0,
                    ask_amount_left: settlement.ask_amount + GUARDIAN_BUFFER as u128,
                    attributes,
                    messages: Vec::new(),
                };
                assert(swaps@ =~= opening_swaps(
                    settlement,
                    borrower@,
                    attributes_view(attributes@),
                ));
                Ok(turn(task, settlement, swaps, false))
            },
            (
                Liquidation::Allowance { task, settlement, swaps },
                Reply::Allowance(allowance),
            ) => Ok(Step::Ask(Liquidation::Offer { task, settlement, swaps, allowance })),
            (
                Liquidation::Offer { task, settlement, swaps, allowance },
                Reply::Offer(required),
            ) => {
                let offer: u128 = if required <= allowance {
                    required
                } else {
                    allowance
                };
                let mut attributes = swaps.attributes;
                note(&mut attributes, "guardian_offer_amount", uint128_text(offer));
                let swaps = Swaps {
                    guardians: swaps.guardians,
                    next: swaps.next,
                    ask_amount_left: swaps.ask_amount_left,
                    attributes,
                    messages: swaps.messages,
                };
                Ok(Step::Ask(Liquidation::Return { task, settlement, swaps, offer }))
            },
            (
                Liquidation::Return { task, settlement, swaps, offer },
                Reply::Return(proceeds),
            ) => {
                let swaps = sell(&task, swaps, offer, proceeds);
                let stop = settlement.ask_amount == 0;
                Ok(turn(task, settlement, swaps, stop))
            },
            _ => unreached(),
        }
    }
}

} // verus!
