//! What a whole liquidation comes to.

use cosmwasm_std::StdError;
use vstd::prelude::*;

use crate::amount::decimal_text;
use crate::decision::{
    after_sale, closing, next_turn, offer_of, opening_notes, opening_swaps, with_prices,
};
use crate::error::ContractError;
use crate::liquidation::{
    LiquidationView, ReplyView, Settlement, StepView, SwapsView, TaskView, GUARDIAN_BUFFER,
    SHORTFALL_LIMIT,
};
use crate::settlement::{liquidation_value, settlement_fits, settlement_of, value_fits};
use crate::types::{GuardianView, MessageView, ResponseView};

verus! {

/// Where a liquidation stands after a list of answers, first to last. What
/// comes after its end is not looked at.
pub open spec fn drive(start: LiquidationView, replies: Seq<ReplyView>) -> Result<
    StepView,
    ContractError,
>
    decreases replies.len(),
{
    if replies.len() == 0 {
        Ok(StepView::Ask(start))
    } else {
        match start.resume(replies[0]) {
            Ok(StepView::Ask(next)) => drive(next, replies.skip(1)),
            end => end,
        }
    }
}

/// Whether each of a list of answers is accepted where it is given.
pub open spec fn drivable(start: LiquidationView, replies: Seq<ReplyView>) -> bool
    decreases replies.len(),
{
    replies.len() == 0 || start.accepts(replies[0]) && match start.resume(replies[0]) {
        Ok(StepView::Ask(next)) => drivable(next, replies.skip(1)),
        _ => true,
    }
}

/// What the chain answers about one guardian: how much of it may be taken, how
/// much would be needed, and what selling the smaller of both brings.
pub struct Quote {
    pub allowance: u128,
    pub required: u128,
    pub proceeds: u128,
}

/// The answers about one guardian.
pub open spec fn quote_replies(quote: Quote) -> Seq<ReplyView> {
    seq![
        ReplyView::Allowance(quote.allowance),
        ReplyView::Offer(quote.required),
        ReplyView::Return(quote.proceeds),
    ]
}

/// The answers about the guardians, one after another.
pub open spec fn all_quote_replies(quotes: Seq<Quote>) -> Seq<ReplyView>
    decreases quotes.len(),
{
    if quotes.len() == 0 {
        Seq::empty()
    } else {
        quote_replies(quotes[0]) + all_quote_replies(quotes.skip(1))
    }
}

/// The answers about the prices, one after another.
pub open spec fn price_replies(prices: Seq<nat>) -> Seq<ReplyView> {
    Seq::new(prices.len(), |i: int| ReplyView::Price(prices[i]))
}

/// What selling the guardians brings in all.
pub open spec fn total_proceeds(quotes: Seq<Quote>) -> nat
    decreases quotes.len(),
{
    if quotes.len() == 0 {
        0
    } else {
        quotes[0].proceeds as nat + total_proceeds(quotes.skip(1))
    }
}

/// The messages that sell the guardians, as the quotes say, one after another.
pub open spec fn sales(
    task: TaskView,
    guardians: Seq<GuardianView>,
    quotes: Seq<Quote>,
) -> Seq<MessageView>
    decreases quotes.len(),
{
    if quotes.len() == 0 {
        Seq::empty()
    } else {
        let offer = offer_of(quotes[0].required, quotes[0].allowance);
        seq![
            MessageView::TransferFrom {
                token: guardians[0].address,
                owner: task.address,
                recipient: task.env.contract_address,
                amount: offer,
            },
            MessageView::Swap {
                token: guardians[0].address,
                pair: guardians[0].pair_address,
                amount: offer,
            },
        ] + sales(task, guardians.skip(1), quotes.skip(1))
    }
}

/// What is noted about the guardians while `left` is missing at first.
pub open spec fn sale_notes(left: int, quotes: Seq<Quote>) -> Seq<(Seq<char>, Seq<char>)>
    decreases quotes.len(),
{
    if quotes.len() == 0 {
        Seq::empty()
    } else {
        let offer = offer_of(quotes[0].required, quotes[0].allowance);
        let rest = left - quotes[0].proceeds;
        seq![
            ("guardian_offer_amount"@, decimal_text(offer as nat)),
            ("expected_ust"@, decimal_text(quotes[0].proceeds as nat)),
            ("ask_amount_left"@, decimal_text(rest as nat)),
        ] + sale_notes(rest, quotes.skip(1))
    }
}

/// How many guardians have their turn: all of them, but only the first one
/// where nothing is asked for.
pub open spec fn turns(settlement: Settlement, guardians: Seq<GuardianView>) -> nat {
    if settlement.ask_amount == 0 && guardians.len() > 0 {
        1
    } else {
        guardians.len()
    }
}

/// What a liquidation is answered in the end.
pub open spec fn verdict(
    task: TaskView,
    loan: nat,
    limit: nat,
    value: nat,
    guardians: Seq<GuardianView>,
    quotes: Seq<Quote>,
) -> ResponseView {
    let settlement = settlement_of(loan, limit, task.config.liquidator_fee as nat, value);
    let asked = settlement.ask_amount + GUARDIAN_BUFFER;
    ResponseView {
        attributes: opening_notes(loan, limit, value, settlement) + sale_notes(asked, quotes),
        messages: if asked - total_proceeds(quotes) >= SHORTFALL_LIMIT {
            seq![
                MessageView::LiquidateCollateral {
                    overseer: task.config.anchor_overseer_contract,
                    borrower: task.address,
                },
            ]
        } else {
            sales(task, guardians, quotes) + seq![
                MessageView::RepayStable {
                    wallet: task.address,
                    amount: settlement.repayment_amount,
                },
                MessageView::BankSend {
                    to_address: task.sender,
                    amount: settlement.liquidator_fee,
                },
            ]
        },
    }
}

/// All answers of a liquidation, first to last.
pub open spec fn dialogue(
    loan: nat,
    collaterals: Seq<(Seq<char>, nat)>,
    limit: nat,
    timeframe: u64,
    prices: Seq<nat>,
    amounts: Seq<(Seq<char>, nat)>,
    guardians: Seq<GuardianView>,
    quotes: Seq<Quote>,
) -> Seq<ReplyView> {
    seq![
        ReplyView::Loan(loan),
        ReplyView::Collaterals(collaterals),
        ReplyView::Limit(limit),
        ReplyView::Timeframe(timeframe),
    ] + price_replies(prices) + seq![
        ReplyView::Amounts(amounts),
        ReplyView::Guardians(guardians),
    ] + all_quote_replies(quotes)
}

// ---------------------------------------------------------------------------
// Lemmas.

/// One answer that is accepted and leads on.
proof fn lemma_step(start: LiquidationView, replies: Seq<ReplyView>, next: LiquidationView)
    requires
        replies.len() > 0,
        start.accepts(replies[0]),
        start.resume(replies[0]) == Ok::<StepView, ContractError>(StepView::Ask(next)),
    ensures
        drive(start, replies) == drive(next, replies.skip(1)),
        drivable(start, replies) == drivable(next, replies.skip(1)),
{
}

/// The prices, from the one that is asked for on.
proof fn lemma_prices(
    task: TaskView,
    loan: nat,
    limit: nat,
    collaterals: Seq<(Seq<char>, nat)>,
    timeframe: u64,
    known: Seq<nat>,
    prices: Seq<nat>,
    rest: Seq<ReplyView>,
)
    requires
        known.len() + prices.len() == collaterals.len(),
    ensures
        ({
            let start = with_prices(task, loan, limit, collaterals, timeframe, known);
            let next = LiquidationView::Amounts {
                task,
                loan,
                limit,
                collaterals,
                prices: known + prices,
            };
            &&& drive(start, price_replies(prices) + rest) == drive(next, rest)
            &&& drivable(start, price_replies(prices) + rest) == drivable(next, rest)
        }),
    decreases prices.len(),
{
    let start = with_prices(task, loan, limit, collaterals, timeframe, known);
    let replies = price_replies(prices) + rest;
    if prices.len() == 0 {
        assert(known + prices =~= known);
        assert(replies =~= rest);
    } else {
        let more = known.push(prices[0]);
        let next = with_prices(task, loan, limit, collaterals, timeframe, more);
        assert(replies[0] == ReplyView::Price(prices[0]));
        lemma_step(start, replies, next);
        assert(replies.skip(1) =~= price_replies(prices.skip(1)) + rest);
        assert(more + prices.skip(1) =~= known + prices);
        lemma_prices(
            task,
            loan,
            limit,
            collaterals,
            timeframe,
            more,
            prices.skip(1),
            rest,
        );
    }
}

/// The guardians, from the one whose turn it is on.
proof fn lemma_guardians(
    task: TaskView,
    settlement: Settlement,
    swaps: SwapsView,
    quotes: Seq<Quote>,
)
    requires
        0 <= swaps.next,
        0 < quotes.len(),
        settlement.ask_amount == 0 ==> quotes.len() == 1 && swaps.next < swaps.guardians.len(),
        settlement.ask_amount != 0 ==> quotes.len() == swaps.guardians.len() - swaps.next,
        total_proceeds(quotes) <= swaps.ask_amount_left,
    ensures
        ({
            let start = LiquidationView::Allowance { task, settlement, swaps };
            let end = SwapsView {
                guardians: swaps.guardians,
                next: swaps.next + quotes.len(),
                ask_amount_left: (swaps.ask_amount_left - total_proceeds(quotes)) as u128,
                attributes: swaps.attributes + sale_notes(swaps.ask_amount_left as int, quotes),
                messages: swaps.messages + sales(
                    task,
                    swaps.guardians.skip(swaps.next),
                    quotes,
                ),
            };
            &&& drive(start, all_quote_replies(quotes)) == Ok::<StepView, ContractError>(
                StepView::Done(closing(task, settlement, end)),
            )
            &&& drivable(start, all_quote_replies(quotes))
        }),
    decreases quotes.len(),
{
    let quote = quotes[0];
    let later = quotes.skip(1);
    let replies = all_quote_replies(quotes);
    let start = LiquidationView::Allowance { task, settlement, swaps };
    let offer = offer_of(quote.required, quote.allowance);
    let second = LiquidationView::Offer { task, settlement, swaps, allowance: quote.allowance };
    let noted = SwapsView {
        attributes: swaps.attributes.push(
            ("guardian_offer_amount"@, decimal_text(offer as nat)),
        ),
        ..swaps
    };
    let third = LiquidationView::Return { task, settlement, swaps: noted, offer };
    let sold = after_sale(task, noted, offer, quote.proceeds);
    assert(replies.len() >= 3);
    assert(replies[0] == ReplyView::Allowance(quote.allowance));
    lemma_step(start, replies, second);
    let replies1 = replies.skip(1);
    assert(replies1[0] == ReplyView::Offer(quote.required));
    lemma_step(second, replies1, third);
    let replies2 = replies1.skip(1);
    assert(replies2[0] == ReplyView::Return(quote.proceeds));
    let replies3 = replies2.skip(1);
    assert(replies3 =~= all_quote_replies(later));
    let stop = settlement.ask_amount == 0;
    assert(third.resume(replies2[0]) == Ok::<StepView, ContractError>(
        next_turn(task, settlement, sold, stop),
    ));
    let gone = swaps.guardians.skip(swaps.next);
    assert(gone[0] == swaps.guardians[swaps.next]);
    assert(swaps.guardians.skip(swaps.next + 1) =~= gone.skip(1));
    let left = swaps.ask_amount_left - quote.proceeds;
    assert(sold.messages + sales(task, gone.skip(1), later) =~= swaps.messages + sales(
        task,
        gone,
        quotes,
    ));
    assert(sold.attributes + sale_notes(left, later) =~= swaps.attributes + sale_notes(
        swaps.ask_amount_left as int,
        quotes,
    ));
    if later.len() == 0 {
        assert(sold.messages + sales(task, gone.skip(1), later) =~= sold.messages);
        assert(sold.attributes + sale_notes(left, later) =~= sold.attributes);
        assert(total_proceeds(later) == 0);
    } else {
        lemma_step(third, replies2, LiquidationView::Allowance { task, settlement, swaps: sold });
        lemma_guardians(task, settlement, sold, later);
    }
}

// ---------------------------------------------------------------------------
// Laws.

/// A liquidation whose loan has reached its limit, and for which the chain
/// answers everything, ends with the [`verdict`] on those answers: nothing
/// else decides it.
pub proof fn liquidation_reaches_verdict(
    task: TaskView,
    loan: nat,
    collaterals: Seq<(Seq<char>, nat)>,
    limit: nat,
    timeframe: u64,
    prices: Seq<nat>,
    amounts: Seq<(Seq<char>, nat)>,
    guardians: Seq<GuardianView>,
    quotes: Seq<Quote>,
)
    requires
        limit <= loan,
        prices.len() == collaterals.len(),
        value_fits(amounts, prices),
        settlement_fits(
            loan,
            limit,
            task.config.liquidator_fee as nat,
            liquidation_value(amounts, prices),
        ),
        quotes.len() == turns(
            settlement_of(
                loan,
                limit,
                task.config.liquidator_fee as nat,
                liquidation_value(amounts, prices),
            ),
            guardians,
        ),
        total_proceeds(quotes) <= settlement_of(
            loan,
            limit,
            task.config.liquidator_fee as nat,
            liquidation_value(amounts, prices),
        ).ask_amount + GUARDIAN_BUFFER,
    ensures
        drivable(
            LiquidationView::Loan { task },
            dialogue(loan, collaterals, limit, timeframe, prices, amounts, guardians, quotes),
        ),
        drive(
            LiquidationView::Loan { task },
            dialogue(loan, collaterals, limit, timeframe, prices, amounts, guardians, quotes),
        ) == Ok::<StepView, ContractError>(
            StepView::Done(
                verdict(
                    task,
                    loan,
                    limit,
                    liquidation_value(amounts, prices),
                    guardians,
                    quotes,
                ),
            ),
        ),
{
    let value = liquidation_value(amounts, prices);
    let settlement = settlement_of(loan, limit, task.config.liquidator_fee as nat, value);
    let asked = settlement.ask_amount + GUARDIAN_BUFFER;
    let last = all_quote_replies(quotes);
    let tail = seq![ReplyView::Amounts(amounts), ReplyView::Guardians(guardians)] + last;
    let r0 = dialogue(loan, collaterals, limit, timeframe, prices, amounts, guardians, quotes);
    let r1 = r0.skip(1);
    let r2 = r1.skip(1);
    let r3 = r2.skip(1);
    let r4 = r3.skip(1);
    lemma_step(
        LiquidationView::Loan { task },
        r0,
        LiquidationView::Collaterals { task, loan },
    );
    lemma_step(
        LiquidationView::Collaterals { task, loan },
        r1,
        LiquidationView::Limit { task, loan, collaterals },
    );
    lemma_step(
        LiquidationView::Limit { task, loan, collaterals },
        r2,
        LiquidationView::Timeframe { task, loan, limit, collaterals },
    );
    lemma_step(
        LiquidationView::Timeframe { task, loan, limit, collaterals },
        r3,
        with_prices(task, loan, limit, collaterals, timeframe, Seq::empty()),
    );
    assert(r4 =~= price_replies(prices) + tail);
    lemma_prices(task, loan, limit, collaterals, timeframe, Seq::empty(), prices, tail);
    assert(Seq::<nat>::empty() + prices =~= prices);
    let priced = LiquidationView::Amounts { task, loan, limit, collaterals, prices };
    let notes = opening_notes(loan, limit, value, settlement);
    let settled = LiquidationView::Guardians { task, settlement, attributes: notes };
    lemma_step(priced, tail, settled);
    let t1 = tail.skip(1);
    let swaps = opening_swaps(settlement, guardians, notes);
    assert(t1[0] == ReplyView::Guardians(guardians));
    assert(t1.skip(1) =~= last);
    let response = verdict(task, loan, limit, value, guardians, quotes);
    if guardians.len() == 0 {
        assert(closing(task, settlement, swaps) =~= response);
    } else {
        let start = LiquidationView::Allowance { task, settlement, swaps };
        lemma_step(settled, t1, start);
        lemma_guardians(task, settlement, swaps, quotes);
        assert(guardians.skip(0) =~= guardians);
        let end = SwapsView {
            guardians,
            next: quotes.len() as int,
            ask_amount_left: (asked - total_proceeds(quotes)) as u128,
            attributes: notes + sale_notes(asked, quotes),
            messages: Seq::empty() + sales(task, guardians, quotes),
        };
        assert(closing(task, settlement, end) =~= response);
    }
}

/// A loan below its limit is left alone, whatever else is known about it.
pub proof fn safe_loan_is_left_alone(
    task: TaskView,
    loan: nat,
    collaterals: Seq<(Seq<char>, nat)>,
    limit: nat,
)
    requires
        loan < limit,
    ensures
        drivable(
            LiquidationView::Loan { task },
            seq![
                ReplyView::Loan(loan),
                ReplyView::Collaterals(collaterals),
                ReplyView::Limit(limit),
            ],
        ),
        drive(
            LiquidationView::Loan { task },
            seq![
                ReplyView::Loan(loan),
                ReplyView::Collaterals(collaterals),
                ReplyView::Limit(limit),
            ],
        ) == Err::<StepView, ContractError>(ContractError::CollateralRatioSafe),
{
    let replies = seq![
        ReplyView::Loan(loan),
        ReplyView::Collaterals(collaterals),
        ReplyView::Limit(limit),
    ];
    lemma_step(
        LiquidationView::Loan { task },
        replies,
        LiquidationView::Collaterals { task, loan },
    );
    lemma_step(
        LiquidationView::Collaterals { task, loan },
        replies.skip(1),
        LiquidationView::Limit { task, loan, collaterals },
    );
    assert(replies.skip(1).skip(1)[0] == ReplyView::Limit(limit));
}

/// A question that is not answered ends a liquidation with the error, wherever
/// it stands.
pub proof fn failure_ends_it(at: LiquidationView, e: StdError)
    ensures
        at.accepts(ReplyView::Failed(e)),
        at.resume(ReplyView::Failed(e)) == Err::<StepView, ContractError>(ContractError::Std(e)),
{
}

/// Wherever a liquidation stands, it takes any answer of the kind that was
/// asked for, and no other; only amounts have to keep the sums in range, and a
/// sale may not bring more than is missing.
pub proof fn answers_of_the_right_kind_are_accepted(at: LiquidationView, reply: ReplyView)
    requires
        !(reply is Failed),
    ensures
        at is Loan ==> (at.accepts(reply) <==> reply is Loan),
        at is Collaterals ==> (at.accepts(reply) <==> reply is Collaterals),
        at is Limit ==> (at.accepts(reply) <==> reply is Limit),
        at is Timeframe ==> (at.accepts(reply) <==> reply is Timeframe),
        at is Price ==> (at.accepts(reply) <==> reply is Price),
        at matches LiquidationView::Amounts { task, loan, limit, prices, .. } ==> (at.accepts(reply)
            <==> (reply matches ReplyView::Amounts(amounts) && value_fits(amounts, prices)
            && settlement_fits(
            loan,
            limit,
            task.config.liquidator_fee as nat,
            liquidation_value(amounts, prices),
        ))),
        at is Guardians ==> (at.accepts(reply) <==> reply is Guardians),
        at is Allowance ==> (at.accepts(reply) <==> reply is Allowance),
        at is Offer ==> (at.accepts(reply) <==> reply is Offer),
        at matches LiquidationView::Return { swaps, .. } ==> (at.accepts(reply) <==> (reply matches
            ReplyView::Return(proceeds) && proceeds <= swaps.ask_amount_left)),
{
}

/// How far a liquidation is from its end: the stage, and the questions that
/// are left in it.
pub open spec fn distance(at: LiquidationView) -> (nat, int) {
    match at {
        LiquidationView::Loan { .. } => (8, 0),
        LiquidationView::Collaterals { .. } => (7, 0),
        LiquidationView::Limit { .. } => (6, 0),
        LiquidationView::Timeframe { .. } => (5, 0),
        LiquidationView::Price { collaterals, prices, .. } => (4, collaterals.len() - prices.len()),
        LiquidationView::Amounts { .. } => (3, 0),
        LiquidationView::Guardians { .. } => (2, 0),
        LiquidationView::Allowance { swaps, .. } => (1, 3 * (swaps.guardians.len() - swaps.next)),
        LiquidationView::Offer { swaps, .. } => (1, 3 * (swaps.guardians.len() - swaps.next) - 1),
        LiquidationView::Return { swaps, .. } => (1, 3 * (swaps.guardians.len() - swaps.next) - 2),
    }
}

/// A liquidation cannot go on for ever: each answer ends it or brings it
/// closer to its end, and where it goes on it stands well.
pub proof fn answers_lead_to_the_end(at: LiquidationView, reply: ReplyView)
    requires
        at.wf(),
        at.accepts(reply),
    ensures
        at.resume(reply) matches Ok(StepView::Ask(next)) ==> {
            &&& next.wf()
            &&& distance(next).1 >= 0
            &&& distance(next).0 < distance(at).0 || (distance(next).0 == distance(at).0
                && distance(next).1 < distance(at).1)
        },
{
}

/// What the guardians are asked for is what the loan is reduced by and what
/// the liquidator earns, and nothing is lost between them.
pub proof fn settlement_adds_up(loan: nat, limit: nat, rate: nat, value: nat)
    requires
        limit <= loan,
        settlement_fits(loan, limit, rate, value),
    ensures
        ({
            let settlement = settlement_of(loan, limit, rate, value);
            &&& settlement.repayment_amount == loan - limit
            &&& settlement.liquidator_fee == value * rate / 1_000_000_000_000_000_000
            &&& settlement.ask_amount == settlement.repayment_amount + settlement.liquidator_fee
        }),
{
}

/// A liquidation either goes to the overseer with nothing sold, or sells the
/// guardians, repays and pays; and it pays out only where what is missing of
/// the sum and the buffer is below the limit on the shortfall.
pub proof fn shortfall_decides(
    task: TaskView,
    loan: nat,
    limit: nat,
    value: nat,
    guardians: Seq<GuardianView>,
    quotes: Seq<Quote>,
)
    requires
        limit <= loan,
        settlement_fits(loan, limit, task.config.liquidator_fee as nat, value),
    ensures
        ({
            let settlement = settlement_of(loan, limit, task.config.liquidator_fee as nat, value);
            let messages = verdict(task, loan, limit, value, guardians, quotes).messages;
            let paid = settlement.repayment_amount + settlement.liquidator_fee;
            let sold = 2 * quotes.len() as int;
            if paid + GUARDIAN_BUFFER >= total_proceeds(quotes) + SHORTFALL_LIMIT {
                &&& messages.len() == 1
                &&& messages[0] == (MessageView::LiquidateCollateral {
                    overseer: task.config.anchor_overseer_contract,
                    borrower: task.address,
                })
            } else {
                &&& messages.len() == sold + 2
                &&& messages.take(sold) == sales(task, guardians, quotes)
                &&& messages[sold] == (MessageView::RepayStable {
                    wallet: task.address,
                    amount: settlement.repayment_amount,
                })
                &&& messages[sold + 1] == (MessageView::BankSend {
                    to_address: task.sender,
                    amount: settlement.liquidator_fee,
                })
            }
        }),
{
    lemma_sales_len(task, guardians, quotes);
    let messages = verdict(task, loan, limit, value, guardians, quotes).messages;
    settlement_adds_up(loan, limit, task.config.liquidator_fee as nat, value);
    if messages.len() > 1 {
        assert(messages.take(2 * quotes.len() as int) =~= sales(task, guardians, quotes));
    }
}

/// Of no guardian more is taken than the borrower allowed, nor more than is
/// needed.
pub proof fn sales_stay_within_allowance(
    task: TaskView,
    guardians: Seq<GuardianView>,
    quotes: Seq<Quote>,
    i: int,
)
    requires
        0 <= i < quotes.len() <= guardians.len(),
    ensures
        sales(task, guardians, quotes).len() == 2 * quotes.len(),
        sales(task, guardians, quotes)[2 * i] matches MessageView::TransferFrom {
            token,
            owner,
            recipient,
            amount,
        } && token == guardians[i].address && owner == task.address && recipient
            == task.env.contract_address && amount <= quotes[i].allowance && amount
            <= quotes[i].required && (amount == quotes[i].allowance || amount
            == quotes[i].required),
        sales(task, guardians, quotes)[2 * i + 1] matches MessageView::Swap { token, pair, amount }
            && token == guardians[i].address && pair == guardians[i].pair_address
            && amount == sales(task, guardians, quotes)[2 * i]->TransferFrom_amount,
    decreases quotes.len(),
{
    lemma_sales_len(task, guardians, quotes);
    lemma_sales_len(task, guardians.skip(1), quotes.skip(1));
    let all = sales(task, guardians, quotes);
    let later = sales(task, guardians.skip(1), quotes.skip(1));
    if i > 0 {
        sales_stay_within_allowance(task, guardians.skip(1), quotes.skip(1), i - 1);
        assert(all[2 * i] == later[2 * (i - 1)]);
        assert(all[2 * i + 1] == later[2 * (i - 1) + 1]);
    }
}

proof fn lemma_sales_len(task: TaskView, guardians: Seq<GuardianView>, quotes: Seq<Quote>)
    ensures
        sales(task, guardians, quotes).len() == 2 * quotes.len(),
    decreases quotes.len(),
{
    if quotes.len() > 0 {
        lemma_sales_len(task, guardians.skip(1), quotes.skip(1));
    }
}

} // verus!
