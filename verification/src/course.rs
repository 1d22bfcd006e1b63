//! The course of a liquidation: which questions it puts, to whom, and how the
//! answers come back in what it notes and sends.

use vstd::prelude::*;

use crate::amount::{decimal_text, modulus};
use crate::decision::{after_sale, next_turn, offer_of, opening_notes, opening_swaps, with_prices};
use crate::error::ContractError;
use crate::liquidation::{
    LiquidationView, ReplyView, RequestView, Settlement, StepView, SwapsView, TaskView,
};
use crate::outcome::{
    all_quote_replies, dialogue, drivable, drive, liquidation_reaches_verdict, price_replies,
    sale_notes, sales_stay_within_allowance, shortfall_decides, total_proceeds, verdict, Quote,
};
use crate::settlement::{liquidation_value, settlement_of, value_fits};
use crate::types::{GuardianView, MessageView};

verus! {

/// The questions that a liquidation puts while it is given a list of answers,
/// first to last; where it is not over by then, the one it waits with included.
pub open spec fn questions(start: LiquidationView, replies: Seq<ReplyView>) -> Seq<RequestView>
    decreases replies.len(),
{
    if replies.len() == 0 {
        seq![start.request()]
    } else {
        seq![start.request()] + match start.resume(replies[0]) {
            Ok(StepView::Ask(next)) => questions(next, replies.skip(1)),
            _ => Seq::empty(),
        }
    }
}

/// A liquidation that is asked for, and all that the chain answers about it.
pub struct Course {
    pub task: TaskView,
    pub loan: nat,
    pub collaterals: Seq<(Seq<char>, nat)>,
    pub limit: nat,
    pub timeframe: u64,
    pub prices: Seq<nat>,
    pub amounts: Seq<(Seq<char>, nat)>,
    pub guardians: Seq<GuardianView>,
    pub quotes: Seq<Quote>,
}

impl Course {
    /// Where it begins.
    pub open spec fn start(self) -> LiquidationView {
        LiquidationView::Loan { task: self.task }
    }

    /// The answers, first to last.
    pub open spec fn replies(self) -> Seq<ReplyView> {
        dialogue(
            self.loan,
            self.collaterals,
            self.limit,
            self.timeframe,
            self.prices,
            self.amounts,
            self.guardians,
            self.quotes,
        )
    }

    /// What would be liquidated is worth.
    pub open spec fn value(self) -> nat {
        liquidation_value(self.amounts, self.prices)
    }

    /// What the liquidator earns: the share of the value that the settings say.
    pub open spec fn fee(self) -> int {
        self.value() * self.task.config.liquidator_fee as int / 1_000_000_000_000_000_000
    }

    /// What the guardians have to bring.
    pub open spec fn asked(self) -> int {
        self.fee() + self.loan - self.limit
    }

    /// Whether the loan has reached its limit, there is an answer to every
    /// question, and all sums stay in range. `left` is what is missing before
    /// each sale and after the last one.
    pub open spec fn runs(self, left: Seq<int>) -> bool {
        &&& self.limit <= self.loan
        &&& self.prices.len() == self.collaterals.len()
        &&& forall|k: int|
            0 <= k < self.amounts.len() && k < self.prices.len() ==> #[trigger] self.amounts[k].1
                * self.prices[k] < modulus()
        &&& self.value() < modulus()
        &&& self.value() * self.task.config.liquidator_fee < modulus()
        &&& self.fee() + self.loan < modulus()
        &&& self.quotes.len() == if self.asked() == 0 && self.guardians.len() > 1 {
            1
        } else {
            self.guardians.len()
        }
        &&& left.len() == self.quotes.len() + 1
        &&& left[0] == self.asked() + 10_000_000 <= u128::MAX
        &&& forall|j: int|
            0 <= j < self.quotes.len() ==> left[j + 1] == left[j] - (
            #[trigger] self.quotes[j]).proceeds
        &&& left.last() >= 0
    }
}

// ---------------------------------------------------------------------------
// Lemmas.

proof fn lemma_question(start: LiquidationView, replies: Seq<ReplyView>, next: LiquidationView)
    requires
        replies.len() > 0,
        start.resume(replies[0]) == Ok::<StepView, ContractError>(StepView::Ask(next)),
    ensures
        questions(start, replies) == seq![start.request()] + questions(next, replies.skip(1)),
{
}

/// What is missing goes down by what the sales bring.
proof fn lemma_left(quotes: Seq<Quote>, left: Seq<int>)
    requires
        left.len() == quotes.len() + 1,
        forall|j: int|
            0 <= j < quotes.len() ==> left[j + 1] == left[j] - (#[trigger] quotes[j]).proceeds,
    ensures
        total_proceeds(quotes) == left[0] - left.last(),
    decreases quotes.len(),
{
    if quotes.len() > 0 {
        let later = quotes.skip(1);
        let rest = left.skip(1);
        assert forall|j: int| 0 <= j < later.len() implies rest[j + 1] == rest[j] - (
        #[trigger] later[j]).proceeds by {
            assert(later[j] == quotes[j + 1]);
        }
        lemma_left(later, rest);
        assert(left[1] == left[0] - quotes[0].proceeds);
    }
}

/// The questions about the prices, and what follows them.
proof fn lemma_price_questions(
    task: TaskView,
    loan: nat,
    limit: nat,
    collaterals: Seq<(Seq<char>, nat)>,
    timeframe: u64,
    known: Seq<nat>,
    prices: Seq<nat>,
    rest: Seq<ReplyView>,
)
    requires
        known.len() + prices.len() <= collaterals.len(),
    ensures
        ({
            let start = with_prices(task, loan, limit, collaterals, timeframe, known);
            let next = with_prices(task, loan, limit, collaterals, timeframe, known + prices);
            let all = questions(start, price_replies(prices) + rest);
            &&& drivable(start, price_replies(prices) + rest) == drivable(next, rest)
            &&& all.len() == prices.len() + questions(next, rest).len()
            &&& all.skip(prices.len() as int) == questions(next, rest)
            &&& forall|i: int|
                0 <= i < prices.len() ==> #[trigger] all[i] == (RequestView::Price {
                    oracle: task.config.anchor_oracle_contract,
                    base: collaterals[known.len() + i].0,
                    quote: "uusd"@,
                    block_time: task.env.block_time,
                    valid_timeframe: timeframe,
                })
        }),
    decreases prices.len(),
{
    let start = with_prices(task, loan, limit, collaterals, timeframe, known);
    let replies = price_replies(prices) + rest;
    if prices.len() == 0 {
        assert(known + prices =~= known);
        assert(replies =~= rest);
        assert(questions(start, replies).skip(0) =~= questions(start, replies));
    } else {
        let more = known.push(prices[0]);
        let later = prices.skip(1);
        let second = with_prices(task, loan, limit, collaterals, timeframe, more);
        let next = with_prices(task, loan, limit, collaterals, timeframe, known + prices);
        assert(replies[0] == ReplyView::Price(prices[0]));
        lemma_question(start, replies, second);
        assert(replies.skip(1) =~= price_replies(later) + rest);
        assert(more + later =~= known + prices);
        lemma_price_questions(task, loan, limit, collaterals, timeframe, more, later, rest);
        let all = questions(start, replies);
        let tail = questions(second, replies.skip(1));
        assert(all.skip(prices.len() as int) =~= tail.skip(later.len() as int));
        assert forall|i: int| 0 <= i < prices.len() implies #[trigger] all[i] == (
        RequestView::Price {
            oracle: task.config.anchor_oracle_contract,
            base: collaterals[known.len() + i].0,
            quote: "uusd"@,
            block_time: task.env.block_time,
            valid_timeframe: timeframe,
        }) by {
            if i > 0 {
                assert(all[i] == tail[i - 1]);
            }
        }
    }
}

/// The questions about the guardians, from the one whose turn it is on; those
/// of the turn `i` after it.
proof fn lemma_turn_questions(
    task: TaskView,
    settlement: Settlement,
    swaps: SwapsView,
    quotes: Seq<Quote>,
    left: Seq<int>,
    i: int,
)
    requires
        0 <= swaps.next,
        0 <= i < quotes.len(),
        settlement.ask_amount == 0 ==> quotes.len() == 1 && swaps.next < swaps.guardians.len(),
        settlement.ask_amount != 0 ==> quotes.len() == swaps.guardians.len() - swaps.next,
        left.len() == quotes.len() + 1,
        left[0] == swaps.ask_amount_left,
        left.last() >= 0,
        forall|j: int|
            0 <= j < quotes.len() ==> left[j + 1] == left[j] - (#[trigger] quotes[j]).proceeds,
    ensures
        ({
            let start = LiquidationView::Allowance { task, settlement, swaps };
            let all = questions(start, all_quote_replies(quotes));
            let guardian = swaps.guardians[swaps.next + i];
            &&& all.len() == 3 * quotes.len()
            &&& all[3 * i] == (RequestView::Allowance {
                token: guardian.address,
                owner: task.address,
                spender: task.env.contract_address,
            })
            &&& 0 <= left[i] <= u128::MAX
            &&& all[3 * i + 1] == (RequestView::ReverseSimulation {
                pair: guardian.pair_address,
                denom: "uusd"@,
                ask_amount: left[i] as u128,
            })
            &&& all[3 * i + 2] == (RequestView::Simulation {
                pair: guardian.pair_address,
                token: guardian.address,
                offer_amount: if quotes[i].required <= quotes[i].allowance {
                    quotes[i].required
                } else {
                    quotes[i].allowance
                },
            })
        }),
    decreases quotes.len(),
{
    let quote = quotes[0];
    let later = quotes.skip(1);
    let replies = all_quote_replies(quotes);
    let start = LiquidationView::Allowance { task, settlement, swaps };
    let offer = offer_of(quote.required, quote.allowance);
    let second = LiquidationView::Offer { task, settlement, swaps, allowance: quote.allowance };
    let noted = SwapsView {
        attributes: swaps.attributes.push(
            ("guardian_offer_amount"@, decimal_text(offer as nat)),
        ),
        ..swaps
    };
    let third = LiquidationView::Return { task, settlement, swaps: noted, offer };
    let sold = after_sale(task, noted, offer, quote.proceeds);
    lemma_left(quotes, left);
    assert(replies[0] == ReplyView::Allowance(quote.allowance));
    lemma_question(start, replies, second);
    let replies1 = replies.skip(1);
    assert(replies1[0] == ReplyView::Offer(quote.required));
    lemma_question(second, replies1, third);
    let replies2 = replies1.skip(1);
    assert(replies2[0] == ReplyView::Return(quote.proceeds));
    assert(replies2.skip(1) =~= all_quote_replies(later));
    assert(third.resume(replies2[0]) == Ok::<StepView, ContractError>(
        next_turn(task, settlement, sold, settlement.ask_amount == 0),
    ));
    let all = questions(start, replies);
    if later.len() == 0 {
        assert(questions(third, replies2) =~= seq![third.request()]);
        assert(all =~= seq![start.request(), second.request(), third.request()]);
    } else {
        let fourth = LiquidationView::Allowance { task, settlement, swaps: sold };
        lemma_question(third, replies2, fourth);
        let tail = questions(fourth, all_quote_replies(later));
        assert(all =~= seq![start.request(), second.request(), third.request()] + tail);
        let rest = left.skip(1);
        assert forall|j: int| 0 <= j < later.len() implies rest[j + 1] == rest[j] - (
        #[trigger] later[j]).proceeds by {
            assert(later[j] == quotes[j + 1]);
        }
        assert(left[1] == left[0] - quotes[0].proceeds);
        lemma_left(later, rest);
        let k: int = if i > 0 { i - 1 } else { 0 };
        lemma_turn_questions(task, settlement, sold, later, rest, k);
        if i > 0 {
            assert(all[3 * i] == tail[3 * k]);
            assert(all[3 * i + 1] == tail[3 * k + 1]);
            assert(all[3 * i + 2] == tail[3 * k + 2]);
        }
    }
}

/// What is noted in the turn `i`.
proof fn lemma_turn_notes(quotes: Seq<Quote>, left: Seq<int>, i: int)
    requires
        0 <= i < quotes.len(),
        left.len() == quotes.len() + 1,
        forall|j: int|
            0 <= j < quotes.len() ==> left[j + 1] == left[j] - (#[trigger] quotes[j]).proceeds,
    ensures
        ({
            let all = sale_notes(left[0], quotes);
            &&& all.len() == 3 * quotes.len()
            &&& all[3 * i] == (
                "guardian_offer_amount"@,
                decimal_text(
                    if quotes[i].required <= quotes[i].allowance {
                        quotes[i].required as nat
                    } else {
                        quotes[i].allowance as nat
                    },
                ),
            )
            &&& all[3 * i + 1] == ("expected_ust"@, decimal_text(quotes[i].proceeds as nat))
            &&& all[3 * i + 2] == ("ask_amount_left"@, decimal_text(left[i + 1] as nat))
        }),
    decreases quotes.len(),
{
    let later = quotes.skip(1);
    let rest = left.skip(1);
    let all = sale_notes(left[0], quotes);
    assert(left[1] == left[0] - quotes[0].proceeds);
    let tail = sale_notes(rest[0], later);
    if later.len() > 0 {
        assert forall|j: int| 0 <= j < later.len() implies rest[j + 1] == rest[j] - (
        #[trigger] later[j]).proceeds by {
            assert(later[j] == quotes[j + 1]);
        }
        let k: int = if i > 0 { i - 1 } else { 0 };
        lemma_turn_notes(later, rest, k);
        if i > 0 {
            assert(all[3 * i] == tail[3 * k]);
            assert(all[3 * i + 1] == tail[3 * k + 1]);
            assert(all[3 * i + 2] == tail[3 * k + 2]);
        }
    }
}

/// The verdict is reached.
proof fn lemma_runs(course: Course, left: Seq<int>)
    requires
        course.runs(left),
    ensures
        ({
            let rate = course.task.config.liquidator_fee as nat;
            let settlement = settlement_of(course.loan, course.limit, rate, course.value());
            &&& settlement.liquidator_fee == course.fee()
            &&& settlement.repayment_amount == course.loan - course.limit
            &&& settlement.ask_amount == course.asked()
        }),
        value_fits(course.amounts, course.prices),
        course.fee() >= 0,
        total_proceeds(course.quotes) == left[0] - left.last(),
{
    lemma_left(course.quotes, left);
    let rate = course.task.config.liquidator_fee as int;
    let value = course.value() as int;
    assert(value * rate >= 0) by (nonlinear_arith)
        requires
            value >= 0,
            rate >= 0,
    ;
}

// ---------------------------------------------------------------------------
// Laws.

/// A liquidation begins by asking the market for the loan at the height of the
/// block, then the overseer for the collateral and for the limit at the time
/// of the block; whatever is answered, it gets that far.
pub proof fn opening_questions(
    task: TaskView,
    loan: nat,
    collaterals: Seq<(Seq<char>, nat)>,
)
    ensures
        drivable(
            LiquidationView::Loan { task },
            seq![ReplyView::Loan(loan), ReplyView::Collaterals(collaterals)],
        ),
        questions(
            LiquidationView::Loan { task },
            seq![ReplyView::Loan(loan), ReplyView::Collaterals(collaterals)],
        ) == seq![
            RequestView::BorrowerInfo {
                market: task.config.anchor_market_contract,
                borrower: task.borrower,
                block_height: task.env.block_height,
            },
            RequestView::Collaterals {
                overseer: task.config.anchor_overseer_contract,
                borrower: task.borrower,
            },
            RequestView::BorrowLimit {
                overseer: task.config.anchor_overseer_contract,
                borrower: task.borrower,
                block_time: task.env.block_time,
            },
        ],
{
    let replies = seq![ReplyView::Loan(loan), ReplyView::Collaterals(collaterals)];
    let first = LiquidationView::Loan { task };
    let second = LiquidationView::Collaterals { task, loan };
    let third = LiquidationView::Limit { task, loan, collaterals };
    lemma_question(first, replies, second);
    assert(replies.skip(1)[0] == ReplyView::Collaterals(collaterals));
    lemma_question(second, replies.skip(1), third);
    assert(drivable(third, replies.skip(1).skip(1)));
    assert(drivable(second, replies.skip(1)));
}

/// Once the loan has reached its limit, the overseer is asked for its settings
/// and the oracle for the price of every collateral, in their order, in the
/// stable coin and no older than the overseer allows. Then the liquidation
/// contract is asked with what was answered: the market's loan, the overseer's
/// limit, which is not above it, the collateral, and the prices in their order.
pub proof fn answers_go_to_the_liquidation_contract(
    task: TaskView,
    loan: nat,
    collaterals: Seq<(Seq<char>, nat)>,
    limit: nat,
    timeframe: u64,
    prices: Seq<nat>,
    i: int,
)
    requires
        limit <= loan,
        prices.len() <= collaterals.len(),
    ensures
        ({
            let replies = seq![
                ReplyView::Loan(loan),
                ReplyView::Collaterals(collaterals),
                ReplyView::Limit(limit),
                ReplyView::Timeframe(timeframe),
            ] + price_replies(prices);
            let all = questions(LiquidationView::Loan { task }, replies);
            &&& drivable(LiquidationView::Loan { task }, replies)
            &&& all.len() == 5 + prices.len()
            &&& all[3] == (RequestView::OverseerConfig {
                overseer: task.config.anchor_overseer_contract,
            })
            &&& 0 <= i <= prices.len() && i < collaterals.len() ==> all[4 + i] == (
            RequestView::Price {
                oracle: task.config.anchor_oracle_contract,
                base: collaterals[i].0,
                quote: "uusd"@,
                block_time: task.env.block_time,
                valid_timeframe: timeframe,
            })
            &&& prices.len() == collaterals.len() ==> (all.last() matches
                RequestView::LiquidationAmount {
                liquidation,
                borrow_amount,
                borrow_limit,
                collaterals: asked,
                collateral_prices,
            } && liquidation == task.config.anchor_liquidation_contract && borrow_amount == loan
                && borrow_limit == limit && borrow_limit <= borrow_amount && asked == collaterals
                && collateral_prices == prices)
        }),
{
    let replies = seq![
        ReplyView::Loan(loan),
        ReplyView::Collaterals(collaterals),
        ReplyView::Limit(limit),
        ReplyView::Timeframe(timeframe),
    ] + price_replies(prices);
    lemma_opening(task, loan, collaterals, limit, timeframe, replies);
    let none = Seq::<nat>::empty();
    let fifth = with_prices(task, loan, limit, collaterals, timeframe, none);
    let end = Seq::<ReplyView>::empty();
    assert(replies.skip(4) =~= price_replies(prices) + end);
    lemma_price_questions(task, loan, limit, collaterals, timeframe, none, prices, end);
    assert(none + prices =~= prices);
    let last = with_prices(task, loan, limit, collaterals, timeframe, prices);
    assert(questions(last, end) =~= seq![last.request()]);
    let tail = questions(fifth, replies.skip(4));
    assert(tail.skip(prices.len() as int)[0] == last.request());
    let all = questions(LiquidationView::Loan { task }, replies);
    assert(all.last() == last.request());
    if 0 <= i < prices.len() {
        assert(all[4 + i] == tail[i]);
    } else if i == prices.len() {
        assert(all[4 + i] == all.last());
    }
}

/// The first four answers, where the loan has reached its limit.
proof fn lemma_opening(
    task: TaskView,
    loan: nat,
    collaterals: Seq<(Seq<char>, nat)>,
    limit: nat,
    timeframe: u64,
    replies: Seq<ReplyView>,
)
    requires
        limit <= loan,
        replies.len() >= 4,
        replies[0] == ReplyView::Loan(loan),
        replies[1] == ReplyView::Collaterals(collaterals),
        replies[2] == ReplyView::Limit(limit),
        replies[3] == ReplyView::Timeframe(timeframe),
    ensures
        ({
            let first = LiquidationView::Loan { task };
            let fifth = with_prices(task, loan, limit, collaterals, timeframe, Seq::empty());
            &&& drivable(first, replies) == drivable(fifth, replies.skip(4))
            &&& questions(first, replies).len() == 4 + questions(fifth, replies.skip(4)).len()
            &&& questions(first, replies).skip(4) == questions(fifth, replies.skip(4))
            &&& questions(first, replies)[3] == (RequestView::OverseerConfig {
                overseer: task.config.anchor_overseer_contract,
            })
        }),
{
    let first = LiquidationView::Loan { task };
    let second = LiquidationView::Collaterals { task, loan };
    let third = LiquidationView::Limit { task, loan, collaterals };
    let fourth = LiquidationView::Timeframe { task, loan, limit, collaterals };
    let fifth = with_prices(task, loan, limit, collaterals, timeframe, Seq::empty());
    let r1 = replies.skip(1);
    let r2 = r1.skip(1);
    let r3 = r2.skip(1);
    lemma_question(first, replies, second);
    lemma_question(second, r1, third);
    lemma_question(third, r2, fourth);
    lemma_question(fourth, r3, fifth);
    assert(r3.skip(1) =~= replies.skip(4));
    assert(drivable(fourth, r3) == drivable(fifth, r3.skip(1)));
    assert(drivable(third, r2) == drivable(fourth, r3));
    assert(drivable(second, r1) == drivable(third, r2));
    let all = questions(first, replies);
    let tail = questions(fifth, replies.skip(4));
    assert(all =~= seq![
        first.request(),
        second.request(),
        third.request(),
        fourth.request(),
    ] + tail);
    assert(all.skip(4) =~= tail);
}

/// After the liquidation contract, the guardians of the borrower are asked
/// for, under the address that was passed in; then come three questions for
/// every guardian that has its turn, and no others.
pub proof fn guardians_are_asked_for(course: Course, left: Seq<int>)
    requires
        course.runs(left),
    ensures
        ({
            let all = questions(course.start(), course.replies());
            let n = course.collaterals.len() as int;
            &&& all.len() == 6 + n + 3 * course.quotes.len()
            &&& all[5 + n] == (RequestView::Guardians { address: course.task.address })
        }),
{
    lemma_tail_questions(course, left);
    if course.quotes.len() > 0 {
        lemma_course_turn(course, left, 0);
    }
}

/// The questions of a turn are about the guardian whose turn it is: its token
/// is asked what the borrower allows, its pool what has to be offered for what
/// is still missing, and its pool again what that much of its token brings,
/// but of no more than is allowed.
pub proof fn guardians_are_quoted_in_their_own_pools(course: Course, left: Seq<int>, i: int)
    requires
        course.runs(left),
        0 <= i < course.quotes.len(),
    ensures
        ({
            let all = questions(course.start(), course.replies());
            let turn = 6 + course.collaterals.len() + 3 * i;
            let guardian = course.guardians[i];
            let quote = course.quotes[i];
            &&& all[turn] == (RequestView::Allowance {
                token: guardian.address,
                owner: course.task.address,
                spender: course.task.env.contract_address,
            })
            &&& all[turn + 1] matches RequestView::ReverseSimulation { pair, denom, ask_amount }
                && pair == guardian.pair_address && denom == "uusd"@ && ask_amount == left[i]
            &&& all[turn + 2] matches RequestView::Simulation { pair, token, offer_amount } && pair
                == guardian.pair_address && token == guardian.address && offer_amount
                <= quote.allowance && offer_amount <= quote.required && (offer_amount
                == quote.allowance || offer_amount == quote.required)
        }),
{
    lemma_course_turn(course, left, i);
}

proof fn lemma_course_turn(course: Course, left: Seq<int>, i: int)
    requires
        course.runs(left),
        0 <= i < course.quotes.len(),
    ensures
        ({
            let all = questions(course.start(), course.replies());
            let turn = 6 + course.collaterals.len() + 3 * i;
            let guardian = course.guardians[i];
            let quote = course.quotes[i];
            &&& all.len() == 6 + course.collaterals.len() + 3 * course.quotes.len()
            &&& all[turn] == (RequestView::Allowance {
                token: guardian.address,
                owner: course.task.address,
                spender: course.task.env.contract_address,
            })
            &&& 0 <= left[i] <= u128::MAX
            &&& all[turn + 1] == (RequestView::ReverseSimulation {
                pair: guardian.pair_address,
                denom: "uusd"@,
                ask_amount: left[i] as u128,
            })
            &&& all[turn + 2] == (RequestView::Simulation {
                pair: guardian.pair_address,
                token: guardian.address,
                offer_amount: if quote.required <= quote.allowance {
                    quote.required
                } else {
                    quote.allowance
                },
            })
        }),
{
    lemma_tail_questions(course, left);
    let rate = course.task.config.liquidator_fee as nat;
    let settlement = settlement_of(course.loan, course.limit, rate, course.value());
    let notes = opening_notes(
        course.loan,
        course.limit,
        course.value(),
        settlement,
    );
    let swaps = opening_swaps(settlement, course.guardians, notes);
    lemma_runs(course, left);
    lemma_turn_questions(course.task, settlement, swaps, course.quotes, left, i);
    let all = questions(course.start(), course.replies());
    let n = course.collaterals.len() as int;
    let tail = questions(
        LiquidationView::Allowance { task: course.task, settlement, swaps },
        all_quote_replies(course.quotes),
    );
    assert(all.skip(6 + n) == tail);
    assert(all[6 + n + 3 * i] == tail[3 * i]);
    assert(all[6 + n + 3 * i + 1] == tail[3 * i + 1]);
    assert(all[6 + n + 3 * i + 2] == tail[3 * i + 2]);
}

/// The questions from the guardians on.
proof fn lemma_tail_questions(course: Course, left: Seq<int>)
    requires
        course.runs(left),
    ensures
        ({
            let rate = course.task.config.liquidator_fee as nat;
            let settlement = settlement_of(course.loan, course.limit, rate, course.value());
            let notes = opening_notes(
                course.loan,
                course.limit,
                course.value(),
                settlement,
            );
            let swaps = opening_swaps(settlement, course.guardians, notes);
            let start = LiquidationView::Allowance { task: course.task, settlement, swaps };
            let all = questions(course.start(), course.replies());
            let n = course.collaterals.len() as int;
            &&& course.quotes.len() == 0 ==> all.len() == 6 + n
            &&& course.quotes.len() > 0 ==> all.len() == 6 + n + questions(
                start,
                all_quote_replies(course.quotes),
            ).len()
            &&& course.quotes.len() > 0 ==> all.skip(6 + n) == questions(
                start,
                all_quote_replies(course.quotes),
            )
            &&& all[5 + n] == (RequestView::Guardians { address: course.task.address })
        }),
{
    let task = course.task;
    let rate = task.config.liquidator_fee as nat;
    let settlement = settlement_of(course.loan, course.limit, rate, course.value());
    let notes = opening_notes(
        course.loan,
        course.limit,
        course.value(),
        settlement,
    );
    let swaps = opening_swaps(settlement, course.guardians, notes);
    let start = LiquidationView::Allowance { task, settlement, swaps };
    let settled = LiquidationView::Guardians { task, settlement, attributes: notes };
    let priced = LiquidationView::Amounts {
        task,
        loan: course.loan,
        limit: course.limit,
        collaterals: course.collaterals,
        prices: course.prices,
    };
    let replies = course.replies();
    let last = all_quote_replies(course.quotes);
    let tail = seq![
        ReplyView::Amounts(course.amounts),
        ReplyView::Guardians(course.guardians),
    ] + last;
    lemma_opening(
        task,
        course.loan,
        course.collaterals,
        course.limit,
        course.timeframe,
        replies,
    );
    assert(replies.skip(4) =~= price_replies(course.prices) + tail);
    let none = Seq::<nat>::empty();
    lemma_price_questions(
        task,
        course.loan,
        course.limit,
        course.collaterals,
        course.timeframe,
        none,
        course.prices,
        tail,
    );
    assert(none + course.prices =~= course.prices);
    lemma_question(priced, tail, settled);
    let t1 = tail.skip(1);
    assert(t1[0] == ReplyView::Guardians(course.guardians));
    assert(t1.skip(1) =~= last);
    let n = course.prices.len() as int;
    let all = questions(course.start(), replies);
    let a4 = all.skip(4);
    let an = a4.skip(n);
    assert(an == questions(priced, tail));
    assert(an[1] == questions(settled, t1)[0]);
    assert(all[5 + n] == an[1]);
    if course.quotes.len() > 0 {
        lemma_question(settled, t1, start);
        assert(an =~= seq![priced.request(), settled.request()] + questions(start, last));
        assert(all.skip(6 + n) =~= an.skip(2));
        assert(an.skip(2) =~= questions(start, last));
    } else {
        assert(questions(settled, t1) =~= seq![settled.request()]);
    }
}

/// A liquidation notes the loan, the limit, the value, what is asked of the
/// guardians and what is repaid; and of every turn what is offered, what that
/// brings and what is missing after it. Nothing else is noted.
pub proof fn liquidation_is_written_down(course: Course, left: Seq<int>, i: int)
    requires
        course.runs(left),
    ensures
        drivable(course.start(), course.replies()),
        drive(course.start(), course.replies()) matches Ok(StepView::Done(response)) && {
            let notes = response.attributes;
            let quote = course.quotes[i];
            &&& notes.len() == 5 + 3 * course.quotes.len()
            &&& notes[0] == ("borrower_loan"@, decimal_text(course.loan))
            &&& notes[1] == ("borrower_limit"@, decimal_text(course.limit))
            &&& notes[2] == ("liquidation_value"@, decimal_text(course.value()))
            &&& notes[3] == ("ask_amount_init"@, decimal_text(course.asked() as nat))
            &&& notes[4] == (
                "repayment_amount"@,
                decimal_text((course.loan - course.limit) as nat),
            )
            &&& 0 <= i < course.quotes.len() ==> {
                &&& notes[5 + 3 * i] == (
                    "guardian_offer_amount"@,
                    decimal_text(
                        if quote.required <= quote.allowance {
                            quote.required as nat
                        } else {
                            quote.allowance as nat
                        },
                    ),
                )
                &&& notes[6 + 3 * i] == ("expected_ust"@, decimal_text(quote.proceeds as nat))
                &&& notes[7 + 3 * i] == ("ask_amount_left"@, decimal_text(left[i + 1] as nat))
            }
        },
{
    lemma_runs(course, left);
    lemma_verdict(course, left);
    let notes = sale_notes(left[0], course.quotes);
    if 0 <= i < course.quotes.len() {
        lemma_turn_notes(course.quotes, left, i);
        let all = drive(course.start(), course.replies())->Ok_0->Done_0.attributes;
        assert(all[5 + 3 * i] == notes[3 * i]);
        assert(all[6 + 3 * i] == notes[3 * i + 1]);
        assert(all[7 + 3 * i] == notes[3 * i + 2]);
    } else if course.quotes.len() > 0 {
        lemma_turn_notes(course.quotes, left, 0);
    }
}

proof fn lemma_verdict(course: Course, left: Seq<int>)
    requires
        course.runs(left),
    ensures
        drivable(course.start(), course.replies()),
        drive(course.start(), course.replies()) == Ok::<StepView, ContractError>(
            StepView::Done(
                verdict(
                    course.task,
                    course.loan,
                    course.limit,
                    course.value(),
                    course.guardians,
                    course.quotes,
                ),
            ),
        ),
{
    lemma_runs(course, left);
    liquidation_reaches_verdict(
        course.task,
        course.loan,
        course.collaterals,
        course.limit,
        course.timeframe,
        course.prices,
        course.amounts,
        course.guardians,
        course.quotes,
    );
}

/// Where a thousand coins or more are missing in the end, the overseer is told
/// to liquidate the borrower, and nothing else is sent. Otherwise every
/// guardian that had its turn is fetched from the borrower and sold in its own
/// pool, in order and in the amount that was quoted; then the borrower's wallet
/// is handed what the loan is above its limit, and the liquidator the fee.
pub proof fn liquidation_sells_and_pays(course: Course, left: Seq<int>, i: int)
    requires
        course.runs(left),
    ensures
        drive(course.start(), course.replies()) matches Ok(StepView::Done(response)) && {
            let sent = response.messages;
            let sold = 2 * course.quotes.len() as int;
            let quote = course.quotes[i];
            if left.last() >= 1_000_000_000 {
                sent == seq![
                    MessageView::LiquidateCollateral {
                        overseer: course.task.config.anchor_overseer_contract,
                        borrower: course.task.address,
                    },
                ]
            } else {
                &&& sent.len() == sold + 2
                &&& 0 <= i < course.quotes.len() ==> {
                    let offer = if quote.required <= quote.allowance {
                        quote.required
                    } else {
                        quote.allowance
                    };
                    &&& sent[2 * i] == (MessageView::TransferFrom {
                        token: course.guardians[i].address,
                        owner: course.task.address,
                        recipient: course.task.env.contract_address,
                        amount: offer,
                    })
                    &&& sent[2 * i + 1] == (MessageView::Swap {
                        token: course.guardians[i].address,
                        pair: course.guardians[i].pair_address,
                        amount: offer,
                    })
                }
                &&& sent[sold] matches MessageView::RepayStable { wallet, amount } && wallet
                    == course.task.address && amount == course.loan - course.limit
                &&& sent[sold + 1] matches MessageView::BankSend { to_address, amount }
                    && to_address == course.task.sender && amount == course.fee()
            }
        },
{
    lemma_runs(course, left);
    lemma_verdict(course, left);
    shortfall_decides(
        course.task,
        course.loan,
        course.limit,
        course.value(),
        course.guardians,
        course.quotes,
    );
    if 0 <= i < course.quotes.len() {
        sales_stay_within_allowance(course.task, course.guardians, course.quotes, i);
        if left.last() < 1_000_000_000 {
            let sent = drive(course.start(), course.replies())->Ok_0->Done_0.messages;
            let sold = sent.take(2 * course.quotes.len() as int);
            assert(sent[2 * i] == sold[2 * i]);
            assert(sent[2 * i + 1] == sold[2 * i + 1]);
        }
    }
}

} // verus!
