//! What a liquidation is worth, and the sums that follow from it.

use vstd::prelude::*;

use crate::amount::{
    decimal256_from_decimal, minus, modulus, plus, scaled, times, times_overflows,
    to_u128, Decimal256, Uint256,
};
use crate::liquidation::{rates_view, tokens_view, Settlement, GUARDIAN_BUFFER};

verus! {

/// What the first `k` amounts are worth at the prices that stand beside them.
pub open spec fn value_of_first(amounts: Seq<(Seq<char>, nat)>, prices: Seq<nat>, k: nat) -> nat
    decreases k,
{
    if k == 0 {
        0
    } else {
        value_of_first(amounts, prices, (k - 1) as nat) + scaled(amounts[k - 1].1, prices[k - 1])
    }
}

/// How many amounts have a price beside them.
pub open spec fn paired(amounts: Seq<(Seq<char>, nat)>, prices: Seq<nat>) -> nat {
    if amounts.len() <= prices.len() {
        amounts.len()
    } else {
        prices.len()
    }
}

/// What the amounts are worth; amounts or prices without a counterpart count
/// for nothing.
pub open spec fn liquidation_value(amounts: Seq<(Seq<char>, nat)>, prices: Seq<nat>) -> nat {
    value_of_first(amounts, prices, paired(amounts, prices))
}

/// Whether the value can be computed within 256 bits.
pub open spec fn value_fits(amounts: Seq<(Seq<char>, nat)>, prices: Seq<nat>) -> bool {
    &&& forall|k: int|
        0 <= k < paired(amounts, prices) ==> #[trigger] amounts[k].1 * prices[k] < modulus()
    &&& liquidation_value(amounts, prices) < modulus()
}

/// Whether the sums of a liquidation can be computed within their types: the
/// value, the fee on it and the loan within 256 bits, and what is asked of the
/// guardians, the buffer included, within 128.
pub open spec fn settlement_fits(loan: nat, limit: nat, rate: nat, value: nat) -> bool {
    &&& value * rate < modulus()
    &&& scaled(value, rate) + loan < modulus()
    &&& scaled(value, rate) + loan - limit + GUARDIAN_BUFFER <= u128::MAX
}

/// The sums of a liquidation: the fee at `rate` on the value, the part of the
/// loan above the limit, and both together.
pub open spec fn settlement_of(loan: nat, limit: nat, rate: nat, value: nat) -> Settlement {
    Settlement {
        liquidator_fee: scaled(value, rate) as u128,
        repayment_amount: (loan - limit) as u128,
        ask_amount: (scaled(value, rate) + loan - limit) as u128,
    }
}

proof fn lemma_value_grows(amounts: Seq<(Seq<char>, nat)>, prices: Seq<nat>, j: nat, k: nat)
    requires
        j <= k,
    ensures
        value_of_first(amounts, prices, j) <= value_of_first(amounts, prices, k),
    decreases k,
{
    if j < k {
        lemma_value_grows(amounts, prices, j, (k - 1) as nat);
    }
}

/// Computes what the amounts are worth, or reports that it is out of range.
pub fn checked_liquidation_value(
    amounts: &Vec<(String, Uint256)>,
    prices: &Vec<Decimal256>,
) -> (r: Option<Uint256>)
    ensures
        r is Some <==> value_fits(tokens_view(amounts@), rates_view(prices@)),
        r matches Some(value) ==> value@ == liquidation_value(
            tokens_view(amounts@),
            rates_view(prices@),
        ),
{
    let ghost a = tokens_view(amounts@);
    let ghost p = rates_view(prices@);
    let n: usize = if amounts.len() <= prices.len() {
        amounts.len()
    } else {
        prices.len()
    };
    let mut value = Uint256::zero();
    let mut i: usize = 0;
    while i < n
        invariant
            i <= n,
            n == paired(a, p),
            a == tokens_view(amounts@),
            p == rates_view(prices@),
            n <= amounts.len(),
            n <= prices.len(),
            value@ == value_of_first(a, p, i as nat),
            value@ < modulus(),
            forall|k: int| 0 <= k < i ==> #[trigger] a[k].1 * p[k] < modulus(),
        decreases n - i,
    {
        assert(a[i as int].1 == amounts[i as int].1@ && p[i as int] == prices[i as int]@);
        if times_overflows(&amounts[i].1, &prices[i]) {
            assert(!(a[i as int].1 * p[i as int] < modulus()));
            return None;
        }
        let worth = times(&amounts[i].1, &prices[i]);
        if value.sum_overflows(&worth) {
            proof {
                lemma_value_grows(a, p, (i + 1) as nat, n as nat);
            }
            return None;
        }
        value = plus(&value, &worth);
        i += 1;
    }
    Some(value)
}

/// Computes the sums of a liquidation, or reports that they are out of range.
pub fn checked_settlement(
    loan: &Uint256,
    limit: &Uint256,
    rate: u128,
    value: &Uint256,
) -> (r: Option<Settlement>)
    requires
        limit@ <= loan@,
    ensures
        r is Some <==> settlement_fits(loan@, limit@, rate as nat, value@),
        r matches Some(settlement) ==> settlement == settlement_of(
            loan@,
            limit@,
            rate as nat,
            value@,
        ),
{
    let rate = decimal256_from_decimal(rate);
    if times_overflows(value, &rate) {
        return None;
    }
    let fee = times(value, &rate);
    if fee.sum_overflows(loan) {
        return None;
    }
    let ask = minus(&plus(&fee, loan), limit);
    let repayment = minus(loan, limit);
    if !ask.fits_u128() {
        return None;
    }
    let ask_amount: u128 = to_u128(&ask);
    if ask_amount > u128::MAX - GUARDIAN_BUFFER as u128 {
        return None;
    }
    Some(
        Settlement {
            liquidator_fee: to_u128(&fee),
            repayment_amount: to_u128(&repayment),
            ask_amount,
        },
    )
}

// ---------------------------------------------------------------------------
// Laws.

/// What is liquidated is worth the sum of its parts: every amount with a price
/// beside it adds what it is worth at that price, rounded down, and nothing is
/// worth nothing.
pub proof fn every_pair_adds_its_worth(
    amounts: Seq<(Seq<char>, nat)>,
    prices: Seq<nat>,
    amount: (Seq<char>, nat),
    price: nat,
)
    requires
        amounts.len() == prices.len(),
    ensures
        liquidation_value(Seq::empty(), Seq::empty()) == 0,
        liquidation_value(amounts.push(amount), prices.push(price)) == liquidation_value(
            amounts,
            prices,
        ) + amount.1 * price / 1_000_000_000_000_000_000,
{
    lemma_value_of_prefix(
        amounts,
        prices,
        amounts.push(amount),
        prices.push(price),
        amounts.len(),
    );
}

/// An amount without a price, or a price without an amount, is worth nothing.
pub proof fn what_has_no_counterpart_is_worth_nothing(
    amounts: Seq<(Seq<char>, nat)>,
    prices: Seq<nat>,
    amount: (Seq<char>, nat),
    price: nat,
)
    ensures
        prices.len() <= amounts.len() ==> liquidation_value(amounts.push(amount), prices)
            == liquidation_value(amounts, prices),
        amounts.len() <= prices.len() ==> liquidation_value(amounts, prices.push(price))
            == liquidation_value(amounts, prices),
{
    let k = paired(amounts, prices);
    lemma_value_of_prefix(amounts, prices, amounts.push(amount), prices, k);
    lemma_value_of_prefix(amounts, prices, amounts, prices.push(price), k);
}

/// The value of the first `k` depends on the first `k` alone.
proof fn lemma_value_of_prefix(
    amounts: Seq<(Seq<char>, nat)>,
    prices: Seq<nat>,
    more_amounts: Seq<(Seq<char>, nat)>,
    more_prices: Seq<nat>,
    k: nat,
)
    requires
        k <= amounts.len() <= more_amounts.len(),
        k <= prices.len() <= more_prices.len(),
        forall|i: int| 0 <= i < k ==> amounts[i] == more_amounts[i],
        forall|i: int| 0 <= i < k ==> prices[i] == more_prices[i],
    ensures
        value_of_first(amounts, prices, k) == value_of_first(more_amounts, more_prices, k),
    decreases k,
{
    if k > 0 {
        lemma_value_of_prefix(amounts, prices, more_amounts, more_prices, (k - 1) as nat);
    }
}

/// Only what does not fit is out of range: a value where a product of an
/// amount and its price, or the sum, needs more than 256 bits, and a
/// settlement where the fee before rounding, or the fee and the loan, need
/// more than that, or what is asked with the buffer of ten coins more than 128.
pub proof fn only_what_does_not_fit_is_out_of_range(
    amounts: Seq<(Seq<char>, nat)>,
    prices: Seq<nat>,
    loan: nat,
    limit: nat,
    rate: nat,
    value: nat,
)
    ensures
        (forall|k: int|
            0 <= k < amounts.len() && k < prices.len() ==> #[trigger] amounts[k].1 * prices[k]
                < modulus()) && liquidation_value(amounts, prices) < modulus() <==> value_fits(
            amounts,
            prices,
        ),
        value * rate < modulus() && value * rate / 1_000_000_000_000_000_000 + loan < modulus()
            && value * rate / 1_000_000_000_000_000_000 + loan - limit + 10_000_000 <= u128::MAX
            <==> settlement_fits(loan, limit, rate, value),
{
    if forall|k: int|
        0 <= k < amounts.len() && k < prices.len() ==> #[trigger] amounts[k].1 * prices[k]
            < modulus() {
        assert forall|k: int| 0 <= k < paired(amounts, prices) implies #[trigger] amounts[k].1
            * prices[k] < modulus() by {}
    }
    if value_fits(amounts, prices) {
        assert forall|k: int| 0 <= k < amounts.len() && k < prices.len() implies #[trigger] amounts[
            k].1 * prices[k] < modulus() by {}
    }
}

} // verus!
