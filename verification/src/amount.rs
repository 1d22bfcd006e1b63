use cosmwasm_std::Fraction;
use vstd::prelude::*;

verus! {

/// Fractional units in one whole of a decimal: eighteen places.
pub open spec fn decimal_one() -> nat {
    1_000_000_000_000_000_000
}

/// The first natural number that four limbs cannot hold.
pub open spec fn modulus() -> nat {
    0x1_0000_0000_0000_0000_0000_0000_0000_0000_0000_0000_0000_0000_0000_0000_0000_0000nat
}

/// The number that four limbs stand for, least significant limb first.
pub open spec fn limbs_value(limbs: Seq<u64>) -> nat {
    (limbs[0] + limbs[1] * 0x1_0000_0000_0000_0000int + limbs[2]
        * 0x1_0000_0000_0000_0000_0000_0000_0000_0000int + limbs[3]
        * 0x1_0000_0000_0000_0000_0000_0000_0000_0000_0000_0000_0000_0000int) as nat
}

/// An unsigned integer of 256 bits, least significant limb first.
#[derive(Clone, Copy, Debug, PartialEq, Eq)]
pub struct Uint256 {
    pub limbs: [u64; 4],
}

impl View for Uint256 {
    type V = nat;

    open spec fn view(&self) -> nat {
        limbs_value(self.limbs@)
    }
}

/// A non-negative decimal with eighteen places, as a count of its smallest
/// unit; least significant limb first.
#[derive(Clone, Copy, Debug, PartialEq, Eq)]
pub struct Decimal256 {
    pub limbs: [u64; 4],
}

impl View for Decimal256 {
    type V = nat;

    open spec fn view(&self) -> nat {
        limbs_value(self.limbs@)
    }
}

/// What an amount is worth at a rate, rounded down.
pub open spec fn scaled(amount: nat, rate: nat) -> nat {
    amount * rate / decimal_one()
}

/// The decimal digit `d`.
pub open spec fn digit(d: nat) -> char {
    ('0' as int + d) as char
}

/// `n` written out in decimal, without leading zeros.
pub open spec fn decimal_text(n: nat) -> Seq<char>
    decreases n,
{
    if n < 10 {
        seq![digit(n)]
    } else {
        decimal_text(n / 10).push(digit(n % 10))
    }
}

impl Uint256 {
    pub fn zero() -> (r: Uint256)
        ensures
            r@ == 0,
    {
        Uint256 { limbs: [0, 0, 0, 0] }
    }

    /// The greatest value.
    pub fn max() -> (r: Uint256)
        ensures
            r@ == modulus() - 1,
    {
        Uint256 { limbs: [u64::MAX, u64::MAX, u64::MAX, u64::MAX] }
    }

    /// Whether the value is below two to the power of 128.
    pub fn fits_u128(&self) -> (r: bool)
        ensures
            r == (self@ <= u128::MAX),
    {
        self.limbs[2] == 0 && self.limbs[3] == 0
    }

    /// Whether `self + other` is too large for the type.
    pub fn sum_overflows(&self, other: &Uint256) -> (r: bool)
        ensures
            r == (self@ + other@ >= modulus()),
    {
        let room = minus(&Uint256::max(), self);
        less_than(&room, other)
    }
}

/// The comparison `<` that `cosmwasm_bignumber::Uint256` derives: it orders
/// two values as the numbers they hold.
#[verifier::external_body]
pub(crate) fn less_than(a: &Uint256, b: &Uint256) -> (r: bool)
    ensures
        r == (a@ < b@),
{
    let x = cosmwasm_bignumber::Uint256(bigint::U256(a.limbs));
    let y = cosmwasm_bignumber::Uint256(bigint::U256(b.limbs));
    x < y
}

/// `Uint256 + Uint256` of `cosmwasm_bignumber`: the sum, for operands whose
/// sum fits; it panics on the others.
#[verifier::external_body]
pub(crate) fn plus(a: &Uint256, b: &Uint256) -> (r: Uint256)
    requires
        a@ + b@ < modulus(),
    ensures
        r@ == a@ + b@,
{
    let x = cosmwasm_bignumber::Uint256(bigint::U256(a.limbs));
    let y = cosmwasm_bignumber::Uint256(bigint::U256(b.limbs));
    Uint256 { limbs: (x + y).0 .0 }
}

/// `Uint256 - Uint256` of `cosmwasm_bignumber`: the difference, where the
/// first operand is not the smaller one; it panics otherwise.
#[verifier::external_body]
pub(crate) fn minus(a: &Uint256, b: &Uint256) -> (r: Uint256)
    requires
        b@ <= a@,
    ensures
        r@ == a@ - b@,
{
    let x = cosmwasm_bignumber::Uint256(bigint::U256(a.limbs));
    let y = cosmwasm_bignumber::Uint256(bigint::U256(b.limbs));
    Uint256 { limbs: (x - y).0 .0 }
}

/// `Uint256 * Decimal256` of `cosmwasm_bignumber`: the product rounded down to
/// whole units. It multiplies before it divides, and panics where that
/// product does not fit.
#[verifier::external_body]
pub(crate) fn times(amount: &Uint256, rate: &Decimal256) -> (r: Uint256)
    requires
        amount@ * rate@ < modulus(),
    ensures
        r@ == scaled(amount@, rate@),
{
    let x = cosmwasm_bignumber::Uint256(bigint::U256(amount.limbs));
    let y = cosmwasm_bignumber::Decimal256(bigint::U256(rate.limbs));
    Uint256 { limbs: (x * y).0 .0 }
}

/// The flag of `bigint::U256::overflowing_mul`, the multiplication underneath
/// `cosmwasm_bignumber`: whether the product of the two raw values is too
/// large for 256 bits.
#[verifier::external_body]
pub(crate) fn times_overflows(amount: &Uint256, rate: &Decimal256) -> (r: bool)
    ensures
        r == (amount@ * rate@ >= modulus()),
{
    bigint::U256(amount.limbs).overflowing_mul(bigint::U256(rate.limbs)).1
}

/// `Uint128::from(Uint256)` of `cosmwasm_bignumber`: the same number, for
/// values below two to the power of 128; it panics on the others.
#[verifier::external_body]
pub(crate) fn to_u128(a: &Uint256) -> (r: u128)
    requires
        a@ <= u128::MAX,
    ensures
        r == a@,
{
    cosmwasm_std::Uint128::from(cosmwasm_bignumber::Uint256(bigint::U256(a.limbs))).u128()
}

/// `Decimal256::from(Decimal)` of `cosmwasm_bignumber`: the same decimal. Both
/// types have eighteen places, so the count of smallest units stays.
#[verifier::external_body]
pub(crate) fn decimal256_from_decimal(atomics: u128) -> (r: Decimal256)
    ensures
        r@ == atomics,
{
    let one = cosmwasm_std::Decimal::one().numerator();
    let narrow = cosmwasm_std::Decimal::from_ratio(atomics, one);
    Decimal256 { limbs: cosmwasm_bignumber::Decimal256::from(narrow).0 .0 }
}

/// `to_string` of `cosmwasm_bignumber::Uint256`: the number in decimal.
#[verifier::external_body]
pub(crate) fn uint256_text(a: &Uint256) -> (r: String)
    ensures
        r@ == decimal_text(a@),
{
    cosmwasm_bignumber::Uint256(bigint::U256(a.limbs)).to_string()
}

/// `to_string` of `cosmwasm_std::Uint128`: the number in decimal.
#[verifier::external_body]
pub(crate) fn uint128_text(a: u128) -> (r: String)
    ensures
        r@ == decimal_text(a as nat),
{
    cosmwasm_std::Uint128::from(a).to_string()
}

} // verus!
