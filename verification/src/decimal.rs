//! Exact decimal numbers for prices and totals.
//!
//! A [`Decimal`] is a whole number of units together with the count of digits
//! that stand behind the decimal point, so `Decimal::new(1999, 2)` is 19.99.
//! Arithmetic never rounds: a result either is the exact number or is refused
//! because it cannot be held.

use vstd::prelude::*;
use vstd::arithmetic::power::{pow, lemma_pow0, lemma_pow1, lemma_pow_adds, lemma_pow_increases, lemma_pow_positive};
use vstd::arithmetic::mul::{lemma_mul_inequality, lemma_mul_is_associative, lemma_mul_is_commutative};

verus! {

/// A decimal number as mathematics has it: `units / 10^scale`, without bounds.
pub struct ExactDecimal {
    pub units: int,
    pub scale: nat,
}

impl ExactDecimal {
    /// The number zero, written without fractional digits.
    pub open spec fn zero() -> ExactDecimal {
        ExactDecimal { units: 0, scale: 0 }
    }

    /// The numerator of this number over the denominator `10^scale`.
    /// Meaningful for `scale >= self.scale`.
    pub open spec fn units_at(self, scale: nat) -> int {
        self.units * pow(10, (scale - self.scale) as nat)
    }

    /// The exact sum. It carries as many fractional digits as the longer operand.
    pub open spec fn plus(self, other: ExactDecimal) -> ExactDecimal {
        let scale = if self.scale >= other.scale { self.scale } else { other.scale };
        ExactDecimal { units: self.units_at(scale) + other.units_at(scale), scale }
    }

    /// The exact product with a whole number.
    pub open spec fn times(self, n: int) -> ExactDecimal {
        ExactDecimal { units: self.units * n, scale: self.scale }
    }

    /// Whether a [`Decimal`] can hold this number as it is written.
    pub open spec fn representable(self) -> bool {
        i128::MIN <= self.units <= i128::MAX && self.scale <= u32::MAX
    }
}

/// An exact decimal number: `units / 10^scale`.
#[derive(Clone, Copy, Debug, PartialEq, Eq, Structural)]
pub struct Decimal {
    pub units: i128,
    pub scale: u32,
}

impl View for Decimal {
    type V = ExactDecimal;

    open spec fn view(&self) -> ExactDecimal {
        ExactDecimal { units: self.units as int, scale: self.scale as nat }
    }
}

/// Multiplying a nonzero number by a larger power of ten moves it further from zero.
proof fn lemma_scaling_moves_away_from_zero(units: int, fewer: nat, more: nat)
    requires
        fewer <= more,
    ensures
        units >= 0 ==> units * pow(10, fewer) <= units * pow(10, more),
        units <= 0 ==> units * pow(10, more) <= units * pow(10, fewer),
{
    lemma_pow_increases(10, fewer, more);
    lemma_pow_positive(10, fewer);
    let a = pow(10, fewer);
    let b = pow(10, more);
    if units >= 0 {
        lemma_mul_inequality(a, b, units);
        lemma_mul_is_commutative(a, units);
        lemma_mul_is_commutative(b, units);
    } else {
        lemma_mul_inequality(a, b, -units);
        assert(a * (-units) == -(units * a)) by (nonlinear_arith);
        assert(b * (-units) == -(units * b)) by (nonlinear_arith);
    }
}

/// `units * 10^by`, or `None` when that leaves the range of `i128`.
fn scale_up(units: i128, by: u32) -> (r: Option<i128>)
    ensures
        match r {
            Some(v) => v == units * pow(10, by as nat),
            None => !(i128::MIN <= units * pow(10, by as nat) <= i128::MAX),
        },
{
    if units == 0 {
        assert(0 * pow(10, by as nat) == 0) by (nonlinear_arith);
        return Some(0);
    }
    let mut current: i128 = units;
    let mut done: u32 = 0;
    proof {
        lemma_pow0(10);
    }
    while done < by
        invariant
            done <= by,
            current == units * pow(10, done as nat),
        decreases by - done,
    {
        proof {
            lemma_pow_adds(10, done as nat, 1);
            lemma_pow1(10);
            lemma_mul_is_associative(units as int, pow(10, done as nat), 10);
            assert(current * 10 == units * pow(10, (done + 1) as nat));
        }
        match current.checked_mul(10) {
            Some(next) => {
                current = next;
                done = done + 1;
            },
            None => {
                proof {
                    let factor = pow(10, (done + 1) as nat);
                    lemma_pow_positive(10, (done + 1) as nat);
                    assert(units >= 0 ==> units * factor >= 0) by (nonlinear_arith)
                        requires
                            factor > 0,
                    ;
                    assert(units <= 0 ==> units * factor <= 0) by (nonlinear_arith)
                        requires
                            factor > 0,
                    ;
                    lemma_scaling_moves_away_from_zero(units as int, (done + 1) as nat, by as nat);
                }
                return None;
            },
        }
    }
    Some(current)
}

impl Decimal {
    /// The decimal `units / 10^scale`.
    pub fn new(units: i128, scale: u32) -> (d: Decimal)
        ensures
            d.units == units,
            d.scale == scale,
    {
        Decimal { units, scale }
    }

    /// Zero, written without fractional digits.
    pub fn zero() -> (d: Decimal)
        ensures
            d@ == ExactDecimal::zero(),
    {
        Decimal { units: 0, scale: 0 }
    }

    /// The product with a whole number, exactly, or `None` when its units leave
    /// the range of `i128`.
    pub fn checked_mul_int(self, n: i32) -> (r: Option<Decimal>)
        ensures
            match r {
                Some(d) => d@ == self@.times(n as int),
                None => !self@.times(n as int).representable(),
            },
    {
        match self.units.checked_mul(n as i128) {
            Some(units) => Some(Decimal { units, scale: self.scale }),
            None => None,
        }
    }

    /// Whether two decimals can be added: both operands, brought to the longer
    /// of the two scales, and their sum must stay in the range of `i128`.
    pub open spec fn addable(a: ExactDecimal, b: ExactDecimal) -> bool {
        let scale = if a.scale >= b.scale { a.scale } else { b.scale };
        &&& i128::MIN <= a.units_at(scale) <= i128::MAX
        &&& i128::MIN <= b.units_at(scale) <= i128::MAX
        &&& i128::MIN <= a.units_at(scale) + b.units_at(scale) <= i128::MAX
    }

    /// The sum, exactly, written with the longer of the two scales; `None`
    /// exactly when the operands are not [`Decimal::addable`].
    pub fn checked_add(self, other: Decimal) -> (r: Option<Decimal>)
        ensures
            match r {
                Some(d) => d@ == self@.plus(other@) && Decimal::addable(self@, other@),
                None => !Decimal::addable(self@, other@),
            },
    {
        let scale: u32 = if self.scale >= other.scale { self.scale } else { other.scale };
        let left = match scale_up(self.units, scale - self.scale) {
            Some(v) => v,
            None => { return None; },
        };
        let right = match scale_up(other.units, scale - other.scale) {
            Some(v) => v,
            None => { return None; },
        };
        match left.checked_add(right) {
            Some(units) => Some(Decimal { units, scale }),
            None => None,
        }
    }
}

} // verus!
