//! Numbers as the text format writes them: whole numbers and decimal fractions.
//!
//! A coordinate is a whole number in the binary level format and a fraction in the text
//! format. [`Number`] holds either, and a fraction is kept exactly, as a [`Decimal`].

use vstd::arithmetic::div_mod::{
    lemma_basic_div,
    lemma_breakdown,
    lemma_div_denominator,
    lemma_small_mod,
};
use vstd::arithmetic::mul::{lemma_mul_inequality, lemma_mul_is_commutative};
use vstd::prelude::*;
use vstd::std_specs::convert::FromSpecImpl;

verus! {

/// Ten to the power of `n`.
pub open spec fn pow10(n: nat) -> nat
    decreases n,
{
    if n == 0 {
        1
    } else {
        10 * pow10((n - 1) as nat)
    }
}

/// A power of ten is positive.
pub proof fn lemma_pow10_positive(n: nat)
    ensures
        pow10(n) > 0,
    decreases n,
{
    if n > 0 {
        lemma_pow10_positive((n - 1) as nat);
    }
}

/// The power of a sum is the product of the powers.
pub proof fn lemma_pow10_adds(a: nat, b: nat)
    ensures
        pow10(a + b) == pow10(a) * pow10(b),
    decreases b,
{
    if b == 0 {
        assert(pow10(a) * 1 == pow10(a));
    } else {
        lemma_pow10_adds(a, (b - 1) as nat);
        assert(pow10(a + b) == 10 * pow10((a + b - 1) as nat));
        assert(pow10(a) * (10 * pow10((b - 1) as nat)) == 10 * (pow10(a) * pow10((b - 1) as nat)))
            by (nonlinear_arith);
    }
}

/// A greater exponent gives no lesser power.
pub proof fn lemma_pow10_monotonic(a: nat, b: nat)
    requires
        a <= b,
    ensures
        pow10(a) <= pow10(b),
    decreases b - a,
{
    if a < b {
        lemma_pow10_monotonic(a, (b - 1) as nat);
    }
}

/// Dividing by one more power of ten is dividing the quotient by ten, and the remainder
/// grows by the digit that this takes off.
pub proof fn lemma_strip_digit(x: nat, k: nat)
    ensures
        x / pow10(k + 1) == (x / pow10(k)) / 10,
        x % pow10(k + 1) == pow10(k) * ((x / pow10(k)) % 10) + x % pow10(k),
{
    lemma_pow10_positive(k);
    lemma_pow10_adds(k, 1);
    assert(pow10(1) == 10) by {
        reveal_with_fuel(pow10, 2);
    }
    lemma_div_denominator(x as int, pow10(k) as int, 10);
    lemma_breakdown(x as int, pow10(k) as int, 10);
}

/// A multiple of a power of ten is a multiple of every smaller power of ten.
pub proof fn lemma_divisible_by_smaller(x: nat, j: nat, n: nat)
    requires
        j <= n,
        x % pow10(n) == 0,
    ensures
        x % pow10(j) == 0,
{
    lemma_pow10_positive(j);
    lemma_pow10_positive((n - j) as nat);
    lemma_pow10_adds(j, (n - j) as nat);
    lemma_breakdown(x as int, pow10(j) as int, pow10((n - j) as nat) as int);
    let a = pow10(j) as int;
    let q = (x as int / a) % (pow10((n - j) as nat) as int);
    assert(a * q >= 0) by (nonlinear_arith)
        requires
            a > 0,
            q >= 0,
    ;
}

/// A number below a power of ten has quotient zero by every larger power of ten, and is
/// a multiple of it only when it is zero.
pub proof fn lemma_below_power(x: nat, k: nat, n: nat)
    requires
        k <= n,
        x / pow10(k) == 0,
    ensures
        x / pow10(n) == 0,
        x % pow10(n) == x,
{
    lemma_pow10_positive(k);
    lemma_pow10_monotonic(k, n);
    vstd::arithmetic::div_mod::lemma_small_div_converse(x as int, pow10(k) as int);
    lemma_basic_div(x as int, pow10(n) as int);
    lemma_small_mod(x, pow10(n));
}

/// The largest magnitude that [`Decimal::capped_magnitude`] tells apart: one more than any
/// `i32` can hold in either direction.
pub const MAGNITUDE_CAP: u64 = 0x8000_0000;

/// A decimal fraction: `mantissa` times ten to the power of `exponent`, negated where
/// `negative` is set.
#[derive(Clone, Copy, Debug, PartialEq, Eq, Structural)]
pub struct Decimal {
    pub negative: bool,
    pub mantissa: u64,
    pub exponent: i32,
}

impl Decimal {
    /// Whether the number is zero.
    pub open spec fn is_zero_spec(self) -> bool {
        self.mantissa == 0
    }

    /// Whether the number is whole, that is to say has no fractional part.
    pub open spec fn is_integral_spec(self) -> bool {
        self.exponent >= 0 || (self.mantissa as nat) % pow10((-self.exponent) as nat) == 0
    }

    /// The whole part of the number's absolute value.
    pub open spec fn magnitude(self) -> nat {
        if self.exponent >= 0 {
            (self.mantissa as nat) * pow10(self.exponent as nat)
        } else {
            (self.mantissa as nat) / pow10((-self.exponent) as nat)
        }
    }

    /// The number with its fractional part dropped.
    pub open spec fn truncated(self) -> int {
        if self.negative {
            -(self.magnitude() as int)
        } else {
            self.magnitude() as int
        }
    }

    /// The whole number nearest to [`Decimal::truncated`] that an `i32` holds.
    pub open spec fn saturated(self) -> int {
        if self.truncated() < i32::MIN {
            i32::MIN as int
        } else if self.truncated() > i32::MAX {
            i32::MAX as int
        } else {
            self.truncated()
        }
    }

    /// The whole number `value`, exactly.
    pub fn from_int(value: i32) -> (d: Self)
        ensures
            d.exponent == 0,
            d.is_integral_spec(),
            d.truncated() == value,
            d.negative == (value < 0),
    {
        let wide: i64 = value as i64;
        let d = if wide < 0 {
            Decimal { negative: true, mantissa: (-wide) as u64, exponent: 0 }
        } else {
            Decimal { negative: false, mantissa: wide as u64, exponent: 0 }
        };
        assert(pow10(0) == 1);
        assert(d.magnitude() == d.mantissa) by (nonlinear_arith)
            requires
                d.magnitude() == (d.mantissa as nat) * 1,
        ;
        d
    }

    /// Whether the number is zero.
    pub fn is_zero(&self) -> (r: bool)
        ensures
            r == self.is_zero_spec(),
    {
        self.mantissa == 0
    }

    /// Whether the number is whole.
    pub fn is_integral(&self) -> (r: bool)
        ensures
            r == self.is_integral_spec(),
    {
        if self.exponent >= 0 {
            return true;
        }
        let places: u32 = (-(self.exponent as i64)) as u32;
        let mut rest: u64 = self.mantissa;
        let mut done: u32 = 0;
        assert(pow10(0) == 1);
        while done < places && rest != 0 && rest % 10 == 0
            invariant
                done <= places,
                places == -self.exponent,
                rest == (self.mantissa as nat) / pow10(done as nat),
                (self.mantissa as nat) % pow10(done as nat) == 0,
            decreases places - done,
        {
            proof {
                lemma_strip_digit(self.mantissa as nat, done as nat);
                assert(pow10(done as nat) * 0 == 0);
            }
            rest = rest / 10;
            done = done + 1;
        }
        proof {
            let x = self.mantissa as nat;
            if done == places {
            } else if rest == 0 {
                lemma_below_power(x, done as nat, done as nat);
                lemma_below_power(x, done as nat, places as nat);
            } else {
                lemma_strip_digit(x, done as nat);
                lemma_pow10_positive(done as nat);
                let p = pow10(done as nat) as int;
                let digit = (rest % 10) as int;
                assert(p * digit > 0) by (nonlinear_arith)
                    requires
                        p > 0,
                        digit > 0,
                ;
                if x % pow10(places as nat) == 0 {
                    lemma_divisible_by_smaller(x, (done + 1) as nat, places as nat);
                }
            }
        }
        done == places || rest == 0
    }

    /// The whole part of the number's absolute value, or [`MAGNITUDE_CAP`] where that is
    /// less.
    pub fn capped_magnitude(&self) -> (r: u64)
        ensures
            r == if self.magnitude() < MAGNITUDE_CAP {
                self.magnitude()
            } else {
                MAGNITUDE_CAP as nat
            },
    {
        let mut rest: u64 = self.mantissa;
        assert(pow10(0) == 1);
        if self.exponent >= 0 {
            let places: u32 = self.exponent as u32;
            let mut done: u32 = 0;
            assert(rest == (self.mantissa as nat) * pow10(0)) by (nonlinear_arith)
                requires
                    rest == self.mantissa,
                    pow10(0) == 1,
            ;
            while done < places && rest != 0 && rest < MAGNITUDE_CAP
                invariant
                    done <= places,
                    places == self.exponent,
                    rest == (self.mantissa as nat) * pow10(done as nat),
                decreases places - done,
            {
                proof {
                    let m = self.mantissa as nat;
                    let p = pow10(done as nat);
                    assert(m * (10 * p) == 10 * (m * p)) by (nonlinear_arith);
                }
                rest = rest * 10;
                done = done + 1;
            }
            proof {
                let m = self.mantissa as nat;
                lemma_pow10_monotonic(done as nat, places as nat);
                lemma_pow10_positive(done as nat);
                if rest == 0 {
                    assert(m == 0) by (nonlinear_arith)
                        requires
                            m * pow10(done as nat) == 0,
                            pow10(done as nat) > 0,
                    ;
                    assert(0 * pow10(places as nat) == 0);
                } else {
                    lemma_mul_inequality(
                        pow10(done as nat) as int,
                        pow10(places as nat) as int,
                        m as int,
                    );
                    lemma_mul_is_commutative(m as int, pow10(done as nat) as int);
                    lemma_mul_is_commutative(m as int, pow10(places as nat) as int);
                }
            }
        } else {
            let places: u32 = (-(self.exponent as i64)) as u32;
            let mut done: u32 = 0;
            while done < places && rest != 0
                invariant
                    done <= places,
                    places == -self.exponent,
                    rest == (self.mantissa as nat) / pow10(done as nat),
                decreases places - done,
            {
                proof {
                    lemma_strip_digit(self.mantissa as nat, done as nat);
                }
                rest = rest / 10;
                done = done + 1;
            }
            proof {
                if done < places {
                    lemma_below_power(self.mantissa as nat, done as nat, places as nat);
                }
            }
        }
        if rest < MAGNITUDE_CAP {
            rest
        } else {
            MAGNITUDE_CAP
        }
    }

    /// The number with its fractional part dropped, or the nearest `i32` where it is out
    /// of range.
    pub fn to_int_saturating(&self) -> (r: i32)
        ensures
            r == self.saturated(),
    {
        let magnitude = self.capped_magnitude();
        if self.negative {
            if magnitude >= MAGNITUDE_CAP {
                i32::MIN
            } else {
                (-(magnitude as i64)) as i32
            }
        } else {
            if magnitude >= MAGNITUDE_CAP {
                i32::MAX
            } else {
                magnitude as i32
            }
        }
    }
}

/// A number of the text format: a whole number or a decimal fraction.
#[derive(Clone, Copy, Debug, PartialEq, Eq, Structural)]
pub enum Number {
    Int(i32),
    Float(Decimal),
}

impl Number {
    /// The whole number that is held, if one is.
    pub fn as_int(self) -> (r: Option<i32>)
        ensures
            r == match self {
                Number::Int(i) => Some(i),
                Number::Float(_) => None,
            },
    {
        match self {
            Number::Int(i) => Some(i),
            Number::Float(_) => None,
        }
    }

    /// The fraction that is held, if one is.
    pub fn as_float(self) -> (r: Option<Decimal>)
        ensures
            r == match self {
                Number::Int(_) => None,
                Number::Float(f) => Some(f),
            },
    {
        match self {
            Number::Int(_) => None,
            Number::Float(f) => Some(f),
        }
    }

    /// What [`Number::into_int`] returns.
    pub open spec fn int_value(self) -> int {
        match self {
            Number::Int(i) => i as int,
            Number::Float(f) => f.saturated(),
        }
    }

    /// Whether the number has no fractional part.
    pub open spec fn is_integral_spec(self) -> bool {
        match self {
            Number::Int(_) => true,
            Number::Float(f) => f.is_integral_spec(),
        }
    }

    /// The number as a whole number: a fraction loses its fractional part, and one out of
    /// range becomes the nearest `i32`.
    pub fn into_int(self) -> (r: i32)
        ensures
            r == self.int_value(),
    {
        match self {
            Number::Int(i) => i,
            Number::Float(f) => f.to_int_saturating(),
        }
    }

    /// The number as a fraction; a whole number is converted exactly.
    pub fn into_float(self) -> (r: Decimal)
        ensures
            match self {
                Number::Int(i) => r.is_integral_spec() && r.truncated() == i && r.exponent == 0
                    && r.negative == (i < 0),
                Number::Float(f) => r == f,
            },
    {
        match self {
            Number::Int(i) => Decimal::from_int(i),
            Number::Float(f) => f,
        }
    }

    /// Whether the number has no fractional part.
    pub fn is_integral(self) -> (r: bool)
        ensures
            r == self.is_integral_spec(),
    {
        match self {
            Number::Int(_) => true,
            Number::Float(f) => f.is_integral(),
        }
    }

    /// Whether the number is zero.
    pub fn is_zero(self) -> (r: bool)
        ensures
            r == match self {
                Number::Int(i) => i == 0,
                Number::Float(f) => f.is_zero_spec(),
            },
    {
        match self {
            Number::Int(i) => i == 0,
            Number::Float(f) => f.is_zero(),
        }
    }
}

impl Default for Number {
    fn default() -> (r: Self)
        ensures
            r == Number::Int(0),
    {
        Number::Int(0)
    }
}

impl From<i32> for Number {
    fn from(i: i32) -> (r: Self) {
        Number::Int(i)
    }
}

impl FromSpecImpl<i32> for Number {
    open spec fn obeys_from_spec() -> bool {
        true
    }

    open spec fn from_spec(i: i32) -> Self {
        Number::Int(i)
    }
}

impl From<Decimal> for Number {
    fn from(f: Decimal) -> (r: Self) {
        Number::Float(f)
    }
}

impl FromSpecImpl<Decimal> for Number {
    open spec fn obeys_from_spec() -> bool {
        true
    }

    open spec fn from_spec(f: Decimal) -> Self {
        Number::Float(f)
    }
}

} // verus!
