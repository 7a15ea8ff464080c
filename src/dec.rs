//! Fixed-point decimals and the conversions of token amounts that use them.
use vstd::prelude::*;
use vstd::arithmetic::div_mod::{lemma_div_is_ordered, lemma_div_plus_one};
use vstd::arithmetic::mul::lemma_mul_inequality;
use rust_decimal::Decimal;

verus! {

/// Largest scale a fixed-point value may carry.
pub const MAX_SCALE: u32 = 28;

/// Mantissas are below `2^96`.
pub const MANTISSA_BOUND: u128 = 0x1_0000_0000_0000_0000_0000_0000;

/// A non-negative fixed-point number `mantissa / 10^scale`.
#[derive(Clone, Copy, Debug, PartialEq, Eq, Structural)]
pub struct Dec {
    pub mantissa: i128,
    pub scale: u32,
}

/// `10^n` as a mathematical integer.
pub open spec fn pow10(n: nat) -> nat
    decreases n,
{
    if n == 0 {
        1
    } else {
        10 * pow10((n - 1) as nat)
    }
}

impl Dec {
    /// The value is non-negative, its mantissa fits in 96 bits and its
    /// scale is within bounds.
    pub open spec fn valid(self) -> bool {
        0 <= self.mantissa < MANTISSA_BOUND && self.scale <= MAX_SCALE
    }

    /// `floor(self * tokens)`: the integer part of the product.
    pub open spec fn spec_mul_floor(self, tokens: nat) -> int {
        (self.mantissa * tokens) / (pow10(self.scale as nat) as int)
    }
}

impl Dec {
    /// Whether the value is non-negative with a scale within bounds.
    pub fn is_valid(&self) -> (r: bool)
        ensures
            r == self.valid(),
    {
        0 <= self.mantissa && self.mantissa < MANTISSA_BOUND as i128 && self.scale <= MAX_SCALE
    }
}

/// `10^n` fits in 128 bits for every scale a decimal may carry.
pub proof fn lemma_pow10_bounds(n: nat)
    requires
        n <= 38,
    ensures
        1 <= pow10(n) <= pow10(38),
        pow10(38) < u128::MAX,
    decreases n,
{
    reveal_with_fuel(pow10, 39);
    if n > 0 {
        lemma_pow10_bounds((n - 1) as nat);
        lemma_pow10_mono((n - 1) as nat, 37);
    }
}

proof fn lemma_pow10_mono(a: nat, b: nat)
    requires
        a <= b,
    ensures
        pow10(a) <= pow10(b),
    decreases b,
{
    if a < b {
        lemma_pow10_mono(a, (b - 1) as nat);
    }
}

/// Computes `10^n`.
pub fn pow10_u128(n: u32) -> (r: u128)
    requires
        n <= MAX_SCALE,
    ensures
        r == pow10(n as nat),
{
    let mut r: u128 = 1;
    let mut i: u32 = 0;
    while i < n
        invariant
            i <= n <= MAX_SCALE,
            r == pow10(i as nat),
        decreases n - i,
    {
        proof {
            lemma_pow10_mono((i + 1) as nat, 28);
            lemma_pow10_bounds(28);
            assert(pow10((i + 1) as nat) == 10 * pow10(i as nat));
        }
        r = r * 10;
        i = i + 1;
    }
    r
}

/// What `voting_power` returns: the integer part of `rate * tokens`, when the
/// exact product's mantissa fits in 96 bits (so that no rounding of the
/// product arises) and the result fits in an `i64`.
pub open spec fn spec_voting_power(rate: Dec, tokens: u64) -> Option<i64> {
    if rate.mantissa * tokens < MANTISSA_BOUND && rate.spec_mul_floor(tokens as nat) <= i64::MAX {
        Some(rate.spec_mul_floor(tokens as nat) as i64)
    } else {
        None
    }
}

/// Converts a staked token amount into a consensus voting power with the
/// votes-per-token `rate`, truncating toward zero.
pub fn voting_power(rate: Dec, tokens: u64) -> (r: Option<i64>)
    requires
        rate.valid(),
    ensures
        r == spec_voting_power(rate, tokens),
{
    let m: u128 = rate.mantissa as u128;
    let p: u128 = pow10_u128(rate.scale);
    proof {
        lemma_pow10_bounds(rate.scale as nat);
    }
    match m.checked_mul(tokens as u128) {
        None => None,
        Some(prod) if prod >= MANTISSA_BOUND => None,
        Some(prod) => {
            let q: u128 = prod / p;
            if q <= i64::MAX as u128 {
                Some(q as i64)
            } else {
                None
            }
        },
    }
}

/// Voting power is a non-negative integer that never decreases as the stake
/// grows, and it grows strictly once the extra stake is worth at least one
/// vote.
pub proof fn lemma_voting_power_monotone(rate: Dec, a: nat, b: nat)
    requires
        rate.valid(),
        a <= b,
    ensures
        0 <= rate.spec_mul_floor(a) <= rate.spec_mul_floor(b),
        rate.mantissa * (b - a) >= pow10(rate.scale as nat) ==> rate.spec_mul_floor(a)
            < rate.spec_mul_floor(b),
{
    let p = pow10(rate.scale as nat) as int;
    lemma_pow10_bounds(rate.scale as nat);
    let m = rate.mantissa as int;
    lemma_mul_inequality(a as int, b as int, m);
    assert(m * a == a * m && m * b == b * m) by (nonlinear_arith);
    assert(0 <= m * a) by (nonlinear_arith)
        requires
            m >= 0,
            a >= 0,
    ;
    lemma_div_is_ordered(0, m * a, p);
    lemma_div_is_ordered(m * a, m * b, p);
    if m * (b - a) >= p {
        assert(m * (b - a) == m * b - m * a) by (nonlinear_arith);
        lemma_div_is_ordered(p + m * a, m * b, p);
        lemma_div_plus_one(m * a, p);
    }
}

/// The staked ratio `n / d` as rust_decimal computes it, read back as
/// mantissa and scale.
pub uninterp spec fn decimal_quotient(n: u64, d: u64) -> (i128, u32);

/// Relies on rust_decimal's `Decimal::from(u64)`, `Div` (which panics only on
/// a zero divisor), `mantissa` and `scale`; a quotient of non-negative
/// operands is non-negative with a 96-bit mantissa and a scale of at most 28,
/// and a quotient `n / d` with `n <= d` is at most one.
#[verifier::external_body]
pub(crate) fn decimal_div(n: u64, d: u64) -> (r: Dec)
    requires
        d != 0,
    ensures
        (r.mantissa, r.scale) == decimal_quotient(n, d),
        r.valid(),
        n <= d ==> r.mantissa <= pow10(r.scale as nat),
{
    let q = Decimal::from(n) / Decimal::from(d);
    Dec { mantissa: q.mantissa(), scale: q.scale() }
}

} // verus!
