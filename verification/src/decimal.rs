//! Fixed-point rates with eighteen fractional digits, and the 128-bit
//! ratio arithmetic the ledger is built on.

use vstd::prelude::*;

verus! {

/// Number of atomic units in the value one.
pub const DECIMAL_FRACTIONAL: u128 = 1_000_000_000_000_000_000u128;

/// Two to the power 64.
pub const TWO_64: u128 = 0x1_0000_0000_0000_0000u128;

/// Two to the power 128, as a mathematical integer.
pub open spec fn two_128() -> int {
    0x1_0000_0000_0000_0000_0000_0000_0000_0000int
}

/// `amount * numerator / denominator`, rounded down, over the integers.
pub open spec fn ratio_floor(amount: int, numerator: int, denominator: int) -> int {
    (amount * numerator) / denominator
}

/// Whether `amount * numerator / denominator` is defined and fits in 128 bits.
pub open spec fn ratio_fits(amount: int, numerator: int, denominator: int) -> bool {
    denominator > 0 && ratio_floor(amount, numerator, denominator) <= u128::MAX
}

/// The product of two 64-bit numbers fits in 128 bits.
proof fn lemma_limb_product(x: u128, y: u128)
    requires
        x < TWO_64,
        y < TWO_64,
    ensures
        x * y <= 0xffff_ffff_ffff_fffe_0000_0000_0000_0001,
{
    assert(x * y <= 0xffff_ffff_ffff_ffff * 0xffff_ffff_ffff_ffff) by (nonlinear_arith)
        requires
            0 <= x <= 0xffff_ffff_ffff_ffff,
            0 <= y <= 0xffff_ffff_ffff_ffff,
    ;
}

/// The product of two numbers written in two limbs each, multiplied out.
proof fn lemma_split_product(a1: int, a0: int, b1: int, b0: int, t: int)
    ensures
        (a1 * t + a0) * (b1 * t + b0) == (a1 * b1) * (t * t) + (a0 * b1) * t + (a1 * b0) * t + a0
            * b0,
{
    let x = a1 * t;
    let y = b1 * t;
    assert((x + a0) * (y + b0) == x * y + x * b0 + a0 * y + a0 * b0) by (nonlinear_arith);
    assert(x * y == (a1 * b1) * (t * t)) by (nonlinear_arith)
        requires
            x == a1 * t,
            y == b1 * t,
    ;
    assert(x * b0 == (a1 * b0) * t) by (nonlinear_arith)
        requires
            x == a1 * t,
    ;
    assert(a0 * y == (a0 * b1) * t) by (nonlinear_arith)
        requires
            y == b1 * t,
    ;
}

/// The full 256-bit product of two 128-bit numbers, as a high and a low half.
pub fn mul_wide(a: u128, b: u128) -> (r: (u128, u128))
    ensures
        r.0 * two_128() + r.1 == a * b,
{
    let a0: u128 = a % TWO_64;
    let a1: u128 = a / TWO_64;
    let b0: u128 = b % TWO_64;
    let b1: u128 = b / TWO_64;
    proof {
        lemma_limb_product(a0, b0);
        lemma_limb_product(a0, b1);
        lemma_limb_product(a1, b0);
        lemma_limb_product(a1, b1);
        lemma_split_product(a1 as int, a0 as int, b1 as int, b0 as int, TWO_64 as int);
    }
    let p00: u128 = a0 * b0;
    let p01: u128 = a0 * b1;
    let p10: u128 = a1 * b0;
    let p11: u128 = a1 * b1;
    let mid: u128 = p01 + p00 / TWO_64;
    let mid2: u128 = p10 + mid % TWO_64;
    let lo: u128 = (mid2 % TWO_64) * TWO_64 + p00 % TWO_64;
    let hi: u128 = p11 + mid / TWO_64 + mid2 / TWO_64;
    proof {
        assert(TWO_64 * TWO_64 == two_128());
        assert(a == a1 * TWO_64 + a0);
        assert(b == b1 * TWO_64 + b0);
        assert(a * b == p11 * two_128() + p01 * TWO_64 + p10 * TWO_64 + p00);
        assert(p00 == (p00 / TWO_64) * TWO_64 + p00 % TWO_64);
        assert(mid == (mid / TWO_64) * TWO_64 + mid % TWO_64);
        assert(mid2 == (mid2 / TWO_64) * TWO_64 + mid2 % TWO_64);
        let m = two_128();
        let q1 = (mid / TWO_64) as int;
        let q2 = (mid2 / TWO_64) as int;
        assert(hi * m == p11 * m + q1 * m + q2 * m) by (nonlinear_arith)
            requires
                hi == p11 + q1 + q2,
        ;
        assert(q1 * m == (q1 * TWO_64) * TWO_64) by (nonlinear_arith)
            requires
                m == TWO_64 * TWO_64,
        ;
        assert(q2 * m == (q2 * TWO_64) * TWO_64) by (nonlinear_arith)
            requires
                m == TWO_64 * TWO_64,
        ;
    }
    (hi, lo)
}

/// A quotient fits in 128 bits exactly where the upper half of the dividend is below the
/// divisor.
proof fn lemma_quotient_bound(p: int, d: int, hi: int, lo: int)
    requires
        d > 0,
        hi >= 0,
        0 <= lo < two_128(),
        p == hi * two_128() + lo,
    ensures
        hi < d <==> p / d < two_128(),
{
    let m = two_128();
    if hi < d {
        assert(p < d * m) by (nonlinear_arith)
            requires
                hi + 1 <= d,
                p == hi * m + lo,
                lo < m,
                m > 0,
        ;
        assert(p / d < m) by (nonlinear_arith)
            requires
                p < d * m,
                d > 0,
        ;
    } else {
        assert(p >= d * m) by (nonlinear_arith)
            requires
                hi >= d,
                p == hi * m + lo,
                lo >= 0,
                m > 0,
        ;
        assert(p / d >= m) by (nonlinear_arith)
            requires
                p >= d * m,
                d > 0,
        ;
    }
}

/// Decides whether `amount * numerator / denominator` fits in 128 bits.
pub fn ratio_fits_u128(amount: u128, numerator: u128, denominator: u128) -> (b: bool)
    ensures
        b == ratio_fits(amount as int, numerator as int, denominator as int),
{
    if denominator == 0 {
        return false;
    }
    let (hi, lo) = mul_wide(amount, numerator);
    proof {
        lemma_quotient_bound(amount * numerator, denominator as int, hi as int, lo as int);
    }
    hi < denominator
}

/// Calls `cosmwasm_std::Uint128::multiply_ratio`. The outside function
/// multiplies in 256 bits, divides rounding down, and panics when the
/// denominator is zero or the quotient exceeds 128 bits; both are excluded
/// here, and the result is claimed to be that quotient.
#[verifier::external_body]
pub(crate) fn multiply_ratio(amount: u128, numerator: u128, denominator: u128) -> (r: u128)
    requires
        ratio_fits(amount as int, numerator as int, denominator as int),
    ensures
        r as int == ratio_floor(amount as int, numerator as int, denominator as int),
{
    cosmwasm_std::Uint128::new(amount).multiply_ratio(numerator, denominator).u128()
}

/// Calls `cosmwasm_std::Decimal::from_ratio` and reads the atomic units of
/// the result. The outside function scales the numerator by ten to the
/// eighteenth and divides rounding down; it panics on a zero denominator or
/// when the quotient exceeds 128 bits, which are excluded here.
#[verifier::external_body]
pub(crate) fn ratio_atomics(numerator: u128, denominator: u128) -> (r: u128)
    requires
        ratio_fits(numerator as int, DECIMAL_FRACTIONAL as int, denominator as int),
    ensures
        r as int == ratio_floor(numerator as int, DECIMAL_FRACTIONAL as int, denominator as int),
{
    cosmwasm_std::Fraction::numerator(&cosmwasm_std::Decimal::from_ratio(numerator, denominator))
}

/// `amount * numerator / denominator` rounded down, or `None` when the
/// denominator is zero or the quotient does not fit in 128 bits.
pub fn checked_multiply_ratio(amount: u128, numerator: u128, denominator: u128) -> (r: Option<u128>)
    ensures
        r is Some <==> ratio_fits(amount as int, numerator as int, denominator as int),
        r is Some ==> r->0 as int == ratio_floor(
            amount as int,
            numerator as int,
            denominator as int,
        ),
{
    if ratio_fits_u128(amount, numerator, denominator) {
        Some(multiply_ratio(amount, numerator, denominator))
    } else {
        None
    }
}

/// A non-negative fixed-point number with eighteen fractional digits.
///
/// The value is `atomics / 10^18`.
#[derive(Clone, Copy, Debug, PartialEq, Eq, Structural)]
pub struct Decimal {
    pub atomics: u128,
}

impl Decimal {
    /// The value one.
    pub fn one() -> (d: Decimal)
        ensures
            d.atomics == DECIMAL_FRACTIONAL,
    {
        Decimal { atomics: DECIMAL_FRACTIONAL }
    }

    /// The value zero.
    pub fn zero() -> (d: Decimal)
        ensures
            d.atomics == 0,
    {
        Decimal { atomics: 0 }
    }

    /// `x` hundredths.
    pub fn percent(x: u64) -> (d: Decimal)
        ensures
            d.atomics == x * 10_000_000_000_000_000,
    {
        let wide: u128 = x as u128;
        Decimal { atomics: wide * 10_000_000_000_000_000u128 }
    }

    /// Whether this is the value zero.
    pub fn is_zero(&self) -> (b: bool)
        ensures
            b == (self.atomics == 0),
    {
        self.atomics == 0
    }

    /// Whether this value is strictly below `other`.
    pub fn is_below(&self, other: &Decimal) -> (b: bool)
        ensures
            b == (self.atomics < other.atomics),
    {
        self.atomics < other.atomics
    }

    /// The ratio `numerator / denominator`, rounded down to the last
    /// fractional digit.
    pub fn from_ratio(numerator: u128, denominator: u128) -> (d: Decimal)
        requires
            ratio_fits(numerator as int, DECIMAL_FRACTIONAL as int, denominator as int),
        ensures
            d.atomics as int == ratio_floor(
                numerator as int,
                DECIMAL_FRACTIONAL as int,
                denominator as int,
            ),
    {
        Decimal { atomics: ratio_atomics(numerator, denominator) }
    }

    /// The ratio `numerator / denominator`, or `None` when the denominator is
    /// zero or the ratio is too large to represent.
    pub fn checked_from_ratio(numerator: u128, denominator: u128) -> (r: Option<Decimal>)
        ensures
            r is Some <==> ratio_fits(
                numerator as int,
                DECIMAL_FRACTIONAL as int,
                denominator as int,
            ),
            r is Some ==> r->0.atomics as int == ratio_floor(
                numerator as int,
                DECIMAL_FRACTIONAL as int,
                denominator as int,
            ),
    {
        if ratio_fits_u128(numerator, DECIMAL_FRACTIONAL, denominator) {
            Some(Decimal::from_ratio(numerator, denominator))
        } else {
            None
        }
    }

    /// `amount` multiplied by this value, rounded down; `None` when the
    /// product does not fit in 128 bits.
    pub fn checked_mul_floor(&self, amount: u128) -> (r: Option<u128>)
        ensures
            r is Some <==> scaled(amount as int, self.atomics as int) <= u128::MAX,
            r is Some ==> r->0 as int == scaled(amount as int, self.atomics as int),
    {
        checked_multiply_ratio(amount, self.atomics, DECIMAL_FRACTIONAL)
    }
}

/// `amount` multiplied by the rate with `atomics` atomic units, rounded down.
pub open spec fn scaled(amount: int, atomics: int) -> int {
    ratio_floor(amount, atomics, DECIMAL_FRACTIONAL as int)
}

} // verus!
