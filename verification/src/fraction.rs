//! Exact fractions: the scalars in which ray parameters are measured.

use vstd::prelude::*;

verus! {

/// A quotient of two whole numbers: the mathematical value of a
/// [`Fraction`]. It is meaningful when `den` is positive.
pub struct Ratio {
    pub num: int,
    pub den: int,
}

impl Ratio {
    /// The denominator is positive.
    pub open spec fn valid(self) -> bool {
        self.den > 0
    }

    /// `self < other`, for valid ratios.
    pub open spec fn lt(self, other: Ratio) -> bool {
        self.num * other.den < other.num * self.den
    }

    /// `self <= other`, for valid ratios.
    pub open spec fn le(self, other: Ratio) -> bool {
        self.num * other.den <= other.num * self.den
    }

    /// Both ratios denote the same number.
    pub open spec fn same(self, other: Ratio) -> bool {
        self.num * other.den == other.num * self.den
    }

    /// The whole number `n` as a ratio.
    pub open spec fn whole(n: int) -> Ratio {
        Ratio { num: n, den: 1 }
    }

    /// The least whole number that is not below this ratio.
    pub open spec fn ceil(self) -> int {
        if self.num % self.den == 0 {
            self.num / self.den
        } else {
            self.num / self.den + 1
        }
    }
}

/// The order of valid ratios is transitive, also where one of the two steps
/// is strict.
pub proof fn lemma_ratio_order_transitive(a: Ratio, b: Ratio, c: Ratio)
    requires
        a.valid(),
        b.valid(),
        c.valid(),
    ensures
        a.le(b) && b.le(c) ==> a.le(c),
        a.lt(b) && b.le(c) ==> a.lt(c),
        a.le(b) && b.lt(c) ==> a.lt(c),
{
    let (an, ad, bn, bd, cn, cd) = (a.num, a.den, b.num, b.den, c.num, c.den);
    assert(an * bd <= bn * ad && bn * cd <= cn * bd ==> an * cd <= cn * ad)
        by (nonlinear_arith)
        requires
            ad > 0,
            bd > 0,
            cd > 0,
    {
        if an * bd <= bn * ad && bn * cd <= cn * bd {
            assert((an * bd) * cd <= (bn * ad) * cd);
            assert((bn * cd) * ad <= (cn * bd) * ad);
            assert((an * cd) * bd <= (cn * ad) * bd);
        }
    }
    assert(an * bd < bn * ad && bn * cd <= cn * bd ==> an * cd < cn * ad) by (nonlinear_arith)
        requires
            ad > 0,
            bd > 0,
            cd > 0,
    {
        if an * bd < bn * ad && bn * cd <= cn * bd {
            assert((an * bd) * cd < (bn * ad) * cd);
            assert((bn * cd) * ad <= (cn * bd) * ad);
            assert((an * cd) * bd < (cn * ad) * bd);
        }
    }
    assert(an * bd <= bn * ad && bn * cd < cn * bd ==> an * cd < cn * ad) by (nonlinear_arith)
        requires
            ad > 0,
            bd > 0,
            cd > 0,
    {
        if an * bd <= bn * ad && bn * cd < cn * bd {
            assert((an * bd) * cd <= (bn * ad) * cd);
            assert((bn * cd) * ad < (cn * bd) * ad);
            assert((an * cd) * bd < (cn * ad) * bd);
        }
    }
}

/// A product is bounded by the product of its factors' bounds.
pub proof fn lemma_product_bounded(a: int, b: int, bound_a: int, bound_b: int)
    by (nonlinear_arith)
    requires
        -bound_a <= a <= bound_a,
        -bound_b <= b <= bound_b,
    ensures
        -(bound_a * bound_b) <= a * b <= bound_a * bound_b,
{
}

/// The ceiling of a valid ratio is the one whole number `k` with
/// `k - 1 < ratio <= k`.
pub proof fn lemma_ceil_is_least_upper(r: Ratio, k: int)
    requires
        r.valid(),
    ensures
        (r.ceil() - 1) * r.den < r.num <= r.ceil() * r.den,
        (k - 1) * r.den < r.num <= k * r.den ==> k == r.ceil(),
{
    let q: int = r.num / r.den;
    let m: int = r.num % r.den;
    vstd::arithmetic::div_mod::lemma_fundamental_div_mod(r.num, r.den);
    assert(0 <= m < r.den);
    assert(r.num == r.den * q + m);
    assert(r.den * q == q * r.den) by (nonlinear_arith);
    assert((q + 1) * r.den == q * r.den + r.den) by (nonlinear_arith);
    assert((q - 1) * r.den == q * r.den - r.den) by (nonlinear_arith);
    let c: int = r.ceil();
    if (k - 1) * r.den < r.num <= k * r.den {
        assert(k == c) by (nonlinear_arith)
            requires
                (k - 1) * r.den < r.num <= k * r.den,
                (c - 1) * r.den < r.num <= c * r.den,
                r.den > 0,
        {
            if k < c {
                assert(k * r.den <= (c - 1) * r.den);
            }
            if c < k {
                assert(c * r.den <= (k - 1) * r.den);
            }
        }
    }
}

/// The ceiling of a valid ratio is no larger in magnitude than its
/// numerator.
pub proof fn lemma_ceil_within_numerator(r: Ratio)
    requires
        r.valid(),
    ensures
        r.num >= 0 ==> 0 <= r.ceil() <= r.num,
        r.num < 0 ==> r.num <= r.ceil() <= 0,
{
    lemma_ceil_is_least_upper(r, 0);
    let k = r.ceil();
    let (n, d) = (r.num, r.den);
    assert(n >= 0 ==> 0 <= k <= n) by (nonlinear_arith)
        requires
            d >= 1,
            (k - 1) * d < n <= k * d,
    {
        if n >= 0 {
            if k < 0 {
                assert(k * d <= -d);
            }
            if k > n {
                assert((k - 1) * d >= k - 1);
            }
        }
    }
    assert(n < 0 ==> n <= k <= 0) by (nonlinear_arith)
        requires
            d >= 1,
            (k - 1) * d < n <= k * d,
    {
        if n < 0 {
            if k > 0 {
                assert((k - 1) * d >= 0);
            }
            if k < n {
                assert(k * d <= k);
            }
        }
    }
}

/// An exact fraction with a positive denominator. Two fractions may denote
/// the same number without being reduced to the same terms.
#[derive(Clone, Copy, Debug)]
pub struct Fraction {
    num: i64,
    den: i64,
}

impl View for Fraction {
    type V = Ratio;

    closed spec fn view(&self) -> Ratio {
        Ratio { num: self.num as int, den: self.den as int }
    }
}

impl Fraction {
    /// What holds of every fraction: its denominator is positive, and both
    /// terms are 64-bit numbers.
    #[verifier::type_invariant]
    pub open spec fn wf(self) -> bool {
        &&& self@.valid()
        &&& i64::MIN <= self@.num <= i64::MAX
        &&& self@.den <= i64::MAX
    }

    /// The fraction `num / den`, where `den` is positive.
    pub fn new(num: i64, den: i64) -> (f: Option<Fraction>)
        ensures
            match f {
                Some(q) => den > 0 && q@ == (Ratio { num: num as int, den: den as int }),
                None => den <= 0,
            },
    {
        if den > 0 {
            Some(Fraction { num, den })
        } else {
            None
        }
    }

    /// The whole number `n` as a fraction.
    pub fn from_int(n: i64) -> (f: Fraction)
        ensures
            f@ == Ratio::whole(n as int),
    {
        Fraction { num: n, den: 1 }
    }

    /// The numerator.
    pub fn num(&self) -> (n: i64)
        ensures
            n == self@.num,
    {
        self.num
    }

    /// The denominator, which is positive.
    pub fn den(&self) -> (d: i64)
        ensures
            d == self@.den,
            d > 0,
    {
        proof {
            use_type_invariant(self);
        }
        self.den
    }

    /// Whether `self < other`.
    pub fn lt(&self, other: &Fraction) -> (b: bool)
        ensures
            b == self@.lt(other@),
    {
        proof {
            lemma_product_bounded(
                self.num as int,
                other.den as int,
                0x8000_0000_0000_0000,
                0x8000_0000_0000_0000,
            );
            lemma_product_bounded(
                other.num as int,
                self.den as int,
                0x8000_0000_0000_0000,
                0x8000_0000_0000_0000,
            );
        }
        (self.num as i128) * (other.den as i128) < (other.num as i128) * (self.den as i128)
    }

    /// Whether `self <= other`.
    pub fn le(&self, other: &Fraction) -> (b: bool)
        ensures
            b == self@.le(other@),
    {
        proof {
            lemma_product_bounded(
                self.num as int,
                other.den as int,
                0x8000_0000_0000_0000,
                0x8000_0000_0000_0000,
            );
            lemma_product_bounded(
                other.num as int,
                self.den as int,
                0x8000_0000_0000_0000,
                0x8000_0000_0000_0000,
            );
        }
        (self.num as i128) * (other.den as i128) <= (other.num as i128) * (self.den as i128)
    }

    /// Whether both fractions denote the same number.
    pub fn equals(&self, other: &Fraction) -> (b: bool)
        ensures
            b == self@.same(other@),
    {
        proof {
            lemma_product_bounded(
                self.num as int,
                other.den as int,
                0x8000_0000_0000_0000,
                0x8000_0000_0000_0000,
            );
            lemma_product_bounded(
                other.num as int,
                self.den as int,
                0x8000_0000_0000_0000,
                0x8000_0000_0000_0000,
            );
        }
        (self.num as i128) * (other.den as i128) == (other.num as i128) * (self.den as i128)
    }

    /// Whether the fraction is below zero.
    pub fn is_negative(&self) -> (b: bool)
        ensures
            b == (self@.num < 0),
    {
        self.num < 0
    }

    /// Whether the fraction is above zero.
    pub fn is_positive(&self) -> (b: bool)
        ensures
            b == (self@.num > 0),
    {
        self.num > 0
    }
}

/// The least whole number not below `num / den`, for a positive `den`.
pub(crate) fn ceil_quotient(num: i128, den: i128) -> (k: i128)
    requires
        den > 0,
        num > i128::MIN,
    ensures
        k == (Ratio { num: num as int, den: den as int }).ceil(),
{
    let ghost r = Ratio { num: num as int, den: den as int };
    proof {
        lemma_ceil_is_least_upper(r, 0);
    }
    if num >= 0 {
        let q: i128 = num / den;
        let m: i128 = num % den;
        if m == 0 {
            q
        } else {
            proof {
                vstd::arithmetic::div_mod::lemma_fundamental_div_mod(num as int, den as int);
                assert(q + q <= den * q) by (nonlinear_arith)
                    requires
                        den >= 2,
                        q >= 0,
                ;
            }
            q + 1
        }
    } else {
        let p: i128 = -num;
        let q: i128 = p / den;
        proof {
            let m: int = (p % den) as int;
            vstd::arithmetic::div_mod::lemma_fundamental_div_mod(p as int, den as int);
            assert(den * q == q * den) by (nonlinear_arith);
            assert((-q - 1) * den == -(q * den) - den) by (nonlinear_arith);
            assert((-q) * den == -(q * den)) by (nonlinear_arith);
            lemma_ceil_is_least_upper(r, -q);
        }
        -q
    }
}

} // verus!
