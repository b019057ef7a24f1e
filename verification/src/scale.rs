//! Zoom factors as exact ratios of positive integers.

use vstd::prelude::*;

verus! {

/// The mathematical ratio `num / den` that a `Scale` stands for.
pub struct Ratio {
    pub num: int,
    pub den: int,
}

impl Ratio {
    /// A usable zoom factor is strictly positive and finite.
    pub open spec fn positive(self) -> bool {
        self.num > 0 && self.den > 0
    }

    /// Whether numerator and denominator can be held by a `Scale`.
    pub open spec fn fits(self) -> bool {
        0 < self.num <= u32::MAX && 0 < self.den <= u32::MAX
    }

    /// The factor is greater than one: the visible rectangle shrinks.
    pub open spec fn zooms_in(self) -> bool {
        self.num > self.den
    }

    /// The factor is less than one: the visible rectangle grows.
    pub open spec fn zooms_out(self) -> bool {
        self.num < self.den
    }

    /// The reciprocal factor.
    pub open spec fn inverse(self) -> Ratio {
        Ratio { num: self.den, den: self.num }
    }

    /// `extent` divided by the factor, truncated toward zero.
    pub open spec fn quotient(self, extent: int) -> int {
        (extent * self.den) / self.num
    }

    /// `extent` divided by the factor, truncated toward zero and capped at the
    /// largest extent a view box can hold.
    pub open spec fn divide(self, extent: int) -> int {
        if self.quotient(extent) > u32::MAX {
            u32::MAX as int
        } else {
            self.quotient(extent)
        }
    }
}

/// A strictly positive zoom factor `num / den`; the factor 1.05, for one, is
/// `105 / 100`.
///
/// A factor above one zooms in, a factor below one zooms out. Zero and
/// infinite factors cannot be constructed.
#[derive(Debug, Clone, Copy, PartialEq, Eq)]
pub struct Scale {
    num: u32,
    den: u32,
}

impl View for Scale {
    type V = Ratio;

    closed spec fn view(&self) -> Ratio {
        Ratio { num: self.num as int, den: self.den as int }
    }
}

impl Scale {
    /// Both parts are positive. This holds of every `Scale`.
    #[verifier::type_invariant]
    pub open spec fn well_formed(self) -> bool {
        self@.fits()
    }

    /// The factor `num / den`, or `None` where either part is zero.
    pub fn new(num: u32, den: u32) -> (scale: Option<Scale>)
        ensures
            scale is Some <==> num > 0 && den > 0,
            scale matches Some(s) ==> s@ == (Ratio { num: num as int, den: den as int }),
    {
        if num > 0 && den > 0 {
            Some(Scale { num, den })
        } else {
            None
        }
    }

    /// The factor `num / den` for parts known to be positive.
    pub(crate) fn of(num: u32, den: u32) -> (scale: Scale)
        requires
            num > 0,
            den > 0,
        ensures
            scale@ == (Ratio { num: num as int, den: den as int }),
    {
        Scale { num, den }
    }

    /// The factor one, which leaves every extent as it is.
    pub fn identity() -> (scale: Scale)
        ensures
            scale@ == (Ratio { num: 1, den: 1 }),
    {
        Scale { num: 1, den: 1 }
    }

    /// The numerator of the factor.
    pub fn numerator(&self) -> (num: u32)
        ensures
            num == self@.num,
    {
        self.num
    }

    /// The denominator of the factor.
    pub fn denominator(&self) -> (den: u32)
        ensures
            den == self@.den,
    {
        self.den
    }

    /// The reciprocal factor, which zooms the other way by the same amount.
    pub fn inverse(&self) -> (scale: Scale)
        ensures
            scale@ == self@.inverse(),
    {
        proof {
            use_type_invariant(self);
        }
        Scale { num: self.den, den: self.num }
    }

    /// Whether the factor is greater than one.
    pub fn zooms_in(&self) -> (yes: bool)
        ensures
            yes == self@.zooms_in(),
    {
        self.num > self.den
    }

    /// Whether the factor is less than one.
    pub fn zooms_out(&self) -> (yes: bool)
        ensures
            yes == self@.zooms_out(),
    {
        self.num < self.den
    }

    /// Divides an extent by the factor, truncating toward zero; a quotient
    /// beyond `u32::MAX` is capped there.
    pub fn divide(&self, extent: u32) -> (scaled: u32)
        ensures
            scaled == self@.divide(extent as int),
    {
        proof {
            use_type_invariant(self);
            assert(0 <= extent * self.den <= 0xffff_ffff * 0xffff_ffff) by (nonlinear_arith)
                requires
                    0 <= extent <= 0xffff_ffff,
                    0 <= self.den <= 0xffff_ffff,
            ;
        }
        let product: u64 = (extent as u64) * (self.den as u64);
        let quotient: u64 = product / (self.num as u64);
        if quotient > u32::MAX as u64 {
            u32::MAX
        } else {
            quotient as u32
        }
    }
}

/// The quotient is the largest integer whose product with the factor does
/// not exceed the extent: `q * num <= extent * den < (q + 1) * num`.
pub proof fn lemma_quotient_bounds(scale: Ratio, extent: int)
    requires
        scale.positive(),
        extent >= 0,
    ensures
        scale.quotient(extent) >= 0,
        scale.quotient(extent) * scale.num <= extent * scale.den,
        extent * scale.den < (scale.quotient(extent) + 1) * scale.num,
{
    let x = extent * scale.den;
    let n = scale.num;
    assert(x >= 0) by (nonlinear_arith)
        requires
            x == extent * scale.den,
            extent >= 0,
            scale.den > 0,
    ;
    vstd::arithmetic::div_mod::lemma_fundamental_div_mod(x, n);
    vstd::arithmetic::div_mod::lemma_mod_pos_bound(x, n);
    vstd::arithmetic::div_mod::lemma_div_pos_is_pos(x, n);
    assert((x / n + 1) * n == n * (x / n) + n) by (nonlinear_arith);
}

/// Dividing by a factor above one never grows an extent, dividing by a factor
/// below one never shrinks it, and dividing by one leaves it as it is.
pub proof fn lemma_divide_direction(scale: Ratio, extent: int)
    requires
        scale.positive(),
        0 <= extent <= u32::MAX,
    ensures
        0 <= scale.divide(extent) <= u32::MAX,
        scale.num >= scale.den ==> scale.divide(extent) <= extent,
        scale.num <= scale.den ==> scale.divide(extent) >= extent,
        scale.num == scale.den ==> scale.divide(extent) == extent,
{
    lemma_quotient_bounds(scale, extent);
    let q = scale.quotient(extent);
    if scale.num >= scale.den {
        assert(q <= extent) by (nonlinear_arith)
            requires
                q * scale.num <= extent * scale.den,
                scale.num >= scale.den,
                scale.den > 0,
                extent >= 0,
                q >= 0,
        ;
    }
    if scale.num <= scale.den {
        assert(q >= extent) by (nonlinear_arith)
            requires
                extent * scale.den < (q + 1) * scale.num,
                scale.num <= scale.den,
                scale.num > 0,
                extent >= 0,
                q >= 0,
        ;
    }
}

/// Dividing an extent by a factor and then by its reciprocal never gives more
/// than the extent.
///
/// Where the first quotient was not capped, what is lost is the remainder
/// of `extent * den` by `num`, divided by `den` and rounded up. So at most
/// one unit is lost exactly where that remainder is at most `den`, which is
/// always the case for a factor of at most one, and nothing is lost exactly
/// where the remainder is zero.
pub proof fn lemma_divide_round_trip(scale: Ratio, extent: int)
    requires
        scale.positive(),
        0 <= extent <= u32::MAX,
    ensures
        scale.inverse().divide(scale.divide(extent)) <= extent,
        scale.quotient(extent) <= u32::MAX ==> ({
            let back = scale.inverse().divide(scale.divide(extent));
            let rest = (extent * scale.den) % scale.num;
            &&& (extent - back - 1) * scale.den < rest <= (extent - back) * scale.den
            &&& extent - back <= 1 <==> rest <= scale.den
            &&& extent == back <==> rest == 0
            &&& scale.num <= scale.den ==> extent - back <= 1
        }),
{
    let n = scale.num;
    let d = scale.den;
    let q = scale.quotient(extent);
    let a = scale.divide(extent);
    lemma_quotient_bounds(scale, extent);
    let b = scale.inverse().quotient(a);
    lemma_quotient_bounds(scale.inverse(), a);
    assert(b <= extent) by (nonlinear_arith)
        requires
            b * d <= a * n,
            a <= q,
            q * n <= extent * d,
            d > 0,
            n > 0,
    ;
    if q <= u32::MAX {
        let x = extent * d;
        let rest = x % n;
        assert(x >= 0) by (nonlinear_arith)
            requires
                x == extent * d,
                extent >= 0,
                d > 0,
        ;
        vstd::arithmetic::div_mod::lemma_fundamental_div_mod(x, n);
        vstd::arithmetic::div_mod::lemma_mod_pos_bound(x, n);
        assert(a * n == x - rest) by (nonlinear_arith)
            requires
                x == n * a + rest,
        ;
        assert((extent - b - 1) * d < rest <= (extent - b) * d) by (nonlinear_arith)
            requires
                b * d <= a * n,
                a * n < (b + 1) * d,
                a * n == extent * d - rest,
        ;
        let loss = extent - b;
        assert(loss <= 1 <==> rest <= d) by (nonlinear_arith)
            requires
                (loss - 1) * d < rest <= loss * d,
                loss >= 0,
                d > 0,
        ;
        assert(loss == 0 <==> rest == 0) by (nonlinear_arith)
            requires
                (loss - 1) * d < rest <= loss * d,
                loss >= 0,
                rest >= 0,
                d > 0,
        ;
    }
}

} // verus!
