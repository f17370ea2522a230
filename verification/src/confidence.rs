//! Confidence scores as exact fractions.

use vstd::prelude::*;

verus! {

/// A non-negative fraction, as a mathematical value. Two fractions may stand
/// for the same number: `same` says whether they do.
pub ghost struct Ratio {
    pub num: int,
    pub den: int,
}

impl Ratio {
    /// The fraction `num / den`.
    pub open spec fn of(num: int, den: int) -> Ratio {
        Ratio { num, den }
    }

    /// A fraction has a positive denominator and a numerator that is not
    /// negative.
    pub open spec fn valid(self) -> bool {
        self.den > 0 && self.num >= 0
    }

    /// Whether the two fractions are the same number.
    pub open spec fn same(self, other: Ratio) -> bool {
        self.num * other.den == other.num * self.den
    }

    /// Whether this fraction is at least `other`.
    pub open spec fn at_least(self, other: Ratio) -> bool {
        self.num * other.den >= other.num * self.den
    }

    /// Whether this fraction is more than `other`.
    pub open spec fn more_than(self, other: Ratio) -> bool {
        self.num * other.den > other.num * self.den
    }

    /// The sum of the two fractions.
    pub open spec fn plus(self, other: Ratio) -> Ratio {
        Ratio { num: self.num * other.den + other.num * self.den, den: self.den * other.den }
    }

    /// The product of the two fractions.
    pub open spec fn times(self, other: Ratio) -> Ratio {
        Ratio { num: self.num * other.num, den: self.den * other.den }
    }

    /// The smaller of the two fractions; this one where they are the same
    /// number.
    pub open spec fn min(self, other: Ratio) -> Ratio {
        if other.at_least(self) {
            self
        } else {
            other
        }
    }
}

/// What comparing and combining two fractions comes to on their numerators
/// and denominators.
pub proof fn lemma_ratio_values(a: Ratio, b: Ratio, an: int, ad: int, bn: int, bd: int)
    requires
        a == Ratio::of(an, ad),
        b == Ratio::of(bn, bd),
    ensures
        a.more_than(b) == (an * bd > bn * ad),
        a.at_least(b) == (an * bd >= bn * ad),
        a.same(b) == (an * bd == bn * ad),
        a.times(b) == Ratio::of(an * bn, ad * bd),
        a.plus(b) == Ratio::of(an * bd + bn * ad, ad * bd),
{
}

/// Two fractions over different denominators compare as their numerators over
/// a common denominator do.
pub proof fn lemma_common_scale(a: Ratio, b: Ratio, x: int, y: int, scale: int)
    requires
        a.den > 0,
        b.den > 0,
        scale > 0,
        Ratio::of(x, scale).same(a),
        Ratio::of(y, scale).same(b),
    ensures
        (x >= y) == a.at_least(b),
        (x == y) == a.same(b),
{
    assert((x >= y) == (a.num * b.den >= b.num * a.den) && (x == y) == (a.num * b.den == b.num
        * a.den)) by (nonlinear_arith)
        requires
            a.den > 0,
            b.den > 0,
            scale > 0,
            x * a.den == a.num * scale,
            y * b.den == b.num * scale,
    {
        assert((x * a.den) * b.den == (a.num * b.den) * scale);
        assert((y * b.den) * a.den == (b.num * a.den) * scale);
        assert((x * a.den) * b.den == x * (a.den * b.den));
        assert((y * b.den) * a.den == y * (a.den * b.den));
        let p = a.den * b.den;
        assert(p > 0);
        assert((x >= y) == (x * p >= y * p));
        assert((x == y) == (x * p == y * p));
        let u = a.num * b.den;
        let v = b.num * a.den;
        assert((u >= v) == (u * scale >= v * scale));
        assert((u == v) == (u * scale == v * scale));
    }
}

/// Fractions that are the same numbers compare alike.
pub proof fn lemma_at_least_respects_same(a: Ratio, a2: Ratio, b: Ratio, b2: Ratio)
    requires
        a.den > 0,
        a2.den > 0,
        b.den > 0,
        b2.den > 0,
        a.same(a2),
        b.same(b2),
    ensures
        a.at_least(b) == a2.at_least(b2),
        a.same(b) == a2.same(b2),
{
    let scale = (a.den * a2.den) * (b.den * b2.den);
    let x = (a.num * a2.den) * (b.den * b2.den);
    let y = (b.num * b2.den) * (a.den * a2.den);
    assert(scale > 0) by (nonlinear_arith)
        requires
            scale == (a.den * a2.den) * (b.den * b2.den),
            a.den > 0,
            a2.den > 0,
            b.den > 0,
            b2.den > 0,
    ;
    assert(x * a.den == a.num * scale) by (nonlinear_arith)
        requires
            scale == (a.den * a2.den) * (b.den * b2.den),
            x == (a.num * a2.den) * (b.den * b2.den),
    ;
    assert(x * a2.den == a2.num * scale) by (nonlinear_arith)
        requires
            scale == (a.den * a2.den) * (b.den * b2.den),
            x == (a.num * a2.den) * (b.den * b2.den),
            a.num * a2.den == a2.num * a.den,
    ;
    assert(y * b.den == b.num * scale) by (nonlinear_arith)
        requires
            scale == (a.den * a2.den) * (b.den * b2.den),
            y == (b.num * b2.den) * (a.den * a2.den),
    ;
    assert(y * b2.den == b2.num * scale) by (nonlinear_arith)
        requires
            scale == (a.den * a2.den) * (b.den * b2.den),
            y == (b.num * b2.den) * (a.den * a2.den),
            b.num * b2.den == b2.num * b.den,
    ;
    lemma_common_scale(a, b, x, y, scale);
    lemma_common_scale(a2, b2, x, y, scale);
}

/// Being the same number carries over from one fraction to the next.
pub proof fn lemma_same_transitive(a: Ratio, b: Ratio, c: Ratio)
    requires
        a.den > 0,
        b.den > 0,
        c.den > 0,
        a.same(b),
        b.same(c),
    ensures
        a.same(c),
{
    assert(a.num * c.den == c.num * a.den) by (nonlinear_arith)
        requires
            a.den > 0,
            b.den > 0,
            c.den > 0,
            a.num * b.den == b.num * a.den,
            b.num * c.den == c.num * b.den,
    {
        assert((a.num * c.den) * b.den == (a.num * b.den) * c.den);
        assert((b.num * a.den) * c.den == (b.num * c.den) * a.den);
        assert((c.num * b.den) * a.den == (c.num * a.den) * b.den);
        assert((a.num * c.den) * b.den == (c.num * a.den) * b.den);
    }
}

/// The largest denominator that a confidence is stored with.
pub const MAX_DENOMINATOR: u128 = 0x1_0000_0000_0000_0000_0000_0000;

/// How likely a candidate encoding explains a sample: an exact fraction. It is
/// a heuristic score, not a probability.
#[derive(Debug, Clone, Copy)]
pub struct Confidence {
    num: u128,
    den: u128,
}

impl View for Confidence {
    type V = Ratio;

    closed spec fn view(&self) -> Ratio {
        Ratio { num: self.num as int, den: self.den as int }
    }
}

impl Confidence {
    /// The denominator is positive and bounded, and the fraction is at most
    /// two.
    #[verifier::type_invariant]
    spec fn well_formed(self) -> bool {
        &&& 0 < self.den <= MAX_DENOMINATOR
        &&& self.num <= 2 * self.den
    }

    /// The fraction `num / den`.
    pub fn new(num: u128, den: u128) -> (c: Confidence)
        requires
            0 < den <= MAX_DENOMINATOR,
            num <= 2 * den,
        ensures
            c@ == Ratio::of(num as int, den as int),
    {
        Confidence { num, den }
    }

    /// The numerator of the fraction as it is stored.
    pub fn numerator(&self) -> (n: u128)
        ensures
            n == self@.num,
            self@.valid(),
            self@.den <= MAX_DENOMINATOR,
            self@.num <= 2 * self@.den,
    {
        proof {
            use_type_invariant(self);
        }
        self.num
    }

    /// The denominator of the fraction as it is stored. It is never zero.
    pub fn denominator(&self) -> (d: u128)
        ensures
            d == self@.den,
            d > 0,
            self@.valid(),
            self@.den <= MAX_DENOMINATOR,
            self@.num <= 2 * self@.den,
    {
        proof {
            use_type_invariant(self);
        }
        self.den
    }

    /// The same number over the denominator `scale`, which must be a multiple
    /// of the denominator that the confidence is stored with.
    pub fn rescaled(&self, scale: u128) -> (c: Confidence)
        requires
            0 < scale <= MAX_DENOMINATOR,
            scale as int % self@.den == 0,
        ensures
            c@.den == scale,
            c@.same(self@),
            c@.num >= 0,
    {
        proof {
            use_type_invariant(self);
        }
        let factor: u128 = scale / self.den;
        proof {
            vstd::arithmetic::div_mod::lemma_fundamental_div_mod(scale as int, self.den as int);
            assert(self.num * factor <= 2 * scale && (self.num * factor) * self.den == self.num
                * scale) by (nonlinear_arith)
                requires
                    scale == self.den * factor,
                    self.num <= 2 * self.den,
                    factor >= 0,
            ;
        }
        Confidence { num: self.num * factor, den: scale }
    }

    /// The confidence times `num / den`, or one where that is more than one.
    pub fn boosted_by(&self, num: u8, den: u8) -> (c: Confidence)
        requires
            0 < den <= num,
            self@.den * den <= MAX_DENOMINATOR,
        ensures
            c@.same(self@.times(Ratio::of(num as int, den as int)).min(Ratio::of(1, 1))),
            c@.den > 0,
            c@.num >= 0,
    {
        proof {
            use_type_invariant(self);
            lemma_ratio_values(
                self@,
                Ratio::of(num as int, den as int),
                self.num as int,
                self.den as int,
                num as int,
                den as int,
            );
            assert(self.num * num <= 2 * MAX_DENOMINATOR * 0x100) by (nonlinear_arith)
                requires
                    self.num <= 2 * MAX_DENOMINATOR,
                    num < 0x100,
            ;
            assert(self.den * den > 0) by (nonlinear_arith)
                requires
                    self.den > 0,
                    den > 0,
            ;
        }
        let raised: u128 = self.num * (num as u128);
        let scale: u128 = self.den * (den as u128);
        proof {
            let product = Ratio::of(raised as int, scale as int);
            lemma_ratio_values(Ratio::of(1, 1), product, 1, 1, raised as int, scale as int);
            lemma_ratio_values(
                Ratio::of(scale as int, scale as int),
                Ratio::of(1, 1),
                scale as int,
                scale as int,
                1,
                1,
            );
        }
        if raised > scale {
            Confidence { num: scale, den: scale }
        } else {
            Confidence { num: raised, den: scale }
        }
    }

    /// Whether the confidence is at least `num / den`.
    pub fn is_at_least(&self, num: u16, den: u16) -> (r: bool)
        requires
            den > 0,
        ensures
            r == self@.at_least(Ratio::of(num as int, den as int)),
    {
        proof {
            use_type_invariant(self);
            assert(self.num * den <= 2 * MAX_DENOMINATOR * 0x10000) by (nonlinear_arith)
                requires
                    self.num <= 2 * MAX_DENOMINATOR,
                    den < 0x10000,
            ;
            assert(num * self.den <= MAX_DENOMINATOR * 0x10000) by (nonlinear_arith)
                requires
                    self.den <= MAX_DENOMINATOR,
                    num < 0x10000,
            ;
        }
        self.num * (den as u128) >= (num as u128) * self.den
    }

    /// Whether the confidence is exactly `num / den`.
    pub fn is_exactly(&self, num: u16, den: u16) -> (r: bool)
        requires
            den > 0,
        ensures
            r == self@.same(Ratio::of(num as int, den as int)),
    {
        proof {
            use_type_invariant(self);
            assert(self.num * den <= 2 * MAX_DENOMINATOR * 0x10000) by (nonlinear_arith)
                requires
                    self.num <= 2 * MAX_DENOMINATOR,
                    den < 0x10000,
            ;
            assert(num * self.den <= MAX_DENOMINATOR * 0x10000) by (nonlinear_arith)
                requires
                    self.den <= MAX_DENOMINATOR,
                    num < 0x10000,
            ;
        }
        self.num * (den as u128) == (num as u128) * self.den
    }
}

} // verus!
