use vstd::prelude::*;

verus! {

/// Whether an integer fits in an `i64`.
pub open spec fn fits_i64(x: int) -> bool {
    i64::MIN <= x <= i64::MAX
}

/// An exact rational number `num / den`; well-formed values have a positive denominator.
#[derive(Clone, Copy, Debug, PartialEq, Eq, Structural)]
pub struct Rational {
    pub num: i64,
    pub den: i64,
}

/// The representation that `Rational::checked_add` produces for `a + b`: when one
/// denominator is a multiple of the other the larger one is kept, so that repeated
/// sums of values on a common grid do not grow their denominators.
pub open spec fn sum_repr(a: Rational, b: Rational) -> (int, int) {
    if a.den == b.den {
        (a.num + b.num, a.den as int)
    } else if a.den % b.den == 0 {
        (a.num + b.num * (a.den / b.den), a.den as int)
    } else if b.den % a.den == 0 {
        (a.num * (b.den / a.den) + b.num, b.den as int)
    } else {
        (a.num * b.den + b.num * a.den, a.den * b.den)
    }
}

impl Rational {
    pub open spec fn wf(self) -> bool {
        self.den > 0
    }

    /// `self` denotes the same number as `n / d` (for `d > 0`).
    pub open spec fn denotes(self, n: int, d: int) -> bool {
        self.num * d == n * self.den
    }

    /// `self` and `o` denote the same number.
    pub open spec fn same(self, o: Rational) -> bool {
        self.num * o.den == o.num * self.den
    }

    /// `self <= o` as numbers (both well-formed).
    pub open spec fn le_spec(self, o: Rational) -> bool {
        self.num * o.den <= o.num * self.den
    }

    /// `self` denotes `a + b`.
    pub open spec fn is_sum(self, a: Rational, b: Rational) -> bool {
        self.denotes(a.num * b.den + b.num * a.den, a.den * b.den)
    }

    pub fn new(num: i64, den: i64) -> (r: Rational)
        requires
            den > 0,
        ensures
            r.num == num,
            r.den == den,
            r.wf(),
    {
        Rational { num, den }
    }

    /// The whole number `n`.
    pub fn from_int(n: i64) -> (r: Rational)
        ensures
            r.num == n,
            r.den == 1,
            r.wf(),
    {
        Rational { num: n, den: 1 }
    }

    /// Zero, as `0 / 1`.
    pub fn zero() -> (r: Rational)
        ensures
            r.num == 0,
            r.den == 1,
            r.wf(),
    {
        Rational { num: 0, den: 1 }
    }

    /// `self + o`, or `None` when the representation `sum_repr` does not fit in `i64`.
    pub fn checked_add(self, o: Rational) -> (r: Option<Rational>)
        requires
            self.wf(),
            o.wf(),
        ensures
            r is Some <==> fits_i64(sum_repr(self, o).0) && fits_i64(sum_repr(self, o).1),
            r matches Some(x) ==> x.num == sum_repr(self, o).0 && x.den == sum_repr(self, o).1
                && x.wf() && x.is_sum(self, o),
    {
        let an = self.num as i128;
        let ad = self.den as i128;
        let bn = o.num as i128;
        let bd = o.den as i128;
        assert(an * bd <= i64::MAX * i64::MAX && an * bd >= i64::MIN * i64::MAX) by (nonlinear_arith)
            requires
                i64::MIN <= an <= i64::MAX,
                0 < bd <= i64::MAX,
        ;
        assert(bn * ad <= i64::MAX * i64::MAX && bn * ad >= i64::MIN * i64::MAX) by (nonlinear_arith)
            requires
                i64::MIN <= bn <= i64::MAX,
                0 < ad <= i64::MAX,
        ;
        assert(ad * bd <= i64::MAX * i64::MAX) by (nonlinear_arith)
            requires
                0 < ad <= i64::MAX,
                0 < bd <= i64::MAX,
        ;
        let (n, d): (i128, i128) = if ad == bd {
            assert((an + bn) * (ad * bd) == (an * bd + bn * ad) * ad) by (nonlinear_arith)
                requires
                    ad == bd,
            ;
            (an + bn, ad)
        } else if (ad as u128) % (bd as u128) == 0 {
            let k = ((ad as u128) / (bd as u128)) as i128;
            proof {
                lemma_exact_quotient(ad as int, bd as int);
            }
            assert(bn * k <= i64::MAX * i64::MAX && bn * k >= i64::MIN * i64::MAX) by (nonlinear_arith)
                requires
                    i64::MIN <= bn <= i64::MAX,
                    0 < k <= i64::MAX,
            ;
            assert((an + bn * k) * (ad * bd) == (an * bd + bn * ad) * ad) by (nonlinear_arith)
                requires
                    ad == k * bd,
            ;
            (an + bn * k, ad)
        } else if (bd as u128) % (ad as u128) == 0 {
            let k = ((bd as u128) / (ad as u128)) as i128;
            proof {
                lemma_exact_quotient(bd as int, ad as int);
            }
            assert(an * k <= i64::MAX * i64::MAX && an * k >= i64::MIN * i64::MAX) by (nonlinear_arith)
                requires
                    i64::MIN <= an <= i64::MAX,
                    0 < k <= i64::MAX,
            ;
            assert((an * k + bn) * (ad * bd) == (an * bd + bn * ad) * bd) by (nonlinear_arith)
                requires
                    bd == k * ad,
            ;
            (an * k + bn, bd)
        } else {
            assert((an * bd + bn * ad) * (ad * bd) == (an * bd + bn * ad) * (ad * bd));
            (an * bd + bn * ad, ad * bd)
        };
        if n < i64::MIN as i128 || n > i64::MAX as i128 || d > i64::MAX as i128 {
            None
        } else {
            assert(d > 0) by (nonlinear_arith)
                requires
                    ad > 0,
                    bd > 0,
                    d == ad || d == bd || d == ad * bd,
            ;
            let r = Rational { num: n as i64, den: d as i64 };
            Some(r)
        }
    }

    /// `self <= o` as numbers.
    pub fn le(&self, o: &Rational) -> (r: bool)
        ensures
            r == self.le_spec(*o),
    {
        proof {
            lemma_i64_product_fits(self.num as int, o.den as int);
            lemma_i64_product_fits(o.num as int, self.den as int);
        }
        let a = self.num as i128 * o.den as i128;
        let b = o.num as i128 * self.den as i128;
        a <= b
    }
}

/// The product of two `i64` values fits in an `i128`.
pub proof fn lemma_i64_product_fits(a: int, b: int)
    requires
        fits_i64(a),
        fits_i64(b),
    ensures
        -0x4000_0000_0000_0000_0000_0000_0000_0000 <= a * b <= 0x4000_0000_0000_0000_0000_0000_0000_0000,
{
    assert(-0x4000_0000_0000_0000_0000_0000_0000_0000 <= a * b <= 0x4000_0000_0000_0000_0000_0000_0000_0000)
        by (nonlinear_arith)
        requires
            -0x8000_0000_0000_0000 <= a <= 0x7fff_ffff_ffff_ffff,
            -0x8000_0000_0000_0000 <= b <= 0x7fff_ffff_ffff_ffff,
    ;
}

/// When `y` divides the positive `x`, the quotient is a positive multiplier with `q * y == x`.
proof fn lemma_exact_quotient(x: int, y: int)
    requires
        x > 0,
        y > 0,
        x % y == 0,
    ensures
        (x / y) * y == x,
        1 <= x / y <= x,
{
    vstd::arithmetic::div_mod::lemma_fundamental_div_mod(x, y);
    vstd::arithmetic::mul::lemma_mul_is_commutative(x / y, y);
    vstd::arithmetic::div_mod::lemma_div_is_ordered_by_denominator(x, 1, y);
    if x / y <= 0 {
        assert(y * (x / y) <= 0) by (nonlinear_arith)
            requires
                y > 0,
                x / y <= 0,
        ;
    }
}

} // verus!
