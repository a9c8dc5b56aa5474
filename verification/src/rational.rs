//! Exact rational arithmetic.
//!
//! A `Rat` is a fraction `num / den` with a strictly positive denominator.
//! Fractions are not reduced: two values are the same rational number when
//! they are cross-multiplication equivalent (`frac_eqv`).  Specifications are
//! stated over unbounded integer pairs `(int, int)`; the executable
//! operations additionally require that the products they form fit in `i128`.

use vstd::prelude::*;

verus! {

/// The mathematical value of a fraction: the pair (numerator, denominator).
pub type Frac = (int, int);

/// A well-formed fraction has a strictly positive denominator.
pub open spec fn frac_wf(a: Frac) -> bool {
    a.1 > 0
}

/// Two fractions denote the same rational number (cross multiplication).
pub open spec fn frac_eqv(a: Frac, b: Frac) -> bool {
    a.0 * b.1 == b.0 * a.1
}

/// `a <= b` as rational numbers; meaningful when both are well formed.
pub open spec fn frac_le(a: Frac, b: Frac) -> bool {
    a.0 * b.1 <= b.0 * a.1
}

pub open spec fn frac_add(a: Frac, b: Frac) -> Frac {
    (a.0 * b.1 + b.0 * a.1, a.1 * b.1)
}

pub open spec fn frac_sub(a: Frac, b: Frac) -> Frac {
    (a.0 * b.1 - b.0 * a.1, a.1 * b.1)
}

pub open spec fn frac_mul(a: Frac, b: Frac) -> Frac {
    (a.0 * b.0, a.1 * b.1)
}

/// Division keeps the denominator positive by moving the divisor's sign
/// into the numerator.
pub open spec fn frac_div(a: Frac, b: Frac) -> Frac {
    if b.0 >= 0 {
        (a.0 * b.1, a.1 * b.0)
    } else {
        (-(a.0 * b.1), -(a.1 * b.0))
    }
}

/// The least integer not below `a`, for a well-formed non-negative fraction.
pub open spec fn frac_ceil(a: Frac) -> int {
    (a.0 + a.1 - 1) / a.1
}

pub open spec fn in_i128(x: int) -> bool {
    i128::MIN <= x <= i128::MAX
}

/// The executable products formed by `Rat::add` all fit in `i128`.
pub open spec fn add_fits(a: Frac, b: Frac) -> bool {
    &&& in_i128(a.0 * b.1)
    &&& in_i128(b.0 * a.1)
    &&& in_i128(a.0 * b.1 + b.0 * a.1)
    &&& in_i128(a.1 * b.1)
}

/// The executable products formed by `Rat::sub` all fit in `i128`.
pub open spec fn sub_fits(a: Frac, b: Frac) -> bool {
    &&& in_i128(a.0 * b.1)
    &&& in_i128(b.0 * a.1)
    &&& in_i128(a.0 * b.1 - b.0 * a.1)
    &&& in_i128(a.1 * b.1)
}

/// The executable products formed by `Rat::mul` fit in `i128`.
pub open spec fn mul_fits(a: Frac, b: Frac) -> bool {
    &&& in_i128(a.0 * b.0)
    &&& in_i128(a.1 * b.1)
}

/// The executable products formed by `Rat::div` fit in `i128`.
pub open spec fn div_fits(a: Frac, b: Frac) -> bool {
    &&& in_i128(a.0 * b.1)
    &&& in_i128(a.1 * b.0)
    &&& in_i128(-(a.0 * b.1))
    &&& in_i128(-(a.1 * b.0))
}

/// The cross products compared by `Rat::eq_val` and `Rat::le` fit in `i128`.
pub open spec fn cmp_fits(a: Frac, b: Frac) -> bool {
    &&& in_i128(a.0 * b.1)
    &&& in_i128(b.0 * a.1)
}

/// An exact rational number.
#[derive(Clone, Copy, Debug, PartialEq, Eq, Structural)]
pub struct Rat {
    pub num: i128,
    pub den: i128,
}

impl View for Rat {
    type V = Frac;

    open spec fn view(&self) -> Frac {
        (self.num as int, self.den as int)
    }
}

impl Rat {
    pub open spec fn wf(self) -> bool {
        frac_wf(self@)
    }

    pub fn new(num: i128, den: i128) -> (r: Rat)
        requires
            den > 0,
        ensures
            r@ == (num as int, den as int),
            r.wf(),
    {
        Rat { num, den }
    }

    /// The rational equal to the integer `n`.
    pub fn of_int(n: i128) -> (r: Rat)
        ensures
            r@ == (n as int, 1int),
            r.wf(),
    {
        Rat { num: n, den: 1 }
    }

    pub fn add(self, other: Rat) -> (r: Rat)
        requires
            self.wf(),
            other.wf(),
            add_fits(self@, other@),
        ensures
            r@ == frac_add(self@, other@),
            r.wf(),
    {
        proof {
            lemma_pos_mul_pos(self.den as int, other.den as int);
        }
        Rat {
            num: self.num * other.den + other.num * self.den,
            den: self.den * other.den,
        }
    }

    pub fn sub(self, other: Rat) -> (r: Rat)
        requires
            self.wf(),
            other.wf(),
            sub_fits(self@, other@),
        ensures
            r@ == frac_sub(self@, other@),
            r.wf(),
    {
        proof {
            lemma_pos_mul_pos(self.den as int, other.den as int);
        }
        Rat {
            num: self.num * other.den - other.num * self.den,
            den: self.den * other.den,
        }
    }

    pub fn mul(self, other: Rat) -> (r: Rat)
        requires
            self.wf(),
            other.wf(),
            mul_fits(self@, other@),
        ensures
            r@ == frac_mul(self@, other@),
            r.wf(),
    {
        proof {
            lemma_pos_mul_pos(self.den as int, other.den as int);
        }
        Rat {
            num: self.num * other.num,
            den: self.den * other.den,
        }
    }

    pub fn div(self, other: Rat) -> (r: Rat)
        requires
            self.wf(),
            other.wf(),
            other.num != 0,
            div_fits(self@, other@),
        ensures
            r@ == frac_div(self@, other@),
            r.wf(),
    {
        if other.num >= 0 {
            proof {
                lemma_pos_mul_pos(self.den as int, other.num as int);
            }
            Rat {
                num: self.num * other.den,
                den: self.den * other.num,
            }
        } else {
            proof {
                assert((self.den as int) * (other.num as int) < 0) by (nonlinear_arith)
                    requires
                        self.den as int > 0,
                        (other.num as int) < 0,
                ;
            }
            Rat {
                num: -(self.num * other.den),
                den: -(self.den * other.num),
            }
        }
    }

    /// Whether the two values denote the same rational number.
    pub fn eq_val(self, other: Rat) -> (b: bool)
        requires
            self.wf(),
            other.wf(),
            cmp_fits(self@, other@),
        ensures
            b == frac_eqv(self@, other@),
    {
        self.num * other.den == other.num * self.den
    }

    /// Whether `self <= other` as rational numbers.
    pub fn le(self, other: Rat) -> (b: bool)
        requires
            self.wf(),
            other.wf(),
            cmp_fits(self@, other@),
        ensures
            b == frac_le(self@, other@),
    {
        self.num * other.den <= other.num * self.den
    }

    /// Rounds a non-negative rational up to the next whole number.
    pub fn ceil_to_u64(self) -> (r: u64)
        requires
            self.wf(),
            self.num >= 0,
            self@.0 + self@.1 - 1 <= u64::MAX,
        ensures
            r as int == frac_ceil(self@),
    {
        let n: u128 = self.num as u128;
        let d: u128 = self.den as u128;
        let q: u128 = (n + (d - 1)) / d;
        proof {
            vstd::arithmetic::div_mod::lemma_div_pos_is_pos(n as int + d as int - 1, d as int);
            vstd::arithmetic::div_mod::lemma_div_nonincreasing(n as int + d as int - 1, d as int);
        }
        q as u64
    }
}

/// The product of two strictly positive integers is strictly positive.
pub proof fn lemma_pos_mul_pos(a: int, b: int)
    requires
        a > 0,
        b > 0,
    ensures
        a * b > 0,
{
    assert(a * b > 0) by (nonlinear_arith)
        requires
            a > 0,
            b > 0,
    ;
}

/// Multiplying two well-formed fractions keeps the denominator positive.
pub proof fn lemma_mul_wf(a: Frac, b: Frac)
    requires
        frac_wf(a),
        frac_wf(b),
    ensures
        frac_wf(frac_add(a, b)),
        frac_wf(frac_sub(a, b)),
        frac_wf(frac_mul(a, b)),
{
    assert(a.1 * b.1 > 0) by (nonlinear_arith)
        requires
            a.1 > 0,
            b.1 > 0,
    ;
}

/// Dividing by a fraction with a non-zero numerator keeps the denominator
/// positive.
pub proof fn lemma_div_wf(a: Frac, b: Frac)
    requires
        frac_wf(a),
        frac_wf(b),
        b.0 != 0,
    ensures
        frac_wf(frac_div(a, b)),
{
    if b.0 >= 0 {
        assert(a.1 * b.0 > 0) by (nonlinear_arith)
            requires
                a.1 > 0,
                b.0 > 0,
        ;
    } else {
        assert(-(a.1 * b.0) > 0) by (nonlinear_arith)
            requires
                a.1 > 0,
                b.0 < 0,
        ;
    }
}

/// `frac_eqv` is transitive over well-formed fractions.
pub proof fn lemma_eqv_trans(a: Frac, b: Frac, c: Frac)
    requires
        frac_wf(a),
        frac_wf(b),
        frac_wf(c),
        frac_eqv(a, b),
        frac_eqv(b, c),
    ensures
        frac_eqv(a, c),
{
    assert(a.0 * c.1 == c.0 * a.1) by (nonlinear_arith)
        requires
            a.0 * b.1 == b.0 * a.1,
            b.0 * c.1 == c.0 * b.1,
            b.1 > 0,
    ;
}

/// Subtracting and then adding back the same fraction is the identity, up
/// to equivalence.
pub proof fn lemma_sub_then_add(p: Frac, v: Frac)
    requires
        frac_wf(p),
        frac_wf(v),
    ensures
        frac_eqv(frac_add(frac_sub(p, v), v), p),
{
    assert(((p.0 * v.1 - v.0 * p.1) * v.1 + v.0 * (p.1 * v.1)) * p.1 == p.0 * ((p.1 * v.1) * v.1))
        by (nonlinear_arith);
}

/// Adding and then subtracting the same fraction is the identity, up to
/// equivalence.
pub proof fn lemma_add_then_sub(p: Frac, v: Frac)
    requires
        frac_wf(p),
        frac_wf(v),
    ensures
        frac_eqv(frac_sub(frac_add(p, v), v), p),
{
    assert(((p.0 * v.1 + v.0 * p.1) * v.1 - v.0 * (p.1 * v.1)) * p.1 == p.0 * ((p.1 * v.1) * v.1))
        by (nonlinear_arith);
}

/// Dividing and then multiplying by the same non-zero fraction is the
/// identity, up to equivalence.
pub proof fn lemma_div_then_mul(a: Frac, s: Frac)
    requires
        frac_wf(a),
        frac_wf(s),
        s.0 != 0,
    ensures
        frac_eqv(frac_mul(frac_div(a, s), s), a),
{
    if s.0 >= 0 {
        assert(((a.0 * s.1) * s.0) * a.1 == a.0 * ((a.1 * s.0) * s.1)) by (nonlinear_arith);
    } else {
        assert((-(a.0 * s.1) * s.0) * a.1 == a.0 * ((-(a.1 * s.0)) * s.1)) by (nonlinear_arith);
    }
}

/// Multiplying and then dividing by the same non-zero fraction is the
/// identity, up to equivalence.
pub proof fn lemma_mul_then_div(a: Frac, s: Frac)
    requires
        frac_wf(a),
        frac_wf(s),
        s.0 != 0,
    ensures
        frac_eqv(frac_div(frac_mul(a, s), s), a),
{
    if s.0 >= 0 {
        assert(((a.0 * s.0) * s.1) * a.1 == a.0 * ((a.1 * s.1) * s.0)) by (nonlinear_arith);
    } else {
        assert((-((a.0 * s.0) * s.1)) * a.1 == a.0 * (-((a.1 * s.1) * s.0))) by (nonlinear_arith);
    }
}

/// Equivalent fractions stay equivalent after adding the same fraction.
#[verifier::rlimit(50)]
pub proof fn lemma_add_congruence(a: Frac, b: Frac, v: Frac)
    requires
        frac_wf(a),
        frac_wf(b),
        frac_wf(v),
        frac_eqv(a, b),
    ensures
        frac_eqv(frac_add(a, v), frac_add(b, v)),
{
    assert((a.0 * v.1 + v.0 * a.1) * (b.1 * v.1) == (b.0 * v.1 + v.0 * b.1) * (a.1 * v.1))
        by (nonlinear_arith)
        requires
            a.0 * b.1 == b.0 * a.1,
    ;
}

/// Equivalent fractions stay equivalent after dividing by the same
/// non-zero fraction.
#[verifier::rlimit(50)]
pub proof fn lemma_div_congruence(a: Frac, b: Frac, s: Frac)
    requires
        frac_wf(a),
        frac_wf(b),
        frac_wf(s),
        s.0 != 0,
        frac_eqv(a, b),
    ensures
        frac_eqv(frac_div(a, s), frac_div(b, s)),
{
    if s.0 >= 0 {
        assert((a.0 * s.1) * (b.1 * s.0) == (b.0 * s.1) * (a.1 * s.0)) by (nonlinear_arith)
            requires
                a.0 * b.1 == b.0 * a.1,
        ;
    } else {
        assert((-(a.0 * s.1)) * (-(b.1 * s.0)) == (-(b.0 * s.1)) * (-(a.1 * s.0)))
            by (nonlinear_arith)
            requires
                a.0 * b.1 == b.0 * a.1,
        ;
    }
}

} // verus!
