//! Exact rational scalars for the camera model.
//!
//! Every scalar the view model computes with (focus, zoom, camera extents,
//! axis ranges, color tunables) is a rational number held as a numerator and
//! a positive denominator.  Arithmetic is exact; after each state transition
//! the result is reduced by the greatest common divisor, and a transition
//! whose reduced result would leave the representable range is skipped by the
//! caller rather than rounded.

use vstd::prelude::*;

verus! {

/// A mathematical rational, used only in specifications: `num / den`.
pub ghost struct Q {
    pub num: int,
    pub den: int,
}

/// A well-formed rational has a positive denominator.
pub open spec fn q_wf(a: Q) -> bool {
    a.den > 0
}

/// Value equality of two rationals, by cross multiplication.
pub open spec fn q_eq(a: Q, b: Q) -> bool {
    a.num * b.den == b.num * a.den
}

/// The rational is strictly positive (assuming a positive denominator).
pub open spec fn q_pos(a: Q) -> bool {
    a.num > 0
}

pub open spec fn q_from_int(n: int) -> Q {
    Q { num: n, den: 1 }
}

pub open spec fn q_add(a: Q, b: Q) -> Q {
    Q { num: a.num * b.den + b.num * a.den, den: a.den * b.den }
}

pub open spec fn q_sub(a: Q, b: Q) -> Q {
    Q { num: a.num * b.den - b.num * a.den, den: a.den * b.den }
}

pub open spec fn q_mul(a: Q, b: Q) -> Q {
    Q { num: a.num * b.num, den: a.den * b.den }
}

/// Division; the divisor's sign is folded into the numerator so that the
/// resulting denominator stays positive.
pub open spec fn q_div(a: Q, b: Q) -> Q {
    if b.num >= 0 {
        Q { num: a.num * b.den, den: a.den * b.num }
    } else {
        Q { num: -(a.num * b.den), den: -(a.den * b.num) }
    }
}

/// Bound on the fields of a committed state scalar.  Exact intermediate
/// results may use the full width of `i128`; a result is stored back into the
/// state only once its reduced numerator and denominator fit this bound, so
/// that products of three stored scalars can never overflow `i128`.
pub const RAT_LIMIT: i128 = 0x100_0000_0000;

/// The rational is small enough to be stored in the view state.
pub open spec fn q_small(a: Q) -> bool {
    &&& -(RAT_LIMIT as int) <= a.num <= RAT_LIMIT as int
    &&& 0 < a.den <= RAT_LIMIT as int
}

/// The value fits the symmetric part of the `i128` range, so that it and its
/// negation are both representable.
pub open spec fn in_i128(x: int) -> bool {
    -(i128::MAX as int) <= x <= i128::MAX as int
}

/// An executable rational scalar: `num / den` with `den > 0`.
#[derive(Clone, Copy, Debug, PartialEq, Eq, Structural)]
pub struct Rat {
    pub num: i128,
    pub den: i128,
}

impl View for Rat {
    type V = Q;

    open spec fn view(&self) -> Q {
        Q { num: self.num as int, den: self.den as int }
    }
}

impl Rat {
    /// Build a rational from a numerator and a positive denominator.
    pub fn new(num: i128, den: i128) -> (r: Rat)
        requires
            den > 0,
        ensures
            r@ == (Q { num: num as int, den: den as int }),
    {
        Rat { num, den }
    }

    /// The rational equal to the given integer.
    pub fn from_int(n: i128) -> (r: Rat)
        ensures
            r@ == q_from_int(n as int),
    {
        Rat { num: n, den: 1 }
    }

    /// True exactly when the scalar is small enough for the view state.
    pub fn is_small(&self) -> (b: bool)
        ensures
            b == q_small(self@),
    {
        -RAT_LIMIT <= self.num && self.num <= RAT_LIMIT && 0 < self.den && self.den <= RAT_LIMIT
    }

    /// Exact sum.
    pub fn plus(&self, other: &Rat) -> (r: Rat)
        requires
            q_wf(self@),
            q_wf(other@),
            in_i128(self@.num * other@.den),
            in_i128(other@.num * self@.den),
            in_i128(q_add(self@, other@).num),
            in_i128(q_add(self@, other@).den),
        ensures
            r@ == q_add(self@, other@),
            q_wf(r@),
    {
        proof {
            lemma_mul_pos(self.den as int, other.den as int);
        }
        Rat { num: self.num * other.den + other.num * self.den, den: self.den * other.den }
    }

    /// Exact difference.
    pub fn minus(&self, other: &Rat) -> (r: Rat)
        requires
            q_wf(self@),
            q_wf(other@),
            in_i128(self@.num * other@.den),
            in_i128(other@.num * self@.den),
            in_i128(q_sub(self@, other@).num),
            in_i128(q_sub(self@, other@).den),
        ensures
            r@ == q_sub(self@, other@),
            q_wf(r@),
    {
        proof {
            lemma_mul_pos(self.den as int, other.den as int);
        }
        Rat { num: self.num * other.den - other.num * self.den, den: self.den * other.den }
    }

    /// Exact product.
    pub fn times(&self, other: &Rat) -> (r: Rat)
        requires
            q_wf(self@),
            q_wf(other@),
            in_i128(q_mul(self@, other@).num),
            in_i128(q_mul(self@, other@).den),
        ensures
            r@ == q_mul(self@, other@),
            q_wf(r@),
    {
        proof {
            lemma_mul_pos(self.den as int, other.den as int);
        }
        Rat { num: self.num * other.num, den: self.den * other.den }
    }

    /// Exact quotient; the divisor must be nonzero.
    pub fn divided_by(&self, other: &Rat) -> (r: Rat)
        requires
            q_wf(self@),
            q_wf(other@),
            other@.num != 0,
            in_i128(self@.num * other@.den),
            in_i128(self@.den * other@.num),
        ensures
            r@ == q_div(self@, other@),
            q_wf(r@),
    {
        if other.num >= 0 {
            proof {
                lemma_mul_pos(self.den as int, other.num as int);
            }
            Rat { num: self.num * other.den, den: self.den * other.num }
        } else {
            proof {
                lemma_mul_neg(self.den as int, other.num as int);
            }
            Rat { num: -(self.num * other.den), den: -(self.den * other.num) }
        }
    }
}

/// Greatest common divisor of two naturals, by Euclid's algorithm.
pub open spec fn gcd(a: nat, b: nat) -> nat
    decreases b,
{
    if b == 0 {
        a
    } else {
        gcd(b, a % b)
    }
}

pub open spec fn q_abs(n: int) -> int {
    if n >= 0 {
        n
    } else {
        -n
    }
}

/// The reduced form of a well-formed rational: both components divided by
/// their greatest common divisor.
pub open spec fn q_reduce(a: Q) -> Q {
    let g = gcd(q_abs(a.num) as nat, a.den as nat) as int;
    Q { num: a.num / g, den: a.den / g }
}

/// The greatest common divisor is positive and divides both arguments.
pub proof fn lemma_gcd_divides(a: nat, b: nat)
    requires
        a > 0 || b > 0,
    ensures
        gcd(a, b) > 0,
        a % gcd(a, b) == 0,
        b % gcd(a, b) == 0,
    decreases b,
{
    let g = gcd(a, b);
    if b == 0 {
        assert(g == a);
        vstd::arithmetic::div_mod::lemma_mod_self_0(a as int);
        vstd::arithmetic::div_mod::lemma_small_mod(0nat, a);
    } else {
        vstd::arithmetic::div_mod::lemma_mod_division_less_than_divisor(a as int, b as int);
        lemma_gcd_divides(b, a % b);
        assert(g == gcd(b, a % b));
        vstd::arithmetic::div_mod::lemma_fundamental_div_mod(a as int, b as int);
        vstd::arithmetic::div_mod::lemma_fundamental_div_mod(b as int, g as int);
        let k = (b as int / g as int) * (a as int / b as int);
        assert(a as int == (g as int) * k + (a % b) as int) by (nonlinear_arith)
            requires
                a as int == b as int * (a as int / b as int) + (a % b) as int,
                b as int == g as int * (b as int / g as int) + (b % g) as int,
                (b % g) as int == 0,
                k == (b as int / g as int) * (a as int / b as int),
        ;
        vstd::arithmetic::div_mod::lemma_mod_multiples_vanish(k, (a % b) as int, g as int);
    }
}

/// Euclid's algorithm on machine integers.
fn gcd_exec(a: i128, b: i128) -> (g: i128)
    requires
        0 <= a,
        0 <= b,
        a > 0 || b > 0,
    ensures
        g as nat == gcd(a as nat, b as nat),
        g > 0,
{
    let mut x = a;
    let mut y = b;
    while y != 0
        invariant
            0 <= x,
            0 <= y,
            x > 0 || y > 0,
            gcd(x as nat, y as nat) == gcd(a as nat, b as nat),
        decreases y,
    {
        proof {
            vstd::arithmetic::div_mod::lemma_mod_division_less_than_divisor(x as int, y as int);
        }
        let t = x % y;
        x = y;
        y = t;
    }
    proof {
        lemma_gcd_divides(a as nat, b as nat);
    }
    x
}

impl Rat {
    /// The same rational value with numerator and denominator divided by
    /// their greatest common divisor.
    pub fn reduced(&self) -> (r: Rat)
        requires
            q_wf(self@),
            self@.num > i128::MIN as int,
        ensures
            r@ == q_reduce(self@),
            q_wf(r@),
            q_eq(r@, self@),
            q_abs(r@.num) <= q_abs(self@.num),
            0 < r@.den <= self@.den,
            q_pos(r@) <==> q_pos(self@),
    {
        let neg = self.num < 0;
        let m = if neg {
            -self.num
        } else {
            self.num
        };
        let g = gcd_exec(m, self.den);
        proof {
            lemma_gcd_divides(m as nat, self.den as nat);
        }
        let num2 = m / g;
        let den2 = self.den / g;
        proof {
            vstd::arithmetic::div_mod::lemma_fundamental_div_mod(m as int, g as int);
            vstd::arithmetic::div_mod::lemma_fundamental_div_mod(self.den as int, g as int);
            lemma_exact_quotient_facts(m as int, g as int, num2 as int);
            lemma_exact_quotient_facts(self.den as int, g as int, den2 as int);
            lemma_reduce_cross(
                m as int,
                self.den as int,
                g as int,
                num2 as int,
                den2 as int,
            );
            if neg {
                assert(self.num as int == (-(num2 as int)) * (g as int) + 0) by (nonlinear_arith)
                    requires
                        self.num as int == -(m as int),
                        m as int == (g as int) * (num2 as int),
                ;
                vstd::arithmetic::div_mod::lemma_fundamental_div_mod_converse_div(
                    self.num as int,
                    g as int,
                    -(num2 as int),
                    0,
                );
                assert((-(num2 as int)) * (self.den as int) == (self.num as int) * (den2 as int))
                    by (nonlinear_arith)
                    requires
                        (num2 as int) * (self.den as int) == (m as int) * (den2 as int),
                        self.num as int == -(m as int),
                ;
            }
        }
        Rat { num: if neg { -num2 } else { num2 }, den: den2 }
    }
}

/// For an exact division `x == g * q`, the quotient keeps sign and size.
proof fn lemma_exact_quotient_facts(x: int, g: int, q: int)
    requires
        x >= 0,
        g > 0,
        x == g * q + x % g,
        x % g == 0,
    ensures
        x == g * q,
        0 <= q <= x,
        x > 0 ==> q > 0,
{
    assert(0 <= q <= x && (x > 0 ==> q > 0)) by (nonlinear_arith)
        requires
            x >= 0,
            g > 0,
            x == g * q,
    ;
}

/// Cross-multiplied equality of a rational and its reduced form.
proof fn lemma_reduce_cross(m: int, den: int, g: int, num2: int, den2: int)
    requires
        m == g * num2,
        den == g * den2,
    ensures
        num2 * den == m * den2,
{
    assert(num2 * den == m * den2) by (nonlinear_arith)
        requires
            m == g * num2,
            den == g * den2,
    ;
}

/// Reduction keeps the value, the sign, and the well-formedness of a
/// rational, and never grows its components.
pub proof fn lemma_q_reduce(a: Q)
    requires
        q_wf(a),
    ensures
        q_wf(q_reduce(a)),
        q_eq(q_reduce(a), a),
        q_abs(q_reduce(a).num) <= q_abs(a.num),
        0 < q_reduce(a).den <= a.den,
        q_pos(q_reduce(a)) <==> q_pos(a),
{
    let m = q_abs(a.num);
    let g = gcd(m as nat, a.den as nat) as int;
    lemma_gcd_divides(m as nat, a.den as nat);
    vstd::arithmetic::div_mod::lemma_fundamental_div_mod(m, g);
    vstd::arithmetic::div_mod::lemma_fundamental_div_mod(a.den, g);
    let num2 = m / g;
    let den2 = a.den / g;
    lemma_exact_quotient_facts(m, g, num2);
    lemma_exact_quotient_facts(a.den, g, den2);
    lemma_reduce_cross(m, a.den, g, num2, den2);
    if a.num < 0 {
        assert(a.num == (-num2) * g + 0) by (nonlinear_arith)
            requires
                a.num == -m,
                m == g * num2,
        ;
        vstd::arithmetic::div_mod::lemma_fundamental_div_mod_converse_div(a.num, g, -num2, 0);
        assert((-num2) * a.den == a.num * den2) by (nonlinear_arith)
            requires
                num2 * a.den == m * den2,
                a.num == -m,
        ;
    }
}

/// Value equality of well-formed rationals is transitive.
pub proof fn lemma_q_eq_trans(a: Q, b: Q, c: Q)
    requires
        q_wf(a),
        q_wf(b),
        q_wf(c),
        q_eq(a, b),
        q_eq(b, c),
    ensures
        q_eq(a, c),
{
    assert(a.num * c.den == c.num * a.den) by (nonlinear_arith)
        requires
            a.num * b.den == b.num * a.den,
            b.num * c.den == c.num * b.den,
            a.den > 0,
            b.den > 0,
            c.den > 0,
    ;
}

/// Multiplying and then dividing by the same nonzero rational is the
/// identity, up to value equality.
pub proof fn lemma_q_mul_div_inverse(a: Q, f: Q)
    requires
        q_wf(a),
        q_wf(f),
        f.num != 0,
    ensures
        q_eq(q_div(q_mul(a, f), f), a),
{
    assert(q_eq(q_div(q_mul(a, f), f), a)) by (nonlinear_arith)
        requires
            a.den > 0,
            f.den > 0,
            f.num != 0,
            q_div(q_mul(a, f), f) == (if f.num >= 0 {
                Q { num: (a.num * f.num) * f.den, den: (a.den * f.den) * f.num }
            } else {
                Q { num: -((a.num * f.num) * f.den), den: -((a.den * f.den) * f.num) }
            }),
    ;
}

/// Adding and then subtracting the same rational is the identity, up to
/// value equality.
pub proof fn lemma_q_add_sub_inverse(a: Q, d: Q)
    requires
        q_wf(a),
        q_wf(d),
    ensures
        q_eq(q_sub(q_add(a, d), a), d),
{
    assert(q_eq(q_sub(q_add(a, d), a), d)) by (nonlinear_arith)
        requires
            a.den > 0,
            d.den > 0,
            q_sub(q_add(a, d), a) == (Q {
                num: (a.num * d.den + d.num * a.den) * a.den - a.num * (a.den * d.den),
                den: (a.den * d.den) * a.den,
            }),
    ;
}

/// Division respects value equality in its left argument.
pub proof fn lemma_q_div_congruence(a: Q, b: Q, c: Q)
    requires
        q_wf(a),
        q_wf(b),
        q_wf(c),
        c.num != 0,
        q_eq(a, b),
    ensures
        q_eq(q_div(a, c), q_div(b, c)),
{
    if c.num >= 0 {
        assert((a.num * c.den) * (b.den * c.num) == (b.num * c.den) * (a.den * c.num))
            by (nonlinear_arith)
            requires
                a.num * b.den == b.num * a.den,
        ;
    } else {
        assert((-(a.num * c.den)) * (-(b.den * c.num)) == (-(b.num * c.den)) * (-(a.den
            * c.num))) by (nonlinear_arith)
            requires
                a.num * b.den == b.num * a.den,
        ;
    }
}

/// Subtraction respects value equality in its left argument.
pub proof fn lemma_q_sub_congruence(a: Q, b: Q, c: Q)
    requires
        q_wf(a),
        q_wf(b),
        q_wf(c),
        q_eq(a, b),
    ensures
        q_eq(q_sub(a, c), q_sub(b, c)),
{
    assert((a.num * c.den - c.num * a.den) * (b.den * c.den) == (b.num * c.den - c.num
        * b.den) * (a.den * c.den)) by (nonlinear_arith)
        requires
            a.num * b.den == b.num * a.den,
    ;
}

/// A product of values bounded in magnitude by `a` and `b` is bounded by `a * b`.
pub proof fn lemma_mul_bound(x: int, y: int, a: int, b: int)
    requires
        -a <= x <= a,
        -b <= y <= b,
        0 <= a,
        0 <= b,
    ensures
        -(a * b) <= x * y <= a * b,
{
    assert(-(a * b) <= x * y <= a * b) by (nonlinear_arith)
        requires
            -a <= x <= a,
            -b <= y <= b,
            0 <= a,
            0 <= b,
    ;
}

/// A product of two positive values is positive.
pub proof fn lemma_mul_pos(x: int, y: int)
    requires
        x > 0,
        y > 0,
    ensures
        x * y > 0,
{
    assert(x * y > 0) by (nonlinear_arith)
        requires
            x > 0,
            y > 0,
    ;
}

/// A product of a positive and a negative value is negative.
pub proof fn lemma_mul_neg(x: int, y: int)
    requires
        x > 0,
        y < 0,
    ensures
        x * y < 0,
{
    assert(x * y < 0) by (nonlinear_arith)
        requires
            x > 0,
            y < 0,
    ;
}

} // verus!
