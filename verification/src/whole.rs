use crate::scalar::{
    add_associates, add_commutes, less_is_an_order, mul_associates, mul_commutes,
    mul_distributes, neg_cancels, one_is_neutral, zero_annihilates, zero_is_neutral, Angle,
    Scalar,
};
use vstd::arithmetic::div_mod::{
    lemma_add_mod_noop, lemma_fundamental_div_mod, lemma_mod_multiples_vanish, lemma_mul_mod_noop,
    lemma_small_mod,
};
use vstd::arithmetic::mul::{lemma_mul_is_associative, lemma_mul_is_distributive_add};
use vstd::prelude::*;

verus! {

/// A whole number of 64 bits. Sums, differences and products wrap round, so
/// the arithmetic is exact modulo two to the power 64 and keeps the laws
/// of a commutative ring. Division cuts off the fraction; a zero divisor
/// gives zero. The square root is the whole part of the root, zero for a
/// negative number.
#[derive(Clone, Copy, Debug, PartialEq, Eq, Structural)]
pub struct Whole(pub i64);

/// Two to the power 64.
pub open spec fn modulus() -> int {
    0x1_0000_0000_0000_0000
}

/// The number of 64 bits that differs from `v` by a multiple of two to the
/// power 64.
pub open spec fn wrap(v: int) -> i64 {
    let r = v % modulus();
    if r > i64::MAX {
        (r - modulus()) as i64
    } else {
        r as i64
    }
}

/// The size of `v` without its sign.
pub open spec fn magnitude(v: int) -> int {
    if v < 0 {
        -v
    } else {
        v
    }
}

/// `a` divided by `b`, the fraction cut off; zero where `b` is zero.
pub open spec fn quotient(a: int, b: int) -> int {
    if b == 0 {
        0
    } else if (a < 0) == (b < 0) {
        magnitude(a) / magnitude(b)
    } else {
        -(magnitude(a) / magnitude(b))
    }
}

/// `r` is the whole part of the square root of `x`.
pub open spec fn is_root(r: int, x: int) -> bool {
    0 <= r && r * r <= x < (r + 1) * (r + 1)
}

/// The whole part of the square root of `x`; zero where `x` is negative.
pub open spec fn root(x: int) -> int {
    if x < 0 {
        0
    } else {
        choose|r: int| is_root(r, x)
    }
}

proof fn lemma_root_is_unique(a: int, b: int, x: int)
    requires
        is_root(a, x),
        is_root(b, x),
    ensures
        a == b,
{
    assert(a < b ==> (a + 1) * (a + 1) <= b * b) by (nonlinear_arith)
        requires
            0 <= a,
    ;
    assert(b < a ==> (b + 1) * (b + 1) <= a * a) by (nonlinear_arith)
        requires
            0 <= b,
    ;
}

proof fn lemma_quotient_is_small(a: int, b: int)
    requires
        0 <= a,
        0 < b,
    ensures
        0 <= a / b <= a,
        b > 1 ==> 2 * (a / b) <= a,
{
    lemma_fundamental_div_mod(a, b);
    assert(0 <= a / b <= a && (b > 1 ==> 2 * (a / b) <= a)) by (nonlinear_arith)
        requires
            0 <= a,
            0 < b,
            a == b * (a / b) + a % b,
            0 <= a % b < b,
    ;
}

/// A number that fits in 64 bits is not changed by wrapping.
pub proof fn lemma_wrap_of_small(v: int)
    requires
        i64::MIN <= v <= i64::MAX,
    ensures
        wrap(v) == v,
{
    if v >= 0 {
        lemma_small_mod(v as nat, modulus() as nat);
    } else {
        lemma_small_mod((v + modulus()) as nat, modulus() as nat);
        lemma_mod_multiples_vanish(1, v, modulus());
    }
}

/// Wrapping keeps the remainder on division by two to the power 64.
pub proof fn lemma_wrap_is_congruent(v: int)
    ensures
        (wrap(v) as int) % modulus() == v % modulus(),
{
    let r = v % modulus();
    lemma_small_mod(r as nat, modulus() as nat);
    if r > i64::MAX {
        lemma_mod_multiples_vanish(-1, r, modulus());
    }
}

proof fn lemma_wrap_sum(a: int, b: int)
    ensures
        wrap(wrap(a) + b) == wrap(a + b),
        wrap(a + wrap(b)) == wrap(a + b),
{
    lemma_wrap_is_congruent(a);
    lemma_wrap_is_congruent(b);
    lemma_add_mod_noop(wrap(a) as int, b, modulus());
    lemma_add_mod_noop(a, b, modulus());
    lemma_add_mod_noop(a, wrap(b) as int, modulus());
}

proof fn lemma_wrap_product(a: int, b: int)
    ensures
        wrap(wrap(a) * b) == wrap(a * b),
        wrap(a * wrap(b)) == wrap(a * b),
{
    lemma_wrap_is_congruent(a);
    lemma_wrap_is_congruent(b);
    lemma_mul_mod_noop(wrap(a) as int, b, modulus());
    lemma_mul_mod_noop(a, b, modulus());
    lemma_mul_mod_noop(a, wrap(b) as int, modulus());
}

impl Scalar for Whole {
    open spec fn from_int_spec(n: u32) -> Self {
        Whole(n as i64)
    }

    open spec fn add_spec(self, rhs: Self) -> Self {
        Whole(wrap(self.0 + rhs.0))
    }

    open spec fn sub_spec(self, rhs: Self) -> Self {
        Whole(wrap(self.0 - rhs.0))
    }

    open spec fn mul_spec(self, rhs: Self) -> Self {
        Whole(wrap(self.0 * rhs.0))
    }

    open spec fn div_spec(self, rhs: Self) -> Self {
        Whole(wrap(quotient(self.0 as int, rhs.0 as int)))
    }

    open spec fn neg_spec(self) -> Self {
        Whole(wrap(-self.0))
    }

    open spec fn abs_spec(self) -> Self {
        if self.0 < 0 {
            Whole(wrap(-self.0))
        } else {
            self
        }
    }

    open spec fn sqrt_spec(self) -> Self {
        Whole(root(self.0 as int) as i64)
    }

    open spec fn round_spec(self) -> Self {
        self
    }

    open spec fn less_spec(self, rhs: Self) -> bool {
        self.0 < rhs.0
    }

    open spec fn at_least_spec(self, rhs: Self) -> bool {
        self.0 >= rhs.0
    }

    open spec fn to_int_spec(self) -> u32 {
        if self.0 < 0 {
            0
        } else if self.0 > u32::MAX {
            u32::MAX
        } else {
            self.0 as u32
        }
    }

    fn from_int(n: u32) -> (r: Self) {
        Whole(n as i64)
    }

    fn add(self, rhs: Self) -> (r: Self) {
        proof {
            let s = self.0 + rhs.0;
            if s > i64::MAX {
                lemma_wrap_of_small(s - modulus());
                lemma_mod_multiples_vanish(-1, s, modulus());
            } else if s < i64::MIN {
                lemma_wrap_of_small(s + modulus());
                lemma_mod_multiples_vanish(1, s, modulus());
            } else {
                lemma_wrap_of_small(s);
            }
        }
        Whole(self.0.wrapping_add(rhs.0))
    }

    fn sub(self, rhs: Self) -> (r: Self) {
        proof {
            let s = self.0 - rhs.0;
            if s > i64::MAX {
                lemma_wrap_of_small(s - modulus());
                lemma_mod_multiples_vanish(-1, s, modulus());
            } else if s < i64::MIN {
                lemma_wrap_of_small(s + modulus());
                lemma_mod_multiples_vanish(1, s, modulus());
            } else {
                lemma_wrap_of_small(s);
            }
        }
        Whole(self.0.wrapping_sub(rhs.0))
    }

    fn mul(self, rhs: Self) -> (r: Self) {
        Whole(self.0.wrapping_mul(rhs.0))
    }

    fn div(self, rhs: Self) -> (r: Self) {
        if rhs.0 == 0 {
            proof {
                lemma_wrap_of_small(0);
            }
            Whole(0)
        } else if self.0 == i64::MIN && rhs.0 == -1 {
            proof {
                let q = quotient(self.0 as int, rhs.0 as int);
                assert(q == 0x8000_0000_0000_0000);
                lemma_small_mod(q as nat, modulus() as nat);
            }
            Whole(i64::MIN)
        } else {
            let a = self.0 as i128;
            let b = rhs.0 as i128;
            let size_a = if a < 0 { -a } else { a };
            let size_b = if b < 0 { -b } else { b };
            let size_q = size_a / size_b;
            proof {
                lemma_quotient_is_small(size_a as int, size_b as int);
            }
            let q = if (a < 0) == (b < 0) { size_q } else { -size_q };
            proof {
                lemma_wrap_of_small(q as int);
            }
            Whole(q as i64)
        }
    }

    fn neg(self) -> (r: Self) {
        let zero: i64 = 0;
        proof {
            let s = -self.0;
            if s > i64::MAX {
                lemma_wrap_of_small(s - modulus());
                lemma_mod_multiples_vanish(-1, s, modulus());
            } else {
                lemma_wrap_of_small(s);
            }
        }
        Whole(zero.wrapping_sub(self.0))
    }

    fn abs(self) -> (r: Self) {
        if self.0 < 0 {
            self.neg()
        } else {
            self
        }
    }

    fn sqrt(self) -> (r: Self) {
        if self.0 < 0 {
            return Whole(0);
        }
        let x = self.0 as u64;
        let mut low: u64 = 0;
        let mut high: u64 = 0x1_0000_0000;
        assert(x < high * high) by (nonlinear_arith)
            requires
                x <= i64::MAX,
                high == 0x1_0000_0000,
        ;
        while high - low > 1
            invariant
                low < high <= 0x1_0000_0000,
                low * low <= x < high * high,
            decreases high - low,
        {
            let mid = low + (high - low) / 2;
            assert(mid * mid < 0x1_0000_0000_0000_0000) by (nonlinear_arith)
                requires
                    mid < 0x1_0000_0000,
            ;
            if mid * mid <= x {
                low = mid;
            } else {
                high = mid;
            }
        }
        proof {
            assert(is_root(low as int, x as int));
            lemma_root_is_unique(low as int, root(x as int), x as int);
        }
        Whole(low as i64)
    }

    fn round(self) -> (r: Self) {
        self
    }

    fn less(self, rhs: Self) -> (r: bool) {
        self.0 < rhs.0
    }

    fn at_least(self, rhs: Self) -> (r: bool) {
        self.0 >= rhs.0
    }

    fn to_int(self) -> (r: u32) {
        if self.0 < 0 {
            0
        } else if self.0 > 0xffff_ffff {
            0xffff_ffff
        } else {
            self.0 as u32
        }
    }
}

/// The circular functions of a whole number of radians, cut to whole
/// numbers. The sine of a whole number lies strictly between minus one and
/// one, so its whole part is zero. The cosine is one at zero and lies
/// strictly between minus one and one elsewhere. The tangent is the sine
/// over the cosine in this arithmetic, which is zero. Pi is three.
impl Angle for Whole {
    open spec fn is_sine(self, r: Self) -> bool {
        r == Whole(0)
    }

    open spec fn is_cosine(self, r: Self) -> bool {
        r == (if self.0 == 0 {
            Whole(1)
        } else {
            Whole(0)
        })
    }

    open spec fn is_tangent(self, r: Self) -> bool {
        exists|s: Whole, c: Whole| self.is_sine(s) && self.is_cosine(c) && r == s.div_spec(c)
    }

    open spec fn pi_spec() -> Self {
        Whole(3)
    }

    fn sin(self) -> (r: Self) {
        Whole(0)
    }

    fn cos(self) -> (r: Self) {
        if self.0 == 0 {
            Whole(1)
        } else {
            Whole(0)
        }
    }

    fn tan(self) -> (r: Self) {
        let s = self.sin();
        let c = self.cos();
        s.div(c)
    }

    fn pi() -> (r: Self) {
        Whole(3)
    }
}

/// Whole numbers keep every law of a commutative ring, so every law of
/// matrix algebra holds of matrices of them.
pub proof fn lemma_whole_is_a_ring()
    ensures
        add_commutes::<Whole>(),
        add_associates::<Whole>(),
        zero_is_neutral::<Whole>(),
        neg_cancels::<Whole>(),
        mul_commutes::<Whole>(),
        mul_associates::<Whole>(),
        one_is_neutral::<Whole>(),
        zero_annihilates::<Whole>(),
        mul_distributes::<Whole>(),
        less_is_an_order::<Whole>(),
{
    assert forall|a: Whole, b: Whole| #[trigger] a.add_spec(b) == b.add_spec(a) by {}
    assert forall|a: Whole, b: Whole, c: Whole| #[trigger]
        a.add_spec(b).add_spec(c) == a.add_spec(b.add_spec(c)) by {
        lemma_wrap_sum(a.0 + b.0, c.0 as int);
        lemma_wrap_sum(a.0 as int, b.0 + c.0);
    }
    assert forall|a: Whole| #[trigger] a.add_spec(Whole::from_int_spec(0)) == a by {
        lemma_wrap_of_small(a.0 as int);
    }
    assert forall|a: Whole| #[trigger] Whole::from_int_spec(0).add_spec(a) == a by {
        lemma_wrap_of_small(a.0 as int);
    }
    assert forall|a: Whole| #[trigger] a.add_spec(a.neg_spec()) == Whole::from_int_spec(0) by {
        lemma_wrap_sum(a.0 as int, -a.0);
        lemma_wrap_of_small(0);
    }
    assert forall|a: Whole, b: Whole| #[trigger] a.mul_spec(b) == b.mul_spec(a) by {
        assert(a.0 * b.0 == b.0 * a.0) by (nonlinear_arith);
    }
    assert forall|a: Whole, b: Whole, c: Whole| #[trigger]
        a.mul_spec(b).mul_spec(c) == a.mul_spec(b.mul_spec(c)) by {
        lemma_wrap_product(a.0 * b.0, c.0 as int);
        lemma_wrap_product(a.0 as int, b.0 * c.0);
        lemma_mul_is_associative(a.0 as int, b.0 as int, c.0 as int);
    }
    assert forall|a: Whole| #[trigger] a.mul_spec(Whole::from_int_spec(1)) == a by {
        lemma_wrap_of_small(a.0 as int);
    }
    assert forall|a: Whole| #[trigger] Whole::from_int_spec(1).mul_spec(a) == a by {
        lemma_wrap_of_small(a.0 as int);
    }
    assert forall|a: Whole| #[trigger]
        a.mul_spec(Whole::from_int_spec(0)) == Whole::from_int_spec(0) by {
        lemma_wrap_of_small(0);
    }
    assert forall|a: Whole| #[trigger]
        Whole::from_int_spec(0).mul_spec(a) == Whole::from_int_spec(0) by {
        lemma_wrap_of_small(0);
    }
    assert forall|a: Whole, b: Whole, c: Whole| #[trigger]
        a.mul_spec(b.add_spec(c)) == a.mul_spec(b).add_spec(a.mul_spec(c)) by {
        lemma_wrap_product(a.0 as int, b.0 + c.0);
        lemma_wrap_sum(a.0 * b.0, wrap(a.0 * c.0) as int);
        lemma_wrap_sum(a.0 * b.0, a.0 * c.0);
        lemma_mul_is_distributive_add(a.0 as int, b.0 as int, c.0 as int);
    }
}

} // verus!
