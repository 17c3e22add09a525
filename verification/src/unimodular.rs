use crate::adjugate::{
    lemma_adjugate_2, lemma_adjugate_3_ints, lemma_adjugate_4_column_0, lemma_adjugate_4_column_1,
    lemma_adjugate_4_column_2, lemma_adjugate_4_column_3,
};
use crate::matrix::Matrix;
use crate::scalar::Scalar;
use crate::whole::{lemma_wrap_is_congruent, lemma_wrap_of_small, modulus, Whole};
use crate::whole_laws::{
    lemma_whole_expansion_is_determinant_3, lemma_whole_expansion_is_determinant_4,
};
use vstd::arithmetic::div_mod::{lemma_add_mod_noop, lemma_mul_mod_noop, lemma_sub_mod_noop};
use vstd::arithmetic::mul::{
    lemma_mul_is_associative, lemma_mul_is_commutative, lemma_mul_is_distributive_add_other_way,
};
use vstd::prelude::*;

verus! {

/// `a` and `b` differ by a multiple of two to the power 64.
pub open spec fn congruent(a: int, b: int) -> bool {
    a % modulus() == b % modulus()
}

/// `d` is one or minus one: the determinants with which the inverse of a
/// matrix of whole numbers is exact.
pub open spec fn is_unit(d: Whole) -> bool {
    d == Whole(1) || d == Whole(-1i64)
}

/// A whole number congruent to an integer that fits in 64 bits is that
/// integer.
pub proof fn lemma_equal_if_congruent(a: Whole, v: int)
    requires
        congruent(a.0 as int, v),
        i64::MIN <= v <= i64::MAX,
    ensures
        a == Whole(v as i64),
{
    lemma_wrap_of_small(a.0 as int);
    lemma_wrap_of_small(v);
}

/// The sum of whole numbers is congruent to the sum of integers that they
/// are congruent to; so are the difference, the product and the negation.
proof fn lemma_sum(a: Whole, b: Whole, x: int, y: int)
    requires
        congruent(a.0 as int, x),
        congruent(b.0 as int, y),
    ensures
        congruent(a.add_spec(b).0 as int, x + y),
{
    lemma_wrap_is_congruent(a.0 + b.0);
    lemma_add_mod_noop(a.0 as int, b.0 as int, modulus());
    lemma_add_mod_noop(x, y, modulus());
}

proof fn lemma_difference(a: Whole, b: Whole, x: int, y: int)
    requires
        congruent(a.0 as int, x),
        congruent(b.0 as int, y),
    ensures
        congruent(a.sub_spec(b).0 as int, x - y),
{
    lemma_wrap_is_congruent(a.0 - b.0);
    lemma_sub_mod_noop(a.0 as int, b.0 as int, modulus());
    lemma_sub_mod_noop(x, y, modulus());
}

proof fn lemma_product(a: Whole, b: Whole, x: int, y: int)
    requires
        congruent(a.0 as int, x),
        congruent(b.0 as int, y),
    ensures
        congruent(a.mul_spec(b).0 as int, x * y),
{
    lemma_wrap_is_congruent(a.0 * b.0);
    lemma_mul_mod_noop(a.0 as int, b.0 as int, modulus());
    lemma_mul_mod_noop(x, y, modulus());
}

proof fn lemma_negation(a: Whole, x: int)
    requires
        congruent(a.0 as int, x),
    ensures
        congruent(a.neg_spec().0 as int, -x),
{
    lemma_wrap_is_congruent(-a.0);
    lemma_sub_mod_noop(0, a.0 as int, modulus());
    lemma_sub_mod_noop(0, x, modulus());
}

/// Dividing by one or minus one is multiplying by it.
proof fn lemma_quotient_by_unit(a: Whole, d: Whole, x: int)
    requires
        is_unit(d),
        congruent(a.0 as int, x),
    ensures
        congruent(a.div_spec(d).0 as int, x * d.0),
{
    if d == Whole(1) {
        lemma_wrap_of_small(a.0 as int);
        assert(x * 1 == x);
    } else {
        assert(a.div_spec(d).0 == a.neg_spec().0);
        lemma_negation(a, x);
        assert(x * (-1) == -x);
    }
}

/// The determinant of a 2 by 2 matrix of whole numbers, over the integers.
pub open spec fn int_det_2(m: Matrix<Whole, 2, 2>) -> int {
    m.at(0, 0).0 * m.at(1, 1).0 - m.at(0, 1).0 * m.at(1, 0).0
}

/// The determinant of a matrix of whole numbers is congruent to its
/// determinant over the integers; so are its cofactors and the first-row
/// expansion that its inverse divides by.
proof fn lemma_det_2(m: Matrix<Whole, 2, 2>)
    ensures
        congruent(m.determinant().0 as int, int_det_2(m)),
{
    let a = m.at(0, 0);
    let b = m.at(0, 1);
    let c = m.at(1, 0);
    let d = m.at(1, 1);
    lemma_product(a, d, a.0 as int, d.0 as int);
    lemma_product(b, c, b.0 as int, c.0 as int);
    lemma_difference(a.mul_spec(d), b.mul_spec(c), a.0 * d.0, b.0 * c.0);
}

/// The inverse of a 1 by 1 matrix of whole numbers whose entry is one or
/// minus one, times the matrix, is the identity.
pub proof fn lemma_whole_inverse_1(
    m: Matrix<Whole, 1, 1>,
    inv: Matrix<Whole, 1, 1>,
    r: Matrix<Whole, 1, 1>,
)
    requires
        is_unit(m.determinant()),
        inv.is_inverse(m),
        r.is_dot(inv, m),
    ensures
        r.is_identity(),
{
    reveal_with_fuel(Matrix::dot_sum, 2);
    let d = m.at(0, 0);
    lemma_quotient_by_unit(Whole(1), d, 1);
    lemma_product(d, inv.at(0, 0), d.0 as int, 1 * d.0);
    lemma_sum(Whole(0), d.mul_spec(inv.at(0, 0)), 0, d.0 * (1 * d.0));
    assert(d.0 * (1 * d.0) == 1) by (nonlinear_arith)
        requires
            d.0 == 1 || d.0 == -1,
    ;
    lemma_equal_if_congruent(r.at(0, 0), 1);
}

/// The inverse of a 2 by 2 matrix of whole numbers whose determinant is
/// one or minus one, times the matrix, is the identity.
pub proof fn lemma_whole_inverse_2(
    m: Matrix<Whole, 2, 2>,
    inv: Matrix<Whole, 2, 2>,
    r: Matrix<Whole, 2, 2>,
)
    requires
        is_unit(m.determinant()),
        inv.is_inverse(m),
        r.is_dot(inv, m),
    ensures
        r.is_identity(),
{
    reveal_with_fuel(Matrix::dot_sum, 3);
    let a = m.at(0, 0);
    let b = m.at(0, 1);
    let c = m.at(1, 0);
    let d = m.at(1, 1);
    let det = m.determinant();
    let e = det.0 as int;
    lemma_det_2(m);
    lemma_negation(b, b.0 as int);
    lemma_negation(c, c.0 as int);
    lemma_quotient_by_unit(d, det, d.0 as int);
    lemma_quotient_by_unit(b.neg_spec(), det, -b.0);
    lemma_quotient_by_unit(c.neg_spec(), det, -c.0);
    lemma_quotient_by_unit(a, det, a.0 as int);
    lemma_adjugate_2(a.0 as int, b.0 as int, c.0 as int, d.0 as int, e);
    lemma_unit_square(det, int_det_2(m));
    assert forall|j: int, i: int| 0 <= j < 2 && 0 <= i < 2 implies #[trigger] r.at(j, i) == (if j
        == i {
        Whole(1)
    } else {
        Whole(0)
    }) by {
        let first = m.at(0, i).mul_spec(inv.at(j, 0));
        let second = m.at(1, i).mul_spec(inv.at(j, 1));
        let x0 = if j == 0 { d.0 * e } else { (-c.0) * e };
        let x1 = if j == 0 { (-b.0) * e } else { a.0 * e };
        lemma_product(m.at(0, i), inv.at(j, 0), m.at(0, i).0 as int, x0);
        lemma_product(m.at(1, i), inv.at(j, 1), m.at(1, i).0 as int, x1);
        lemma_sum(Whole(0), first, 0, m.at(0, i).0 * x0);
        lemma_sum(Whole(0).add_spec(first), second, 0 + m.at(0, i).0 * x0, m.at(1, i).0 * x1);
        lemma_equal_if_congruent(r.at(j, i), if j == i { 1 } else { 0 });
    }
}

/// Where `d` is one or minus one and congruent to `v`, `v` times `d` is
/// congruent to one.
proof fn lemma_unit_square(d: Whole, v: int)
    requires
        is_unit(d),
        congruent(d.0 as int, v),
    ensures
        congruent(v * d.0, 1),
{
    lemma_mul_mod_noop(v, d.0 as int, modulus());
    lemma_mul_mod_noop(d.0 as int, d.0 as int, modulus());
    assert(d.0 * d.0 == 1) by (nonlinear_arith)
        requires
            d.0 == 1 || d.0 == -1,
    ;
}

/// The entry in row `y`, column `x` of `m`, as an integer.
pub open spec fn entry<const N: usize>(m: Matrix<Whole, N, N>, y: int, x: int) -> int {
    m.at(y, x).0 as int
}

/// The determinant of a 3 by 3 matrix of whole numbers, over the integers.
pub open spec fn int_det_3(m: Matrix<Whole, 3, 3>) -> int {
    m.at(0, 0).0 * (m.at(1, 1).0 * m.at(2, 2).0 - m.at(1, 2).0 * m.at(2, 1).0) - m.at(0, 1).0 * (m.at(1, 0).0 * m.at(2, 2).0 - m.at(1, 2).0 * m.at(2, 0).0) + m.at(0, 2).0 * (m.at(1, 0).0 * m.at(2, 1).0 - m.at(1, 1).0 * m.at(2, 0).0)
}

/// The cofactor of the entry in row `k`, column `j` of a 3 by 3 matrix of
/// whole numbers, over the integers.
pub open spec fn int_cofactor_3(m: Matrix<Whole, 3, 3>, k: int, j: int) -> int {
    let minor = int_det_2(m.without(k, j));
    if (k + j) % 2 == 0 {
        minor
    } else {
        -minor
    }
}

proof fn lemma_cofactor_3(m: Matrix<Whole, 3, 3>, k: int, j: int)
    requires
        0 <= k < 3,
        0 <= j < 3,
    ensures
        congruent(m.cofactor(k, j).0 as int, int_cofactor_3(m, k, j)),
{
    let w = m.without(k, j);
    lemma_det_2(w);
    if (k + j) % 2 != 0 {
        lemma_negation(w.determinant(), int_det_2(w));
    }
}

proof fn lemma_expansion_3(m: Matrix<Whole, 3, 3>)
    ensures
        congruent(m.expansion(3).0 as int, int_det_3(m)),
{
    let w0 = m.without(0, 0);
    let w1 = m.without(0, 1);
    let w2 = m.without(0, 2);
    lemma_det_2(w0);
    lemma_det_2(w1);
    lemma_det_2(w2);
    let t0 = m.at(0, 0).mul_spec(w0.determinant());
    let t1 = m.at(0, 1).mul_spec(w1.determinant());
    let t2 = m.at(0, 2).mul_spec(w2.determinant());
    lemma_product(m.at(0, 0), w0.determinant(), entry(m, 0, 0), int_det_2(w0));
    lemma_product(m.at(0, 1), w1.determinant(), entry(m, 0, 1), int_det_2(w1));
    lemma_product(m.at(0, 2), w2.determinant(), entry(m, 0, 2), int_det_2(w2));
    assert(m.expansion(0) == Whole(0));
    assert(m.expansion(1) == m.expansion(0).add_spec(t0));
    assert(m.expansion(2) == m.expansion(1).sub_spec(t1));
    assert(m.expansion(3) == m.expansion(2).add_spec(t2));
    let x0 = entry(m, 0, 0) * int_det_2(w0);
    let x1 = entry(m, 0, 1) * int_det_2(w1);
    let x2 = entry(m, 0, 2) * int_det_2(w2);
    lemma_sum(Whole(0), t0, 0, x0);
    lemma_difference(m.expansion(1), t1, 0 + x0, x1);
    lemma_sum(m.expansion(2), t2, 0 + x0 - x1, x2);
}

/// A sum of products whose second factors are all scaled by `e` is the
/// sum of the products, scaled by `e`.
proof fn lemma_scale_3(v0: int, c0: int, v1: int, c1: int, v2: int, c2: int, e: int)
    ensures
        v0 * (c0 * e) + v1 * (c1 * e) + v2 * (c2 * e) == (v0 * c0 + v1 * c1 + v2 * c2) * e,
{
    lemma_mul_is_associative(v0, c0, e);
    lemma_mul_is_associative(v1, c1, e);
    lemma_mul_is_associative(v2, c2, e);
    lemma_mul_is_distributive_add_other_way(e, v0 * c0, v1 * c1);
    lemma_mul_is_distributive_add_other_way(e, v0 * c0 + v1 * c1, v2 * c2);
}

/// Column `j` of the adjugate of `m`, scaled by `e`, against column `i` of
/// `m`, over the integers: the determinant times `e` where the columns are
/// the same, zero where they are not.
proof fn lemma_adjugate_3(m: Matrix<Whole, 3, 3>, j: int, i: int, e: int)
    requires
        0 <= j < 3,
        0 <= i < 3,
    ensures
        entry(m, 0, i) * (int_cofactor_3(m, 0, j) * e) + entry(m, 1, i) * (int_cofactor_3(m, 1, j)
            * e) + entry(m, 2, i) * (int_cofactor_3(m, 2, j) * e) == (if j == i {
            int_det_3(m) * e
        } else {
            0
        }),
{
    lemma_adjugate_3_ints(
        entry(m, 0, 0),
        entry(m, 0, 1),
        entry(m, 0, 2),
        entry(m, 1, 0),
        entry(m, 1, 1),
        entry(m, 1, 2),
        entry(m, 2, 0),
        entry(m, 2, 1),
        entry(m, 2, 2),
    );
    if j == 0 {
        assert(int_cofactor_3(m, 0, 0) == entry(m, 1, 1) * entry(m, 2, 2) - entry(m, 1, 2) * entry(m, 2, 1));
        assert(int_cofactor_3(m, 1, 0) == -(entry(m, 0, 1) * entry(m, 2, 2) - entry(m, 0, 2) * entry(m, 2, 1)));
        assert(int_cofactor_3(m, 2, 0) == entry(m, 0, 1) * entry(m, 1, 2) - entry(m, 0, 2) * entry(m, 1, 1));
    } else if j == 1 {
        assert(int_cofactor_3(m, 0, 1) == -(entry(m, 1, 0) * entry(m, 2, 2) - entry(m, 1, 2) * entry(m, 2, 0)));
        assert(int_cofactor_3(m, 1, 1) == entry(m, 0, 0) * entry(m, 2, 2) - entry(m, 0, 2) * entry(m, 2, 0));
        assert(int_cofactor_3(m, 2, 1) == -(entry(m, 0, 0) * entry(m, 1, 2) - entry(m, 0, 2) * entry(m, 1, 0)));
    } else {
        assert(int_cofactor_3(m, 0, 2) == entry(m, 1, 0) * entry(m, 2, 1) - entry(m, 1, 1) * entry(m, 2, 0));
        assert(int_cofactor_3(m, 1, 2) == -(entry(m, 0, 0) * entry(m, 2, 1) - entry(m, 0, 1) * entry(m, 2, 0)));
        assert(int_cofactor_3(m, 2, 2) == entry(m, 0, 0) * entry(m, 1, 1) - entry(m, 0, 1) * entry(m, 1, 0));
    }
    assert(i == 0 || i == 1 || i == 2);
    lemma_scale_3(
        entry(m, 0, i),
        int_cofactor_3(m, 0, j),
        entry(m, 1, i),
        int_cofactor_3(m, 1, j),
        entry(m, 2, i),
        int_cofactor_3(m, 2, j),
        e,
    );
}

/// The inverse of a 3 by 3 matrix of whole numbers whose determinant is
/// one or minus one, times the matrix, is the identity.
pub proof fn lemma_whole_inverse_3(
    m: Matrix<Whole, 3, 3>,
    inv: Matrix<Whole, 3, 3>,
    r: Matrix<Whole, 3, 3>,
)
    requires
        is_unit(m.determinant()),
        inv.is_inverse(m),
        r.is_dot(inv, m),
    ensures
        r.is_identity(),
{
    reveal_with_fuel(Matrix::dot_sum, 4);
    lemma_whole_expansion_is_determinant_3(m);
    let d = m.expansion(3);
    let e = d.0 as int;
    lemma_expansion_3(m);
    lemma_unit_square(d, int_det_3(m));
    assert forall|j: int, i: int| 0 <= j < 3 && 0 <= i < 3 implies #[trigger] r.at(j, i) == (if j
        == i {
        Whole(1)
    } else {
        Whole(0)
    }) by {
        let c0 = int_cofactor_3(m, 0, j) * e;
        let c1 = int_cofactor_3(m, 1, j) * e;
        let c2 = int_cofactor_3(m, 2, j) * e;
        lemma_cofactor_3(m, 0, j);
        lemma_cofactor_3(m, 1, j);
        lemma_cofactor_3(m, 2, j);
        lemma_quotient_by_unit(m.cofactor(0, j), d, int_cofactor_3(m, 0, j));
        lemma_quotient_by_unit(m.cofactor(1, j), d, int_cofactor_3(m, 1, j));
        lemma_quotient_by_unit(m.cofactor(2, j), d, int_cofactor_3(m, 2, j));
        let t0 = m.at(0, i).mul_spec(inv.at(j, 0));
        let t1 = m.at(1, i).mul_spec(inv.at(j, 1));
        let t2 = m.at(2, i).mul_spec(inv.at(j, 2));
        lemma_product(m.at(0, i), inv.at(j, 0), entry(m, 0, i), c0);
        lemma_product(m.at(1, i), inv.at(j, 1), entry(m, 1, i), c1);
        lemma_product(m.at(2, i), inv.at(j, 2), entry(m, 2, i), c2);
        let x0 = entry(m, 0, i) * c0;
        let x1 = entry(m, 1, i) * c1;
        let x2 = entry(m, 2, i) * c2;
        lemma_sum(Whole(0), t0, 0, x0);
        lemma_sum(Whole(0).add_spec(t0), t1, 0 + x0, x1);
        lemma_sum(Whole(0).add_spec(t0).add_spec(t1), t2, 0 + x0 + x1, x2);
        lemma_adjugate_3(m, j, i, e);
        lemma_equal_if_congruent(r.at(j, i), if j == i { 1 } else { 0 });
    }
}

/// The determinant of a 4 by 4 matrix of whole numbers, over the integers.
pub open spec fn int_det_4(m: Matrix<Whole, 4, 4>) -> int {
    entry(m, 0, 0) * int_det_3(m.without(0, 0)) - entry(m, 0, 1) * int_det_3(m.without(0, 1))
        + entry(m, 0, 2) * int_det_3(m.without(0, 2)) - entry(m, 0, 3) * int_det_3(
        m.without(0, 3),
    )
}

/// The cofactor of the entry in row `k`, column `j` of a 4 by 4 matrix of
/// whole numbers, over the integers.
pub open spec fn int_cofactor_4(m: Matrix<Whole, 4, 4>, k: int, j: int) -> int {
    let minor = int_det_3(m.without(k, j));
    if (k + j) % 2 == 0 {
        minor
    } else {
        -minor
    }
}

proof fn lemma_det_3(m: Matrix<Whole, 3, 3>)
    ensures
        congruent(m.determinant().0 as int, int_det_3(m)),
{
    let w0 = m.without(0, 0);
    let w1 = m.without(0, 1);
    let w2 = m.without(0, 2);
    lemma_det_2(w0);
    lemma_det_2(w1);
    lemma_det_2(w2);
    let t0 = w0.determinant().mul_spec(m.at(0, 0));
    let t1 = w1.determinant().mul_spec(m.at(0, 1));
    let t2 = w2.determinant().mul_spec(m.at(0, 2));
    lemma_product(w0.determinant(), m.at(0, 0), int_det_2(w0), entry(m, 0, 0));
    lemma_product(w1.determinant(), m.at(0, 1), int_det_2(w1), entry(m, 0, 1));
    lemma_product(w2.determinant(), m.at(0, 2), int_det_2(w2), entry(m, 0, 2));
    let x0 = int_det_2(w0) * entry(m, 0, 0);
    let x1 = int_det_2(w1) * entry(m, 0, 1);
    let x2 = int_det_2(w2) * entry(m, 0, 2);
    lemma_difference(t0, t1, x0, x1);
    lemma_sum(t0.sub_spec(t1), t2, x0 - x1, x2);
    lemma_mul_is_commutative(int_det_2(w0), entry(m, 0, 0));
    lemma_mul_is_commutative(int_det_2(w1), entry(m, 0, 1));
    lemma_mul_is_commutative(int_det_2(w2), entry(m, 0, 2));
}

proof fn lemma_cofactor_4(m: Matrix<Whole, 4, 4>, k: int, j: int)
    requires
        0 <= k < 4,
        0 <= j < 4,
    ensures
        congruent(m.cofactor(k, j).0 as int, int_cofactor_4(m, k, j)),
{
    let w = m.without(k, j);
    lemma_det_3(w);
    if (k + j) % 2 != 0 {
        lemma_negation(w.determinant(), int_det_3(w));
    }
}

proof fn lemma_expansion_4(m: Matrix<Whole, 4, 4>)
    ensures
        congruent(m.expansion(4).0 as int, int_det_4(m)),
{
    let w0 = m.without(0, 0);
    let w1 = m.without(0, 1);
    let w2 = m.without(0, 2);
    let w3 = m.without(0, 3);
    lemma_det_3(w0);
    lemma_det_3(w1);
    lemma_det_3(w2);
    lemma_det_3(w3);
    let t0 = m.at(0, 0).mul_spec(w0.determinant());
    let t1 = m.at(0, 1).mul_spec(w1.determinant());
    let t2 = m.at(0, 2).mul_spec(w2.determinant());
    let t3 = m.at(0, 3).mul_spec(w3.determinant());
    lemma_product(m.at(0, 0), w0.determinant(), entry(m, 0, 0), int_det_3(w0));
    lemma_product(m.at(0, 1), w1.determinant(), entry(m, 0, 1), int_det_3(w1));
    lemma_product(m.at(0, 2), w2.determinant(), entry(m, 0, 2), int_det_3(w2));
    lemma_product(m.at(0, 3), w3.determinant(), entry(m, 0, 3), int_det_3(w3));
    assert(m.expansion(0) == Whole(0));
    assert(m.expansion(1) == m.expansion(0).add_spec(t0));
    assert(m.expansion(2) == m.expansion(1).sub_spec(t1));
    assert(m.expansion(3) == m.expansion(2).add_spec(t2));
    assert(m.expansion(4) == m.expansion(3).sub_spec(t3));
    let x0 = entry(m, 0, 0) * int_det_3(w0);
    let x1 = entry(m, 0, 1) * int_det_3(w1);
    let x2 = entry(m, 0, 2) * int_det_3(w2);
    let x3 = entry(m, 0, 3) * int_det_3(w3);
    lemma_sum(Whole(0), t0, 0, x0);
    lemma_difference(m.expansion(1), t1, 0 + x0, x1);
    lemma_sum(m.expansion(2), t2, 0 + x0 - x1, x2);
    lemma_difference(m.expansion(3), t3, 0 + x0 - x1 + x2, x3);
}

/// A sum of products whose second factors are all scaled by `e` is the
/// sum of the products, scaled by `e`.
proof fn lemma_scale_4(
    v0: int,
    c0: int,
    v1: int,
    c1: int,
    v2: int,
    c2: int,
    v3: int,
    c3: int,
    e: int,
)
    ensures
        v0 * (c0 * e) + v1 * (c1 * e) + v2 * (c2 * e) + v3 * (c3 * e) == (v0 * c0 + v1 * c1 + v2
            * c2 + v3 * c3) * e,
{
    lemma_mul_is_associative(v0, c0, e);
    lemma_mul_is_associative(v1, c1, e);
    lemma_mul_is_associative(v2, c2, e);
    lemma_mul_is_associative(v3, c3, e);
    lemma_mul_is_distributive_add_other_way(e, v0 * c0, v1 * c1);
    lemma_mul_is_distributive_add_other_way(e, v0 * c0 + v1 * c1, v2 * c2);
    lemma_mul_is_distributive_add_other_way(e, v0 * c0 + v1 * c1 + v2 * c2, v3 * c3);
}

/// Column `j` of the adjugate of `m`, scaled by `e`, against column `i` of
/// `m`, over the integers: the determinant times `e` where the columns are
/// the same, zero where they are not.
proof fn lemma_adjugate_4(m: Matrix<Whole, 4, 4>, j: int, i: int, e: int)
    requires
        0 <= j < 4,
        0 <= i < 4,
    ensures
        entry(m, 0, i) * (int_cofactor_4(m, 0, j) * e) + entry(m, 1, i) * (int_cofactor_4(m, 1, j)
            * e) + entry(m, 2, i) * (int_cofactor_4(m, 2, j) * e) + entry(m, 3, i) * (
        int_cofactor_4(m, 3, j) * e) == (if j == i {
            int_det_4(m) * e
        } else {
            0
        }),
{
    assert(int_det_3(m.without(0, 0)) ==  entry(m, 1, 1) * (entry(m, 2, 2) * entry(m, 3, 3) -
        entry(m, 2, 3) * entry(m, 3, 2)) - entry(m, 1, 2) * (entry(m, 2, 1) * entry(m, 3, 3) -
        entry(m, 2, 3) * entry(m, 3, 1)) + entry(m, 1, 3) * (entry(m, 2, 1) * entry(m, 3, 2) -
        entry(m, 2, 2) * entry(m, 3, 1)));
    assert(int_det_3(m.without(0, 1)) ==  entry(m, 1, 0) * (entry(m, 2, 2) * entry(m, 3, 3) -
        entry(m, 2, 3) * entry(m, 3, 2)) - entry(m, 1, 2) * (entry(m, 2, 0) * entry(m, 3, 3) -
        entry(m, 2, 3) * entry(m, 3, 0)) + entry(m, 1, 3) * (entry(m, 2, 0) * entry(m, 3, 2) -
        entry(m, 2, 2) * entry(m, 3, 0)));
    assert(int_det_3(m.without(0, 2)) ==  entry(m, 1, 0) * (entry(m, 2, 1) * entry(m, 3, 3) -
        entry(m, 2, 3) * entry(m, 3, 1)) - entry(m, 1, 1) * (entry(m, 2, 0) * entry(m, 3, 3) -
        entry(m, 2, 3) * entry(m, 3, 0)) + entry(m, 1, 3) * (entry(m, 2, 0) * entry(m, 3, 1) -
        entry(m, 2, 1) * entry(m, 3, 0)));
    assert(int_det_3(m.without(0, 3)) ==  entry(m, 1, 0) * (entry(m, 2, 1) * entry(m, 3, 2) -
        entry(m, 2, 2) * entry(m, 3, 1)) - entry(m, 1, 1) * (entry(m, 2, 0) * entry(m, 3, 2) -
        entry(m, 2, 2) * entry(m, 3, 0)) + entry(m, 1, 2) * (entry(m, 2, 0) * entry(m, 3, 1) -
        entry(m, 2, 1) * entry(m, 3, 0)));
    if j == 0 {
        lemma_adjugate_4_column_0(
            entry(m, 0, 0),
            entry(m, 0, 1),
            entry(m, 0, 2),
            entry(m, 0, 3),
            entry(m, 1, 0),
            entry(m, 1, 1),
            entry(m, 1, 2),
            entry(m, 1, 3),
            entry(m, 2, 0),
            entry(m, 2, 1),
            entry(m, 2, 2),
            entry(m, 2, 3),
            entry(m, 3, 0),
            entry(m, 3, 1),
            entry(m, 3, 2),
            entry(m, 3, 3),
        );
        assert(int_cofactor_4(m, 0, 0) ==  entry(m, 1, 1) * (entry(m, 2, 2) * entry(m, 3, 3) -
            entry(m, 2, 3) * entry(m, 3, 2)) - entry(m, 1, 2) * (entry(m, 2, 1) * entry(m, 3, 3)
            - entry(m, 2, 3) * entry(m, 3, 1)) + entry(m, 1, 3) * (entry(m, 2, 1) * entry(m, 3,
            2) - entry(m, 2, 2) * entry(m, 3, 1)));
        assert(int_cofactor_4(m, 1, 0) ==  -(entry(m, 0, 1) * (entry(m, 2, 2) * entry(m, 3, 3) -
            entry(m, 2, 3) * entry(m, 3, 2)) - entry(m, 0, 2) * (entry(m, 2, 1) * entry(m, 3, 3)
            - entry(m, 2, 3) * entry(m, 3, 1)) + entry(m, 0, 3) * (entry(m, 2, 1) * entry(m, 3,
            2) - entry(m, 2, 2) * entry(m, 3, 1))));
        assert(int_cofactor_4(m, 2, 0) ==  entry(m, 0, 1) * (entry(m, 1, 2) * entry(m, 3, 3) -
            entry(m, 1, 3) * entry(m, 3, 2)) - entry(m, 0, 2) * (entry(m, 1, 1) * entry(m, 3, 3)
            - entry(m, 1, 3) * entry(m, 3, 1)) + entry(m, 0, 3) * (entry(m, 1, 1) * entry(m, 3,
            2) - entry(m, 1, 2) * entry(m, 3, 1)));
        assert(int_cofactor_4(m, 3, 0) ==  -(entry(m, 0, 1) * (entry(m, 1, 2) * entry(m, 2, 3) -
            entry(m, 1, 3) * entry(m, 2, 2)) - entry(m, 0, 2) * (entry(m, 1, 1) * entry(m, 2, 3)
            - entry(m, 1, 3) * entry(m, 2, 1)) + entry(m, 0, 3) * (entry(m, 1, 1) * entry(m, 2,
            2) - entry(m, 1, 2) * entry(m, 2, 1))));
    } else if j == 1 {
        lemma_adjugate_4_column_1(
            entry(m, 0, 0),
            entry(m, 0, 1),
            entry(m, 0, 2),
            entry(m, 0, 3),
            entry(m, 1, 0),
            entry(m, 1, 1),
            entry(m, 1, 2),
            entry(m, 1, 3),
            entry(m, 2, 0),
            entry(m, 2, 1),
            entry(m, 2, 2),
            entry(m, 2, 3),
            entry(m, 3, 0),
            entry(m, 3, 1),
            entry(m, 3, 2),
            entry(m, 3, 3),
        );
        assert(int_cofactor_4(m, 0, 1) ==  -(entry(m, 1, 0) * (entry(m, 2, 2) * entry(m, 3, 3) -
            entry(m, 2, 3) * entry(m, 3, 2)) - entry(m, 1, 2) * (entry(m, 2, 0) * entry(m, 3, 3)
            - entry(m, 2, 3) * entry(m, 3, 0)) + entry(m, 1, 3) * (entry(m, 2, 0) * entry(m, 3,
            2) - entry(m, 2, 2) * entry(m, 3, 0))));
        assert(int_cofactor_4(m, 1, 1) ==  entry(m, 0, 0) * (entry(m, 2, 2) * entry(m, 3, 3) -
            entry(m, 2, 3) * entry(m, 3, 2)) - entry(m, 0, 2) * (entry(m, 2, 0) * entry(m, 3, 3)
            - entry(m, 2, 3) * entry(m, 3, 0)) + entry(m, 0, 3) * (entry(m, 2, 0) * entry(m, 3,
            2) - entry(m, 2, 2) * entry(m, 3, 0)));
        assert(int_cofactor_4(m, 2, 1) ==  -(entry(m, 0, 0) * (entry(m, 1, 2) * entry(m, 3, 3) -
            entry(m, 1, 3) * entry(m, 3, 2)) - entry(m, 0, 2) * (entry(m, 1, 0) * entry(m, 3, 3)
            - entry(m, 1, 3) * entry(m, 3, 0)) + entry(m, 0, 3) * (entry(m, 1, 0) * entry(m, 3,
            2) - entry(m, 1, 2) * entry(m, 3, 0))));
        assert(int_cofactor_4(m, 3, 1) ==  entry(m, 0, 0) * (entry(m, 1, 2) * entry(m, 2, 3) -
            entry(m, 1, 3) * entry(m, 2, 2)) - entry(m, 0, 2) * (entry(m, 1, 0) * entry(m, 2, 3)
            - entry(m, 1, 3) * entry(m, 2, 0)) + entry(m, 0, 3) * (entry(m, 1, 0) * entry(m, 2,
            2) - entry(m, 1, 2) * entry(m, 2, 0)));
    } else if j == 2 {
        lemma_adjugate_4_column_2(
            entry(m, 0, 0),
            entry(m, 0, 1),
            entry(m, 0, 2),
            entry(m, 0, 3),
            entry(m, 1, 0),
            entry(m, 1, 1),
            entry(m, 1, 2),
            entry(m, 1, 3),
            entry(m, 2, 0),
            entry(m, 2, 1),
            entry(m, 2, 2),
            entry(m, 2, 3),
            entry(m, 3, 0),
            entry(m, 3, 1),
            entry(m, 3, 2),
            entry(m, 3, 3),
        );
        assert(int_cofactor_4(m, 0, 2) ==  entry(m, 1, 0) * (entry(m, 2, 1) * entry(m, 3, 3) -
            entry(m, 2, 3) * entry(m, 3, 1)) - entry(m, 1, 1) * (entry(m, 2, 0) * entry(m, 3, 3)
            - entry(m, 2, 3) * entry(m, 3, 0)) + entry(m, 1, 3) * (entry(m, 2, 0) * entry(m, 3,
            1) - entry(m, 2, 1) * entry(m, 3, 0)));
        assert(int_cofactor_4(m, 1, 2) ==  -(entry(m, 0, 0) * (entry(m, 2, 1) * entry(m, 3, 3) -
            entry(m, 2, 3) * entry(m, 3, 1)) - entry(m, 0, 1) * (entry(m, 2, 0) * entry(m, 3, 3)
            - entry(m, 2, 3) * entry(m, 3, 0)) + entry(m, 0, 3) * (entry(m, 2, 0) * entry(m, 3,
            1) - entry(m, 2, 1) * entry(m, 3, 0))));
        assert(int_cofactor_4(m, 2, 2) ==  entry(m, 0, 0) * (entry(m, 1, 1) * entry(m, 3, 3) -
            entry(m, 1, 3) * entry(m, 3, 1)) - entry(m, 0, 1) * (entry(m, 1, 0) * entry(m, 3, 3)
            - entry(m, 1, 3) * entry(m, 3, 0)) + entry(m, 0, 3) * (entry(m, 1, 0) * entry(m, 3,
            1) - entry(m, 1, 1) * entry(m, 3, 0)));
        assert(int_cofactor_4(m, 3, 2) ==  -(entry(m, 0, 0) * (entry(m, 1, 1) * entry(m, 2, 3) -
            entry(m, 1, 3) * entry(m, 2, 1)) - entry(m, 0, 1) * (entry(m, 1, 0) * entry(m, 2, 3)
            - entry(m, 1, 3) * entry(m, 2, 0)) + entry(m, 0, 3) * (entry(m, 1, 0) * entry(m, 2,
            1) - entry(m, 1, 1) * entry(m, 2, 0))));
    } else {
        lemma_adjugate_4_column_3(
            entry(m, 0, 0),
            entry(m, 0, 1),
            entry(m, 0, 2),
            entry(m, 0, 3),
            entry(m, 1, 0),
            entry(m, 1, 1),
            entry(m, 1, 2),
            entry(m, 1, 3),
            entry(m, 2, 0),
            entry(m, 2, 1),
            entry(m, 2, 2),
            entry(m, 2, 3),
            entry(m, 3, 0),
            entry(m, 3, 1),
            entry(m, 3, 2),
            entry(m, 3, 3),
        );
        assert(int_cofactor_4(m, 0, 3) ==  -(entry(m, 1, 0) * (entry(m, 2, 1) * entry(m, 3, 2) -
            entry(m, 2, 2) * entry(m, 3, 1)) - entry(m, 1, 1) * (entry(m, 2, 0) * entry(m, 3, 2)
            - entry(m, 2, 2) * entry(m, 3, 0)) + entry(m, 1, 2) * (entry(m, 2, 0) * entry(m, 3,
            1) - entry(m, 2, 1) * entry(m, 3, 0))));
        assert(int_cofactor_4(m, 1, 3) ==  entry(m, 0, 0) * (entry(m, 2, 1) * entry(m, 3, 2) -
            entry(m, 2, 2) * entry(m, 3, 1)) - entry(m, 0, 1) * (entry(m, 2, 0) * entry(m, 3, 2)
            - entry(m, 2, 2) * entry(m, 3, 0)) + entry(m, 0, 2) * (entry(m, 2, 0) * entry(m, 3,
            1) - entry(m, 2, 1) * entry(m, 3, 0)));
        assert(int_cofactor_4(m, 2, 3) ==  -(entry(m, 0, 0) * (entry(m, 1, 1) * entry(m, 3, 2) -
            entry(m, 1, 2) * entry(m, 3, 1)) - entry(m, 0, 1) * (entry(m, 1, 0) * entry(m, 3, 2)
            - entry(m, 1, 2) * entry(m, 3, 0)) + entry(m, 0, 2) * (entry(m, 1, 0) * entry(m, 3,
            1) - entry(m, 1, 1) * entry(m, 3, 0))));
        assert(int_cofactor_4(m, 3, 3) ==  entry(m, 0, 0) * (entry(m, 1, 1) * entry(m, 2, 2) -
            entry(m, 1, 2) * entry(m, 2, 1)) - entry(m, 0, 1) * (entry(m, 1, 0) * entry(m, 2, 2)
            - entry(m, 1, 2) * entry(m, 2, 0)) + entry(m, 0, 2) * (entry(m, 1, 0) * entry(m, 2,
            1) - entry(m, 1, 1) * entry(m, 2, 0)));
    }
    assert(i == 0 || i == 1 || i == 2 || i == 3);
    lemma_scale_4(
        entry(m, 0, i),
        int_cofactor_4(m, 0, j),
        entry(m, 1, i),
        int_cofactor_4(m, 1, j),
        entry(m, 2, i),
        int_cofactor_4(m, 2, j),
        entry(m, 3, i),
        int_cofactor_4(m, 3, j),
        e,
    );
}

/// The determinant of a 2 by 2 matrix of whole numbers is its determinant
/// over the integers, wrapped round.
pub proof fn lemma_whole_determinant_2(m: Matrix<Whole, 2, 2>)
    ensures
        congruent(m.determinant().0 as int, int_det_2(m)),
{
    lemma_det_2(m);
}

/// The determinant of a 3 by 3 matrix of whole numbers is its determinant
/// over the integers, wrapped round.
pub proof fn lemma_whole_determinant_3(m: Matrix<Whole, 3, 3>)
    ensures
        congruent(m.determinant().0 as int, int_det_3(m)),
{
    lemma_det_3(m);
}

/// The determinant of a 4 by 4 matrix of whole numbers is its determinant
/// over the integers, wrapped round.
pub proof fn lemma_whole_determinant_4(m: Matrix<Whole, 4, 4>)
    ensures
        congruent(m.determinant().0 as int, int_det_4(m)),
{
    lemma_whole_expansion_is_determinant_4(m);
    lemma_expansion_4(m);
}

/// The inverse of a 4 by 4 matrix of whole numbers whose determinant is
/// one or minus one, times the matrix, is the identity.
pub proof fn lemma_whole_inverse_4(
    m: Matrix<Whole, 4, 4>,
    inv: Matrix<Whole, 4, 4>,
    r: Matrix<Whole, 4, 4>,
)
    requires
        is_unit(m.determinant()),
        inv.is_inverse(m),
        r.is_dot(inv, m),
    ensures
        r.is_identity(),
{
    reveal_with_fuel(Matrix::dot_sum, 5);
    lemma_whole_expansion_is_determinant_4(m);
    let d = m.expansion(4);
    let e = d.0 as int;
    lemma_expansion_4(m);
    lemma_unit_square(d, int_det_4(m));
    assert forall|j: int, i: int| 0 <= j < 4 && 0 <= i < 4 implies #[trigger] r.at(j, i) == (if j
        == i {
        Whole(1)
    } else {
        Whole(0)
    }) by {
        let c0 = int_cofactor_4(m, 0, j) * e;
        let c1 = int_cofactor_4(m, 1, j) * e;
        let c2 = int_cofactor_4(m, 2, j) * e;
        let c3 = int_cofactor_4(m, 3, j) * e;
        lemma_cofactor_4(m, 0, j);
        lemma_cofactor_4(m, 1, j);
        lemma_cofactor_4(m, 2, j);
        lemma_cofactor_4(m, 3, j);
        lemma_quotient_by_unit(m.cofactor(0, j), d, int_cofactor_4(m, 0, j));
        lemma_quotient_by_unit(m.cofactor(1, j), d, int_cofactor_4(m, 1, j));
        lemma_quotient_by_unit(m.cofactor(2, j), d, int_cofactor_4(m, 2, j));
        lemma_quotient_by_unit(m.cofactor(3, j), d, int_cofactor_4(m, 3, j));
        let t0 = m.at(0, i).mul_spec(inv.at(j, 0));
        let t1 = m.at(1, i).mul_spec(inv.at(j, 1));
        let t2 = m.at(2, i).mul_spec(inv.at(j, 2));
        let t3 = m.at(3, i).mul_spec(inv.at(j, 3));
        lemma_product(m.at(0, i), inv.at(j, 0), entry(m, 0, i), c0);
        lemma_product(m.at(1, i), inv.at(j, 1), entry(m, 1, i), c1);
        lemma_product(m.at(2, i), inv.at(j, 2), entry(m, 2, i), c2);
        lemma_product(m.at(3, i), inv.at(j, 3), entry(m, 3, i), c3);
        let x0 = entry(m, 0, i) * c0;
        let x1 = entry(m, 1, i) * c1;
        let x2 = entry(m, 2, i) * c2;
        let x3 = entry(m, 3, i) * c3;
        let s1 = Whole(0).add_spec(t0);
        let s2 = s1.add_spec(t1);
        let s3 = s2.add_spec(t2);
        lemma_sum(Whole(0), t0, 0, x0);
        lemma_sum(s1, t1, 0 + x0, x1);
        lemma_sum(s2, t2, 0 + x0 + x1, x2);
        lemma_sum(s3, t3, 0 + x0 + x1 + x2, x3);
        lemma_adjugate_4(m, j, i, e);
        lemma_equal_if_congruent(r.at(j, i), if j == i { 1 } else { 0 });
    }
}

} // verus!
