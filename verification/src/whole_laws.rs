use crate::laws::{
    lemma_add_associative, lemma_add_commutative, lemma_add_negation, lemma_add_zero,
    lemma_dot_identity_left, lemma_dot_identity_right, lemma_dot_transpose,
    lemma_expansion_is_determinant_3, lemma_expansion_is_determinant_4, lemma_mul_associative,
    lemma_mul_commutative, lemma_mul_distributive, lemma_mul_ones,
};
use crate::matrix::Matrix;
use crate::scalar::{one, zero};
use crate::whole::{lemma_whole_is_a_ring, Whole};
use vstd::prelude::*;

verus! {

/// Sums of matrices of whole numbers commute: `a + b == b + a`.
pub proof fn lemma_whole_add_commutative<const H: usize, const W: usize>(
    a: Matrix<Whole, H, W>,
    b: Matrix<Whole, H, W>,
    ab: Matrix<Whole, H, W>,
    ba: Matrix<Whole, H, W>,
)
    requires
        ab.is_sum(a, b),
        ba.is_sum(b, a),
    ensures
        ab == ba,
{
    lemma_whole_is_a_ring();
    lemma_add_commutative(a, b, ab, ba);
}

/// Sums of matrices of whole numbers associate:
/// `(a + b) + c == a + (b + c)`.
pub proof fn lemma_whole_add_associative<const H: usize, const W: usize>(
    a: Matrix<Whole, H, W>,
    b: Matrix<Whole, H, W>,
    c: Matrix<Whole, H, W>,
    ab: Matrix<Whole, H, W>,
    bc: Matrix<Whole, H, W>,
    left: Matrix<Whole, H, W>,
    right: Matrix<Whole, H, W>,
)
    requires
        ab.is_sum(a, b),
        bc.is_sum(b, c),
        left.is_sum(ab, c),
        right.is_sum(a, bc),
    ensures
        left == right,
{
    lemma_whole_is_a_ring();
    lemma_add_associative(a, b, c, ab, bc, left, right);
}

/// The matrix of zeros is neutral for the sum of matrices of whole
/// numbers: `a + 0 == a` and `0 + a == a`.
pub proof fn lemma_whole_add_zero<const H: usize, const W: usize>(
    a: Matrix<Whole, H, W>,
    z: Matrix<Whole, H, W>,
    az: Matrix<Whole, H, W>,
    za: Matrix<Whole, H, W>,
)
    requires
        z.is_filled(zero::<Whole>()),
        az.is_sum(a, z),
        za.is_sum(z, a),
    ensures
        az == a,
        za == a,
{
    lemma_whole_is_a_ring();
    lemma_add_zero(a, z, az, za);
}

/// A matrix of whole numbers plus its negation is the matrix of zeros:
/// `a + (-a) == 0`.
pub proof fn lemma_whole_add_negation<const H: usize, const W: usize>(
    a: Matrix<Whole, H, W>,
    n: Matrix<Whole, H, W>,
    r: Matrix<Whole, H, W>,
)
    requires
        n.is_negation(a),
        r.is_sum(a, n),
    ensures
        r.is_filled(zero::<Whole>()),
{
    lemma_whole_is_a_ring();
    lemma_add_negation(a, n, r);
}

/// The matrix of ones is neutral for the entrywise product of matrices of
/// whole numbers: `a * 1 == a` and `1 * a == a`.
pub proof fn lemma_whole_mul_ones<const H: usize, const W: usize>(
    a: Matrix<Whole, H, W>,
    o: Matrix<Whole, H, W>,
    ao: Matrix<Whole, H, W>,
    oa: Matrix<Whole, H, W>,
)
    requires
        o.is_filled(one::<Whole>()),
        ao.is_product(a, o),
        oa.is_product(o, a),
    ensures
        ao == a,
        oa == a,
{
    lemma_whole_is_a_ring();
    lemma_mul_ones(a, o, ao, oa);
}

/// Entrywise products of matrices of whole numbers commute:
/// `a * b == b * a`.
pub proof fn lemma_whole_mul_commutative<const H: usize, const W: usize>(
    a: Matrix<Whole, H, W>,
    b: Matrix<Whole, H, W>,
    ab: Matrix<Whole, H, W>,
    ba: Matrix<Whole, H, W>,
)
    requires
        ab.is_product(a, b),
        ba.is_product(b, a),
    ensures
        ab == ba,
{
    lemma_whole_is_a_ring();
    lemma_mul_commutative(a, b, ab, ba);
}

/// Entrywise products of matrices of whole numbers associate:
/// `(a * b) * c == a * (b * c)`.
pub proof fn lemma_whole_mul_associative<const H: usize, const W: usize>(
    a: Matrix<Whole, H, W>,
    b: Matrix<Whole, H, W>,
    c: Matrix<Whole, H, W>,
    ab: Matrix<Whole, H, W>,
    bc: Matrix<Whole, H, W>,
    left: Matrix<Whole, H, W>,
    right: Matrix<Whole, H, W>,
)
    requires
        ab.is_product(a, b),
        bc.is_product(b, c),
        left.is_product(ab, c),
        right.is_product(a, bc),
    ensures
        left == right,
{
    lemma_whole_is_a_ring();
    lemma_mul_associative(a, b, c, ab, bc, left, right);
}

/// The entrywise product of matrices of whole numbers distributes over
/// their sum: `a * (b + c) == a * b + a * c`.
pub proof fn lemma_whole_mul_distributive<const H: usize, const W: usize>(
    a: Matrix<Whole, H, W>,
    b: Matrix<Whole, H, W>,
    c: Matrix<Whole, H, W>,
    bc: Matrix<Whole, H, W>,
    ab: Matrix<Whole, H, W>,
    ac: Matrix<Whole, H, W>,
    left: Matrix<Whole, H, W>,
    right: Matrix<Whole, H, W>,
)
    requires
        bc.is_sum(b, c),
        ab.is_product(a, b),
        ac.is_product(a, c),
        left.is_product(a, bc),
        right.is_sum(ab, ac),
    ensures
        left == right,
{
    lemma_whole_is_a_ring();
    lemma_mul_distributive(a, b, c, bc, ab, ac, left, right);
}

/// The transpose of a product of matrices of whole numbers is the product
/// of the transposes the other way round: `(a . b)^T == b^T . a^T`.
pub proof fn lemma_whole_dot_transpose<const H: usize, const K: usize, const W: usize>(
    a: Matrix<Whole, H, K>,
    b: Matrix<Whole, K, W>,
    ab: Matrix<Whole, H, W>,
    abt: Matrix<Whole, W, H>,
    at: Matrix<Whole, K, H>,
    bt: Matrix<Whole, W, K>,
    btat: Matrix<Whole, W, H>,
)
    requires
        ab.is_dot(a, b),
        abt.is_transpose(ab),
        at.is_transpose(a),
        bt.is_transpose(b),
        btat.is_dot(bt, at),
    ensures
        abt == btat,
{
    lemma_whole_is_a_ring();
    lemma_dot_transpose(a, b, ab, abt, at, bt, btat);
}

/// The identity is neutral on the right for the product of matrices of
/// whole numbers: `m . identity == m`.
pub proof fn lemma_whole_dot_identity_right<const H: usize, const W: usize>(
    m: Matrix<Whole, H, W>,
    id: Matrix<Whole, W, W>,
    r: Matrix<Whole, H, W>,
)
    requires
        id.is_identity(),
        r.is_dot(m, id),
    ensures
        r == m,
{
    lemma_whole_is_a_ring();
    lemma_dot_identity_right(m, id, r);
}

/// The identity is neutral on the left for the product of matrices of
/// whole numbers: `identity . m == m`.
pub proof fn lemma_whole_dot_identity_left<const H: usize, const W: usize>(
    id: Matrix<Whole, H, H>,
    m: Matrix<Whole, H, W>,
    r: Matrix<Whole, H, W>,
)
    requires
        id.is_identity(),
        r.is_dot(id, m),
    ensures
        r == m,
{
    lemma_whole_is_a_ring();
    lemma_dot_identity_left(id, m, r);
}

/// The divisor that the inverse of a 3 by 3 matrix of whole numbers uses
/// is its determinant.
pub proof fn lemma_whole_expansion_is_determinant_3(m: Matrix<Whole, 3, 3>)
    ensures
        m.expansion(3) == m.determinant(),
{
    lemma_whole_is_a_ring();
    lemma_expansion_is_determinant_3(m);
}

/// The divisor that the inverse of a 4 by 4 matrix of whole numbers uses
/// is its determinant.
pub proof fn lemma_whole_expansion_is_determinant_4(m: Matrix<Whole, 4, 4>)
    ensures
        m.expansion(4) == m.determinant(),
{
    lemma_whole_is_a_ring();
    lemma_expansion_is_determinant_4(m);
}

} // verus!
