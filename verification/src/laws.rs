use crate::matrix::Matrix;
use crate::scalar::{
    add_associates, add_commutes, mul_associates, mul_commutes, mul_distributes, neg_cancels, one,
    one_is_neutral, zero, zero_annihilates, zero_is_neutral, Scalar,
};
use vstd::prelude::*;

verus! {

/// Where the numbers' addition commutes, so does that of matrices:
/// `a + b == b + a`.
pub proof fn lemma_add_commutative<T: Scalar, const H: usize, const W: usize>(
    a: Matrix<T, H, W>,
    b: Matrix<T, H, W>,
    ab: Matrix<T, H, W>,
    ba: Matrix<T, H, W>,
)
    requires
        add_commutes::<T>(),
        ab.is_sum(a, b),
        ba.is_sum(b, a),
    ensures
        ab == ba,
{
    ab.lemma_equal_by_entries(ba);
}

/// Where the numbers' addition associates, so does that of matrices:
/// `(a + b) + c == a + (b + c)`.
pub proof fn lemma_add_associative<T: Scalar, const H: usize, const W: usize>(
    a: Matrix<T, H, W>,
    b: Matrix<T, H, W>,
    c: Matrix<T, H, W>,
    ab: Matrix<T, H, W>,
    bc: Matrix<T, H, W>,
    left: Matrix<T, H, W>,
    right: Matrix<T, H, W>,
)
    requires
        add_associates::<T>(),
        ab.is_sum(a, b),
        bc.is_sum(b, c),
        left.is_sum(ab, c),
        right.is_sum(a, bc),
    ensures
        left == right,
{
    left.lemma_equal_by_entries(right);
}

/// Where zero is neutral for the numbers' addition, the matrix of zeros is
/// for that of matrices: `a + 0 == a` and `0 + a == a`.
pub proof fn lemma_add_zero<T: Scalar, const H: usize, const W: usize>(
    a: Matrix<T, H, W>,
    z: Matrix<T, H, W>,
    az: Matrix<T, H, W>,
    za: Matrix<T, H, W>,
)
    requires
        zero_is_neutral::<T>(),
        z.is_filled(zero::<T>()),
        az.is_sum(a, z),
        za.is_sum(z, a),
    ensures
        az == a,
        za == a,
{
    az.lemma_equal_by_entries(a);
    za.lemma_equal_by_entries(a);
}

/// Where a number plus its negation is zero, a matrix plus its negation is
/// the matrix of zeros: `a + (-a) == 0`.
pub proof fn lemma_add_negation<T: Scalar, const H: usize, const W: usize>(
    a: Matrix<T, H, W>,
    n: Matrix<T, H, W>,
    r: Matrix<T, H, W>,
)
    requires
        neg_cancels::<T>(),
        n.is_negation(a),
        r.is_sum(a, n),
    ensures
        r.is_filled(zero::<T>()),
{
}

/// Where one is neutral for the numbers' multiplication, the matrix of
/// ones is for the entrywise product: `a * 1 == a` and `1 * a == a`.
pub proof fn lemma_mul_ones<T: Scalar, const H: usize, const W: usize>(
    a: Matrix<T, H, W>,
    o: Matrix<T, H, W>,
    ao: Matrix<T, H, W>,
    oa: Matrix<T, H, W>,
)
    requires
        one_is_neutral::<T>(),
        o.is_filled(one::<T>()),
        ao.is_product(a, o),
        oa.is_product(o, a),
    ensures
        ao == a,
        oa == a,
{
    ao.lemma_equal_by_entries(a);
    oa.lemma_equal_by_entries(a);
}

/// Where the numbers' multiplication commutes, so does the entrywise
/// product: `a * b == b * a`.
pub proof fn lemma_mul_commutative<T: Scalar, const H: usize, const W: usize>(
    a: Matrix<T, H, W>,
    b: Matrix<T, H, W>,
    ab: Matrix<T, H, W>,
    ba: Matrix<T, H, W>,
)
    requires
        mul_commutes::<T>(),
        ab.is_product(a, b),
        ba.is_product(b, a),
    ensures
        ab == ba,
{
    ab.lemma_equal_by_entries(ba);
}

/// Where the numbers' multiplication associates, so does the entrywise
/// product: `(a * b) * c == a * (b * c)`.
pub proof fn lemma_mul_associative<T: Scalar, const H: usize, const W: usize>(
    a: Matrix<T, H, W>,
    b: Matrix<T, H, W>,
    c: Matrix<T, H, W>,
    ab: Matrix<T, H, W>,
    bc: Matrix<T, H, W>,
    left: Matrix<T, H, W>,
    right: Matrix<T, H, W>,
)
    requires
        mul_associates::<T>(),
        ab.is_product(a, b),
        bc.is_product(b, c),
        left.is_product(ab, c),
        right.is_product(a, bc),
    ensures
        left == right,
{
    left.lemma_equal_by_entries(right);
}

/// Where the numbers' multiplication distributes over their addition, the
/// entrywise product does over the sum: `a * (b + c) == a * b + a * c`.
pub proof fn lemma_mul_distributive<T: Scalar, const H: usize, const W: usize>(
    a: Matrix<T, H, W>,
    b: Matrix<T, H, W>,
    c: Matrix<T, H, W>,
    bc: Matrix<T, H, W>,
    ab: Matrix<T, H, W>,
    ac: Matrix<T, H, W>,
    left: Matrix<T, H, W>,
    right: Matrix<T, H, W>,
)
    requires
        mul_distributes::<T>(),
        bc.is_sum(b, c),
        ab.is_product(a, b),
        ac.is_product(a, c),
        left.is_product(a, bc),
        right.is_sum(ab, ac),
    ensures
        left == right,
{
    left.lemma_equal_by_entries(right);
}

/// Transposing twice gives the matrix back, whatever the numbers are.
pub proof fn lemma_transpose_involutive<T: Scalar, const H: usize, const W: usize>(
    m: Matrix<T, H, W>,
    t: Matrix<T, W, H>,
    tt: Matrix<T, H, W>,
)
    requires
        t.is_transpose(m),
        tt.is_transpose(t),
    ensures
        tt == m,
{
    assert forall|j: int, i: int| 0 <= j < H && 0 <= i < W implies #[trigger] tt.at(j, i) == m.at(
        j,
        i,
    ) by {
        assert(tt.at(j, i) == t.at(i, j));
    }
    tt.lemma_equal_by_entries(m);
}

proof fn lemma_dot_sum_transposed<T: Scalar, const H: usize, const K: usize, const W: usize>(
    a: Matrix<T, H, K>,
    b: Matrix<T, K, W>,
    at: Matrix<T, K, H>,
    bt: Matrix<T, W, K>,
    y: int,
    x: int,
    n: nat,
)
    requires
        mul_commutes::<T>(),
        at.is_transpose(a),
        bt.is_transpose(b),
        0 <= y < H,
        0 <= x < W,
        n <= K,
    ensures
        bt.dot_sum(at, x, y, n) == a.dot_sum(b, y, x, n),
    decreases n,
{
    if n > 0 {
        lemma_dot_sum_transposed(a, b, at, bt, y, x, (n - 1) as nat);
        assert(at.at(n - 1, y) == a.at(y, n - 1));
        assert(bt.at(x, n - 1) == b.at(n - 1, x));
    }
}

/// Where the numbers' multiplication commutes, the transpose of a matrix
/// product is the product of the transposes the other way round:
/// `(a . b)^T == b^T . a^T`.
pub proof fn lemma_dot_transpose<T: Scalar, const H: usize, const K: usize, const W: usize>(
    a: Matrix<T, H, K>,
    b: Matrix<T, K, W>,
    ab: Matrix<T, H, W>,
    abt: Matrix<T, W, H>,
    at: Matrix<T, K, H>,
    bt: Matrix<T, W, K>,
    btat: Matrix<T, W, H>,
)
    requires
        mul_commutes::<T>(),
        ab.is_dot(a, b),
        abt.is_transpose(ab),
        at.is_transpose(a),
        bt.is_transpose(b),
        btat.is_dot(bt, at),
    ensures
        abt == btat,
{
    assert forall|j: int, i: int| 0 <= j < W && 0 <= i < H implies #[trigger] abt.at(j, i)
        == btat.at(j, i) by {
        lemma_dot_sum_transposed(a, b, at, bt, i, j, K as nat);
        assert(abt.at(j, i) == ab.at(i, j));
    }
    abt.lemma_equal_by_entries(btat);
}

proof fn lemma_dot_sum_identity_right<T: Scalar, const H: usize, const W: usize>(
    m: Matrix<T, H, W>,
    id: Matrix<T, W, W>,
    y: int,
    x: int,
    n: nat,
)
    requires
        zero_is_neutral::<T>(),
        one_is_neutral::<T>(),
        zero_annihilates::<T>(),
        id.is_identity(),
        0 <= y < H,
        0 <= x < W,
        n <= W,
    ensures
        m.dot_sum(id, y, x, n) == (if n <= x {
            zero::<T>()
        } else {
            m.at(y, x)
        }),
    decreases n,
{
    if n > 0 {
        lemma_dot_sum_identity_right(m, id, y, x, (n - 1) as nat);
        let k = n - 1;
        let term = id.at(k, x).mul_spec(m.at(y, k));
        if k == x {
            assert(id.at(k, x) == one::<T>());
            assert(term == m.at(y, x));
        } else {
            assert(id.at(k, x) == zero::<T>());
            assert(term == zero::<T>());
        }
    }
}

proof fn lemma_dot_sum_identity_left<T: Scalar, const H: usize, const W: usize>(
    id: Matrix<T, H, H>,
    m: Matrix<T, H, W>,
    y: int,
    x: int,
    n: nat,
)
    requires
        zero_is_neutral::<T>(),
        one_is_neutral::<T>(),
        zero_annihilates::<T>(),
        id.is_identity(),
        0 <= y < H,
        0 <= x < W,
        n <= H,
    ensures
        id.dot_sum(m, y, x, n) == (if n <= y {
            zero::<T>()
        } else {
            m.at(y, x)
        }),
    decreases n,
{
    if n > 0 {
        lemma_dot_sum_identity_left(id, m, y, x, (n - 1) as nat);
        let k = n - 1;
        let term = m.at(k, x).mul_spec(id.at(y, k));
        if k == y {
            assert(id.at(y, k) == one::<T>());
            assert(term == m.at(y, x));
        } else {
            assert(id.at(y, k) == zero::<T>());
            assert(term == zero::<T>());
        }
    }
}

/// Where zero and one are neutral and zero annihilates, the identity is
/// neutral for the matrix product on the right: `m . identity == m`.
pub proof fn lemma_dot_identity_right<T: Scalar, const H: usize, const W: usize>(
    m: Matrix<T, H, W>,
    id: Matrix<T, W, W>,
    r: Matrix<T, H, W>,
)
    requires
        zero_is_neutral::<T>(),
        one_is_neutral::<T>(),
        zero_annihilates::<T>(),
        id.is_identity(),
        r.is_dot(m, id),
    ensures
        r == m,
{
    assert forall|j: int, i: int| 0 <= j < H && 0 <= i < W implies #[trigger] r.at(j, i) == m.at(
        j,
        i,
    ) by {
        lemma_dot_sum_identity_right(m, id, j, i, W as nat);
    }
    r.lemma_equal_by_entries(m);
}

/// Where zero and one are neutral and zero annihilates, the identity is
/// neutral for the matrix product on the left: `identity . m == m`.
pub proof fn lemma_dot_identity_left<T: Scalar, const H: usize, const W: usize>(
    id: Matrix<T, H, H>,
    m: Matrix<T, H, W>,
    r: Matrix<T, H, W>,
)
    requires
        zero_is_neutral::<T>(),
        one_is_neutral::<T>(),
        zero_annihilates::<T>(),
        id.is_identity(),
        r.is_dot(id, m),
    ensures
        r == m,
{
    assert forall|j: int, i: int| 0 <= j < H && 0 <= i < W implies #[trigger] r.at(j, i) == m.at(
        j,
        i,
    ) by {
        lemma_dot_sum_identity_left(id, m, j, i, H as nat);
    }
    r.lemma_equal_by_entries(m);
}

/// Where zero is neutral and multiplication commutes, the divisor that the
/// inverse of a 3 by 3 matrix uses is the determinant.
pub proof fn lemma_expansion_is_determinant_3<T: Scalar>(m: Matrix<T, 3, 3>)
    requires
        zero_is_neutral::<T>(),
        mul_commutes::<T>(),
    ensures
        m.expansion(3) == m.determinant(),
{
    assert(m.expansion(0) == zero::<T>());
    assert(m.expansion(1) == m.without(0, 0).determinant().mul_spec(m.at(0, 0)));
    assert(m.expansion(2) == m.expansion(1).sub_spec(
        m.without(0, 1).determinant().mul_spec(m.at(0, 1)),
    ));
}

/// Where zero is neutral and multiplication commutes, the divisor that the
/// inverse of a 4 by 4 matrix uses is the determinant.
pub proof fn lemma_expansion_is_determinant_4<T: Scalar>(m: Matrix<T, 4, 4>)
    requires
        zero_is_neutral::<T>(),
        mul_commutes::<T>(),
    ensures
        m.expansion(4) == m.determinant(),
{
    assert(m.expansion(0) == zero::<T>());
    assert(m.expansion(1) == m.without(0, 0).determinant().mul_spec(m.at(0, 0)));
    assert(m.expansion(2) == m.expansion(1).sub_spec(
        m.without(0, 1).determinant().mul_spec(m.at(0, 1)),
    ));
    assert(m.expansion(3) == m.expansion(2).add_spec(
        m.without(0, 2).determinant().mul_spec(m.at(0, 2)),
    ));
}

} // verus!
