use vstd::prelude::*;

verus! {

/// The adjugate of a 2 by 2 matrix times the matrix is the determinant
/// times the identity, here with every entry of the adjugate times `e`.
pub proof fn lemma_adjugate_2(a: int, b: int, c: int, d: int, e: int)
    ensures
        a * (d * e) + c * ((-b) * e) == (a * d - b * c) * e,
        b * (d * e) + d * ((-b) * e) == 0,
        a * ((-c) * e) + c * (a * e) == 0,
        b * ((-c) * e) + d * (a * e) == (a * d - b * c) * e,
{
    assert(a * (d * e) + c * ((-b) * e) == (a * d - b * c) * e) by (nonlinear_arith);
    assert(b * (d * e) + d * ((-b) * e) == 0) by (nonlinear_arith);
    assert(a * ((-c) * e) + c * (a * e) == 0) by (nonlinear_arith);
    assert(b * ((-c) * e) + d * (a * e) == (a * d - b * c) * e) by (nonlinear_arith);
}

/// The adjugate of a 3 by 3 matrix of integers times the matrix is the
/// determinant times the identity. Each product of an entry and a cofactor
/// is first written out as a sum of products of entries; the sums then
/// cancel term by term.
pub proof fn lemma_adjugate_3_ints(
    m00: int,
    m01: int,
    m02: int,
    m10: int,
    m11: int,
    m12: int,
    m20: int,
    m21: int,
    m22: int,
)
    ensures
        m00 * (m11 * m22 - m12 * m21) + m10 * (-(m01 * m22 - m02 * m21)) + m20 * (m01 * m12 -
            m02 * m11) == m00 * (m11 * m22 - m12 * m21) - m01 * (m10 * m22 - m12 * m20) + m02 *
            (m10 * m21 - m11 * m20),
        m01 * (m11 * m22 - m12 * m21) + m11 * (-(m01 * m22 - m02 * m21)) + m21 * (m01 * m12 -
            m02 * m11) == 0,
        m02 * (m11 * m22 - m12 * m21) + m12 * (-(m01 * m22 - m02 * m21)) + m22 * (m01 * m12 -
            m02 * m11) == 0,
        m00 * (-(m10 * m22 - m12 * m20)) + m10 * (m00 * m22 - m02 * m20) + m20 * (-(m00 * m12 -
            m02 * m10)) == 0,
        m01 * (-(m10 * m22 - m12 * m20)) + m11 * (m00 * m22 - m02 * m20) + m21 * (-(m00 * m12 -
            m02 * m10)) == m00 * (m11 * m22 - m12 * m21) - m01 * (m10 * m22 - m12 * m20) + m02 *
            (m10 * m21 - m11 * m20),
        m02 * (-(m10 * m22 - m12 * m20)) + m12 * (m00 * m22 - m02 * m20) + m22 * (-(m00 * m12 -
            m02 * m10)) == 0,
        m00 * (m10 * m21 - m11 * m20) + m10 * (-(m00 * m21 - m01 * m20)) + m20 * (m00 * m11 -
            m01 * m10) == 0,
        m01 * (m10 * m21 - m11 * m20) + m11 * (-(m00 * m21 - m01 * m20)) + m21 * (m00 * m11 -
            m01 * m10) == 0,
        m02 * (m10 * m21 - m11 * m20) + m12 * (-(m00 * m21 - m01 * m20)) + m22 * (m00 * m11 -
            m01 * m10) == m00 * (m11 * m22 - m12 * m21) - m01 * (m10 * m22 - m12 * m20) + m02 *
            (m10 * m21 - m11 * m20),
{
    assert(m00 * (m11 * m22 - m12 * m21) == m00 * m11 * m22 - m00 * m12 * m21) by (nonlinear_arith);
    assert(m01 * (m10 * m22 - m12 * m20) == m01 * m10 * m22 - m01 * m12 * m20) by (nonlinear_arith);
    assert(m02 * (m10 * m21 - m11 * m20) == m02 * m10 * m21 - m02 * m11 * m20) by (nonlinear_arith);
    assert(m10 * (-(m01 * m22 - m02 * m21)) == -(m01 * m10 * m22) + m02 * m10 * m21) by (nonlinear_arith);
    assert(m20 * (m01 * m12 - m02 * m11) == m01 * m12 * m20 - m02 * m11 * m20) by (nonlinear_arith);
    assert(m01 * (m11 * m22 - m12 * m21) == m01 * m11 * m22 - m01 * m12 * m21) by (nonlinear_arith);
    assert(m11 * (-(m01 * m22 - m02 * m21)) == -(m01 * m11 * m22) + m02 * m11 * m21) by (nonlinear_arith);
    assert(m21 * (m01 * m12 - m02 * m11) == m01 * m12 * m21 - m02 * m11 * m21) by (nonlinear_arith);
    assert(m02 * (m11 * m22 - m12 * m21) == m02 * m11 * m22 - m02 * m12 * m21) by (nonlinear_arith);
    assert(m12 * (-(m01 * m22 - m02 * m21)) == -(m01 * m12 * m22) + m02 * m12 * m21) by (nonlinear_arith);
    assert(m22 * (m01 * m12 - m02 * m11) == m01 * m12 * m22 - m02 * m11 * m22) by (nonlinear_arith);
    assert(m00 * (-(m10 * m22 - m12 * m20)) == -(m00 * m10 * m22) + m00 * m12 * m20) by (nonlinear_arith);
    assert(m10 * (m00 * m22 - m02 * m20) == m00 * m10 * m22 - m02 * m10 * m20) by (nonlinear_arith);
    assert(m20 * (-(m00 * m12 - m02 * m10)) == -(m00 * m12 * m20) + m02 * m10 * m20) by (nonlinear_arith);
    assert(m01 * (-(m10 * m22 - m12 * m20)) == -(m01 * m10 * m22) + m01 * m12 * m20) by (nonlinear_arith);
    assert(m11 * (m00 * m22 - m02 * m20) == m00 * m11 * m22 - m02 * m11 * m20) by (nonlinear_arith);
    assert(m21 * (-(m00 * m12 - m02 * m10)) == -(m00 * m12 * m21) + m02 * m10 * m21) by (nonlinear_arith);
    assert(m02 * (-(m10 * m22 - m12 * m20)) == -(m02 * m10 * m22) + m02 * m12 * m20) by (nonlinear_arith);
    assert(m12 * (m00 * m22 - m02 * m20) == m00 * m12 * m22 - m02 * m12 * m20) by (nonlinear_arith);
    assert(m22 * (-(m00 * m12 - m02 * m10)) == -(m00 * m12 * m22) + m02 * m10 * m22) by (nonlinear_arith);
    assert(m00 * (m10 * m21 - m11 * m20) == m00 * m10 * m21 - m00 * m11 * m20) by (nonlinear_arith);
    assert(m10 * (-(m00 * m21 - m01 * m20)) == -(m00 * m10 * m21) + m01 * m10 * m20) by (nonlinear_arith);
    assert(m20 * (m00 * m11 - m01 * m10) == m00 * m11 * m20 - m01 * m10 * m20) by (nonlinear_arith);
    assert(m01 * (m10 * m21 - m11 * m20) == m01 * m10 * m21 - m01 * m11 * m20) by (nonlinear_arith);
    assert(m11 * (-(m00 * m21 - m01 * m20)) == -(m00 * m11 * m21) + m01 * m11 * m20) by (nonlinear_arith);
    assert(m21 * (m00 * m11 - m01 * m10) == m00 * m11 * m21 - m01 * m10 * m21) by (nonlinear_arith);
    assert(m12 * (-(m00 * m21 - m01 * m20)) == -(m00 * m12 * m21) + m01 * m12 * m20) by (nonlinear_arith);
    assert(m22 * (m00 * m11 - m01 * m10) == m00 * m11 * m22 - m01 * m10 * m22) by (nonlinear_arith);
}

/// `x` times the determinant of the 3 by 3 matrix of integers with the
/// rows `a b c`, `d e f`, `g h i`, written out as a sum of products, and
/// the same for `x` times the determinant negated.
pub proof fn lemma_term_4(
    x: int,
    a: int,
    b: int,
    c: int,
    d: int,
    e: int,
    f: int,
    g: int,
    h: int,
    i: int,
)
    ensures
        x * (a * (e * i - f * h) - b * (d * i - f * g) + c * (d * h - e * g)) == x * a * e * i - x
            * a * f * h - x * b * d * i + x * b * f * g + x * c * d * h - x * c * e * g,
        x * (-(a * (e * i - f * h) - b * (d * i - f * g) + c * (d * h - e * g))) == -(x * a * e
            * i) + x * a * f * h + x * b * d * i - x * b * f * g - x * c * d * h + x * c * e * g,
{
    let det = a * (e * i - f * h) - b * (d * i - f * g) + c * (d * h - e * g);
    let n1 = a * e * i;
    let n2 = a * f * h;
    let n3 = b * d * i;
    let n4 = b * f * g;
    let n5 = c * d * h;
    let n6 = c * e * g;
    assert(a * (e * i - f * h) == a * e * i - a * f * h) by (nonlinear_arith);
    assert(b * (d * i - f * g) == b * d * i - b * f * g) by (nonlinear_arith);
    assert(c * (d * h - e * g) == c * d * h - c * e * g) by (nonlinear_arith);
    assert(x * det == x * n1 - x * n2 - x * n3 + x * n4 + x * n5 - x * n6) by (nonlinear_arith)
        requires
            det == n1 - n2 - n3 + n4 + n5 - n6,
    ;
    assert(x * (-det) == -(x * det)) by (nonlinear_arith);
    assert(x * n1 == x * a * e * i) by (nonlinear_arith)
        requires
            n1 == a * e * i,
    ;
    assert(x * n2 == x * a * f * h) by (nonlinear_arith)
        requires
            n2 == a * f * h,
    ;
    assert(x * n3 == x * b * d * i) by (nonlinear_arith)
        requires
            n3 == b * d * i,
    ;
    assert(x * n4 == x * b * f * g) by (nonlinear_arith)
        requires
            n4 == b * f * g,
    ;
    assert(x * n5 == x * c * d * h) by (nonlinear_arith)
        requires
            n5 == c * d * h,
    ;
    assert(x * n6 == x * c * e * g) by (nonlinear_arith)
        requires
            n6 == c * e * g,
    ;
}

/// Column 0 of the adjugate of a 4 by 4 matrix of integers against each
/// column of the matrix: the determinant against column 0, zero against
/// the others. Each product of an entry and a cofactor is written out as
/// a sum of products of four entries in one order; the sums then cancel
/// term by term.
pub proof fn lemma_adjugate_4_column_0(
    m00: int,
    m01: int,
    m02: int,
    m03: int,
    m10: int,
    m11: int,
    m12: int,
    m13: int,
    m20: int,
    m21: int,
    m22: int,
    m23: int,
    m30: int,
    m31: int,
    m32: int,
    m33: int,
)
    ensures
        m00 * (m11 * (m22 * m33 - m23 * m32) - m12 * (m21 * m33 - m23 * m31) + m13 * (m21 * m32
            - m22 * m31)) + m10 * (-(m01 * (m22 * m33 - m23 * m32) - m02 * (m21 * m33 - m23 *
            m31) + m03 * (m21 * m32 - m22 * m31))) + m20 * (m01 * (m12 * m33 - m13 * m32) - m02
            * (m11 * m33 - m13 * m31) + m03 * (m11 * m32 - m12 * m31)) + m30 * (-(m01 * (m12 *
            m23 - m13 * m22) - m02 * (m11 * m23 - m13 * m21) + m03 * (m11 * m22 - m12 * m21)))
            == m00 * (m11 * (m22 * m33 - m23 * m32) - m12 * (m21 * m33 - m23 * m31) + m13 * (m21
            * m32 - m22 * m31)) - m01 * (m10 * (m22 * m33 - m23 * m32) - m12 * (m20 * m33 - m23
            * m30) + m13 * (m20 * m32 - m22 * m30)) + m02 * (m10 * (m21 * m33 - m23 * m31) - m11
            * (m20 * m33 - m23 * m30) + m13 * (m20 * m31 - m21 * m30)) - m03 * (m10 * (m21 * m32
            - m22 * m31) - m11 * (m20 * m32 - m22 * m30) + m12 * (m20 * m31 - m21 * m30)),
        m01 * (m11 * (m22 * m33 - m23 * m32) - m12 * (m21 * m33 - m23 * m31) + m13 * (m21 * m32
            - m22 * m31)) + m11 * (-(m01 * (m22 * m33 - m23 * m32) - m02 * (m21 * m33 - m23 *
            m31) + m03 * (m21 * m32 - m22 * m31))) + m21 * (m01 * (m12 * m33 - m13 * m32) - m02
            * (m11 * m33 - m13 * m31) + m03 * (m11 * m32 - m12 * m31)) + m31 * (-(m01 * (m12 *
            m23 - m13 * m22) - m02 * (m11 * m23 - m13 * m21) + m03 * (m11 * m22 - m12 * m21)))
            == 0,
        m02 * (m11 * (m22 * m33 - m23 * m32) - m12 * (m21 * m33 - m23 * m31) + m13 * (m21 * m32
            - m22 * m31)) + m12 * (-(m01 * (m22 * m33 - m23 * m32) - m02 * (m21 * m33 - m23 *
            m31) + m03 * (m21 * m32 - m22 * m31))) + m22 * (m01 * (m12 * m33 - m13 * m32) - m02
            * (m11 * m33 - m13 * m31) + m03 * (m11 * m32 - m12 * m31)) + m32 * (-(m01 * (m12 *
            m23 - m13 * m22) - m02 * (m11 * m23 - m13 * m21) + m03 * (m11 * m22 - m12 * m21)))
            == 0,
        m03 * (m11 * (m22 * m33 - m23 * m32) - m12 * (m21 * m33 - m23 * m31) + m13 * (m21 * m32
            - m22 * m31)) + m13 * (-(m01 * (m22 * m33 - m23 * m32) - m02 * (m21 * m33 - m23 *
            m31) + m03 * (m21 * m32 - m22 * m31))) + m23 * (m01 * (m12 * m33 - m13 * m32) - m02
            * (m11 * m33 - m13 * m31) + m03 * (m11 * m32 - m12 * m31)) + m33 * (-(m01 * (m12 *
            m23 - m13 * m22) - m02 * (m11 * m23 - m13 * m21) + m03 * (m11 * m22 - m12 * m21)))
            == 0,
{
    lemma_term_4(m00, m11, m12, m13, m21, m22, m23, m31, m32, m33);
    lemma_term_4(m01, m10, m12, m13, m20, m22, m23, m30, m32, m33);
    lemma_term_4(m02, m10, m11, m13, m20, m21, m23, m30, m31, m33);
    lemma_term_4(m03, m10, m11, m12, m20, m21, m22, m30, m31, m32);
    lemma_term_4(m10, m01, m02, m03, m21, m22, m23, m31, m32, m33);
    assert(m10 * m01 * m22 * m33 == m01 * m10 * m22 * m33) by (nonlinear_arith);
    assert(m10 * m01 * m23 * m32 == m01 * m10 * m23 * m32) by (nonlinear_arith);
    assert(m10 * m02 * m21 * m33 == m02 * m10 * m21 * m33) by (nonlinear_arith);
    assert(m10 * m02 * m23 * m31 == m02 * m10 * m23 * m31) by (nonlinear_arith);
    assert(m10 * m03 * m21 * m32 == m03 * m10 * m21 * m32) by (nonlinear_arith);
    assert(m10 * m03 * m22 * m31 == m03 * m10 * m22 * m31) by (nonlinear_arith);
    lemma_term_4(m20, m01, m02, m03, m11, m12, m13, m31, m32, m33);
    assert(m20 * m01 * m12 * m33 == m01 * m12 * m20 * m33) by (nonlinear_arith);
    assert(m20 * m01 * m13 * m32 == m01 * m13 * m20 * m32) by (nonlinear_arith);
    assert(m20 * m02 * m11 * m33 == m02 * m11 * m20 * m33) by (nonlinear_arith);
    assert(m20 * m02 * m13 * m31 == m02 * m13 * m20 * m31) by (nonlinear_arith);
    assert(m20 * m03 * m11 * m32 == m03 * m11 * m20 * m32) by (nonlinear_arith);
    assert(m20 * m03 * m12 * m31 == m03 * m12 * m20 * m31) by (nonlinear_arith);
    lemma_term_4(m30, m01, m02, m03, m11, m12, m13, m21, m22, m23);
    assert(m30 * m01 * m12 * m23 == m01 * m12 * m23 * m30) by (nonlinear_arith);
    assert(m30 * m01 * m13 * m22 == m01 * m13 * m22 * m30) by (nonlinear_arith);
    assert(m30 * m02 * m11 * m23 == m02 * m11 * m23 * m30) by (nonlinear_arith);
    assert(m30 * m02 * m13 * m21 == m02 * m13 * m21 * m30) by (nonlinear_arith);
    assert(m30 * m03 * m11 * m22 == m03 * m11 * m22 * m30) by (nonlinear_arith);
    assert(m30 * m03 * m12 * m21 == m03 * m12 * m21 * m30) by (nonlinear_arith);
    lemma_term_4(m01, m11, m12, m13, m21, m22, m23, m31, m32, m33);
    lemma_term_4(m11, m01, m02, m03, m21, m22, m23, m31, m32, m33);
    assert(m11 * m01 * m22 * m33 == m01 * m11 * m22 * m33) by (nonlinear_arith);
    assert(m11 * m01 * m23 * m32 == m01 * m11 * m23 * m32) by (nonlinear_arith);
    assert(m11 * m02 * m21 * m33 == m02 * m11 * m21 * m33) by (nonlinear_arith);
    assert(m11 * m02 * m23 * m31 == m02 * m11 * m23 * m31) by (nonlinear_arith);
    assert(m11 * m03 * m21 * m32 == m03 * m11 * m21 * m32) by (nonlinear_arith);
    assert(m11 * m03 * m22 * m31 == m03 * m11 * m22 * m31) by (nonlinear_arith);
    lemma_term_4(m21, m01, m02, m03, m11, m12, m13, m31, m32, m33);
    assert(m21 * m01 * m12 * m33 == m01 * m12 * m21 * m33) by (nonlinear_arith);
    assert(m21 * m01 * m13 * m32 == m01 * m13 * m21 * m32) by (nonlinear_arith);
    assert(m21 * m02 * m11 * m33 == m02 * m11 * m21 * m33) by (nonlinear_arith);
    assert(m21 * m02 * m13 * m31 == m02 * m13 * m21 * m31) by (nonlinear_arith);
    assert(m21 * m03 * m11 * m32 == m03 * m11 * m21 * m32) by (nonlinear_arith);
    assert(m21 * m03 * m12 * m31 == m03 * m12 * m21 * m31) by (nonlinear_arith);
    lemma_term_4(m31, m01, m02, m03, m11, m12, m13, m21, m22, m23);
    assert(m31 * m01 * m12 * m23 == m01 * m12 * m23 * m31) by (nonlinear_arith);
    assert(m31 * m01 * m13 * m22 == m01 * m13 * m22 * m31) by (nonlinear_arith);
    assert(m31 * m02 * m11 * m23 == m02 * m11 * m23 * m31) by (nonlinear_arith);
    assert(m31 * m02 * m13 * m21 == m02 * m13 * m21 * m31) by (nonlinear_arith);
    assert(m31 * m03 * m11 * m22 == m03 * m11 * m22 * m31) by (nonlinear_arith);
    assert(m31 * m03 * m12 * m21 == m03 * m12 * m21 * m31) by (nonlinear_arith);
    lemma_term_4(m02, m11, m12, m13, m21, m22, m23, m31, m32, m33);
    lemma_term_4(m12, m01, m02, m03, m21, m22, m23, m31, m32, m33);
    assert(m12 * m01 * m22 * m33 == m01 * m12 * m22 * m33) by (nonlinear_arith);
    assert(m12 * m01 * m23 * m32 == m01 * m12 * m23 * m32) by (nonlinear_arith);
    assert(m12 * m02 * m21 * m33 == m02 * m12 * m21 * m33) by (nonlinear_arith);
    assert(m12 * m02 * m23 * m31 == m02 * m12 * m23 * m31) by (nonlinear_arith);
    assert(m12 * m03 * m21 * m32 == m03 * m12 * m21 * m32) by (nonlinear_arith);
    assert(m12 * m03 * m22 * m31 == m03 * m12 * m22 * m31) by (nonlinear_arith);
    lemma_term_4(m22, m01, m02, m03, m11, m12, m13, m31, m32, m33);
    assert(m22 * m01 * m12 * m33 == m01 * m12 * m22 * m33) by (nonlinear_arith);
    assert(m22 * m01 * m13 * m32 == m01 * m13 * m22 * m32) by (nonlinear_arith);
    assert(m22 * m02 * m11 * m33 == m02 * m11 * m22 * m33) by (nonlinear_arith);
    assert(m22 * m02 * m13 * m31 == m02 * m13 * m22 * m31) by (nonlinear_arith);
    assert(m22 * m03 * m11 * m32 == m03 * m11 * m22 * m32) by (nonlinear_arith);
    assert(m22 * m03 * m12 * m31 == m03 * m12 * m22 * m31) by (nonlinear_arith);
    lemma_term_4(m32, m01, m02, m03, m11, m12, m13, m21, m22, m23);
    assert(m32 * m01 * m12 * m23 == m01 * m12 * m23 * m32) by (nonlinear_arith);
    assert(m32 * m01 * m13 * m22 == m01 * m13 * m22 * m32) by (nonlinear_arith);
    assert(m32 * m02 * m11 * m23 == m02 * m11 * m23 * m32) by (nonlinear_arith);
    assert(m32 * m02 * m13 * m21 == m02 * m13 * m21 * m32) by (nonlinear_arith);
    assert(m32 * m03 * m11 * m22 == m03 * m11 * m22 * m32) by (nonlinear_arith);
    assert(m32 * m03 * m12 * m21 == m03 * m12 * m21 * m32) by (nonlinear_arith);
    lemma_term_4(m03, m11, m12, m13, m21, m22, m23, m31, m32, m33);
    lemma_term_4(m13, m01, m02, m03, m21, m22, m23, m31, m32, m33);
    assert(m13 * m01 * m22 * m33 == m01 * m13 * m22 * m33) by (nonlinear_arith);
    assert(m13 * m01 * m23 * m32 == m01 * m13 * m23 * m32) by (nonlinear_arith);
    assert(m13 * m02 * m21 * m33 == m02 * m13 * m21 * m33) by (nonlinear_arith);
    assert(m13 * m02 * m23 * m31 == m02 * m13 * m23 * m31) by (nonlinear_arith);
    assert(m13 * m03 * m21 * m32 == m03 * m13 * m21 * m32) by (nonlinear_arith);
    assert(m13 * m03 * m22 * m31 == m03 * m13 * m22 * m31) by (nonlinear_arith);
    lemma_term_4(m23, m01, m02, m03, m11, m12, m13, m31, m32, m33);
    assert(m23 * m01 * m12 * m33 == m01 * m12 * m23 * m33) by (nonlinear_arith);
    assert(m23 * m01 * m13 * m32 == m01 * m13 * m23 * m32) by (nonlinear_arith);
    assert(m23 * m02 * m11 * m33 == m02 * m11 * m23 * m33) by (nonlinear_arith);
    assert(m23 * m02 * m13 * m31 == m02 * m13 * m23 * m31) by (nonlinear_arith);
    assert(m23 * m03 * m11 * m32 == m03 * m11 * m23 * m32) by (nonlinear_arith);
    assert(m23 * m03 * m12 * m31 == m03 * m12 * m23 * m31) by (nonlinear_arith);
    lemma_term_4(m33, m01, m02, m03, m11, m12, m13, m21, m22, m23);
    assert(m33 * m01 * m12 * m23 == m01 * m12 * m23 * m33) by (nonlinear_arith);
    assert(m33 * m01 * m13 * m22 == m01 * m13 * m22 * m33) by (nonlinear_arith);
    assert(m33 * m02 * m11 * m23 == m02 * m11 * m23 * m33) by (nonlinear_arith);
    assert(m33 * m02 * m13 * m21 == m02 * m13 * m21 * m33) by (nonlinear_arith);
    assert(m33 * m03 * m11 * m22 == m03 * m11 * m22 * m33) by (nonlinear_arith);
    assert(m33 * m03 * m12 * m21 == m03 * m12 * m21 * m33) by (nonlinear_arith);
}

/// Column 1 of the adjugate of a 4 by 4 matrix of integers against each
/// column of the matrix: the determinant against column 1, zero against
/// the others. Each product of an entry and a cofactor is written out as
/// a sum of products of four entries in one order; the sums then cancel
/// term by term.
pub proof fn lemma_adjugate_4_column_1(
    m00: int,
    m01: int,
    m02: int,
    m03: int,
    m10: int,
    m11: int,
    m12: int,
    m13: int,
    m20: int,
    m21: int,
    m22: int,
    m23: int,
    m30: int,
    m31: int,
    m32: int,
    m33: int,
)
    ensures
        m00 * (-(m10 * (m22 * m33 - m23 * m32) - m12 * (m20 * m33 - m23 * m30) + m13 * (m20 *
            m32 - m22 * m30))) + m10 * (m00 * (m22 * m33 - m23 * m32) - m02 * (m20 * m33 - m23 *
            m30) + m03 * (m20 * m32 - m22 * m30)) + m20 * (-(m00 * (m12 * m33 - m13 * m32) - m02
            * (m10 * m33 - m13 * m30) + m03 * (m10 * m32 - m12 * m30))) + m30 * (m00 * (m12 *
            m23 - m13 * m22) - m02 * (m10 * m23 - m13 * m20) + m03 * (m10 * m22 - m12 * m20)) ==
            0,
        m01 * (-(m10 * (m22 * m33 - m23 * m32) - m12 * (m20 * m33 - m23 * m30) + m13 * (m20 *
            m32 - m22 * m30))) + m11 * (m00 * (m22 * m33 - m23 * m32) - m02 * (m20 * m33 - m23 *
            m30) + m03 * (m20 * m32 - m22 * m30)) + m21 * (-(m00 * (m12 * m33 - m13 * m32) - m02
            * (m10 * m33 - m13 * m30) + m03 * (m10 * m32 - m12 * m30))) + m31 * (m00 * (m12 *
            m23 - m13 * m22) - m02 * (m10 * m23 - m13 * m20) + m03 * (m10 * m22 - m12 * m20)) ==
            m00 * (m11 * (m22 * m33 - m23 * m32) - m12 * (m21 * m33 - m23 * m31) + m13 * (m21 *
            m32 - m22 * m31)) - m01 * (m10 * (m22 * m33 - m23 * m32) - m12 * (m20 * m33 - m23 *
            m30) + m13 * (m20 * m32 - m22 * m30)) + m02 * (m10 * (m21 * m33 - m23 * m31) - m11 *
            (m20 * m33 - m23 * m30) + m13 * (m20 * m31 - m21 * m30)) - m03 * (m10 * (m21 * m32 -
            m22 * m31) - m11 * (m20 * m32 - m22 * m30) + m12 * (m20 * m31 - m21 * m30)),
        m02 * (-(m10 * (m22 * m33 - m23 * m32) - m12 * (m20 * m33 - m23 * m30) + m13 * (m20 *
            m32 - m22 * m30))) + m12 * (m00 * (m22 * m33 - m23 * m32) - m02 * (m20 * m33 - m23 *
            m30) + m03 * (m20 * m32 - m22 * m30)) + m22 * (-(m00 * (m12 * m33 - m13 * m32) - m02
            * (m10 * m33 - m13 * m30) + m03 * (m10 * m32 - m12 * m30))) + m32 * (m00 * (m12 *
            m23 - m13 * m22) - m02 * (m10 * m23 - m13 * m20) + m03 * (m10 * m22 - m12 * m20)) ==
            0,
        m03 * (-(m10 * (m22 * m33 - m23 * m32) - m12 * (m20 * m33 - m23 * m30) + m13 * (m20 *
            m32 - m22 * m30))) + m13 * (m00 * (m22 * m33 - m23 * m32) - m02 * (m20 * m33 - m23 *
            m30) + m03 * (m20 * m32 - m22 * m30)) + m23 * (-(m00 * (m12 * m33 - m13 * m32) - m02
            * (m10 * m33 - m13 * m30) + m03 * (m10 * m32 - m12 * m30))) + m33 * (m00 * (m12 *
            m23 - m13 * m22) - m02 * (m10 * m23 - m13 * m20) + m03 * (m10 * m22 - m12 * m20)) ==
            0,
{
    lemma_term_4(m00, m11, m12, m13, m21, m22, m23, m31, m32, m33);
    lemma_term_4(m01, m10, m12, m13, m20, m22, m23, m30, m32, m33);
    lemma_term_4(m02, m10, m11, m13, m20, m21, m23, m30, m31, m33);
    lemma_term_4(m03, m10, m11, m12, m20, m21, m22, m30, m31, m32);
    lemma_term_4(m00, m10, m12, m13, m20, m22, m23, m30, m32, m33);
    lemma_term_4(m10, m00, m02, m03, m20, m22, m23, m30, m32, m33);
    assert(m10 * m00 * m22 * m33 == m00 * m10 * m22 * m33) by (nonlinear_arith);
    assert(m10 * m00 * m23 * m32 == m00 * m10 * m23 * m32) by (nonlinear_arith);
    assert(m10 * m02 * m20 * m33 == m02 * m10 * m20 * m33) by (nonlinear_arith);
    assert(m10 * m02 * m23 * m30 == m02 * m10 * m23 * m30) by (nonlinear_arith);
    assert(m10 * m03 * m20 * m32 == m03 * m10 * m20 * m32) by (nonlinear_arith);
    assert(m10 * m03 * m22 * m30 == m03 * m10 * m22 * m30) by (nonlinear_arith);
    lemma_term_4(m20, m00, m02, m03, m10, m12, m13, m30, m32, m33);
    assert(m20 * m00 * m12 * m33 == m00 * m12 * m20 * m33) by (nonlinear_arith);
    assert(m20 * m00 * m13 * m32 == m00 * m13 * m20 * m32) by (nonlinear_arith);
    assert(m20 * m02 * m10 * m33 == m02 * m10 * m20 * m33) by (nonlinear_arith);
    assert(m20 * m02 * m13 * m30 == m02 * m13 * m20 * m30) by (nonlinear_arith);
    assert(m20 * m03 * m10 * m32 == m03 * m10 * m20 * m32) by (nonlinear_arith);
    assert(m20 * m03 * m12 * m30 == m03 * m12 * m20 * m30) by (nonlinear_arith);
    lemma_term_4(m30, m00, m02, m03, m10, m12, m13, m20, m22, m23);
    assert(m30 * m00 * m12 * m23 == m00 * m12 * m23 * m30) by (nonlinear_arith);
    assert(m30 * m00 * m13 * m22 == m00 * m13 * m22 * m30) by (nonlinear_arith);
    assert(m30 * m02 * m10 * m23 == m02 * m10 * m23 * m30) by (nonlinear_arith);
    assert(m30 * m02 * m13 * m20 == m02 * m13 * m20 * m30) by (nonlinear_arith);
    assert(m30 * m03 * m10 * m22 == m03 * m10 * m22 * m30) by (nonlinear_arith);
    assert(m30 * m03 * m12 * m20 == m03 * m12 * m20 * m30) by (nonlinear_arith);
    lemma_term_4(m11, m00, m02, m03, m20, m22, m23, m30, m32, m33);
    assert(m11 * m00 * m22 * m33 == m00 * m11 * m22 * m33) by (nonlinear_arith);
    assert(m11 * m00 * m23 * m32 == m00 * m11 * m23 * m32) by (nonlinear_arith);
    assert(m11 * m02 * m20 * m33 == m02 * m11 * m20 * m33) by (nonlinear_arith);
    assert(m11 * m02 * m23 * m30 == m02 * m11 * m23 * m30) by (nonlinear_arith);
    assert(m11 * m03 * m20 * m32 == m03 * m11 * m20 * m32) by (nonlinear_arith);
    assert(m11 * m03 * m22 * m30 == m03 * m11 * m22 * m30) by (nonlinear_arith);
    lemma_term_4(m21, m00, m02, m03, m10, m12, m13, m30, m32, m33);
    assert(m21 * m00 * m12 * m33 == m00 * m12 * m21 * m33) by (nonlinear_arith);
    assert(m21 * m00 * m13 * m32 == m00 * m13 * m21 * m32) by (nonlinear_arith);
    assert(m21 * m02 * m10 * m33 == m02 * m10 * m21 * m33) by (nonlinear_arith);
    assert(m21 * m02 * m13 * m30 == m02 * m13 * m21 * m30) by (nonlinear_arith);
    assert(m21 * m03 * m10 * m32 == m03 * m10 * m21 * m32) by (nonlinear_arith);
    assert(m21 * m03 * m12 * m30 == m03 * m12 * m21 * m30) by (nonlinear_arith);
    lemma_term_4(m31, m00, m02, m03, m10, m12, m13, m20, m22, m23);
    assert(m31 * m00 * m12 * m23 == m00 * m12 * m23 * m31) by (nonlinear_arith);
    assert(m31 * m00 * m13 * m22 == m00 * m13 * m22 * m31) by (nonlinear_arith);
    assert(m31 * m02 * m10 * m23 == m02 * m10 * m23 * m31) by (nonlinear_arith);
    assert(m31 * m02 * m13 * m20 == m02 * m13 * m20 * m31) by (nonlinear_arith);
    assert(m31 * m03 * m10 * m22 == m03 * m10 * m22 * m31) by (nonlinear_arith);
    assert(m31 * m03 * m12 * m20 == m03 * m12 * m20 * m31) by (nonlinear_arith);
    lemma_term_4(m02, m10, m12, m13, m20, m22, m23, m30, m32, m33);
    lemma_term_4(m12, m00, m02, m03, m20, m22, m23, m30, m32, m33);
    assert(m12 * m00 * m22 * m33 == m00 * m12 * m22 * m33) by (nonlinear_arith);
    assert(m12 * m00 * m23 * m32 == m00 * m12 * m23 * m32) by (nonlinear_arith);
    assert(m12 * m02 * m20 * m33 == m02 * m12 * m20 * m33) by (nonlinear_arith);
    assert(m12 * m02 * m23 * m30 == m02 * m12 * m23 * m30) by (nonlinear_arith);
    assert(m12 * m03 * m20 * m32 == m03 * m12 * m20 * m32) by (nonlinear_arith);
    assert(m12 * m03 * m22 * m30 == m03 * m12 * m22 * m30) by (nonlinear_arith);
    lemma_term_4(m22, m00, m02, m03, m10, m12, m13, m30, m32, m33);
    assert(m22 * m00 * m12 * m33 == m00 * m12 * m22 * m33) by (nonlinear_arith);
    assert(m22 * m00 * m13 * m32 == m00 * m13 * m22 * m32) by (nonlinear_arith);
    assert(m22 * m02 * m10 * m33 == m02 * m10 * m22 * m33) by (nonlinear_arith);
    assert(m22 * m02 * m13 * m30 == m02 * m13 * m22 * m30) by (nonlinear_arith);
    assert(m22 * m03 * m10 * m32 == m03 * m10 * m22 * m32) by (nonlinear_arith);
    assert(m22 * m03 * m12 * m30 == m03 * m12 * m22 * m30) by (nonlinear_arith);
    lemma_term_4(m32, m00, m02, m03, m10, m12, m13, m20, m22, m23);
    assert(m32 * m00 * m12 * m23 == m00 * m12 * m23 * m32) by (nonlinear_arith);
    assert(m32 * m00 * m13 * m22 == m00 * m13 * m22 * m32) by (nonlinear_arith);
    assert(m32 * m02 * m10 * m23 == m02 * m10 * m23 * m32) by (nonlinear_arith);
    assert(m32 * m02 * m13 * m20 == m02 * m13 * m20 * m32) by (nonlinear_arith);
    assert(m32 * m03 * m10 * m22 == m03 * m10 * m22 * m32) by (nonlinear_arith);
    assert(m32 * m03 * m12 * m20 == m03 * m12 * m20 * m32) by (nonlinear_arith);
    lemma_term_4(m03, m10, m12, m13, m20, m22, m23, m30, m32, m33);
    lemma_term_4(m13, m00, m02, m03, m20, m22, m23, m30, m32, m33);
    assert(m13 * m00 * m22 * m33 == m00 * m13 * m22 * m33) by (nonlinear_arith);
    assert(m13 * m00 * m23 * m32 == m00 * m13 * m23 * m32) by (nonlinear_arith);
    assert(m13 * m02 * m20 * m33 == m02 * m13 * m20 * m33) by (nonlinear_arith);
    assert(m13 * m02 * m23 * m30 == m02 * m13 * m23 * m30) by (nonlinear_arith);
    assert(m13 * m03 * m20 * m32 == m03 * m13 * m20 * m32) by (nonlinear_arith);
    assert(m13 * m03 * m22 * m30 == m03 * m13 * m22 * m30) by (nonlinear_arith);
    lemma_term_4(m23, m00, m02, m03, m10, m12, m13, m30, m32, m33);
    assert(m23 * m00 * m12 * m33 == m00 * m12 * m23 * m33) by (nonlinear_arith);
    assert(m23 * m00 * m13 * m32 == m00 * m13 * m23 * m32) by (nonlinear_arith);
    assert(m23 * m02 * m10 * m33 == m02 * m10 * m23 * m33) by (nonlinear_arith);
    assert(m23 * m02 * m13 * m30 == m02 * m13 * m23 * m30) by (nonlinear_arith);
    assert(m23 * m03 * m10 * m32 == m03 * m10 * m23 * m32) by (nonlinear_arith);
    assert(m23 * m03 * m12 * m30 == m03 * m12 * m23 * m30) by (nonlinear_arith);
    lemma_term_4(m33, m00, m02, m03, m10, m12, m13, m20, m22, m23);
    assert(m33 * m00 * m12 * m23 == m00 * m12 * m23 * m33) by (nonlinear_arith);
    assert(m33 * m00 * m13 * m22 == m00 * m13 * m22 * m33) by (nonlinear_arith);
    assert(m33 * m02 * m10 * m23 == m02 * m10 * m23 * m33) by (nonlinear_arith);
    assert(m33 * m02 * m13 * m20 == m02 * m13 * m20 * m33) by (nonlinear_arith);
    assert(m33 * m03 * m10 * m22 == m03 * m10 * m22 * m33) by (nonlinear_arith);
    assert(m33 * m03 * m12 * m20 == m03 * m12 * m20 * m33) by (nonlinear_arith);
}

/// Column 2 of the adjugate of a 4 by 4 matrix of integers against each
/// column of the matrix: the determinant against column 2, zero against
/// the others. Each product of an entry and a cofactor is written out as
/// a sum of products of four entries in one order; the sums then cancel
/// term by term.
pub proof fn lemma_adjugate_4_column_2(
    m00: int,
    m01: int,
    m02: int,
    m03: int,
    m10: int,
    m11: int,
    m12: int,
    m13: int,
    m20: int,
    m21: int,
    m22: int,
    m23: int,
    m30: int,
    m31: int,
    m32: int,
    m33: int,
)
    ensures
        m00 * (m10 * (m21 * m33 - m23 * m31) - m11 * (m20 * m33 - m23 * m30) + m13 * (m20 * m31
            - m21 * m30)) + m10 * (-(m00 * (m21 * m33 - m23 * m31) - m01 * (m20 * m33 - m23 *
            m30) + m03 * (m20 * m31 - m21 * m30))) + m20 * (m00 * (m11 * m33 - m13 * m31) - m01
            * (m10 * m33 - m13 * m30) + m03 * (m10 * m31 - m11 * m30)) + m30 * (-(m00 * (m11 *
            m23 - m13 * m21) - m01 * (m10 * m23 - m13 * m20) + m03 * (m10 * m21 - m11 * m20)))
            == 0,
        m01 * (m10 * (m21 * m33 - m23 * m31) - m11 * (m20 * m33 - m23 * m30) + m13 * (m20 * m31
            - m21 * m30)) + m11 * (-(m00 * (m21 * m33 - m23 * m31) - m01 * (m20 * m33 - m23 *
            m30) + m03 * (m20 * m31 - m21 * m30))) + m21 * (m00 * (m11 * m33 - m13 * m31) - m01
            * (m10 * m33 - m13 * m30) + m03 * (m10 * m31 - m11 * m30)) + m31 * (-(m00 * (m11 *
            m23 - m13 * m21) - m01 * (m10 * m23 - m13 * m20) + m03 * (m10 * m21 - m11 * m20)))
            == 0,
        m02 * (m10 * (m21 * m33 - m23 * m31) - m11 * (m20 * m33 - m23 * m30) + m13 * (m20 * m31
            - m21 * m30)) + m12 * (-(m00 * (m21 * m33 - m23 * m31) - m01 * (m20 * m33 - m23 *
            m30) + m03 * (m20 * m31 - m21 * m30))) + m22 * (m00 * (m11 * m33 - m13 * m31) - m01
            * (m10 * m33 - m13 * m30) + m03 * (m10 * m31 - m11 * m30)) + m32 * (-(m00 * (m11 *
            m23 - m13 * m21) - m01 * (m10 * m23 - m13 * m20) + m03 * (m10 * m21 - m11 * m20)))
            == m00 * (m11 * (m22 * m33 - m23 * m32) - m12 * (m21 * m33 - m23 * m31) + m13 * (m21
            * m32 - m22 * m31)) - m01 * (m10 * (m22 * m33 - m23 * m32) - m12 * (m20 * m33 - m23
            * m30) + m13 * (m20 * m32 - m22 * m30)) + m02 * (m10 * (m21 * m33 - m23 * m31) - m11
            * (m20 * m33 - m23 * m30) + m13 * (m20 * m31 - m21 * m30)) - m03 * (m10 * (m21 * m32
            - m22 * m31) - m11 * (m20 * m32 - m22 * m30) + m12 * (m20 * m31 - m21 * m30)),
        m03 * (m10 * (m21 * m33 - m23 * m31) - m11 * (m20 * m33 - m23 * m30) + m13 * (m20 * m31
            - m21 * m30)) + m13 * (-(m00 * (m21 * m33 - m23 * m31) - m01 * (m20 * m33 - m23 *
            m30) + m03 * (m20 * m31 - m21 * m30))) + m23 * (m00 * (m11 * m33 - m13 * m31) - m01
            * (m10 * m33 - m13 * m30) + m03 * (m10 * m31 - m11 * m30)) + m33 * (-(m00 * (m11 *
            m23 - m13 * m21) - m01 * (m10 * m23 - m13 * m20) + m03 * (m10 * m21 - m11 * m20)))
            == 0,
{
    lemma_term_4(m00, m11, m12, m13, m21, m22, m23, m31, m32, m33);
    lemma_term_4(m01, m10, m12, m13, m20, m22, m23, m30, m32, m33);
    lemma_term_4(m02, m10, m11, m13, m20, m21, m23, m30, m31, m33);
    lemma_term_4(m03, m10, m11, m12, m20, m21, m22, m30, m31, m32);
    lemma_term_4(m00, m10, m11, m13, m20, m21, m23, m30, m31, m33);
    lemma_term_4(m10, m00, m01, m03, m20, m21, m23, m30, m31, m33);
    assert(m10 * m00 * m21 * m33 == m00 * m10 * m21 * m33) by (nonlinear_arith);
    assert(m10 * m00 * m23 * m31 == m00 * m10 * m23 * m31) by (nonlinear_arith);
    assert(m10 * m01 * m20 * m33 == m01 * m10 * m20 * m33) by (nonlinear_arith);
    assert(m10 * m01 * m23 * m30 == m01 * m10 * m23 * m30) by (nonlinear_arith);
    assert(m10 * m03 * m20 * m31 == m03 * m10 * m20 * m31) by (nonlinear_arith);
    assert(m10 * m03 * m21 * m30 == m03 * m10 * m21 * m30) by (nonlinear_arith);
    lemma_term_4(m20, m00, m01, m03, m10, m11, m13, m30, m31, m33);
    assert(m20 * m00 * m11 * m33 == m00 * m11 * m20 * m33) by (nonlinear_arith);
    assert(m20 * m00 * m13 * m31 == m00 * m13 * m20 * m31) by (nonlinear_arith);
    assert(m20 * m01 * m10 * m33 == m01 * m10 * m20 * m33) by (nonlinear_arith);
    assert(m20 * m01 * m13 * m30 == m01 * m13 * m20 * m30) by (nonlinear_arith);
    assert(m20 * m03 * m10 * m31 == m03 * m10 * m20 * m31) by (nonlinear_arith);
    assert(m20 * m03 * m11 * m30 == m03 * m11 * m20 * m30) by (nonlinear_arith);
    lemma_term_4(m30, m00, m01, m03, m10, m11, m13, m20, m21, m23);
    assert(m30 * m00 * m11 * m23 == m00 * m11 * m23 * m30) by (nonlinear_arith);
    assert(m30 * m00 * m13 * m21 == m00 * m13 * m21 * m30) by (nonlinear_arith);
    assert(m30 * m01 * m10 * m23 == m01 * m10 * m23 * m30) by (nonlinear_arith);
    assert(m30 * m01 * m13 * m20 == m01 * m13 * m20 * m30) by (nonlinear_arith);
    assert(m30 * m03 * m10 * m21 == m03 * m10 * m21 * m30) by (nonlinear_arith);
    assert(m30 * m03 * m11 * m20 == m03 * m11 * m20 * m30) by (nonlinear_arith);
    lemma_term_4(m01, m10, m11, m13, m20, m21, m23, m30, m31, m33);
    lemma_term_4(m11, m00, m01, m03, m20, m21, m23, m30, m31, m33);
    assert(m11 * m00 * m21 * m33 == m00 * m11 * m21 * m33) by (nonlinear_arith);
    assert(m11 * m00 * m23 * m31 == m00 * m11 * m23 * m31) by (nonlinear_arith);
    assert(m11 * m01 * m20 * m33 == m01 * m11 * m20 * m33) by (nonlinear_arith);
    assert(m11 * m01 * m23 * m30 == m01 * m11 * m23 * m30) by (nonlinear_arith);
    assert(m11 * m03 * m20 * m31 == m03 * m11 * m20 * m31) by (nonlinear_arith);
    assert(m11 * m03 * m21 * m30 == m03 * m11 * m21 * m30) by (nonlinear_arith);
    lemma_term_4(m21, m00, m01, m03, m10, m11, m13, m30, m31, m33);
    assert(m21 * m00 * m11 * m33 == m00 * m11 * m21 * m33) by (nonlinear_arith);
    assert(m21 * m00 * m13 * m31 == m00 * m13 * m21 * m31) by (nonlinear_arith);
    assert(m21 * m01 * m10 * m33 == m01 * m10 * m21 * m33) by (nonlinear_arith);
    assert(m21 * m01 * m13 * m30 == m01 * m13 * m21 * m30) by (nonlinear_arith);
    assert(m21 * m03 * m10 * m31 == m03 * m10 * m21 * m31) by (nonlinear_arith);
    assert(m21 * m03 * m11 * m30 == m03 * m11 * m21 * m30) by (nonlinear_arith);
    lemma_term_4(m31, m00, m01, m03, m10, m11, m13, m20, m21, m23);
    assert(m31 * m00 * m11 * m23 == m00 * m11 * m23 * m31) by (nonlinear_arith);
    assert(m31 * m00 * m13 * m21 == m00 * m13 * m21 * m31) by (nonlinear_arith);
    assert(m31 * m01 * m10 * m23 == m01 * m10 * m23 * m31) by (nonlinear_arith);
    assert(m31 * m01 * m13 * m20 == m01 * m13 * m20 * m31) by (nonlinear_arith);
    assert(m31 * m03 * m10 * m21 == m03 * m10 * m21 * m31) by (nonlinear_arith);
    assert(m31 * m03 * m11 * m20 == m03 * m11 * m20 * m31) by (nonlinear_arith);
    lemma_term_4(m12, m00, m01, m03, m20, m21, m23, m30, m31, m33);
    assert(m12 * m00 * m21 * m33 == m00 * m12 * m21 * m33) by (nonlinear_arith);
    assert(m12 * m00 * m23 * m31 == m00 * m12 * m23 * m31) by (nonlinear_arith);
    assert(m12 * m01 * m20 * m33 == m01 * m12 * m20 * m33) by (nonlinear_arith);
    assert(m12 * m01 * m23 * m30 == m01 * m12 * m23 * m30) by (nonlinear_arith);
    assert(m12 * m03 * m20 * m31 == m03 * m12 * m20 * m31) by (nonlinear_arith);
    assert(m12 * m03 * m21 * m30 == m03 * m12 * m21 * m30) by (nonlinear_arith);
    lemma_term_4(m22, m00, m01, m03, m10, m11, m13, m30, m31, m33);
    assert(m22 * m00 * m11 * m33 == m00 * m11 * m22 * m33) by (nonlinear_arith);
    assert(m22 * m00 * m13 * m31 == m00 * m13 * m22 * m31) by (nonlinear_arith);
    assert(m22 * m01 * m10 * m33 == m01 * m10 * m22 * m33) by (nonlinear_arith);
    assert(m22 * m01 * m13 * m30 == m01 * m13 * m22 * m30) by (nonlinear_arith);
    assert(m22 * m03 * m10 * m31 == m03 * m10 * m22 * m31) by (nonlinear_arith);
    assert(m22 * m03 * m11 * m30 == m03 * m11 * m22 * m30) by (nonlinear_arith);
    lemma_term_4(m32, m00, m01, m03, m10, m11, m13, m20, m21, m23);
    assert(m32 * m00 * m11 * m23 == m00 * m11 * m23 * m32) by (nonlinear_arith);
    assert(m32 * m00 * m13 * m21 == m00 * m13 * m21 * m32) by (nonlinear_arith);
    assert(m32 * m01 * m10 * m23 == m01 * m10 * m23 * m32) by (nonlinear_arith);
    assert(m32 * m01 * m13 * m20 == m01 * m13 * m20 * m32) by (nonlinear_arith);
    assert(m32 * m03 * m10 * m21 == m03 * m10 * m21 * m32) by (nonlinear_arith);
    assert(m32 * m03 * m11 * m20 == m03 * m11 * m20 * m32) by (nonlinear_arith);
    lemma_term_4(m03, m10, m11, m13, m20, m21, m23, m30, m31, m33);
    lemma_term_4(m13, m00, m01, m03, m20, m21, m23, m30, m31, m33);
    assert(m13 * m00 * m21 * m33 == m00 * m13 * m21 * m33) by (nonlinear_arith);
    assert(m13 * m00 * m23 * m31 == m00 * m13 * m23 * m31) by (nonlinear_arith);
    assert(m13 * m01 * m20 * m33 == m01 * m13 * m20 * m33) by (nonlinear_arith);
    assert(m13 * m01 * m23 * m30 == m01 * m13 * m23 * m30) by (nonlinear_arith);
    assert(m13 * m03 * m20 * m31 == m03 * m13 * m20 * m31) by (nonlinear_arith);
    assert(m13 * m03 * m21 * m30 == m03 * m13 * m21 * m30) by (nonlinear_arith);
    lemma_term_4(m23, m00, m01, m03, m10, m11, m13, m30, m31, m33);
    assert(m23 * m00 * m11 * m33 == m00 * m11 * m23 * m33) by (nonlinear_arith);
    assert(m23 * m00 * m13 * m31 == m00 * m13 * m23 * m31) by (nonlinear_arith);
    assert(m23 * m01 * m10 * m33 == m01 * m10 * m23 * m33) by (nonlinear_arith);
    assert(m23 * m01 * m13 * m30 == m01 * m13 * m23 * m30) by (nonlinear_arith);
    assert(m23 * m03 * m10 * m31 == m03 * m10 * m23 * m31) by (nonlinear_arith);
    assert(m23 * m03 * m11 * m30 == m03 * m11 * m23 * m30) by (nonlinear_arith);
    lemma_term_4(m33, m00, m01, m03, m10, m11, m13, m20, m21, m23);
    assert(m33 * m00 * m11 * m23 == m00 * m11 * m23 * m33) by (nonlinear_arith);
    assert(m33 * m00 * m13 * m21 == m00 * m13 * m21 * m33) by (nonlinear_arith);
    assert(m33 * m01 * m10 * m23 == m01 * m10 * m23 * m33) by (nonlinear_arith);
    assert(m33 * m01 * m13 * m20 == m01 * m13 * m20 * m33) by (nonlinear_arith);
    assert(m33 * m03 * m10 * m21 == m03 * m10 * m21 * m33) by (nonlinear_arith);
    assert(m33 * m03 * m11 * m20 == m03 * m11 * m20 * m33) by (nonlinear_arith);
}

/// Column 3 of the adjugate of a 4 by 4 matrix of integers against each
/// column of the matrix: the determinant against column 3, zero against
/// the others. Each product of an entry and a cofactor is written out as
/// a sum of products of four entries in one order; the sums then cancel
/// term by term.
pub proof fn lemma_adjugate_4_column_3(
    m00: int,
    m01: int,
    m02: int,
    m03: int,
    m10: int,
    m11: int,
    m12: int,
    m13: int,
    m20: int,
    m21: int,
    m22: int,
    m23: int,
    m30: int,
    m31: int,
    m32: int,
    m33: int,
)
    ensures
        m00 * (-(m10 * (m21 * m32 - m22 * m31) - m11 * (m20 * m32 - m22 * m30) + m12 * (m20 *
            m31 - m21 * m30))) + m10 * (m00 * (m21 * m32 - m22 * m31) - m01 * (m20 * m32 - m22 *
            m30) + m02 * (m20 * m31 - m21 * m30)) + m20 * (-(m00 * (m11 * m32 - m12 * m31) - m01
            * (m10 * m32 - m12 * m30) + m02 * (m10 * m31 - m11 * m30))) + m30 * (m00 * (m11 *
            m22 - m12 * m21) - m01 * (m10 * m22 - m12 * m20) + m02 * (m10 * m21 - m11 * m20)) ==
            0,
        m01 * (-(m10 * (m21 * m32 - m22 * m31) - m11 * (m20 * m32 - m22 * m30) + m12 * (m20 *
            m31 - m21 * m30))) + m11 * (m00 * (m21 * m32 - m22 * m31) - m01 * (m20 * m32 - m22 *
            m30) + m02 * (m20 * m31 - m21 * m30)) + m21 * (-(m00 * (m11 * m32 - m12 * m31) - m01
            * (m10 * m32 - m12 * m30) + m02 * (m10 * m31 - m11 * m30))) + m31 * (m00 * (m11 *
            m22 - m12 * m21) - m01 * (m10 * m22 - m12 * m20) + m02 * (m10 * m21 - m11 * m20)) ==
            0,
        m02 * (-(m10 * (m21 * m32 - m22 * m31) - m11 * (m20 * m32 - m22 * m30) + m12 * (m20 *
            m31 - m21 * m30))) + m12 * (m00 * (m21 * m32 - m22 * m31) - m01 * (m20 * m32 - m22 *
            m30) + m02 * (m20 * m31 - m21 * m30)) + m22 * (-(m00 * (m11 * m32 - m12 * m31) - m01
            * (m10 * m32 - m12 * m30) + m02 * (m10 * m31 - m11 * m30))) + m32 * (m00 * (m11 *
            m22 - m12 * m21) - m01 * (m10 * m22 - m12 * m20) + m02 * (m10 * m21 - m11 * m20)) ==
            0,
        m03 * (-(m10 * (m21 * m32 - m22 * m31) - m11 * (m20 * m32 - m22 * m30) + m12 * (m20 *
            m31 - m21 * m30))) + m13 * (m00 * (m21 * m32 - m22 * m31) - m01 * (m20 * m32 - m22 *
            m30) + m02 * (m20 * m31 - m21 * m30)) + m23 * (-(m00 * (m11 * m32 - m12 * m31) - m01
            * (m10 * m32 - m12 * m30) + m02 * (m10 * m31 - m11 * m30))) + m33 * (m00 * (m11 *
            m22 - m12 * m21) - m01 * (m10 * m22 - m12 * m20) + m02 * (m10 * m21 - m11 * m20)) ==
            m00 * (m11 * (m22 * m33 - m23 * m32) - m12 * (m21 * m33 - m23 * m31) + m13 * (m21 *
            m32 - m22 * m31)) - m01 * (m10 * (m22 * m33 - m23 * m32) - m12 * (m20 * m33 - m23 *
            m30) + m13 * (m20 * m32 - m22 * m30)) + m02 * (m10 * (m21 * m33 - m23 * m31) - m11 *
            (m20 * m33 - m23 * m30) + m13 * (m20 * m31 - m21 * m30)) - m03 * (m10 * (m21 * m32 -
            m22 * m31) - m11 * (m20 * m32 - m22 * m30) + m12 * (m20 * m31 - m21 * m30)),
{
    lemma_term_4(m00, m11, m12, m13, m21, m22, m23, m31, m32, m33);
    lemma_term_4(m01, m10, m12, m13, m20, m22, m23, m30, m32, m33);
    lemma_term_4(m02, m10, m11, m13, m20, m21, m23, m30, m31, m33);
    lemma_term_4(m03, m10, m11, m12, m20, m21, m22, m30, m31, m32);
    lemma_term_4(m00, m10, m11, m12, m20, m21, m22, m30, m31, m32);
    lemma_term_4(m10, m00, m01, m02, m20, m21, m22, m30, m31, m32);
    assert(m10 * m00 * m21 * m32 == m00 * m10 * m21 * m32) by (nonlinear_arith);
    assert(m10 * m00 * m22 * m31 == m00 * m10 * m22 * m31) by (nonlinear_arith);
    assert(m10 * m01 * m20 * m32 == m01 * m10 * m20 * m32) by (nonlinear_arith);
    assert(m10 * m01 * m22 * m30 == m01 * m10 * m22 * m30) by (nonlinear_arith);
    assert(m10 * m02 * m20 * m31 == m02 * m10 * m20 * m31) by (nonlinear_arith);
    assert(m10 * m02 * m21 * m30 == m02 * m10 * m21 * m30) by (nonlinear_arith);
    lemma_term_4(m20, m00, m01, m02, m10, m11, m12, m30, m31, m32);
    assert(m20 * m00 * m11 * m32 == m00 * m11 * m20 * m32) by (nonlinear_arith);
    assert(m20 * m00 * m12 * m31 == m00 * m12 * m20 * m31) by (nonlinear_arith);
    assert(m20 * m01 * m10 * m32 == m01 * m10 * m20 * m32) by (nonlinear_arith);
    assert(m20 * m01 * m12 * m30 == m01 * m12 * m20 * m30) by (nonlinear_arith);
    assert(m20 * m02 * m10 * m31 == m02 * m10 * m20 * m31) by (nonlinear_arith);
    assert(m20 * m02 * m11 * m30 == m02 * m11 * m20 * m30) by (nonlinear_arith);
    lemma_term_4(m30, m00, m01, m02, m10, m11, m12, m20, m21, m22);
    assert(m30 * m00 * m11 * m22 == m00 * m11 * m22 * m30) by (nonlinear_arith);
    assert(m30 * m00 * m12 * m21 == m00 * m12 * m21 * m30) by (nonlinear_arith);
    assert(m30 * m01 * m10 * m22 == m01 * m10 * m22 * m30) by (nonlinear_arith);
    assert(m30 * m01 * m12 * m20 == m01 * m12 * m20 * m30) by (nonlinear_arith);
    assert(m30 * m02 * m10 * m21 == m02 * m10 * m21 * m30) by (nonlinear_arith);
    assert(m30 * m02 * m11 * m20 == m02 * m11 * m20 * m30) by (nonlinear_arith);
    lemma_term_4(m01, m10, m11, m12, m20, m21, m22, m30, m31, m32);
    lemma_term_4(m11, m00, m01, m02, m20, m21, m22, m30, m31, m32);
    assert(m11 * m00 * m21 * m32 == m00 * m11 * m21 * m32) by (nonlinear_arith);
    assert(m11 * m00 * m22 * m31 == m00 * m11 * m22 * m31) by (nonlinear_arith);
    assert(m11 * m01 * m20 * m32 == m01 * m11 * m20 * m32) by (nonlinear_arith);
    assert(m11 * m01 * m22 * m30 == m01 * m11 * m22 * m30) by (nonlinear_arith);
    assert(m11 * m02 * m20 * m31 == m02 * m11 * m20 * m31) by (nonlinear_arith);
    assert(m11 * m02 * m21 * m30 == m02 * m11 * m21 * m30) by (nonlinear_arith);
    lemma_term_4(m21, m00, m01, m02, m10, m11, m12, m30, m31, m32);
    assert(m21 * m00 * m11 * m32 == m00 * m11 * m21 * m32) by (nonlinear_arith);
    assert(m21 * m00 * m12 * m31 == m00 * m12 * m21 * m31) by (nonlinear_arith);
    assert(m21 * m01 * m10 * m32 == m01 * m10 * m21 * m32) by (nonlinear_arith);
    assert(m21 * m01 * m12 * m30 == m01 * m12 * m21 * m30) by (nonlinear_arith);
    assert(m21 * m02 * m10 * m31 == m02 * m10 * m21 * m31) by (nonlinear_arith);
    assert(m21 * m02 * m11 * m30 == m02 * m11 * m21 * m30) by (nonlinear_arith);
    lemma_term_4(m31, m00, m01, m02, m10, m11, m12, m20, m21, m22);
    assert(m31 * m00 * m11 * m22 == m00 * m11 * m22 * m31) by (nonlinear_arith);
    assert(m31 * m00 * m12 * m21 == m00 * m12 * m21 * m31) by (nonlinear_arith);
    assert(m31 * m01 * m10 * m22 == m01 * m10 * m22 * m31) by (nonlinear_arith);
    assert(m31 * m01 * m12 * m20 == m01 * m12 * m20 * m31) by (nonlinear_arith);
    assert(m31 * m02 * m10 * m21 == m02 * m10 * m21 * m31) by (nonlinear_arith);
    assert(m31 * m02 * m11 * m20 == m02 * m11 * m20 * m31) by (nonlinear_arith);
    lemma_term_4(m02, m10, m11, m12, m20, m21, m22, m30, m31, m32);
    lemma_term_4(m12, m00, m01, m02, m20, m21, m22, m30, m31, m32);
    assert(m12 * m00 * m21 * m32 == m00 * m12 * m21 * m32) by (nonlinear_arith);
    assert(m12 * m00 * m22 * m31 == m00 * m12 * m22 * m31) by (nonlinear_arith);
    assert(m12 * m01 * m20 * m32 == m01 * m12 * m20 * m32) by (nonlinear_arith);
    assert(m12 * m01 * m22 * m30 == m01 * m12 * m22 * m30) by (nonlinear_arith);
    assert(m12 * m02 * m20 * m31 == m02 * m12 * m20 * m31) by (nonlinear_arith);
    assert(m12 * m02 * m21 * m30 == m02 * m12 * m21 * m30) by (nonlinear_arith);
    lemma_term_4(m22, m00, m01, m02, m10, m11, m12, m30, m31, m32);
    assert(m22 * m00 * m11 * m32 == m00 * m11 * m22 * m32) by (nonlinear_arith);
    assert(m22 * m00 * m12 * m31 == m00 * m12 * m22 * m31) by (nonlinear_arith);
    assert(m22 * m01 * m10 * m32 == m01 * m10 * m22 * m32) by (nonlinear_arith);
    assert(m22 * m01 * m12 * m30 == m01 * m12 * m22 * m30) by (nonlinear_arith);
    assert(m22 * m02 * m10 * m31 == m02 * m10 * m22 * m31) by (nonlinear_arith);
    assert(m22 * m02 * m11 * m30 == m02 * m11 * m22 * m30) by (nonlinear_arith);
    lemma_term_4(m32, m00, m01, m02, m10, m11, m12, m20, m21, m22);
    assert(m32 * m00 * m11 * m22 == m00 * m11 * m22 * m32) by (nonlinear_arith);
    assert(m32 * m00 * m12 * m21 == m00 * m12 * m21 * m32) by (nonlinear_arith);
    assert(m32 * m01 * m10 * m22 == m01 * m10 * m22 * m32) by (nonlinear_arith);
    assert(m32 * m01 * m12 * m20 == m01 * m12 * m20 * m32) by (nonlinear_arith);
    assert(m32 * m02 * m10 * m21 == m02 * m10 * m21 * m32) by (nonlinear_arith);
    assert(m32 * m02 * m11 * m20 == m02 * m11 * m20 * m32) by (nonlinear_arith);
    lemma_term_4(m13, m00, m01, m02, m20, m21, m22, m30, m31, m32);
    assert(m13 * m00 * m21 * m32 == m00 * m13 * m21 * m32) by (nonlinear_arith);
    assert(m13 * m00 * m22 * m31 == m00 * m13 * m22 * m31) by (nonlinear_arith);
    assert(m13 * m01 * m20 * m32 == m01 * m13 * m20 * m32) by (nonlinear_arith);
    assert(m13 * m01 * m22 * m30 == m01 * m13 * m22 * m30) by (nonlinear_arith);
    assert(m13 * m02 * m20 * m31 == m02 * m13 * m20 * m31) by (nonlinear_arith);
    assert(m13 * m02 * m21 * m30 == m02 * m13 * m21 * m30) by (nonlinear_arith);
    lemma_term_4(m23, m00, m01, m02, m10, m11, m12, m30, m31, m32);
    assert(m23 * m00 * m11 * m32 == m00 * m11 * m23 * m32) by (nonlinear_arith);
    assert(m23 * m00 * m12 * m31 == m00 * m12 * m23 * m31) by (nonlinear_arith);
    assert(m23 * m01 * m10 * m32 == m01 * m10 * m23 * m32) by (nonlinear_arith);
    assert(m23 * m01 * m12 * m30 == m01 * m12 * m23 * m30) by (nonlinear_arith);
    assert(m23 * m02 * m10 * m31 == m02 * m10 * m23 * m31) by (nonlinear_arith);
    assert(m23 * m02 * m11 * m30 == m02 * m11 * m23 * m30) by (nonlinear_arith);
    lemma_term_4(m33, m00, m01, m02, m10, m11, m12, m20, m21, m22);
    assert(m33 * m00 * m11 * m22 == m00 * m11 * m22 * m33) by (nonlinear_arith);
    assert(m33 * m00 * m12 * m21 == m00 * m12 * m21 * m33) by (nonlinear_arith);
    assert(m33 * m01 * m10 * m22 == m01 * m10 * m22 * m33) by (nonlinear_arith);
    assert(m33 * m01 * m12 * m20 == m01 * m12 * m20 * m33) by (nonlinear_arith);
    assert(m33 * m02 * m10 * m21 == m02 * m10 * m21 * m33) by (nonlinear_arith);
    assert(m33 * m02 * m11 * m20 == m02 * m11 * m20 * m33) by (nonlinear_arith);
}

} // verus!
