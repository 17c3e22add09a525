use crate::matrix::Matrix;
use crate::scalar::{zero, Scalar};
use vstd::prelude::*;

verus! {

/// A point or a direction in space, in homogeneous coordinates: the last
/// entry is one for a point and zero for a direction.
pub type Point<T> = Matrix<T, 1, 4>;

/// A position on the screen, in pixels.
pub type Point2D<T> = Matrix<T, 1, 2>;

/// The first three coordinates of `p`.
pub open spec fn xyz<T: Scalar>(p: Point<T>) -> Matrix<T, 1, 3> {
    Matrix([[p.at(0, 0), p.at(0, 1), p.at(0, 2)]])
}

/// `a` minus `b`, coordinate by coordinate.
pub open spec fn minus<T: Scalar>(a: Matrix<T, 1, 3>, b: Matrix<T, 1, 3>) -> Matrix<T, 1, 3> {
    Matrix(
        [
            [
                a.at(0, 0).sub_spec(b.at(0, 0)),
                a.at(0, 1).sub_spec(b.at(0, 1)),
                a.at(0, 2).sub_spec(b.at(0, 2)),
            ],
        ],
    )
}

/// The cross product `a` x `b`.
pub open spec fn cross<T: Scalar>(a: Matrix<T, 1, 3>, b: Matrix<T, 1, 3>) -> Matrix<T, 1, 3> {
    Matrix(
        [
            [
                a.at(0, 1).mul_spec(b.at(0, 2)).sub_spec(a.at(0, 2).mul_spec(b.at(0, 1))),
                a.at(0, 2).mul_spec(b.at(0, 0)).sub_spec(a.at(0, 0).mul_spec(b.at(0, 2))),
                a.at(0, 0).mul_spec(b.at(0, 1)).sub_spec(a.at(0, 1).mul_spec(b.at(0, 0))),
            ],
        ],
    )
}

/// The inner product of `a` and `b`: the products of their coordinates,
/// added up from zero in order.
pub open spec fn inner<T: Scalar>(a: Matrix<T, 1, 3>, b: Matrix<T, 1, 3>) -> T {
    zero::<T>().add_spec(b.at(0, 0).mul_spec(a.at(0, 0))).add_spec(
        b.at(0, 1).mul_spec(a.at(0, 1)),
    ).add_spec(b.at(0, 2).mul_spec(a.at(0, 2)))
}

/// The length of `a`: the square root of its inner product with itself.
pub open spec fn length<T: Scalar>(a: Matrix<T, 1, 3>) -> T {
    inner(a, a).sqrt_spec()
}

/// `a` with every coordinate divided by the length of `a`.
pub open spec fn normalized<T: Scalar>(a: Matrix<T, 1, 3>) -> Matrix<T, 1, 3> {
    Matrix(
        [
            [
                a.at(0, 0).div_spec(length(a)),
                a.at(0, 1).div_spec(length(a)),
                a.at(0, 2).div_spec(length(a)),
            ],
        ],
    )
}

/// `a` plus `b`, coordinate by coordinate.
pub open spec fn plus4<T: Scalar>(a: Point<T>, b: Point<T>) -> Point<T> {
    Matrix(
        [
            [
                a.at(0, 0).add_spec(b.at(0, 0)),
                a.at(0, 1).add_spec(b.at(0, 1)),
                a.at(0, 2).add_spec(b.at(0, 2)),
                a.at(0, 3).add_spec(b.at(0, 3)),
            ],
        ],
    )
}

/// `a` minus `b`, coordinate by coordinate.
pub open spec fn minus4<T: Scalar>(a: Point<T>, b: Point<T>) -> Point<T> {
    Matrix(
        [
            [
                a.at(0, 0).sub_spec(b.at(0, 0)),
                a.at(0, 1).sub_spec(b.at(0, 1)),
                a.at(0, 2).sub_spec(b.at(0, 2)),
                a.at(0, 3).sub_spec(b.at(0, 3)),
            ],
        ],
    )
}

/// Every coordinate of `a` times `k`.
pub open spec fn times4<T: Scalar>(a: Point<T>, k: T) -> Point<T> {
    Matrix(
        [
            [
                a.at(0, 0).mul_spec(k),
                a.at(0, 1).mul_spec(k),
                a.at(0, 2).mul_spec(k),
                a.at(0, 3).mul_spec(k),
            ],
        ],
    )
}

/// Every coordinate of `a` divided by `k`.
pub open spec fn over4<T: Scalar>(a: Point<T>, k: T) -> Point<T> {
    Matrix(
        [
            [
                a.at(0, 0).div_spec(k),
                a.at(0, 1).div_spec(k),
                a.at(0, 2).div_spec(k),
                a.at(0, 3).div_spec(k),
            ],
        ],
    )
}

/// The inner product of `a` and `b` over all four coordinates, added up
/// from zero in order.
pub open spec fn inner4<T: Scalar>(a: Point<T>, b: Point<T>) -> T {
    zero::<T>().add_spec(b.at(0, 0).mul_spec(a.at(0, 0))).add_spec(
        b.at(0, 1).mul_spec(a.at(0, 1)),
    ).add_spec(b.at(0, 2).mul_spec(a.at(0, 2))).add_spec(b.at(0, 3).mul_spec(a.at(0, 3)))
}

impl<T: Scalar> Matrix<T, 1, 4> {
    /// The first three coordinates.
    pub fn xyz(&self) -> (r: Matrix<T, 1, 3>)
        ensures
            r == xyz(*self),
    {
        Matrix([[self.x(), self.y(), self.z()]])
    }

    /// `self` plus `other`, coordinate by coordinate.
    pub fn plus(self, other: Self) -> (r: Self)
        ensures
            r == plus4(self, other),
    {
        let r = self.add(other);
        proof {
            r.lemma_equal_by_entries(plus4(self, other));
        }
        r
    }

    /// `self` minus `other`, coordinate by coordinate.
    pub fn minus(self, other: Self) -> (r: Self)
        ensures
            r == minus4(self, other),
    {
        let r = self.sub(other);
        proof {
            r.lemma_equal_by_entries(minus4(self, other));
        }
        r
    }

    /// Every coordinate times `k`.
    pub fn times(self, k: T) -> (r: Self)
        ensures
            r == times4(self, k),
    {
        let r = self.mul_scalar(k);
        proof {
            r.lemma_equal_by_entries(times4(self, k));
        }
        r
    }

    /// Every coordinate divided by `k`.
    pub fn over(self, k: T) -> (r: Self)
        ensures
            r == over4(self, k),
    {
        let r = self.div_scalar(k);
        proof {
            r.lemma_equal_by_entries(over4(self, k));
        }
        r
    }

    /// The inner product over all four coordinates: the matrix product of
    /// `self` with `other` stood on end.
    pub fn inner(self, other: Self) -> (r: T)
        ensures
            r == inner4(self, other),
    {
        let column = other.transpose();
        proof {
            reveal_with_fuel(Matrix::dot_sum, 5);
        }
        self.dot(column).x()
    }
}

impl<T: Scalar> Matrix<T, 1, 3> {
    /// `self` minus `other`, coordinate by coordinate.
    pub fn minus(self, other: Self) -> (r: Self)
        ensures
            r == minus(self, other),
    {
        let r = self.sub(other);
        proof {
            r.lemma_equal_by_entries(minus(self, other));
        }
        r
    }

    /// The cross product `self` x `other`.
    pub fn cross(self, other: Self) -> (r: Self)
        ensures
            r == cross(self, other),
    {
        Matrix(
            [
                [
                    self.y().mul(other.z()).sub(self.z().mul(other.y())),
                    self.z().mul(other.x()).sub(self.x().mul(other.z())),
                    self.x().mul(other.y()).sub(self.y().mul(other.x())),
                ],
            ],
        )
    }

    /// The inner product: the matrix product of `self` with `other` stood
    /// on end.
    pub fn inner(self, other: Self) -> (r: T)
        ensures
            r == inner(self, other),
    {
        let column = other.transpose();
        proof {
            reveal_with_fuel(Matrix::dot_sum, 4);
        }
        self.dot(column).x()
    }

    /// The vector scaled to length one. The zero vector is not an error: its
    /// coordinates are whatever the number type gives for zero divided by
    /// zero.
    pub fn normalize(self) -> (r: Self)
        ensures
            r == normalized(self),
    {
        let len = self.inner(self).sqrt();
        let r = self.div_scalar(len);
        proof {
            r.lemma_equal_by_entries(normalized(self));
        }
        r
    }
}

} // verus!
